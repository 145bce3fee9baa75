//! The domain layer: pure data and validation. Value objects, entities, and
//! the closed `DomainError` taxonomy. No I/O and no awareness of persistence
//! or transport.

pub mod endpoint;
pub mod error;
pub mod ids;
pub mod session;
pub mod status;
pub mod subscription;
pub mod values;
