//! The repository layer: the persistence error taxonomy, the trait-shaped
//! contracts the use cases depend on, and a verified in-memory
//! implementation usable as a test double.

pub mod contract;
pub mod error;
pub mod memory;
