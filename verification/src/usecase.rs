//! The use-case layer: one business operation per type, plain input and
//! output records, and the closed `UsecaseError` taxonomy that the handler
//! layer translates to the wire.

pub mod create_endpoint;
pub mod error;
pub mod get_endpoint;
pub mod heartbeat;
