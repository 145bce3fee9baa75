//! The handler layer's wire-shaped types: request and response records and
//! the HTTP-shaped `ApiError` every use-case error translates into.

pub mod dto;
pub mod error;
