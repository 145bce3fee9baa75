//! A layered ("clean") architecture core for HTTP-fronted CRUD services:
//! domain value objects and entities, repository contracts, use cases, and
//! the typed error-propagation chain from the domain out to the wire.

pub mod api;
pub mod domain;
pub mod ext;
pub mod repo;
pub mod text;
pub mod usecase;
