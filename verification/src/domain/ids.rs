//! Opaque identifiers. Each aggregate gets its own identifier type; they are
//! not interchangeable.

use vstd::prelude::*;

use crate::ext::{uuid_eq, uuid_new_v4};
use uuid::Uuid;

verus! {

/// Identifier of an endpoint aggregate. Wraps a UUID.
#[derive(Debug, Clone, Copy, PartialEq, Eq, Hash)]
pub struct EndpointId(Uuid);

impl View for EndpointId {
    type V = Uuid;

    closed spec fn view(&self) -> Uuid {
        self.0
    }
}

impl EndpointId {
    /// Mint a fresh random identifier.
    pub fn new() -> Self {
        EndpointId(uuid_new_v4())
    }

    /// Adopt an existing UUID from a trusted source (e.g. persistence).
    pub fn from_uuid(uuid: Uuid) -> (r: Self)
        ensures
            r@ == uuid,
    {
        EndpointId(uuid)
    }

    /// Read the underlying UUID.
    pub fn as_uuid(&self) -> (r: &Uuid)
        ensures
            *r == self@,
    {
        &self.0
    }

    /// Consume and return the underlying UUID.
    pub fn into_uuid(self) -> (r: Uuid)
        ensures
            r == self@,
    {
        self.0
    }

    /// Whether two identifiers hold the same UUID.
    pub fn same_as(&self, other: &EndpointId) -> (r: bool)
        ensures
            r == (self@ == other@),
    {
        uuid_eq(&self.0, &other.0)
    }
}

/// Identifier of a forwarding-session aggregate. Wraps a UUID.
#[derive(Debug, Clone, Copy, PartialEq, Eq, Hash)]
pub struct SessionId(Uuid);

impl View for SessionId {
    type V = Uuid;

    closed spec fn view(&self) -> Uuid {
        self.0
    }
}

impl SessionId {
    /// Mint a fresh random identifier.
    pub fn new() -> Self {
        SessionId(uuid_new_v4())
    }

    /// Adopt an existing UUID from a trusted source (e.g. persistence).
    pub fn from_uuid(uuid: Uuid) -> (r: Self)
        ensures
            r@ == uuid,
    {
        SessionId(uuid)
    }

    /// Read the underlying UUID.
    pub fn as_uuid(&self) -> (r: &Uuid)
        ensures
            *r == self@,
    {
        &self.0
    }

    /// Consume and return the underlying UUID.
    pub fn into_uuid(self) -> (r: Uuid)
        ensures
            r == self@,
    {
        self.0
    }

    /// Whether two identifiers hold the same UUID.
    pub fn same_as(&self, other: &SessionId) -> (r: bool)
        ensures
            r == (self@ == other@),
    {
        uuid_eq(&self.0, &other.0)
    }
}

} // verus!
