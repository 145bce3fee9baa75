//! The forwarding-session aggregate the background sweeper maintains.
//! Timestamps are unix milliseconds; `updated_at` never decreases across
//! in-process mutations.

use vstd::prelude::*;

use crate::domain::error::{DomainError, DomainErrorV};
use crate::domain::ids::SessionId;
use crate::domain::status::{valid_transition, SessionStatus};
use crate::ext::now_millis;
use uuid::Uuid;

verus! {

/// The mathematical shape of a forwarding session.
pub struct SessionV {
    pub id: Uuid,
    pub status: SessionStatus,
    pub last_heartbeat_at: i64,
    pub updated_at: i64,
}

/// A live forwarding session with its heartbeat bookkeeping.
#[derive(Debug)]
pub struct ForwardingSession {
    id: SessionId,
    status: SessionStatus,
    last_heartbeat_at: i64,
    updated_at: i64,
}

impl View for ForwardingSession {
    type V = SessionV;

    closed spec fn view(&self) -> SessionV {
        SessionV {
            id: self.id@,
            status: self.status,
            last_heartbeat_at: self.last_heartbeat_at,
            updated_at: self.updated_at,
        }
    }
}

impl Clone for ForwardingSession {
    fn clone(&self) -> (r: Self)
        ensures
            r@ == self@,
    {
        ForwardingSession {
            id: self.id,
            status: self.status,
            last_heartbeat_at: self.last_heartbeat_at,
            updated_at: self.updated_at,
        }
    }
}

impl ForwardingSession {
    /// Reconstruct from existing data (e.g. from the database); adopted
    /// without validation.
    pub fn from_existing(
        id: SessionId,
        status: SessionStatus,
        last_heartbeat_at: i64,
        updated_at: i64,
    ) -> (r: ForwardingSession)
        ensures
            r@ == (SessionV { id: id@, status, last_heartbeat_at, updated_at }),
    {
        ForwardingSession { id, status, last_heartbeat_at, updated_at }
    }

    pub fn id(&self) -> (r: &SessionId)
        ensures
            r@ == self@.id,
    {
        &self.id
    }

    pub fn status(&self) -> (r: SessionStatus)
        ensures
            r == self@.status,
    {
        self.status
    }

    pub fn last_heartbeat_at(&self) -> (r: i64)
        ensures
            r == self@.last_heartbeat_at,
    {
        self.last_heartbeat_at
    }

    pub fn updated_at(&self) -> (r: i64)
        ensures
            r == self@.updated_at,
    {
        self.updated_at
    }

    /// Move the session to `Disconnected` through the status transition
    /// table. On success only the status and `updated_at` move, and
    /// `updated_at` does not decrease; on rejection nothing moves.
    pub fn mark_disconnected(&mut self) -> (r: Result<(), DomainError>)
        ensures
            match r {
                Ok(()) => {
                    &&& valid_transition(old(self)@.status, SessionStatus::Disconnected)
                    &&& final(self)@ == (SessionV {
                        status: SessionStatus::Disconnected,
                        updated_at: final(self)@.updated_at,
                        ..old(self)@
                    })
                    &&& final(self)@.updated_at >= old(self)@.updated_at
                },
                Err(e) => {
                    &&& !valid_transition(old(self)@.status, SessionStatus::Disconnected) || (
                    old(self)@.status == SessionStatus::Stopped || old(self)@.status
                        == SessionStatus::Failed)
                    &&& final(self)@ == old(self)@
                    &&& e@ is BusinessRuleViolation
                },
            },
    {
        match self.status.transition_to(SessionStatus::Disconnected) {
            Ok(next) => {
                self.status = next;
                let now = now_millis();
                if now > self.updated_at {
                    self.updated_at = now;
                }
                Ok(())
            },
            Err(e) => Err(e),
        }
    }
}

} // verus!
