//! The endpoint aggregate root: private fields, a minting constructor, a
//! rehydration constructor, read-only accessors, and explicit state
//! transitions. Timestamps are unix milliseconds; `updated_at` never
//! decreases across in-process mutations, whatever the clock reports.

use vstd::prelude::*;

use crate::domain::error::{DomainError, DomainErrorV};
use crate::domain::ids::EndpointId;
use crate::domain::values::{EndpointName, WebhookUrl};
use crate::ext::{now_millis, uuid_eq};
use uuid::Uuid;

verus! {

/// The mathematical shape of an endpoint aggregate.
pub struct EndpointV {
    pub id: Uuid,
    pub user_id: Uuid,
    pub name: Seq<char>,
    pub webhook_url: Seq<char>,
    pub provider_label: Option<Seq<char>>,
    pub created_at: i64,
    pub updated_at: i64,
    pub last_event_at: Option<i64>,
    pub total_events: i32,
    pub deleted_at: Option<i64>,
}

/// An inbound webhook endpoint owned by a user.
#[derive(Debug)]
pub struct Endpoint {
    id: EndpointId,
    user_id: Uuid,
    name: EndpointName,
    webhook_url: WebhookUrl,
    provider_label: Option<String>,
    created_at: i64,
    updated_at: i64,
    last_event_at: Option<i64>,
    total_events: i32,
    deleted_at: Option<i64>,
}

impl View for Endpoint {
    type V = EndpointV;

    closed spec fn view(&self) -> EndpointV {
        EndpointV {
            id: self.id@,
            user_id: self.user_id,
            name: self.name@,
            webhook_url: self.webhook_url@,
            provider_label: match self.provider_label {
                Some(s) => Some(s@),
                None => None,
            },
            created_at: self.created_at,
            updated_at: self.updated_at,
            last_event_at: self.last_event_at,
            total_events: self.total_events,
            deleted_at: self.deleted_at,
        }
    }
}

impl Clone for Endpoint {
    fn clone(&self) -> (r: Self)
        ensures
            r@ == self@,
    {
        Endpoint {
            id: self.id,
            user_id: self.user_id,
            name: self.name.clone(),
            webhook_url: self.webhook_url.clone(),
            provider_label: match &self.provider_label {
                Some(s) => Some(s.clone()),
                None => None,
            },
            created_at: self.created_at,
            updated_at: self.updated_at,
            last_event_at: self.last_event_at,
            total_events: self.total_events,
            deleted_at: self.deleted_at,
        }
    }
}

impl Endpoint {
    /// Create a new endpoint from validated fields: mints a fresh random
    /// identifier, stamps both timestamps with the same creation instant,
    /// and starts with no events and no deletion mark.
    pub fn new(
        user_id: Uuid,
        name: EndpointName,
        webhook_url: WebhookUrl,
        provider_label: Option<String>,
    ) -> (r: Endpoint)
        ensures
            r@.user_id == user_id,
            r@.name == name@,
            r@.webhook_url == webhook_url@,
            r@.provider_label == (match provider_label {
                Some(s) => Some(s@),
                None => None::<Seq<char>>,
            }),
            r@.created_at == r@.updated_at,
            r@.last_event_at is None,
            r@.total_events == 0,
            r@.deleted_at is None,
    {
        let now = now_millis();
        Endpoint {
            id: EndpointId::new(),
            user_id,
            name,
            webhook_url,
            provider_label,
            created_at: now,
            updated_at: now,
            last_event_at: None,
            total_events: 0,
            deleted_at: None,
        }
    }

    /// Reconstruct from existing data (e.g. from the database). Every field
    /// is provided and adopted without validation.
    pub fn from_existing(
        id: EndpointId,
        user_id: Uuid,
        name: EndpointName,
        webhook_url: WebhookUrl,
        provider_label: Option<String>,
        created_at: i64,
        updated_at: i64,
        last_event_at: Option<i64>,
        total_events: i32,
        deleted_at: Option<i64>,
    ) -> (r: Endpoint)
        ensures
            r@ == (EndpointV {
                id: id@,
                user_id: user_id,
                name: name@,
                webhook_url: webhook_url@,
                provider_label: match provider_label {
                    Some(s) => Some(s@),
                    None => None::<Seq<char>>,
                },
                created_at: created_at,
                updated_at: updated_at,
                last_event_at: last_event_at,
                total_events: total_events,
                deleted_at: deleted_at,
            }),
    {
        Endpoint {
            id,
            user_id,
            name,
            webhook_url,
            provider_label,
            created_at,
            updated_at,
            last_event_at,
            total_events,
            deleted_at,
        }
    }

    pub fn id(&self) -> (r: &EndpointId)
        ensures
            r@ == self@.id,
    {
        &self.id
    }

    pub fn user_id(&self) -> (r: &Uuid)
        ensures
            *r == self@.user_id,
    {
        &self.user_id
    }

    pub fn name(&self) -> (r: &EndpointName)
        ensures
            r@ == self@.name,
    {
        &self.name
    }

    pub fn webhook_url(&self) -> (r: &WebhookUrl)
        ensures
            r@ == self@.webhook_url,
    {
        &self.webhook_url
    }

    pub fn provider_label(&self) -> (r: Option<&str>)
        ensures
            match r {
                Some(s) => self@.provider_label matches Some(p) && s@ == p,
                None => self@.provider_label is None,
            },
    {
        match &self.provider_label {
            Some(s) => Some(s.as_str()),
            None => None,
        }
    }

    pub fn created_at(&self) -> (r: i64)
        ensures
            r == self@.created_at,
    {
        self.created_at
    }

    pub fn updated_at(&self) -> (r: i64)
        ensures
            r == self@.updated_at,
    {
        self.updated_at
    }

    pub fn last_event_at(&self) -> (r: Option<i64>)
        ensures
            r == self@.last_event_at,
    {
        self.last_event_at
    }

    pub fn total_events(&self) -> (r: i32)
        ensures
            r == self@.total_events,
    {
        self.total_events
    }

    pub fn deleted_at(&self) -> (r: Option<i64>)
        ensures
            r == self@.deleted_at,
    {
        self.deleted_at
    }

    pub fn is_deleted(&self) -> (r: bool)
        ensures
            r == (self@.deleted_at is Some),
    {
        self.deleted_at.is_some()
    }

    /// Whether this endpoint belongs to the given user.
    pub fn is_owned_by(&self, user_id: &Uuid) -> (r: bool)
        ensures
            r == (self@.user_id == *user_id),
    {
        uuid_eq(&self.user_id, user_id)
    }

    /// Rename the endpoint. A soft-deleted endpoint rejects the change.
    /// On success only the name and `updated_at` move, and `updated_at`
    /// does not decrease.
    pub fn rename(&mut self, new_name: EndpointName) -> (r: Result<(), DomainError>)
        ensures
            match r {
                Ok(()) => {
                    &&& old(self)@.deleted_at is None
                    &&& final(self)@ == (EndpointV {
                        name: new_name@,
                        updated_at: final(self)@.updated_at,
                        ..old(self)@
                    })
                    &&& final(self)@.updated_at >= old(self)@.updated_at
                },
                Err(e) => {
                    &&& old(self)@.deleted_at is Some
                    &&& final(self)@ == old(self)@
                    &&& e@ matches DomainErrorV::BusinessRuleViolation(m) && m
                        == "cannot rename a deleted endpoint"@
                },
            },
    {
        if self.is_deleted() {
            return Err(
                DomainError::BusinessRuleViolation(
                    String::from_str("cannot rename a deleted endpoint"),
                ),
            );
        }
        self.name = new_name;
        let now = now_millis();
        if now > self.updated_at {
            self.updated_at = now;
        }
        Ok(())
    }

    /// Mark the endpoint deleted. An already-deleted endpoint rejects the
    /// change. On success only `deleted_at` and `updated_at` move, and
    /// `updated_at` does not decrease.
    pub fn soft_delete(&mut self) -> (r: Result<(), DomainError>)
        ensures
            match r {
                Ok(()) => {
                    &&& old(self)@.deleted_at is None
                    &&& final(self)@.deleted_at is Some
                    &&& final(self)@ == (EndpointV {
                        deleted_at: final(self)@.deleted_at,
                        updated_at: final(self)@.updated_at,
                        ..old(self)@
                    })
                    &&& final(self)@.updated_at >= old(self)@.updated_at
                },
                Err(e) => {
                    &&& old(self)@.deleted_at is Some
                    &&& final(self)@ == old(self)@
                    &&& e@ matches DomainErrorV::BusinessRuleViolation(m) && m
                        == "endpoint is already deleted"@
                },
            },
    {
        if self.is_deleted() {
            return Err(
                DomainError::BusinessRuleViolation(
                    String::from_str("endpoint is already deleted"),
                ),
            );
        }
        let now = now_millis();
        self.deleted_at = Some(now);
        if now > self.updated_at {
            self.updated_at = now;
        }
        Ok(())
    }

    /// Record one delivered event: bumps the event counter, stamps
    /// `last_event_at`, and moves `updated_at` forward (never backward).
    pub fn record_event(&mut self)
        requires
            old(self)@.total_events < i32::MAX,
        ensures
            final(self)@.total_events == old(self)@.total_events + 1,
            final(self)@.last_event_at is Some,
            final(self)@ == (EndpointV {
                total_events: final(self)@.total_events,
                last_event_at: final(self)@.last_event_at,
                updated_at: final(self)@.updated_at,
                ..old(self)@
            }),
            final(self)@.updated_at >= old(self)@.updated_at,
    {
        let now = now_millis();
        self.last_event_at = Some(now);
        self.total_events = self.total_events + 1;
        if now > self.updated_at {
            self.updated_at = now;
        }
    }
}

} // verus!
