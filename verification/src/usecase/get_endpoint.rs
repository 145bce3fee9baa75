//! The read use case: fetch one endpoint, authorize against the actor,
//! and answer with a plain output record.

use vstd::prelude::*;

use crate::domain::endpoint::EndpointV;
use crate::domain::ids::EndpointId;
use crate::ext::{spec_uuid_is_nil, uuid_is_nil};
use crate::repo::contract::{has_endpoint_id, EndpointRepository};
use crate::usecase::error::{UsecaseError, UsecaseErrorV};
use uuid::Uuid;

verus! {

/// The plain output record of a read. Timestamps are unix milliseconds.
#[derive(Debug)]
pub struct GetEndpointOutput {
    pub id: Uuid,
    pub name: String,
    pub webhook_url: String,
    pub provider_label: Option<String>,
    pub created_at: i64,
    pub updated_at: i64,
    pub last_event_at: Option<i64>,
    pub total_events: i32,
}

/// The get-endpoint operation, generic over the repository contract it
/// depends on.
pub struct GetEndpointUseCase<E: EndpointRepository> {
    endpoint_repo: E,
}

impl<E: EndpointRepository> GetEndpointUseCase<E> {
    /// The endpoint rows the held repository persists.
    pub closed spec fn endpoints(&self) -> Seq<EndpointV> {
        self.endpoint_repo.rows()
    }

    /// The held repository is well-formed.
    pub closed spec fn wf(&self) -> bool {
        self.endpoint_repo.inv()
    }

    pub fn new(endpoint_repo: E) -> (r: Self)
        ensures
            r.endpoints() == endpoint_repo.rows(),
            endpoint_repo.inv() ==> r.wf(),
    {
        GetEndpointUseCase { endpoint_repo }
    }

    /// Execute one read.
    ///
    /// A nil actor is unauthorized; the store is not consulted. A missing
    /// row is not found. A row owned by someone else is forbidden, and
    /// nothing of it leaks. A soft-deleted row is gone. Otherwise the
    /// answer carries exactly the stored row's fields.
    pub fn execute(&self, actor: Uuid, id: EndpointId) -> (r: Result<
        GetEndpointOutput,
        UsecaseError,
    >)
        requires
            self.wf(),
        ensures
            spec_uuid_is_nil(actor) ==> (r matches Err(e) && e@ == UsecaseErrorV::Unauthorized),
            !spec_uuid_is_nil(actor) ==> match r {
                Ok(out) => exists|e: EndpointV|
                    {
                        &&& self.endpoints().contains(e)
                        &&& e.id == id@
                        &&& e.user_id == actor
                        &&& e.deleted_at is None
                        &&& out.id == e.id
                        &&& out.name@ == e.name
                        &&& out.webhook_url@ == e.webhook_url
                        &&& out.created_at == e.created_at
                        &&& out.updated_at == e.updated_at
                        &&& out.last_event_at == e.last_event_at
                        &&& out.total_events == e.total_events
                    },
                Err(e) => match e@ {
                    UsecaseErrorV::NotFound(m) => !has_endpoint_id(self.endpoints(), id@) && m
                        == "endpoint not found"@,
                    UsecaseErrorV::Forbidden => exists|e: EndpointV|
                        self.endpoints().contains(e) && e.id == id@ && e.user_id != actor,
                    UsecaseErrorV::Gone(m) => (exists|e: EndpointV|
                        self.endpoints().contains(e) && e.id == id@ && e.user_id == actor
                            && e.deleted_at is Some) && m == "endpoint deleted"@,
                    UsecaseErrorV::Infra => true,
                    _ => false,
                },
            },
    {
        // (a) actor authentication
        if uuid_is_nil(&actor) {
            return Err(UsecaseError::Unauthorized);
        }
        // (c) fetch
        let found = match self.endpoint_repo.find_by_id(&id) {
            Ok(f) => f,
            Err(e) => {
                return Err(UsecaseError::from_repo(e));
            },
        };
        let endpoint = match found {
            Some(e) => e,
            None => {
                return Err(UsecaseError::NotFound(String::from_str("endpoint not found")));
            },
        };
        // (d) authorization on fetched state
        if !endpoint.is_owned_by(&actor) {
            proof {
                let e = endpoint@;
                assert(self.endpoints().contains(e) && e.id == id@ && e.user_id != actor);
            }
            return Err(UsecaseError::Forbidden);
        }
        if endpoint.is_deleted() {
            proof {
                let e = endpoint@;
                assert(self.endpoints().contains(e) && e.id == id@ && e.user_id == actor
                    && e.deleted_at is Some);
            }
            return Err(UsecaseError::Gone(String::from_str("endpoint deleted")));
        }
        Ok(
            GetEndpointOutput {
                id: *endpoint.id().as_uuid(),
                name: endpoint.name().as_str().to_owned(),
                webhook_url: endpoint.webhook_url().as_str().to_owned(),
                provider_label: match endpoint.provider_label() {
                    Some(s) => Some(s.to_owned()),
                    None => None,
                },
                created_at: endpoint.created_at(),
                updated_at: endpoint.updated_at(),
                last_event_at: endpoint.last_event_at(),
                total_events: endpoint.total_events(),
            },
        )
    }
}

} // verus!
