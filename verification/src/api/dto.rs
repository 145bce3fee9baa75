//! Request and response records: plain primitives on the wire side of the
//! handler layer, assembled from and into use-case records.

use vstd::prelude::*;

use crate::usecase::create_endpoint::{CreateEndpointInput, CreateEndpointOutput};
use uuid::Uuid;

verus! {

/// The authenticated principal the transport extractor hands in.
#[derive(Debug, Clone, Copy)]
pub struct AuthUser {
    pub user_id: Uuid,
}

/// The body of a creation request.
#[derive(Debug)]
pub struct CreateEndpointRequest {
    pub name: String,
    pub provider_label: Option<String>,
}

/// The body of a creation answer. `created_at` is unix milliseconds.
#[derive(Debug)]
pub struct CreateEndpointResponse {
    pub id: Uuid,
    pub name: String,
    pub webhook_url: String,
    pub provider_label: Option<String>,
    pub created_at: i64,
}

impl CreateEndpointRequest {
    /// Assemble the use-case input from the extractor and the body: the
    /// handler's only job besides invoking the use case.
    pub fn into_input(self, auth: AuthUser) -> (r: CreateEndpointInput)
        ensures
            r.user_id == auth.user_id,
            r.name@ == self.name@,
            r.provider_label == self.provider_label,
    {
        CreateEndpointInput {
            user_id: auth.user_id,
            name: self.name,
            provider_label: self.provider_label,
        }
    }
}

impl CreateEndpointResponse {
    /// Build the answer record from the use-case output, field for field.
    pub fn from_output(out: CreateEndpointOutput) -> (r: CreateEndpointResponse)
        ensures
            r.id == out.id,
            r.name@ == out.name@,
            r.webhook_url@ == out.webhook_url@,
            r.provider_label == out.provider_label,
            r.created_at == out.created_at,
    {
        CreateEndpointResponse {
            id: out.id,
            name: out.name,
            webhook_url: out.webhook_url,
            provider_label: out.provider_label,
            created_at: out.created_at,
        }
    }
}

} // verus!
