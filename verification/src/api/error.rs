//! The HTTP-shaped error, with the total mapping that takes every
//! use-case error to the wire. Carries everything a transport adapter
//! needs: status, code, message, the optional upgrade URL, and rate-limit
//! header values.

use vstd::prelude::*;

use crate::usecase::error::{domain_to_usecase, UsecaseError, UsecaseErrorV};
use crate::domain::error::DomainErrorV;

verus! {

/// Rate-limit header values attached to an HTTP 429 answer. `reset_at` is
/// unix seconds.
#[derive(Debug, Clone, Copy, PartialEq, Eq, Structural)]
pub struct RateLimitHeaders {
    pub limit: u32,
    pub remaining: u32,
    pub reset_at: i64,
}

/// The wire shape of an error answer: HTTP status, a stable machine code,
/// a human message, and the optional extras some codes carry.
#[derive(Debug)]
pub struct ApiError {
    pub status: u16,
    pub code: String,
    pub message: String,
    pub upgrade_url: Option<String>,
    pub retry_after: Option<i64>,
    pub rate_limit: Option<RateLimitHeaders>,
}

/// The mathematical shape of an `ApiError`.
pub struct ApiErrorV {
    pub status: u16,
    pub code: Seq<char>,
    pub message: Seq<char>,
    pub upgrade_url: Option<Seq<char>>,
    pub retry_after: Option<i64>,
    pub rate_limit: Option<RateLimitHeaders>,
}

impl View for ApiError {
    type V = ApiErrorV;

    open spec fn view(&self) -> ApiErrorV {
        ApiErrorV {
            status: self.status,
            code: self.code@,
            message: self.message@,
            upgrade_url: match self.upgrade_url {
                Some(u) => Some(u@),
                None => None,
            },
            retry_after: self.retry_after,
            rate_limit: self.rate_limit,
        }
    }
}

/// The fixed translation table from use-case errors to the wire: a total
/// function on the error's shape. An infrastructure error is replaced by a
/// generic message; its cause is never surfaced.
pub open spec fn spec_api_of(u: UsecaseErrorV) -> ApiErrorV {
    match u {
        UsecaseErrorV::NotFound(m) => ApiErrorV {
            status: 404,
            code: "NOT_FOUND"@,
            message: m,
            upgrade_url: None,
            retry_after: None,
            rate_limit: None,
        },
        UsecaseErrorV::Validation(m) => ApiErrorV {
            status: 400,
            code: "VALIDATION_ERROR"@,
            message: m,
            upgrade_url: None,
            retry_after: None,
            rate_limit: None,
        },
        UsecaseErrorV::Unauthorized => ApiErrorV {
            status: 401,
            code: "UNAUTHORIZED"@,
            message: "unauthorized"@,
            upgrade_url: None,
            retry_after: None,
            rate_limit: None,
        },
        UsecaseErrorV::Forbidden => ApiErrorV {
            status: 403,
            code: "FORBIDDEN"@,
            message: "forbidden"@,
            upgrade_url: None,
            retry_after: None,
            rate_limit: None,
        },
        UsecaseErrorV::Conflict(m) => ApiErrorV {
            status: 409,
            code: "CONFLICT"@,
            message: m,
            upgrade_url: None,
            retry_after: None,
            rate_limit: None,
        },
        UsecaseErrorV::TierLimitExceeded(m) => ApiErrorV {
            status: 409,
            code: "LIMIT_REACHED"@,
            message: m,
            upgrade_url: Some("/pricing"@),
            retry_after: None,
            rate_limit: None,
        },
        UsecaseErrorV::RateLimited { message, limit, remaining, reset_at, retry_after } => {
            ApiErrorV {
                status: 429,
                code: "RATE_LIMITED"@,
                message: message,
                upgrade_url: Some("/pricing"@),
                retry_after: Some(retry_after),
                rate_limit: Some(RateLimitHeaders { limit, remaining, reset_at }),
            }
        },
        UsecaseErrorV::Gone(m) => ApiErrorV {
            status: 410,
            code: "GONE"@,
            message: m,
            upgrade_url: None,
            retry_after: None,
            rate_limit: None,
        },
        UsecaseErrorV::Infra => ApiErrorV {
            status: 500,
            code: "INTERNAL_ERROR"@,
            message: "An internal error occurred"@,
            upgrade_url: None,
            retry_after: None,
            rate_limit: None,
        },
    }
}

impl ApiError {
    /// Translate a use-case error to the wire per the fixed table. The
    /// caller keeps the borrowed error, so an infrastructure cause can
    /// still be logged before the answer is sent.
    pub fn from_usecase(err: &UsecaseError) -> (r: ApiError)
        ensures
            r@ == spec_api_of(err@),
    {
        match err {
            UsecaseError::NotFound(m) => ApiError {
                status: 404,
                code: String::from_str("NOT_FOUND"),
                message: m.clone(),
                upgrade_url: None,
                retry_after: None,
                rate_limit: None,
            },
            UsecaseError::Validation(m) => ApiError {
                status: 400,
                code: String::from_str("VALIDATION_ERROR"),
                message: m.clone(),
                upgrade_url: None,
                retry_after: None,
                rate_limit: None,
            },
            UsecaseError::Unauthorized => ApiError {
                status: 401,
                code: String::from_str("UNAUTHORIZED"),
                message: String::from_str("unauthorized"),
                upgrade_url: None,
                retry_after: None,
                rate_limit: None,
            },
            UsecaseError::Forbidden => ApiError {
                status: 403,
                code: String::from_str("FORBIDDEN"),
                message: String::from_str("forbidden"),
                upgrade_url: None,
                retry_after: None,
                rate_limit: None,
            },
            UsecaseError::Conflict(m) => ApiError {
                status: 409,
                code: String::from_str("CONFLICT"),
                message: m.clone(),
                upgrade_url: None,
                retry_after: None,
                rate_limit: None,
            },
            UsecaseError::TierLimitExceeded(m) => ApiError {
                status: 409,
                code: String::from_str("LIMIT_REACHED"),
                message: m.clone(),
                upgrade_url: Some(String::from_str("/pricing")),
                retry_after: None,
                rate_limit: None,
            },
            UsecaseError::RateLimited { message, limit, remaining, reset_at, retry_after } => {
                ApiError {
                    status: 429,
                    code: String::from_str("RATE_LIMITED"),
                    message: message.clone(),
                    upgrade_url: Some(String::from_str("/pricing")),
                    retry_after: Some(*retry_after),
                    rate_limit: Some(
                        RateLimitHeaders {
                            limit: *limit,
                            remaining: *remaining,
                            reset_at: *reset_at,
                        },
                    ),
                }
            },
            UsecaseError::Gone(m) => ApiError {
                status: 410,
                code: String::from_str("GONE"),
                message: m.clone(),
                upgrade_url: None,
                retry_after: None,
                rate_limit: None,
            },
            UsecaseError::Infra(_) => ApiError {
                status: 500,
                code: String::from_str("INTERNAL_ERROR"),
                message: String::from_str("An internal error occurred"),
                upgrade_url: None,
                retry_after: None,
                rate_limit: None,
            },
        }
    }
}

impl UsecaseError {
    /// The HTTP status the fixed table assigns to this error.
    pub fn status_code(&self) -> (r: u16)
        ensures
            r == spec_api_of(self@).status,
    {
        match self {
            UsecaseError::NotFound(_) => 404,
            UsecaseError::Validation(_) => 400,
            UsecaseError::Unauthorized => 401,
            UsecaseError::Forbidden => 403,
            UsecaseError::Conflict(_) => 409,
            UsecaseError::TierLimitExceeded(_) => 409,
            UsecaseError::RateLimited { .. } => 429,
            UsecaseError::Gone(_) => 410,
            UsecaseError::Infra(_) => 500,
        }
    }
}

/// Chained through the wire table, every domain error lands on a status
/// from the fixed set, and on the row its variant prescribes.
pub proof fn lemma_domain_to_api_status(d: DomainErrorV, u: UsecaseErrorV)
    requires
        domain_to_usecase(d, u),
    ensures
        match d {
            DomainErrorV::NotFound(_) => spec_api_of(u).status == 404,
            DomainErrorV::Conflict(_) => spec_api_of(u).status == 409,
            DomainErrorV::TierLimitExceeded(_) => spec_api_of(u).status == 409,
            DomainErrorV::RateLimitExceeded(_) => spec_api_of(u).status == 429,
            DomainErrorV::InvalidField { .. } => spec_api_of(u).status == 400,
            DomainErrorV::BusinessRuleViolation(_) => spec_api_of(u).status == 400,
            DomainErrorV::QuotaExceeded(_) => spec_api_of(u).status == 400,
        },
{
}

} // verus!
