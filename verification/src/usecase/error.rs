//! The use-case layer's closed error taxonomy and the total mappings from
//! the two inner taxonomies into it.

use vstd::prelude::*;

use crate::domain::error::{spec_render, DomainError, DomainErrorV};
use crate::ext::anyhow_from_msg;
use crate::repo::error::{is_infra, RepoError, RepoErrorV};

verus! {

/// Errors returned by use cases. Each variant has exactly one HTTP-shaped
/// translation; see the handler layer.
#[derive(Debug)]
pub enum UsecaseError {
    NotFound(String),
    Validation(String),
    Unauthorized,
    Forbidden,
    Conflict(String),
    TierLimitExceeded(String),
    RateLimited { message: String, limit: u32, remaining: u32, reset_at: i64, retry_after: i64 },
    Gone(String),
    Infra(anyhow::Error),
}

/// The mathematical shape of a `UsecaseError`. The opaque diagnostic cause
/// of `Infra` is not part of the shape; `reset_at` is unix seconds.
pub enum UsecaseErrorV {
    NotFound(Seq<char>),
    Validation(Seq<char>),
    Unauthorized,
    Forbidden,
    Conflict(Seq<char>),
    TierLimitExceeded(Seq<char>),
    RateLimited { message: Seq<char>, limit: u32, remaining: u32, reset_at: i64, retry_after: i64 },
    Gone(Seq<char>),
    Infra,
}

impl View for UsecaseError {
    type V = UsecaseErrorV;

    open spec fn view(&self) -> UsecaseErrorV {
        match self {
            UsecaseError::NotFound(m) => UsecaseErrorV::NotFound(m@),
            UsecaseError::Validation(m) => UsecaseErrorV::Validation(m@),
            UsecaseError::Unauthorized => UsecaseErrorV::Unauthorized,
            UsecaseError::Forbidden => UsecaseErrorV::Forbidden,
            UsecaseError::Conflict(m) => UsecaseErrorV::Conflict(m@),
            UsecaseError::TierLimitExceeded(m) => UsecaseErrorV::TierLimitExceeded(m@),
            UsecaseError::RateLimited { message, limit, remaining, reset_at, retry_after } => {
                UsecaseErrorV::RateLimited {
                    message: message@,
                    limit: *limit,
                    remaining: *remaining,
                    reset_at: *reset_at,
                    retry_after: *retry_after,
                }
            },
            UsecaseError::Gone(m) => UsecaseErrorV::Gone(m@),
            UsecaseError::Infra(_) => UsecaseErrorV::Infra,
        }
    }
}

/// The fixed mapping of domain errors into the use-case taxonomy. It is a
/// relation only because the `reset_at` of a rate-limit answer is the
/// wall-clock time of the mapping; every other field is pinned.
pub open spec fn domain_to_usecase(d: DomainErrorV, u: UsecaseErrorV) -> bool {
    match d {
        DomainErrorV::NotFound(m) => u == UsecaseErrorV::NotFound(m),
        DomainErrorV::Conflict(m) => u == UsecaseErrorV::Conflict(m),
        DomainErrorV::TierLimitExceeded(m) => u == UsecaseErrorV::TierLimitExceeded(m),
        DomainErrorV::RateLimitExceeded(m) => u matches UsecaseErrorV::RateLimited {
            message,
            limit,
            remaining,
            reset_at,
            retry_after,
        } && message == m && limit == 0 && remaining == 0 && retry_after == 0,
        DomainErrorV::InvalidField { .. } => u == UsecaseErrorV::Validation(spec_render(d)),
        DomainErrorV::BusinessRuleViolation(_) => u == UsecaseErrorV::Validation(spec_render(d)),
        DomainErrorV::QuotaExceeded(_) => u == UsecaseErrorV::Validation(spec_render(d)),
    }
}

/// The fixed mapping of persistence errors into the use-case taxonomy: a
/// total function on the error's shape.
pub open spec fn repo_to_usecase(r: RepoErrorV) -> UsecaseErrorV {
    match r {
        RepoErrorV::NotFound(m) => UsecaseErrorV::NotFound(m),
        RepoErrorV::UniqueViolation(m) => UsecaseErrorV::Conflict(m),
        RepoErrorV::Db { .. } => UsecaseErrorV::Infra,
        RepoErrorV::DbWithEntity { .. } => UsecaseErrorV::Infra,
        RepoErrorV::ForeignKeyViolation(_) => UsecaseErrorV::Infra,
        RepoErrorV::ConnectionError(_) => UsecaseErrorV::Infra,
    }
}

impl UsecaseError {
    /// Map a domain error at the boundary. Validation-class failures are
    /// rendered with the domain's stable format; a rate-limit failure gets
    /// zeroed numeric fields and `reset_at` set to the time of mapping.
    pub fn from_domain(err: DomainError) -> (r: UsecaseError)
        ensures
            domain_to_usecase(err@, r@),
    {
        match err {
            DomainError::NotFound(m) => UsecaseError::NotFound(m),
            DomainError::Conflict(m) => UsecaseError::Conflict(m),
            DomainError::TierLimitExceeded(m) => UsecaseError::TierLimitExceeded(m),
            DomainError::RateLimitExceeded(m) => {
                let now_s = crate::ext::now_millis() / 1000;
                UsecaseError::RateLimited {
                    message: m,
                    limit: 0,
                    remaining: 0,
                    reset_at: now_s,
                    retry_after: 0,
                }
            },
            other => UsecaseError::Validation(other.render()),
        }
    }

    /// Map a persistence error at the boundary. The `NotFound` and
    /// `UniqueViolation` identities are preserved; everything else becomes
    /// an infrastructure error that keeps the underlying cause for
    /// diagnostics and never surfaces its text to the caller.
    pub fn from_repo(err: RepoError) -> (r: UsecaseError)
        ensures
            r@ == repo_to_usecase(err@),
            err matches RepoError::Db { source, .. } ==> r matches UsecaseError::Infra(c) && c
                == source,
            err matches RepoError::DbWithEntity { source, .. } ==> r matches UsecaseError::Infra(
                c,
            ) && c == source,
    {
        match err {
            RepoError::NotFound(m) => UsecaseError::NotFound(m),
            RepoError::UniqueViolation(m) => UsecaseError::Conflict(m),
            RepoError::Db { op: _, source } => UsecaseError::Infra(source),
            RepoError::DbWithEntity { op: _, entity_id: _, source } => UsecaseError::Infra(source),
            RepoError::ForeignKeyViolation(m) => {
                let text = String::from_str("foreign key violation: ").concat(m.as_str());
                UsecaseError::Infra(anyhow_from_msg(text))
            },
            RepoError::ConnectionError(m) => {
                let text = String::from_str("connection error: ").concat(m.as_str());
                UsecaseError::Infra(anyhow_from_msg(text))
            },
        }
    }
}

/// The domain-to-use-case mapping is total: every domain error has an
/// image.
pub proof fn lemma_domain_mapping_total(d: DomainErrorV)
    ensures
        exists|u: UsecaseErrorV| domain_to_usecase(d, u),
{
    match d {
        DomainErrorV::NotFound(m) => {
            assert(domain_to_usecase(d, UsecaseErrorV::NotFound(m)));
        },
        DomainErrorV::Conflict(m) => {
            assert(domain_to_usecase(d, UsecaseErrorV::Conflict(m)));
        },
        DomainErrorV::TierLimitExceeded(m) => {
            assert(domain_to_usecase(d, UsecaseErrorV::TierLimitExceeded(m)));
        },
        DomainErrorV::RateLimitExceeded(m) => {
            assert(domain_to_usecase(
                d,
                UsecaseErrorV::RateLimited {
                    message: m,
                    limit: 0,
                    remaining: 0,
                    reset_at: 0,
                    retry_after: 0,
                },
            ));
        },
        _ => {
            assert(domain_to_usecase(d, UsecaseErrorV::Validation(spec_render(d))));
        },
    }
}

/// The persistence-to-use-case mapping is total and preserves the
/// `NotFound` and `UniqueViolation` identities; every other variant is
/// absorbed as an infrastructure error.
pub proof fn lemma_repo_mapping_identities(r: RepoErrorV)
    ensures
        r matches RepoErrorV::NotFound(m) ==> repo_to_usecase(r) == UsecaseErrorV::NotFound(m),
        r matches RepoErrorV::UniqueViolation(m) ==> repo_to_usecase(r) == UsecaseErrorV::Conflict(
            m,
        ),
        is_infra(r) ==> repo_to_usecase(r) == UsecaseErrorV::Infra,
{
}

} // verus!
