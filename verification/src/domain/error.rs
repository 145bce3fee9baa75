//! The domain layer's closed error taxonomy.

use vstd::prelude::*;

verus! {

/// Errors raised by domain constructors and state transitions. Owned by the
/// domain layer; outer layers map these eagerly at their boundary.
#[derive(Debug)]
pub enum DomainError {
    InvalidField { field: &'static str, reason: &'static str },
    BusinessRuleViolation(String),
    NotFound(String),
    Conflict(String),
    RateLimitExceeded(String),
    QuotaExceeded(String),
    TierLimitExceeded(String),
}

/// The mathematical shape of a `DomainError`: the same variants over
/// character sequences.
pub enum DomainErrorV {
    InvalidField { field: Seq<char>, reason: Seq<char> },
    BusinessRuleViolation(Seq<char>),
    NotFound(Seq<char>),
    Conflict(Seq<char>),
    RateLimitExceeded(Seq<char>),
    QuotaExceeded(Seq<char>),
    TierLimitExceeded(Seq<char>),
}

impl View for DomainError {
    type V = DomainErrorV;

    open spec fn view(&self) -> DomainErrorV {
        match self {
            DomainError::InvalidField { field, reason } => DomainErrorV::InvalidField {
                field: field@,
                reason: reason@,
            },
            DomainError::BusinessRuleViolation(m) => DomainErrorV::BusinessRuleViolation(m@),
            DomainError::NotFound(m) => DomainErrorV::NotFound(m@),
            DomainError::Conflict(m) => DomainErrorV::Conflict(m@),
            DomainError::RateLimitExceeded(m) => DomainErrorV::RateLimitExceeded(m@),
            DomainError::QuotaExceeded(m) => DomainErrorV::QuotaExceeded(m@),
            DomainError::TierLimitExceeded(m) => DomainErrorV::TierLimitExceeded(m@),
        }
    }
}

/// The stable human-readable rendering of a domain error.
pub open spec fn spec_render(e: DomainErrorV) -> Seq<char> {
    match e {
        DomainErrorV::InvalidField { field, reason } => "invalid "@ + field + ": "@ + reason,
        DomainErrorV::BusinessRuleViolation(m) => "business rule violation: "@ + m,
        DomainErrorV::NotFound(m) => "not found: "@ + m,
        DomainErrorV::Conflict(m) => "conflict: "@ + m,
        DomainErrorV::RateLimitExceeded(m) => "rate limit exceeded: "@ + m,
        DomainErrorV::QuotaExceeded(m) => "quota exceeded: "@ + m,
        DomainErrorV::TierLimitExceeded(m) => "tier limit exceeded: "@ + m,
    }
}

impl DomainError {
    /// Render the error in its stable human-readable format.
    pub fn render(&self) -> (r: String)
        ensures
            r@ == spec_render(self@),
    {
        match self {
            DomainError::InvalidField { field, reason } => {
                let s = String::from_str("invalid ").concat(field);
                s.concat(": ").concat(reason)
            },
            DomainError::BusinessRuleViolation(m) => {
                String::from_str("business rule violation: ").concat(m.as_str())
            },
            DomainError::NotFound(m) => String::from_str("not found: ").concat(m.as_str()),
            DomainError::Conflict(m) => String::from_str("conflict: ").concat(m.as_str()),
            DomainError::RateLimitExceeded(m) => {
                String::from_str("rate limit exceeded: ").concat(m.as_str())
            },
            DomainError::QuotaExceeded(m) => {
                String::from_str("quota exceeded: ").concat(m.as_str())
            },
            DomainError::TierLimitExceeded(m) => {
                String::from_str("tier limit exceeded: ").concat(m.as_str())
            },
        }
    }
}

} // verus!
