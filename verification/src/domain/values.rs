//! Validated string value objects. `new` validates raw input; `from_trusted`
//! adopts an already-validated value (rehydration from persistence) without
//! re-running validation.

use vstd::prelude::*;

use crate::domain::error::DomainError;
use crate::text::{trim, trim_spec};

verus! {

/// A raw name is accepted when, after trimming, it is non-empty and at most
/// 255 characters long.
pub open spec fn valid_name(raw: Seq<char>) -> bool {
    0 < trim_spec(raw).len() <= 255
}

/// The display name of an endpoint: non-empty after trim, at most 255
/// characters, stored trimmed.
#[derive(Debug, PartialEq, Eq)]
pub struct EndpointName(String);

impl Clone for EndpointName {
    fn clone(&self) -> (r: Self)
        ensures
            r@ == self@,
    {
        EndpointName(self.0.clone())
    }
}

impl View for EndpointName {
    type V = Seq<char>;

    closed spec fn view(&self) -> Seq<char> {
        self.0@
    }
}

impl EndpointName {
    /// Create with validation (for user input). Accepts exactly the raw
    /// strings that are non-empty after trim and at most 255 characters;
    /// stores the trimmed form.
    pub fn new(name: String) -> (r: Result<Self, DomainError>)
        ensures
            match r {
                Ok(v) => valid_name(name@) && v@ == trim_spec(name@),
                Err(e) => {
                    &&& !valid_name(name@)
                    &&& e@ matches crate::domain::error::DomainErrorV::InvalidField {
                        field,
                        reason,
                    } && field == "name"@ && (if trim_spec(name@).len() == 0 {
                        reason == "empty"@
                    } else {
                        reason == "too long"@
                    })
                },
            },
    {
        let trimmed = trim(name.as_str());
        let n = trimmed.as_str().unicode_len();
        if n == 0 {
            Err(DomainError::InvalidField { field: "name", reason: "empty" })
        } else if n > 255 {
            Err(DomainError::InvalidField { field: "name", reason: "too long" })
        } else {
            Ok(EndpointName(trimmed))
        }
    }

    /// Adopt a value from a trusted source (e.g. the database) without
    /// validation.
    pub fn from_trusted(name: String) -> (r: Self)
        ensures
            r@ == name@,
    {
        EndpointName(name)
    }

    pub fn as_str(&self) -> (r: &str)
        ensures
            r@ == self@,
    {
        self.0.as_str()
    }

    pub fn into_string(self) -> (r: String)
        ensures
            r@ == self@,
    {
        self.0
    }
}

/// A raw webhook URL is accepted when, after trimming, it is non-empty and
/// at most 2048 characters long.
pub open spec fn valid_url(raw: Seq<char>) -> bool {
    0 < trim_spec(raw).len() <= 2048
}

/// The inbound webhook URL of an endpoint: non-empty after trim, at most
/// 2048 characters, stored trimmed.
#[derive(Debug, PartialEq, Eq)]
pub struct WebhookUrl(String);

impl Clone for WebhookUrl {
    fn clone(&self) -> (r: Self)
        ensures
            r@ == self@,
    {
        WebhookUrl(self.0.clone())
    }
}

impl View for WebhookUrl {
    type V = Seq<char>;

    closed spec fn view(&self) -> Seq<char> {
        self.0@
    }
}

impl WebhookUrl {
    /// Create with validation (for user input or generated URLs). Accepts
    /// exactly the raw strings that are non-empty after trim and at most
    /// 2048 characters; stores the trimmed form.
    pub fn new(url: String) -> (r: Result<Self, DomainError>)
        ensures
            match r {
                Ok(v) => valid_url(url@) && v@ == trim_spec(url@),
                Err(e) => {
                    &&& !valid_url(url@)
                    &&& e@ matches crate::domain::error::DomainErrorV::InvalidField {
                        field,
                        reason,
                    } && field == "webhook_url"@ && (if trim_spec(url@).len() == 0 {
                        reason == "empty"@
                    } else {
                        reason == "too long"@
                    })
                },
            },
    {
        let trimmed = trim(url.as_str());
        let n = trimmed.as_str().unicode_len();
        if n == 0 {
            Err(DomainError::InvalidField { field: "webhook_url", reason: "empty" })
        } else if n > 2048 {
            Err(DomainError::InvalidField { field: "webhook_url", reason: "too long" })
        } else {
            Ok(WebhookUrl(trimmed))
        }
    }

    /// Adopt a value from a trusted source (e.g. the database) without
    /// validation.
    pub fn from_trusted(url: String) -> (r: Self)
        ensures
            r@ == url@,
    {
        WebhookUrl(url)
    }

    pub fn as_str(&self) -> (r: &str)
        ensures
            r@ == self@,
    {
        self.0.as_str()
    }

    pub fn into_string(self) -> (r: String)
        ensures
            r@ == self@,
    {
        self.0
    }
}

/// Every value object accepted by validation round-trips through the
/// trusted constructor: adopting `v.as_str()` via `from_trusted` yields a
/// value whose string form is unchanged, since `from_trusted` and
/// `as_str` are identities on the view. Beyond that, the stored (trimmed)
/// sequence is a fixed point of trimming and still satisfies the
/// validation rule, so re-validating what was once accepted can never
/// reject it.
pub proof fn lemma_value_object_round_trip(raw: Seq<char>)
    requires
        valid_name(raw),
    ensures
        trim_spec(trim_spec(raw)) == trim_spec(raw),
        valid_name(trim_spec(raw)),
{
    crate::text::lemma_trim_fixpoint(raw);
}

} // verus!
