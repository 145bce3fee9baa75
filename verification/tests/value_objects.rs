//! Value objects, the status state machine, and the string utilities.

use clean_arch::domain::error::DomainError;
use clean_arch::domain::ids::{EndpointId, SessionId};
use clean_arch::domain::status::SessionStatus;
use clean_arch::domain::values::{EndpointName, WebhookUrl};
use clean_arch::text;

#[test]
fn name_new_trims_and_accepts() {
    let v = EndpointName::new(String::from("  alpha \n")).expect("valid");
    assert_eq!(v.as_str(), "alpha");
    assert_eq!(v.clone().into_string(), "alpha");
}

#[test]
fn name_rejects_whitespace_only_as_empty() {
    let e = EndpointName::new(String::from("  ")).unwrap_err();
    assert!(matches!(e, DomainError::InvalidField { field: "name", reason: "empty" }));
}

#[test]
fn name_rejects_over_255_characters() {
    let long = "x".repeat(256);
    let e = EndpointName::new(long).unwrap_err();
    assert!(matches!(e, DomainError::InvalidField { field: "name", reason: "too long" }));
    let edge = "x".repeat(255);
    assert!(EndpointName::new(edge).is_ok());
}

#[test]
fn name_round_trips_through_the_trusted_constructor() {
    let v = EndpointName::new(String::from("  billing hooks ")).expect("valid");
    let again = EndpointName::from_trusted(String::from(v.as_str()));
    assert_eq!(again.as_str(), v.as_str());
}

#[test]
fn url_round_trips_through_the_trusted_constructor() {
    let v = WebhookUrl::new(String::from(" https://hooks.example.dev/in/wh_1 ")).expect("valid");
    assert_eq!(v.as_str(), "https://hooks.example.dev/in/wh_1");
    let again = WebhookUrl::from_trusted(String::from(v.as_str()));
    assert_eq!(again.as_str(), v.as_str());
    assert_eq!(again.into_string(), "https://hooks.example.dev/in/wh_1");
}

#[test]
fn url_rejects_empty_and_oversized() {
    let e = WebhookUrl::new(String::from("\t\n")).unwrap_err();
    assert!(matches!(e, DomainError::InvalidField { field: "webhook_url", reason: "empty" }));
    let e = WebhookUrl::new("u".repeat(2049)).unwrap_err();
    assert!(matches!(e, DomainError::InvalidField { field: "webhook_url", reason: "too long" }));
}

#[test]
fn ids_adopt_and_expose_their_uuid() {
    let raw = uuid::Uuid::from_u128(42);
    let id = EndpointId::from_uuid(raw);
    assert_eq!(*id.as_uuid(), raw);
    assert_eq!(id.into_uuid(), raw);
    assert!(id.same_as(&EndpointId::from_uuid(raw)));
    assert!(!id.same_as(&EndpointId::from_uuid(uuid::Uuid::from_u128(43))));

    let sid = SessionId::from_uuid(raw);
    assert_eq!(*sid.as_uuid(), raw);
    assert!(sid.same_as(&SessionId::from_uuid(raw)));
}

#[test]
fn fresh_ids_are_distinct_and_not_nil() {
    let a = EndpointId::new();
    let b = EndpointId::new();
    assert!(!a.same_as(&b));
    assert_ne!(*a.as_uuid(), uuid::Uuid::nil());
}

#[test]
fn status_labels_are_canonical() {
    assert_eq!(SessionStatus::Stopped.as_str(), "stopped");
    assert_eq!(SessionStatus::Connecting.as_str(), "connecting");
    assert_eq!(SessionStatus::Connected.as_str(), "connected");
    assert_eq!(SessionStatus::Disconnected.as_str(), "disconnected");
    assert_eq!(SessionStatus::Reconnecting.as_str(), "reconnecting");
    assert_eq!(SessionStatus::Failed.as_str(), "failed");
}

#[test]
fn status_activity_and_terminality() {
    assert!(SessionStatus::Connected.is_active());
    assert!(SessionStatus::Reconnecting.is_active());
    assert!(!SessionStatus::Stopped.is_active());
    assert!(SessionStatus::Stopped.is_terminal());
    assert!(SessionStatus::Failed.is_terminal());
    assert!(!SessionStatus::Connecting.is_terminal());
}

#[test]
fn status_transition_table_is_enforced() {
    assert_eq!(
        SessionStatus::Connecting.transition_to(SessionStatus::Connected).unwrap(),
        SessionStatus::Connected
    );
    assert_eq!(
        SessionStatus::Connected.transition_to(SessionStatus::Disconnected).unwrap(),
        SessionStatus::Disconnected
    );
    assert_eq!(
        SessionStatus::Disconnected.transition_to(SessionStatus::Reconnecting).unwrap(),
        SessionStatus::Reconnecting
    );
    assert_eq!(
        SessionStatus::Reconnecting.transition_to(SessionStatus::Failed).unwrap(),
        SessionStatus::Failed
    );

    let e = SessionStatus::Connecting.transition_to(SessionStatus::Reconnecting).unwrap_err();
    assert!(
        matches!(&e, DomainError::BusinessRuleViolation(m)
            if m == "invalid transition from connecting to reconnecting")
    );
}

#[test]
fn terminal_states_reject_every_transition() {
    let e = SessionStatus::Stopped.transition_to(SessionStatus::Connecting).unwrap_err();
    assert!(
        matches!(&e, DomainError::BusinessRuleViolation(m)
            if m == "cannot transition from terminal state stopped")
    );
    let e = SessionStatus::Failed.transition_to(SessionStatus::Connected).unwrap_err();
    assert!(
        matches!(&e, DomainError::BusinessRuleViolation(m)
            if m == "cannot transition from terminal state failed")
    );
}

#[test]
fn status_parse_ignores_ascii_case() {
    assert_eq!(SessionStatus::from_str("stopped").unwrap(), SessionStatus::Stopped);
    assert_eq!(SessionStatus::from_str("CONNECTED").unwrap(), SessionStatus::Connected);
    assert_eq!(SessionStatus::from_str("Reconnecting").unwrap(), SessionStatus::Reconnecting);
    let e = SessionStatus::from_str("paused").unwrap_err();
    assert!(matches!(
        e,
        DomainError::InvalidField { field: "session_status", reason: "unknown status value" }
    ));
}

#[test]
fn status_default_is_connecting() {
    assert_eq!(SessionStatus::default(), SessionStatus::Connecting);
}

#[test]
fn trim_removes_ascii_whitespace_only_at_the_ends() {
    assert_eq!(text::trim("  a b \t"), "a b");
    assert_eq!(text::trim(""), "");
    assert_eq!(text::trim(" \r\n "), "");
    assert_eq!(text::trim("plain"), "plain");
}

#[test]
fn decimal_rendering_matches_expected_values() {
    assert_eq!(text::u64_to_dec(0), "0");
    assert_eq!(text::u64_to_dec(7), "7");
    assert_eq!(text::u64_to_dec(105), "105");
    assert_eq!(text::u64_to_dec(18446744073709551615), "18446744073709551615");
    assert_eq!(text::i64_to_dec(-3), "-3");
    assert_eq!(text::i64_to_dec(-9223372036854775808), "-9223372036854775808");
    assert_eq!(text::i64_to_dec(42), "42");
}

#[test]
fn case_insensitive_comparison_is_ascii_only() {
    assert!(text::eq_ignore_ascii_case("Stopped", "sTOPPED"));
    assert!(!text::eq_ignore_ascii_case("stopped", "stopped "));
    assert!(!text::eq_ignore_ascii_case("a", "b"));
}
