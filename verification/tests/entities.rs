//! The aggregates' constructors, accessors, and state transitions,
//! including the monotone `updated_at` guarantee.

use clean_arch::domain::endpoint::Endpoint;
use clean_arch::domain::error::DomainError;
use clean_arch::domain::ids::{EndpointId, SessionId};
use clean_arch::domain::session::ForwardingSession;
use clean_arch::domain::status::SessionStatus;
use clean_arch::domain::values::{EndpointName, WebhookUrl};
use uuid::Uuid;

fn sample(user: Uuid) -> Endpoint {
    Endpoint::new(
        user,
        EndpointName::from_trusted(String::from("alpha")),
        WebhookUrl::from_trusted(String::from("https://hooks.example.dev/in/wh_x")),
        Some(String::from("github")),
    )
}

#[test]
fn new_mints_identity_and_equal_timestamps() {
    let user = Uuid::from_u128(1);
    let e = sample(user);
    assert_ne!(*e.id().as_uuid(), Uuid::nil());
    assert_eq!(e.created_at(), e.updated_at());
    assert_eq!(e.total_events(), 0);
    assert!(e.last_event_at().is_none());
    assert!(!e.is_deleted());
    assert!(e.deleted_at().is_none());
    assert!(e.is_owned_by(&user));
    assert!(!e.is_owned_by(&Uuid::from_u128(2)));
    assert_eq!(e.provider_label(), Some("github"));
}

#[test]
fn from_existing_adopts_every_field_without_validation() {
    let id = EndpointId::from_uuid(Uuid::from_u128(11));
    let user = Uuid::from_u128(1);
    let e = Endpoint::from_existing(
        id,
        user,
        EndpointName::from_trusted(String::from("  kept as-is  ")),
        WebhookUrl::from_trusted(String::from("https://hooks.example.dev/in/wh_y")),
        None,
        1_000,
        2_000,
        Some(1_500),
        7,
        None,
    );
    assert!(e.id().same_as(&id));
    assert_eq!(e.name().as_str(), "  kept as-is  ");
    assert_eq!(e.created_at(), 1_000);
    assert_eq!(e.updated_at(), 2_000);
    assert_eq!(e.last_event_at(), Some(1_500));
    assert_eq!(e.total_events(), 7);
    assert_eq!(e.provider_label(), None);
}

#[test]
fn rename_moves_name_and_keeps_updated_at_monotone() {
    let mut e = sample(Uuid::from_u128(1));
    let before = e.updated_at();
    e.rename(EndpointName::from_trusted(String::from("beta"))).expect("rename");
    assert_eq!(e.name().as_str(), "beta");
    assert!(e.updated_at() >= before);
}

#[test]
fn rename_is_rejected_after_soft_delete() {
    let mut e = sample(Uuid::from_u128(1));
    e.soft_delete().expect("soft delete");
    let err = e.rename(EndpointName::from_trusted(String::from("beta"))).unwrap_err();
    assert!(
        matches!(&err, DomainError::BusinessRuleViolation(m)
            if m == "cannot rename a deleted endpoint")
    );
    assert_eq!(e.name().as_str(), "alpha");
}

#[test]
fn soft_delete_marks_once_and_rejects_a_second_time() {
    let mut e = sample(Uuid::from_u128(1));
    let before = e.updated_at();
    e.soft_delete().expect("soft delete");
    assert!(e.is_deleted());
    assert!(e.deleted_at().is_some());
    assert!(e.updated_at() >= before);

    let err = e.soft_delete().unwrap_err();
    assert!(
        matches!(&err, DomainError::BusinessRuleViolation(m)
            if m == "endpoint is already deleted")
    );
}

#[test]
fn record_event_counts_and_stamps() {
    let mut e = sample(Uuid::from_u128(1));
    let before = e.updated_at();
    e.record_event();
    e.record_event();
    assert_eq!(e.total_events(), 2);
    assert!(e.last_event_at().is_some());
    assert!(e.updated_at() >= before);
}

#[test]
fn session_disconnect_follows_the_state_machine() {
    let id = SessionId::from_uuid(Uuid::from_u128(21));
    let mut s = ForwardingSession::from_existing(id, SessionStatus::Connected, 100, 100);
    s.mark_disconnected().expect("disconnect");
    assert_eq!(s.status(), SessionStatus::Disconnected);
    assert_eq!(s.last_heartbeat_at(), 100);
    assert!(s.updated_at() >= 100);

    let mut r = ForwardingSession::from_existing(
        SessionId::from_uuid(Uuid::from_u128(22)),
        SessionStatus::Reconnecting,
        100,
        100,
    );
    let err = r.mark_disconnected().unwrap_err();
    assert!(matches!(err, DomainError::BusinessRuleViolation(_)));
    assert_eq!(r.status(), SessionStatus::Reconnecting);
}
