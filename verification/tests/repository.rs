//! The verified in-memory repositories against the persistence contract:
//! round trips, identity rules, idempotence, and the atomic limit check.

use clean_arch::domain::endpoint::Endpoint;
use clean_arch::domain::ids::EndpointId;
use clean_arch::domain::subscription::{Subscription, SubscriptionTier};
use clean_arch::domain::values::{EndpointName, WebhookUrl};
use clean_arch::repo::contract::{EndpointRepository, SubscriptionRepository};
use clean_arch::repo::error::RepoError;
use clean_arch::repo::memory::{InMemoryEndpointRepository, InMemorySubscriptionRepository};
use uuid::Uuid;

fn endpoint_for(user: Uuid, name: &str) -> Endpoint {
    Endpoint::new(
        user,
        EndpointName::from_trusted(String::from(name)),
        WebhookUrl::from_trusted(String::from("https://hooks.example.dev/in/wh_test")),
        None,
    )
}

#[test]
fn create_then_find_by_id_round_trips() {
    let user = Uuid::from_u128(1);
    let mut repo = InMemoryEndpointRepository::new();
    let e = endpoint_for(user, "alpha");
    repo.create(&e).expect("create");

    let got = repo.find_by_id(e.id()).expect("find").expect("present");
    assert!(got.id().same_as(e.id()));
    assert_eq!(got.user_id(), e.user_id());
    assert_eq!(got.name().as_str(), "alpha");
    assert_eq!(got.webhook_url().as_str(), e.webhook_url().as_str());
    assert_eq!(got.created_at(), e.created_at());
    assert_eq!(got.updated_at(), e.updated_at());
    assert_eq!(got.total_events(), e.total_events());
    assert_eq!(got.deleted_at(), e.deleted_at());
}

#[test]
fn find_by_id_answers_none_when_absent() {
    let repo = InMemoryEndpointRepository::new();
    let id = EndpointId::from_uuid(Uuid::from_u128(9));
    assert!(repo.find_by_id(&id).expect("find").is_none());
}

#[test]
fn duplicate_create_reports_unique_violation() {
    let user = Uuid::from_u128(1);
    let mut repo = InMemoryEndpointRepository::new();
    let e = endpoint_for(user, "alpha");
    repo.create(&e).expect("create");
    let err = repo.create(&e).unwrap_err();
    assert!(matches!(err, RepoError::UniqueViolation(_)));
    assert_eq!(repo.count_by_user(&user).expect("count"), 1);
}

#[test]
fn update_replaces_the_matching_row() {
    let user = Uuid::from_u128(1);
    let mut repo = InMemoryEndpointRepository::new();
    let mut e = endpoint_for(user, "alpha");
    repo.create(&e).expect("create");

    e.rename(EndpointName::from_trusted(String::from("beta"))).expect("rename");
    repo.update(&e).expect("update");
    // same snapshot twice: last-writer-wins, both succeed
    repo.update(&e).expect("update again");

    let got = repo.find_by_id(e.id()).expect("find").expect("present");
    assert_eq!(got.name().as_str(), "beta");
    assert_eq!(repo.count_by_user(&user).expect("count"), 1);
}

#[test]
fn update_of_a_missing_row_is_not_found() {
    let mut repo = InMemoryEndpointRepository::new();
    let e = endpoint_for(Uuid::from_u128(1), "alpha");
    let err = repo.update(&e).unwrap_err();
    assert!(matches!(err, RepoError::NotFound(_)));
}

#[test]
fn delete_is_observed_once_then_not_found() {
    let user = Uuid::from_u128(1);
    let mut repo = InMemoryEndpointRepository::new();
    let e = endpoint_for(user, "alpha");
    repo.create(&e).expect("create");

    repo.delete(e.id()).expect("first delete");
    let err = repo.delete(e.id()).unwrap_err();
    assert!(matches!(err, RepoError::NotFound(_)));
    assert_eq!(repo.count_by_user(&user).expect("count"), 0);
}

#[test]
fn find_by_user_filters_owner_and_soft_deleted() {
    let a = Uuid::from_u128(1);
    let b = Uuid::from_u128(2);
    let mut repo = InMemoryEndpointRepository::new();

    let e1 = endpoint_for(a, "one");
    let e2 = endpoint_for(b, "two");
    let mut e3 = endpoint_for(a, "three");
    e3.soft_delete().expect("soft delete");
    let e4 = endpoint_for(a, "four");

    repo.create(&e1).expect("create");
    repo.create(&e2).expect("create");
    repo.create(&e3).expect("create");
    repo.create(&e4).expect("create");

    let mine = repo.find_by_user(&a).expect("find");
    let names: Vec<&str> = mine.iter().map(|e| e.name().as_str()).collect();
    assert_eq!(names, vec!["one", "four"]);
    assert_eq!(repo.count_by_user(&a).expect("count"), 2);
    assert_eq!(repo.count_by_user(&b).expect("count"), 1);
}

#[test]
fn create_if_under_limit_inserts_only_below_the_limit() {
    let user = Uuid::from_u128(1);
    let mut repo = InMemoryEndpointRepository::new();

    for name in ["one", "two", "three"] {
        let e = endpoint_for(user, name);
        let created = repo.create_if_under_limit(&e, &user, 3).expect("atomic create");
        assert!(created);
    }
    assert_eq!(repo.count_by_user(&user).expect("count"), 3);

    // at the limit: refused, nothing inserted
    let e = endpoint_for(user, "four");
    let created = repo.create_if_under_limit(&e, &user, 3).expect("atomic create");
    assert!(!created);
    assert_eq!(repo.count_by_user(&user).expect("count"), 3);
    assert!(repo.find_by_id(e.id()).expect("find").is_none());

    // post-state count never exceeds the limit it was created under
    assert!(repo.count_by_user(&user).expect("count") <= 3);
}

#[test]
fn subscription_lookup_answers_the_seeded_row() {
    let a = Uuid::from_u128(1);
    let b = Uuid::from_u128(2);
    let mut subs = InMemorySubscriptionRepository::new();
    assert!(subs.insert(Subscription::from_existing(a, SubscriptionTier::Pro, 10)));
    assert!(!subs.insert(Subscription::from_existing(a, SubscriptionTier::Free, 1)));

    let found = subs.find_by_user(&a).expect("find").expect("present");
    assert_eq!(found.tier(), SubscriptionTier::Pro);
    assert_eq!(found.max_endpoints(), 10);
    assert_eq!(*found.user_id(), a);
    assert!(subs.find_by_user(&b).expect("find").is_none());
}
