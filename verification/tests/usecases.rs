//! The use cases end to end against the in-memory repositories: the
//! validation reject, the successful creation, the tier limit, the
//! authorization failures, and the sweeper.

use clean_arch::api::dto::{AuthUser, CreateEndpointRequest, CreateEndpointResponse};
use clean_arch::api::error::ApiError;
use clean_arch::domain::endpoint::Endpoint;
use clean_arch::domain::ids::{EndpointId, SessionId};
use clean_arch::domain::session::ForwardingSession;
use clean_arch::domain::status::SessionStatus;
use clean_arch::domain::subscription::{Subscription, SubscriptionTier};
use clean_arch::domain::values::{EndpointName, WebhookUrl};
use clean_arch::repo::contract::EndpointRepository;
use clean_arch::repo::memory::{
    InMemoryEndpointRepository, InMemorySessionRepository, InMemorySubscriptionRepository,
};
use clean_arch::usecase::create_endpoint::{CreateEndpointInput, CreateEndpointUseCase};
use clean_arch::usecase::error::UsecaseError;
use clean_arch::usecase::get_endpoint::GetEndpointUseCase;
use clean_arch::usecase::heartbeat::HeartbeatSweeperUseCase;
use uuid::Uuid;

fn usecase_with(
    subs: Vec<Subscription>,
) -> CreateEndpointUseCase<InMemoryEndpointRepository, InMemorySubscriptionRepository> {
    let endpoints = InMemoryEndpointRepository::new();
    let mut subscriptions = InMemorySubscriptionRepository::new();
    for s in subs {
        assert!(subscriptions.insert(s));
    }
    CreateEndpointUseCase::new(endpoints, subscriptions)
}

#[test]
fn validation_reject_answers_400_and_skips_persistence() {
    let actor = Uuid::from_u128(1);
    let mut uc = usecase_with(vec![Subscription::from_existing(actor, SubscriptionTier::Pro, 3)]);

    let request = CreateEndpointRequest { name: String::from("  "), provider_label: None };
    let input = request.into_input(AuthUser { user_id: actor });
    let err = uc.execute(input).unwrap_err();

    let api = ApiError::from_usecase(&err);
    assert_eq!(api.status, 400);
    assert_eq!(api.code, "VALIDATION_ERROR");
    assert_eq!(api.message, "invalid name: empty");

    // the repository was not touched
    let (endpoints, _) = uc.into_parts();
    assert_eq!(endpoints.count_by_user(&actor).expect("count"), 0);
}

#[test]
fn create_succeeds_on_an_empty_account() {
    let actor = Uuid::from_u128(1);
    let mut uc = usecase_with(vec![Subscription::from_existing(actor, SubscriptionTier::Pro, 3)]);

    let request = CreateEndpointRequest {
        name: String::from("alpha"),
        provider_label: Some(String::from("github")),
    };
    let out = uc.execute(request.into_input(AuthUser { user_id: actor })).expect("created");

    assert_eq!(out.name, "alpha");
    assert_ne!(out.id, Uuid::nil());
    assert!(out.webhook_url.starts_with("https://hooks.example.dev/in/wh_"));
    assert_eq!(out.webhook_url.len(), 53);
    assert_eq!(out.provider_label.as_deref(), Some("github"));

    let response = CreateEndpointResponse::from_output(out);
    assert_eq!(response.name, "alpha");

    // the row count for the actor increased by exactly one
    let (endpoints, _) = uc.into_parts();
    assert_eq!(endpoints.count_by_user(&actor).expect("count"), 1);
    let stored = endpoints
        .find_by_id(&EndpointId::from_uuid(response.id))
        .expect("find")
        .expect("present");
    assert_eq!(stored.name().as_str(), "alpha");
    assert!(stored.is_owned_by(&actor));
}

#[test]
fn tier_limit_reached_answers_409_with_upgrade_url() {
    let actor = Uuid::from_u128(1);
    let mut uc = usecase_with(vec![Subscription::from_existing(actor, SubscriptionTier::Pro, 3)]);

    for name in ["one", "two", "three"] {
        let req = CreateEndpointRequest { name: String::from(name), provider_label: None };
        uc.execute(req.into_input(AuthUser { user_id: actor })).expect("created");
    }

    let req = CreateEndpointRequest { name: String::from("four"), provider_label: None };
    let err = uc.execute(req.into_input(AuthUser { user_id: actor })).unwrap_err();
    assert!(
        matches!(&err, UsecaseError::TierLimitExceeded(m)
            if m == "pro tier allows 3 endpoints. Limit reached.")
    );

    let api = ApiError::from_usecase(&err);
    assert_eq!(api.status, 409);
    assert_eq!(api.code, "LIMIT_REACHED");
    assert_eq!(api.message, "pro tier allows 3 endpoints. Limit reached.");
    assert_eq!(api.upgrade_url.as_deref(), Some("/pricing"));

    // the row count is unchanged
    let (endpoints, _) = uc.into_parts();
    assert_eq!(endpoints.count_by_user(&actor).expect("count"), 3);
}

#[test]
fn default_limit_without_subscription_is_one_free_endpoint() {
    let actor = Uuid::from_u128(7);
    let mut uc = usecase_with(vec![]);

    let req = CreateEndpointRequest { name: String::from("only"), provider_label: None };
    uc.execute(req.into_input(AuthUser { user_id: actor })).expect("created");

    let req = CreateEndpointRequest { name: String::from("second"), provider_label: None };
    let err = uc.execute(req.into_input(AuthUser { user_id: actor })).unwrap_err();
    assert!(
        matches!(&err, UsecaseError::TierLimitExceeded(m)
            if m == "free tier allows 1 endpoints. Limit reached.")
    );
}

#[test]
fn missing_auth_answers_401_and_skips_the_use_case() {
    let mut uc = usecase_with(vec![]);
    let req = CreateEndpointRequest { name: String::from("alpha"), provider_label: None };
    let err = uc.execute(req.into_input(AuthUser { user_id: Uuid::nil() })).unwrap_err();
    assert!(matches!(err, UsecaseError::Unauthorized));

    let api = ApiError::from_usecase(&err);
    assert_eq!(api.status, 401);
    assert_eq!(api.code, "UNAUTHORIZED");
    assert_eq!(api.message, "unauthorized");

    let (endpoints, _) = uc.into_parts();
    assert_eq!(endpoints.count_by_user(&Uuid::nil()).expect("count"), 0);
}

#[test]
fn read_of_a_foreign_endpoint_is_forbidden_and_leaks_nothing() {
    let owner = Uuid::from_u128(1);
    let intruder = Uuid::from_u128(2);

    let mut endpoints = InMemoryEndpointRepository::new();
    let e = Endpoint::new(
        owner,
        EndpointName::from_trusted(String::from("alpha")),
        WebhookUrl::from_trusted(String::from("https://hooks.example.dev/in/wh_a")),
        None,
    );
    endpoints.create(&e).expect("create");
    let id = *e.id();

    let uc = GetEndpointUseCase::new(endpoints);
    let err = uc.execute(intruder, id).unwrap_err();
    assert!(matches!(err, UsecaseError::Forbidden));

    let api = ApiError::from_usecase(&err);
    assert_eq!(api.status, 403);
    assert_eq!(api.code, "FORBIDDEN");
    assert_eq!(api.message, "forbidden");

    // the owner still reads it
    let out = uc.execute(owner, id).expect("read");
    assert_eq!(out.name, "alpha");
    assert_eq!(out.total_events, 0);
}

#[test]
fn read_of_a_missing_endpoint_is_not_found() {
    let uc = GetEndpointUseCase::new(InMemoryEndpointRepository::new());
    let err = uc
        .execute(Uuid::from_u128(1), EndpointId::from_uuid(Uuid::from_u128(5)))
        .unwrap_err();
    assert!(matches!(&err, UsecaseError::NotFound(m) if m == "endpoint not found"));
    assert_eq!(ApiError::from_usecase(&err).status, 404);
}

#[test]
fn read_of_a_soft_deleted_endpoint_is_gone() {
    let owner = Uuid::from_u128(1);
    let mut endpoints = InMemoryEndpointRepository::new();
    let mut e = Endpoint::new(
        owner,
        EndpointName::from_trusted(String::from("alpha")),
        WebhookUrl::from_trusted(String::from("https://hooks.example.dev/in/wh_a")),
        None,
    );
    e.soft_delete().expect("soft delete");
    endpoints.create(&e).expect("create");
    let id = *e.id();

    let uc = GetEndpointUseCase::new(endpoints);
    let err = uc.execute(owner, id).unwrap_err();
    assert!(matches!(&err, UsecaseError::Gone(m) if m == "endpoint deleted"));
    assert_eq!(ApiError::from_usecase(&err).status, 410);
}

#[test]
fn read_with_missing_auth_is_unauthorized() {
    let uc = GetEndpointUseCase::new(InMemoryEndpointRepository::new());
    let err = uc.execute(Uuid::nil(), EndpointId::from_uuid(Uuid::from_u128(5))).unwrap_err();
    assert!(matches!(err, UsecaseError::Unauthorized));
}

fn session(id: u128, status: SessionStatus, heartbeat: i64) -> ForwardingSession {
    ForwardingSession::from_existing(
        SessionId::from_uuid(Uuid::from_u128(id)),
        status,
        heartbeat,
        heartbeat,
    )
}

#[test]
fn sweeper_disconnects_only_stale_connected_sessions() {
    let mut repo = InMemorySessionRepository::new();
    // ancient heartbeat, connected: swept
    assert!(repo.insert(session(1, SessionStatus::Connected, 0)));
    // ancient heartbeat, reconnecting: the state machine rejects the
    // disconnect, so it is skipped
    assert!(repo.insert(session(2, SessionStatus::Reconnecting, 0)));
    // fresh heartbeat, connected: not stale
    assert!(repo.insert(session(3, SessionStatus::Connected, i64::MAX / 2)));
    // ancient heartbeat, stopped: not active
    assert!(repo.insert(session(4, SessionStatus::Stopped, 0)));

    let mut sweeper = HeartbeatSweeperUseCase::new(repo);
    let swept = sweeper.sweep_stale_sessions(60_000, 10).expect("sweep");
    assert_eq!(swept, 1);

    // a second sweep finds nothing left to disconnect
    let swept_again = sweeper.sweep_stale_sessions(60_000, 10).expect("sweep");
    assert_eq!(swept_again, 0);
}

#[test]
fn sweeper_honors_the_batch_limit() {
    let mut repo = InMemorySessionRepository::new();
    for i in 0..5u128 {
        assert!(repo.insert(session(i, SessionStatus::Connected, 0)));
    }
    let mut sweeper = HeartbeatSweeperUseCase::new(repo);
    let swept = sweeper.sweep_stale_sessions(60_000, 2).expect("sweep");
    assert_eq!(swept, 2);
    let swept = sweeper.sweep_stale_sessions(60_000, 100).expect("sweep");
    assert_eq!(swept, 3);
}
