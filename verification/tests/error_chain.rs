//! The cross-layer error chain on concrete values: every variant of each
//! taxonomy, mapped to the next layer and to the wire.

use clean_arch::api::error::ApiError;
use clean_arch::domain::error::DomainError;
use clean_arch::repo::error::{map_db_error, map_pool_error, DbErrorKind, RepoError};
use clean_arch::usecase::error::UsecaseError;

#[test]
fn domain_not_found_maps_to_404() {
    let u = UsecaseError::from_domain(DomainError::NotFound(String::from("gone missing")));
    assert!(matches!(&u, UsecaseError::NotFound(m) if m == "gone missing"));
    let a = ApiError::from_usecase(&u);
    assert_eq!(a.status, 404);
    assert_eq!(a.code, "NOT_FOUND");
    assert_eq!(a.message, "gone missing");
    assert!(a.upgrade_url.is_none());
}

#[test]
fn domain_conflict_maps_to_409() {
    let u = UsecaseError::from_domain(DomainError::Conflict(String::from("already there")));
    assert!(matches!(&u, UsecaseError::Conflict(m) if m == "already there"));
    let a = ApiError::from_usecase(&u);
    assert_eq!(a.status, 409);
    assert_eq!(a.code, "CONFLICT");
}

#[test]
fn domain_tier_limit_maps_to_409_limit_reached() {
    let u = UsecaseError::from_domain(DomainError::TierLimitExceeded(String::from("limit")));
    let a = ApiError::from_usecase(&u);
    assert_eq!(a.status, 409);
    assert_eq!(a.code, "LIMIT_REACHED");
    assert_eq!(a.upgrade_url.as_deref(), Some("/pricing"));
}

#[test]
fn domain_rate_limit_maps_to_429_with_headers() {
    let u = UsecaseError::from_domain(DomainError::RateLimitExceeded(String::from("slow down")));
    match &u {
        UsecaseError::RateLimited { message, limit, remaining, retry_after, .. } => {
            assert_eq!(message, "slow down");
            assert_eq!(*limit, 0);
            assert_eq!(*remaining, 0);
            assert_eq!(*retry_after, 0);
        }
        other => panic!("unexpected mapping: {:?}", other),
    }
    let a = ApiError::from_usecase(&u);
    assert_eq!(a.status, 429);
    assert_eq!(a.code, "RATE_LIMITED");
    assert_eq!(a.upgrade_url.as_deref(), Some("/pricing"));
    assert_eq!(a.retry_after, Some(0));
    let h = a.rate_limit.expect("rate-limit headers");
    assert_eq!(h.limit, 0);
    assert_eq!(h.remaining, 0);
}

#[test]
fn domain_validation_class_maps_to_400_with_render() {
    let u = UsecaseError::from_domain(DomainError::InvalidField {
        field: "name",
        reason: "empty",
    });
    assert!(matches!(&u, UsecaseError::Validation(m) if m == "invalid name: empty"));
    let a = ApiError::from_usecase(&u);
    assert_eq!(a.status, 400);
    assert_eq!(a.code, "VALIDATION_ERROR");
    assert_eq!(a.message, "invalid name: empty");

    let u2 = UsecaseError::from_domain(DomainError::BusinessRuleViolation(String::from("no")));
    assert!(matches!(&u2, UsecaseError::Validation(m) if m == "business rule violation: no"));
    assert_eq!(ApiError::from_usecase(&u2).status, 400);

    let u3 = UsecaseError::from_domain(DomainError::QuotaExceeded(String::from("q")));
    assert!(matches!(&u3, UsecaseError::Validation(m) if m == "quota exceeded: q"));
    assert_eq!(ApiError::from_usecase(&u3).status, 400);
}

#[test]
fn repo_not_found_identity_is_preserved() {
    let u = UsecaseError::from_repo(RepoError::NotFound(String::from("no such row")));
    assert!(matches!(&u, UsecaseError::NotFound(m) if m == "no such row"));
    assert_eq!(ApiError::from_usecase(&u).status, 404);
}

#[test]
fn repo_unique_violation_becomes_conflict_409() {
    let u = UsecaseError::from_repo(RepoError::UniqueViolation(String::from("duplicate key")));
    assert!(matches!(&u, UsecaseError::Conflict(m) if m == "duplicate key"));
    let a = ApiError::from_usecase(&u);
    assert_eq!(a.status, 409);
    assert_eq!(a.code, "CONFLICT");
}

#[test]
fn repo_infra_class_becomes_500_with_generic_message() {
    let variants = vec![
        RepoError::Db { op: "endpoint.create", source: anyhow::Error::msg("boom") },
        RepoError::DbWithEntity {
            op: "endpoint.update",
            entity_id: String::from("e-1"),
            source: anyhow::Error::msg("boom"),
        },
        RepoError::ForeignKeyViolation(String::from("fk")),
        RepoError::ConnectionError(String::from("pool exhausted")),
    ];
    for v in variants {
        let u = UsecaseError::from_repo(v);
        assert!(matches!(&u, UsecaseError::Infra(_)));
        let a = ApiError::from_usecase(&u);
        assert_eq!(a.status, 500);
        assert_eq!(a.code, "INTERNAL_ERROR");
        assert_eq!(a.message, "An internal error occurred");
    }
}

#[test]
fn infra_cause_is_kept_for_logging_but_not_surfaced() {
    let u = UsecaseError::from_repo(RepoError::Db {
        op: "endpoint.create",
        source: anyhow::Error::msg("connection refused at 10.0.0.7"),
    });
    match &u {
        UsecaseError::Infra(cause) => {
            let chain = format!("{:?}", cause);
            assert!(chain.contains("connection refused"));
        }
        other => panic!("unexpected mapping: {:?}", other),
    }
    let a = ApiError::from_usecase(&u);
    assert!(!a.message.contains("connection refused"));
}

#[test]
fn status_code_follows_the_fixed_table() {
    assert_eq!(UsecaseError::NotFound(String::from("x")).status_code(), 404);
    assert_eq!(UsecaseError::Validation(String::from("x")).status_code(), 400);
    assert_eq!(UsecaseError::Unauthorized.status_code(), 401);
    assert_eq!(UsecaseError::Forbidden.status_code(), 403);
    assert_eq!(UsecaseError::Conflict(String::from("x")).status_code(), 409);
    assert_eq!(UsecaseError::TierLimitExceeded(String::from("x")).status_code(), 409);
    assert_eq!(
        UsecaseError::RateLimited {
            message: String::from("x"),
            limit: 10,
            remaining: 0,
            reset_at: 1700000000,
            retry_after: 30,
        }
        .status_code(),
        429
    );
    assert_eq!(UsecaseError::Gone(String::from("x")).status_code(), 410);
    assert_eq!(UsecaseError::Infra(anyhow::Error::msg("x")).status_code(), 500);
}

#[test]
fn gone_maps_to_410() {
    let a = ApiError::from_usecase(&UsecaseError::Gone(String::from("tombstone")));
    assert_eq!(a.status, 410);
    assert_eq!(a.code, "GONE");
    assert_eq!(a.message, "tombstone");
}

#[test]
fn db_error_kinds_map_one_to_one() {
    let r = map_db_error("endpoint.find_by_id", DbErrorKind::NotFound);
    assert!(matches!(&r, RepoError::NotFound(m) if m == "endpoint.find_by_id returned no rows"));

    let r = map_db_error("endpoint.create", DbErrorKind::UniqueViolation(String::from("dup")));
    assert!(matches!(&r, RepoError::UniqueViolation(m) if m == "dup"));

    let r = map_db_error("endpoint.create", DbErrorKind::ForeignKeyViolation(String::from("fk")));
    assert!(matches!(&r, RepoError::ForeignKeyViolation(m) if m == "fk"));

    let r = map_db_error("endpoint.create", DbErrorKind::Other(anyhow::Error::msg("io")));
    assert!(matches!(&r, RepoError::Db { op: "endpoint.create", .. }));
}

#[test]
fn pool_errors_become_connection_errors() {
    let r = map_pool_error(String::from("timed out waiting for connection"));
    assert!(matches!(&r, RepoError::ConnectionError(m) if m == "timed out waiting for connection"));
}

#[test]
fn domain_render_is_stable() {
    assert_eq!(
        DomainError::InvalidField { field: "webhook_url", reason: "too long" }.render(),
        "invalid webhook_url: too long"
    );
    assert_eq!(
        DomainError::NotFound(String::from("endpoint e-9")).render(),
        "not found: endpoint e-9"
    );
    assert_eq!(
        DomainError::TierLimitExceeded(String::from("3")).render(),
        "tier limit exceeded: 3"
    );
    assert_eq!(
        DomainError::RateLimitExceeded(String::from("again")).render(),
        "rate limit exceeded: again"
    );
    assert_eq!(DomainError::Conflict(String::from("c")).render(), "conflict: c");
}
