//! The repository contracts: trait-shaped persistence interfaces, one per
//! aggregate root, stated over the abstract sequence of persisted rows.
//! Use cases depend on these contracts, never on concrete implementations.

use vstd::prelude::*;

use crate::domain::endpoint::{Endpoint, EndpointV};
use crate::domain::ids::EndpointId;
use crate::domain::session::{ForwardingSession, SessionV};
use crate::domain::status::SessionStatus;
use crate::domain::subscription::{Subscription, SubscriptionV};
use crate::repo::error::{is_infra, RepoError, RepoErrorV};
use uuid::Uuid;

verus! {

/// Whether some persisted row carries the given endpoint identifier.
pub open spec fn has_endpoint_id(rows: Seq<EndpointV>, id: Uuid) -> bool {
    exists|i: int| 0 <= i < rows.len() && rows[i].id == id
}

/// Endpoint identifiers are pairwise distinct.
pub open spec fn distinct_endpoint_ids(rows: Seq<EndpointV>) -> bool {
    forall|i: int, j: int| 0 <= i < j < rows.len() ==> rows[i].id != rows[j].id
}

/// The rows a user-scoped read answers with: the user's rows without the
/// soft-deleted ones, in stored order.
pub open spec fn live_rows_for(rows: Seq<EndpointV>, user: Uuid) -> Seq<EndpointV>
    decreases rows.len(),
{
    if rows.len() == 0 {
        rows
    } else {
        let rest = live_rows_for(rows.drop_last(), user);
        if rows.last().user_id == user && rows.last().deleted_at is None {
            rest.push(rows.last())
        } else {
            rest
        }
    }
}

/// How many live rows the user has: the scope of the tier limit.
pub open spec fn live_count_for(rows: Seq<EndpointV>, user: Uuid) -> nat {
    live_rows_for(rows, user).len()
}

/// Unfolding step for a prefix scan: extending the prefix by one row either
/// appends that row to the user's live rows or leaves them unchanged.
pub proof fn lemma_live_rows_take_step(rows: Seq<EndpointV>, user: Uuid, i: int)
    requires
        0 <= i < rows.len(),
    ensures
        live_rows_for(rows.take(i + 1), user) == if rows[i].user_id == user
            && rows[i].deleted_at is None {
            live_rows_for(rows.take(i), user).push(rows[i])
        } else {
            live_rows_for(rows.take(i), user)
        },
{
    let t = rows.take(i + 1);
    assert(t.drop_last() =~= rows.take(i));
    assert(t.last() == rows[i]);
}

/// Appending a row for the scoped user grows the live count by exactly
/// one; appending any other row leaves it unchanged. In particular, a
/// creation guarded by `live_count < max` keeps the post-state count at or
/// under `max`.
pub proof fn lemma_live_count_push(rows: Seq<EndpointV>, user: Uuid, e: EndpointV)
    ensures
        live_count_for(rows.push(e), user) == if e.user_id == user && e.deleted_at is None {
            live_count_for(rows, user) + 1
        } else {
            live_count_for(rows, user)
        },
{
    let t = rows.push(e);
    assert(t.drop_last() =~= rows);
    assert(t.last() == e);
}

/// Round trip: a row created into a store that did not hold its
/// identifier is the only row `find_by_id` can answer with for that
/// identifier — the entity read back is value-equal to the one written.
pub proof fn lemma_create_then_find_round_trip(rows: Seq<EndpointV>, e: EndpointV)
    requires
        !has_endpoint_id(rows, e.id),
    ensures
        forall|x: EndpointV| rows.push(e).contains(x) && x.id == e.id ==> x == e,
        has_endpoint_id(rows.push(e), e.id),
{
    let grown = rows.push(e);
    assert(grown[grown.len() - 1] == e);
    assert forall|x: EndpointV| grown.contains(x) && x.id == e.id implies x == e by {
        let i = choose|i: int| 0 <= i < grown.len() && grown[i] == x;
        if i < rows.len() {
            assert(rows[i] == x);
        }
    }
}

/// Idempotence of deletion: removing the only row that carries an
/// identifier leaves a store in which that identifier no longer matches,
/// so a second delete of the same identifier reports `NotFound`.
pub proof fn lemma_delete_is_observed_once(rows: Seq<EndpointV>, i: int)
    requires
        distinct_endpoint_ids(rows),
        0 <= i < rows.len(),
    ensures
        !has_endpoint_id(rows.remove(i), rows[i].id),
{
    let shrunk = rows.remove(i);
    assert forall|j: int| 0 <= j < shrunk.len() implies shrunk[j].id != rows[i].id by {
        let p: int = if j < i {
            j
        } else {
            j + 1
        };
        assert(shrunk[j] == rows[p]);
        if p < i {
            assert(rows[p].id != rows[i].id);
        } else {
            assert(rows[i].id != rows[p].id);
        }
    }
}

/// Idempotence of update: replacing the row that carries an entity's
/// identifier keeps that identifier present, so updating with the same
/// snapshot a second time succeeds as well.
pub proof fn lemma_update_keeps_identity(rows: Seq<EndpointV>, i: int, e: EndpointV)
    requires
        0 <= i < rows.len(),
        rows[i].id == e.id,
    ensures
        has_endpoint_id(rows.update(i, e), e.id),
{
    assert(rows.update(i, e)[i] == e);
}

/// Persistence contract for the endpoint aggregate.
///
/// `rows` is the abstract store: the persisted rows in stored order. Every
/// operation either answers from that store, changes it as stated, or
/// reports an infrastructure failure and leaves it unchanged.
pub trait EndpointRepository: Sized {
    /// The rows currently persisted, in stored order.
    spec fn rows(&self) -> Seq<EndpointV>;

    /// The implementation's well-formedness.
    spec fn inv(&self) -> bool;

    /// A well-formed store holds pairwise-distinct identifiers and fits the
    /// signed 64-bit counts the interface reports.
    proof fn inv_properties(&self)
        requires
            self.inv(),
        ensures
            distinct_endpoint_ids(self.rows()),
            self.rows().len() <= 0x7fff_ffff,
    ;

    /// Persist a new endpoint. On success the row is appended; a
    /// unique-key conflict reports `UniqueViolation` and changes nothing.
    fn create(&mut self, endpoint: &Endpoint) -> (r: Result<(), RepoError>)
        requires
            old(self).inv(),
        ensures
            final(self).inv(),
            match r {
                Ok(()) => !has_endpoint_id(old(self).rows(), endpoint@.id) && final(self).rows() == old(self).rows().push(endpoint@),
                Err(e) => {
                    &&& final(self).rows() == old(self).rows()
                    &&& e@ is UniqueViolation || is_infra(e@)
                    &&& e@ is UniqueViolation ==> has_endpoint_id(old(self).rows(), endpoint@.id)
                },
            },
    ;

    /// Look an endpoint up by identifier. Absence is `Ok(None)`, not an
    /// error.
    fn find_by_id(&self, id: &EndpointId) -> (r: Result<Option<Endpoint>, RepoError>)
        requires
            self.inv(),
        ensures
            match r {
                Ok(Some(e)) => self.rows().contains(e@) && e@.id == id@,
                Ok(None) => !has_endpoint_id(self.rows(), id@),
                Err(e) => is_infra(e@),
            },
    ;

    /// All live (not soft-deleted) endpoints of one user, in stored order.
    fn find_by_user(&self, user_id: &Uuid) -> (r: Result<Vec<Endpoint>, RepoError>)
        requires
            self.inv(),
        ensures
            match r {
                Ok(v) => v@.map_values(|e: Endpoint| e@) == live_rows_for(
                    self.rows(),
                    *user_id,
                ),
                Err(e) => is_infra(e@),
            },
    ;

    /// Replace the stored row that carries the entity's identifier.
    /// Reports `NotFound` when no row matches.
    fn update(&mut self, endpoint: &Endpoint) -> (r: Result<(), RepoError>)
        requires
            old(self).inv(),
        ensures
            final(self).inv(),
            match r {
                Ok(()) => exists|i: int|
                    0 <= i < old(self).rows().len() && old(self).rows()[i].id == endpoint@.id
                        && final(self).rows() == old(self).rows().update(i, endpoint@),
                Err(e) => {
                    &&& final(self).rows() == old(self).rows()
                    &&& e@ is NotFound || is_infra(e@)
                    &&& e@ is NotFound ==> !has_endpoint_id(old(self).rows(), endpoint@.id)
                },
            },
    ;

    /// Remove the row with the given identifier. Reports `NotFound` when
    /// no row matches.
    fn delete(&mut self, id: &EndpointId) -> (r: Result<(), RepoError>)
        requires
            old(self).inv(),
        ensures
            final(self).inv(),
            match r {
                Ok(()) => exists|i: int|
                    0 <= i < old(self).rows().len() && old(self).rows()[i].id == id@ && final(self).rows() == old(self).rows().remove(i),
                Err(e) => {
                    &&& final(self).rows() == old(self).rows()
                    &&& e@ is NotFound || is_infra(e@)
                    &&& e@ is NotFound ==> !has_endpoint_id(old(self).rows(), id@)
                },
            },
    ;

    /// Count one user's live endpoints.
    fn count_by_user(&self, user_id: &Uuid) -> (r: Result<i64, RepoError>)
        requires
            self.inv(),
        ensures
            match r {
                Ok(n) => n == live_count_for(self.rows(), *user_id),
                Err(e) => is_infra(e@),
            },
    ;

    /// Atomically count the user's live endpoints and insert only when the
    /// count is under the limit. `Ok(true)` means created; `Ok(false)`
    /// means refused because the limit was reached, with nothing inserted.
    /// Both are success outcomes; only database failures are errors.
    fn create_if_under_limit(
        &mut self,
        endpoint: &Endpoint,
        user_id: &Uuid,
        max_endpoints: i64,
    ) -> (r: Result<bool, RepoError>)
        requires
            old(self).inv(),
        ensures
            final(self).inv(),
            match r {
                Ok(true) => {
                    &&& live_count_for(old(self).rows(), *user_id) < max_endpoints
                    &&& !has_endpoint_id(old(self).rows(), endpoint@.id)
                    &&& final(self).rows() == old(self).rows().push(endpoint@)
                },
                Ok(false) => live_count_for(old(self).rows(), *user_id) >= max_endpoints
                    && final(self).rows() == old(self).rows(),
                Err(e) => {
                    &&& final(self).rows() == old(self).rows()
                    &&& e@ is UniqueViolation || is_infra(e@)
                    &&& e@ is UniqueViolation ==> has_endpoint_id(old(self).rows(), endpoint@.id)
                },
            },
    ;
}

/// Whether some subscription row belongs to the given user.
pub open spec fn has_subscription_for(subs: Seq<SubscriptionV>, user: Uuid) -> bool {
    exists|i: int| 0 <= i < subs.len() && subs[i].user_id == user
}

/// Subscription rows are keyed by user: at most one row per user.
pub open spec fn distinct_subscription_users(subs: Seq<SubscriptionV>) -> bool {
    forall|i: int, j: int| 0 <= i < j < subs.len() ==> subs[i].user_id != subs[j].user_id
}

/// Persistence contract for the subscription read model.
pub trait SubscriptionRepository: Sized {
    /// The subscription rows currently persisted.
    spec fn subs(&self) -> Seq<SubscriptionV>;

    /// The implementation's well-formedness.
    spec fn inv(&self) -> bool;

    /// A well-formed store holds at most one subscription per user.
    proof fn inv_properties(&self)
        requires
            self.inv(),
        ensures
            distinct_subscription_users(self.subs()),
    ;

    /// Look the user's subscription up. Absence is `Ok(None)`, not an
    /// error.
    fn find_by_user(&self, user_id: &Uuid) -> (r: Result<Option<Subscription>, RepoError>)
        requires
            self.inv(),
        ensures
            match r {
                Ok(Some(s)) => self.subs().contains(s@) && s@.user_id == *user_id,
                Ok(None) => !has_subscription_for(self.subs(), *user_id),
                Err(e) => is_infra(e@),
            },
    ;
}

/// Session identifiers are pairwise distinct.
pub open spec fn distinct_session_ids(rows: Seq<SessionV>) -> bool {
    forall|i: int, j: int| 0 <= i < j < rows.len() ==> rows[i].id != rows[j].id
}

/// A session the sweeper must reap: still active, but its heartbeat is
/// older than the cutoff.
pub open spec fn is_stale_active(s: SessionV, cutoff: i64) -> bool {
    s.last_heartbeat_at < cutoff && (s.status == SessionStatus::Connected || s.status
        == SessionStatus::Reconnecting)
}

/// Persistence contract for the forwarding-session aggregate, shaped for
/// the heartbeat sweeper.
pub trait ForwardingSessionRepository: Sized {
    /// The session rows currently persisted, in stored order.
    spec fn rows(&self) -> Seq<SessionV>;

    /// The implementation's well-formedness.
    spec fn inv(&self) -> bool;

    /// A well-formed store holds pairwise-distinct identifiers.
    proof fn inv_properties(&self)
        requires
            self.inv(),
        ensures
            distinct_session_ids(self.rows()),
    ;

    /// Up to `limit` stored sessions that are still active but whose
    /// heartbeat is older than `cutoff`. Which stale sessions are picked
    /// is left to the implementation; every answer is a batch of distinct
    /// stale-active stored rows.
    fn find_stale_sessions(&self, cutoff: i64, limit: i64) -> (r: Result<
        Vec<ForwardingSession>,
        RepoError,
    >)
        requires
            self.inv(),
        ensures
            match r {
                Ok(v) => {
                    &&& limit >= 0 ==> v@.len() <= limit
                    &&& forall|i: int|
                        0 <= i < v@.len() ==> self.rows().contains(#[trigger] v@[i]@)
                            && is_stale_active(v@[i]@, cutoff)
                    &&& forall|i: int, j: int|
                        0 <= i < j < v@.len() ==> v@[i]@.id != v@[j]@.id
                },
                Err(e) => is_infra(e@),
            },
    ;

    /// Replace the stored row that carries the session's identifier, but
    /// only if that row is still active. `Ok(false)` means nothing was
    /// written: either no row matches or the row is no longer active.
    fn update_if_active(&mut self, session: &ForwardingSession) -> (r: Result<bool, RepoError>)
        requires
            old(self).inv(),
        ensures
            final(self).inv(),
            match r {
                Ok(true) => exists|i: int|
                    0 <= i < old(self).rows().len() && old(self).rows()[i].id == session@.id && (
                    old(self).rows()[i].status == SessionStatus::Connected || old(
                        self,
                    ).rows()[i].status == SessionStatus::Reconnecting) && final(self).rows() == old(self).rows().update(i, session@),
                Ok(false) => {
                    &&& final(self).rows() == old(self).rows()
                    &&& forall|i: int|
                        0 <= i < old(self).rows().len() && old(self).rows()[i].id == session@.id
                            ==> !(old(self).rows()[i].status == SessionStatus::Connected || old(
                            self,
                        ).rows()[i].status == SessionStatus::Reconnecting)
                },
                Err(e) => final(self).rows() == old(self).rows() && is_infra(e@),
            },
    ;
}

} // verus!
