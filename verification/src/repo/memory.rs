//! Verified in-memory repositories: the reference implementations of the
//! persistence contracts, and the test doubles use cases run against.

use vstd::prelude::*;

use crate::domain::endpoint::{Endpoint, EndpointV};
use crate::domain::ids::EndpointId;
use crate::domain::session::{ForwardingSession, SessionV};
use crate::domain::subscription::{Subscription, SubscriptionV};
use crate::ext::{anyhow_from_msg, uuid_eq};
use crate::repo::contract::{
    distinct_endpoint_ids, distinct_session_ids, distinct_subscription_users, has_endpoint_id,
    has_subscription_for, is_stale_active, lemma_live_rows_take_step, live_count_for,
    live_rows_for, EndpointRepository, ForwardingSessionRepository, SubscriptionRepository,
};
use crate::repo::error::RepoError;
use uuid::Uuid;

verus! {

/// The in-memory stores refuse growth beyond this bound, reporting a
/// database-style failure, so that row counts always fit the interface's
/// signed 64-bit integers.
pub const MAX_ROWS: usize = 0x7fff_ffff;

/// A verified in-memory endpoint repository.
#[derive(Debug)]
pub struct InMemoryEndpointRepository {
    items: Vec<Endpoint>,
}

impl InMemoryEndpointRepository {
    /// An empty store.
    pub fn new() -> (r: Self)
        ensures
            r.inv(),
            r.rows() == Seq::<EndpointV>::empty(),
    {
        let r = InMemoryEndpointRepository { items: Vec::new() };
        proof {
            assert(r.rows() =~= Seq::<EndpointV>::empty());
        }
        r
    }

    /// The index of the row carrying `id`, if any.
    fn index_of(&self, id: &Uuid) -> (r: Option<usize>)
        ensures
            match r {
                Some(i) => i < self.rows().len() && self.rows()[i as int].id == *id,
                None => !has_endpoint_id(self.rows(), *id),
            },
    {
        let n = self.items.len();
        let mut i: usize = 0;
        while i < n
            invariant
                n == self.items@.len(),
                0 <= i <= n,
                forall|j: int| 0 <= j < i ==> self.rows()[j].id != *id,
            decreases n - i,
        {
            if uuid_eq(self.items[i].id().as_uuid(), id) {
                return Some(i);
            }
            i = i + 1;
        }
        None
    }
}

impl EndpointRepository for InMemoryEndpointRepository {
    closed spec fn rows(&self) -> Seq<EndpointV> {
        self.items@.map_values(|e: Endpoint| e@)
    }

    closed spec fn inv(&self) -> bool {
        distinct_endpoint_ids(self.rows()) && self.items@.len() <= MAX_ROWS
    }

    proof fn inv_properties(&self) {
    }

    fn create(&mut self, endpoint: &Endpoint) -> (r: Result<(), RepoError>) {
        if self.items.len() >= MAX_ROWS {
            return Err(
                RepoError::Db {
                    op: "endpoint.create",
                    source: anyhow_from_msg(String::from_str("in-memory store is full")),
                },
            );
        }
        match self.index_of(endpoint.id().as_uuid()) {
            Some(_) => Err(
                RepoError::UniqueViolation(String::from_str("endpoint id already exists")),
            ),
            None => {
                self.items.push(endpoint.clone());
                proof {
                    assert(self.rows() =~= old(self).rows().push(endpoint@));
                    let rows = self.rows();
                    assert forall|i: int, j: int|
                        0 <= i < j < rows.len() implies rows[i].id != rows[j].id by {
                        if j == rows.len() - 1 {
                            assert(!(0 <= i < old(self).rows().len() && old(self).rows()[i].id
                                == endpoint@.id));
                        }
                    }
                }
                Ok(())
            },
        }
    }

    fn find_by_id(&self, id: &EndpointId) -> (r: Result<Option<Endpoint>, RepoError>) {
        match self.index_of(id.as_uuid()) {
            Some(i) => {
                let e = self.items[i].clone();
                proof {
                    assert(self.rows().contains(e@));
                }
                Ok(Some(e))
            },
            None => Ok(None),
        }
    }

    fn find_by_user(&self, user_id: &Uuid) -> (r: Result<Vec<Endpoint>, RepoError>) {
        let n = self.items.len();
        let mut out: Vec<Endpoint> = Vec::new();
        let mut i: usize = 0;
        proof {
            assert(self.rows().take(0) =~= Seq::<EndpointV>::empty());
            assert(out@.map_values(|e: Endpoint| e@) =~= Seq::<EndpointV>::empty());
        }
        while i < n
            invariant
                n == self.items@.len(),
                0 <= i <= n,
                out@.map_values(|e: Endpoint| e@) == live_rows_for(
                    self.rows().take(i as int),
                    *user_id,
                ),
            decreases n - i,
        {
            let e = &self.items[i];
            proof {
                lemma_live_rows_take_step(self.rows(), *user_id, i as int);
            }
            if uuid_eq(e.user_id(), user_id) && !e.is_deleted() {
                let ghost prev = out@;
                out.push(e.clone());
                proof {
                    assert(out@.map_values(|e: Endpoint| e@) =~= prev.map_values(
                        |e: Endpoint| e@,
                    ).push(self.rows()[i as int]));
                }
            }
            i = i + 1;
        }
        proof {
            assert(self.rows().take(n as int) =~= self.rows());
        }
        Ok(out)
    }

    fn update(&mut self, endpoint: &Endpoint) -> (r: Result<(), RepoError>) {
        match self.index_of(endpoint.id().as_uuid()) {
            Some(i) => {
                self.items[i] = endpoint.clone();
                proof {
                    assert(self.rows() =~= old(self).rows().update(i as int, endpoint@));
                    let rows = self.rows();
                    assert forall|a: int, b: int|
                        0 <= a < b < rows.len() implies rows[a].id != rows[b].id by {
                        assert(old(self).rows()[a].id != old(self).rows()[b].id);
                    }
                }
                Ok(())
            },
            None => Err(RepoError::NotFound(String::from_str("endpoint not found"))),
        }
    }

    fn delete(&mut self, id: &EndpointId) -> (r: Result<(), RepoError>) {
        match self.index_of(id.as_uuid()) {
            Some(i) => {
                self.items.remove(i);
                proof {
                    assert(self.rows() =~= old(self).rows().remove(i as int));
                    let rows = self.rows();
                    let prev = old(self).rows();
                    assert forall|a: int, b: int|
                        0 <= a < b < rows.len() implies rows[a].id != rows[b].id by {
                        let pa: int = if a < i { a } else { a + 1 };
                        let pb: int = if b < i { b } else { b + 1 };
                        assert(rows[a] == prev[pa]);
                        assert(rows[b] == prev[pb]);
                        assert(prev[pa].id != prev[pb].id);
                    }
                }
                Ok(())
            },
            None => Err(RepoError::NotFound(String::from_str("endpoint not found"))),
        }
    }

    fn count_by_user(&self, user_id: &Uuid) -> (r: Result<i64, RepoError>) {
        let n = self.items.len();
        let mut count: i64 = 0;
        let mut i: usize = 0;
        proof {
            assert(self.rows().take(0) =~= Seq::<EndpointV>::empty());
        }
        while i < n
            invariant
                self.inv(),
                n == self.items@.len(),
                0 <= i <= n,
                0 <= count <= i,
                count == live_count_for(self.rows().take(i as int), *user_id),
            decreases n - i,
        {
            let e = &self.items[i];
            proof {
                lemma_live_rows_take_step(self.rows(), *user_id, i as int);
            }
            if uuid_eq(e.user_id(), user_id) && !e.is_deleted() {
                count = count + 1;
            }
            i = i + 1;
        }
        proof {
            assert(self.rows().take(n as int) =~= self.rows());
        }
        Ok(count)
    }

    fn create_if_under_limit(
        &mut self,
        endpoint: &Endpoint,
        user_id: &Uuid,
        max_endpoints: i64,
    ) -> (r: Result<bool, RepoError>) {
        let count = match self.count_by_user(user_id) {
            Ok(c) => c,
            Err(e) => {
                return Err(e);
            },
        };
        if count >= max_endpoints {
            return Ok(false);
        }
        if self.items.len() >= MAX_ROWS {
            return Err(
                RepoError::Db {
                    op: "endpoint.create_if_under_limit",
                    source: anyhow_from_msg(String::from_str("in-memory store is full")),
                },
            );
        }
        match self.index_of(endpoint.id().as_uuid()) {
            Some(_) => Err(
                RepoError::UniqueViolation(String::from_str("endpoint id already exists")),
            ),
            None => {
                self.items.push(endpoint.clone());
                proof {
                    assert(self.rows() =~= old(self).rows().push(endpoint@));
                    let rows = self.rows();
                    assert forall|i: int, j: int|
                        0 <= i < j < rows.len() implies rows[i].id != rows[j].id by {
                        if j == rows.len() - 1 {
                            assert(!(0 <= i < old(self).rows().len() && old(self).rows()[i].id
                                == endpoint@.id));
                        }
                    }
                }
                Ok(true)
            },
        }
    }
}

/// A verified in-memory subscription repository.
#[derive(Debug)]
pub struct InMemorySubscriptionRepository {
    items: Vec<Subscription>,
}

impl InMemorySubscriptionRepository {
    /// An empty store.
    pub fn new() -> (r: Self)
        ensures
            r.inv(),
            r.subs() == Seq::<SubscriptionV>::empty(),
    {
        let r = InMemorySubscriptionRepository { items: Vec::new() };
        proof {
            assert(r.subs() =~= Seq::<SubscriptionV>::empty());
        }
        r
    }

    /// The index of the row for `user`, if any.
    fn index_of_user(&self, user: &Uuid) -> (r: Option<usize>)
        ensures
            match r {
                Some(i) => i < self.subs().len() && self.subs()[i as int].user_id == *user,
                None => !has_subscription_for(self.subs(), *user),
            },
    {
        let n = self.items.len();
        let mut i: usize = 0;
        while i < n
            invariant
                n == self.items@.len(),
                0 <= i <= n,
                forall|j: int| 0 <= j < i ==> self.subs()[j].user_id != *user,
            decreases n - i,
        {
            if uuid_eq(self.items[i].user_id(), user) {
                return Some(i);
            }
            i = i + 1;
        }
        None
    }

    /// Seed one subscription row. Refuses a second row for the same user
    /// and growth beyond the store bound.
    pub fn insert(&mut self, sub: Subscription) -> (r: bool)
        requires
            old(self).inv(),
        ensures
            final(self).inv(),
            r ==> !has_subscription_for(old(self).subs(), sub@.user_id) && final(self).subs()
                == old(self).subs().push(sub@),
            !r ==> final(self).subs() == old(self).subs(),
    {
        if self.items.len() >= MAX_ROWS {
            return false;
        }
        match self.index_of_user(sub.user_id()) {
            Some(_) => false,
            None => {
                let ghost sv = sub@;
                self.items.push(sub);
                proof {
                    assert(self.subs() =~= old(self).subs().push(sv));
                    let subs = self.subs();
                    assert forall|i: int, j: int|
                        0 <= i < j < subs.len() implies subs[i].user_id != subs[j].user_id by {
                        if j == subs.len() - 1 {
                            assert(!(0 <= i < old(self).subs().len() && old(
                                self,
                            ).subs()[i].user_id == sv.user_id));
                        }
                    }
                }
                true
            },
        }
    }
}

impl SubscriptionRepository for InMemorySubscriptionRepository {
    closed spec fn subs(&self) -> Seq<SubscriptionV> {
        self.items@.map_values(|s: Subscription| s@)
    }

    closed spec fn inv(&self) -> bool {
        distinct_subscription_users(self.subs()) && self.items@.len() <= MAX_ROWS
    }

    proof fn inv_properties(&self) {
    }

    fn find_by_user(&self, user_id: &Uuid) -> (r: Result<Option<Subscription>, RepoError>) {
        match self.index_of_user(user_id) {
            Some(i) => {
                let s = self.items[i].clone();
                proof {
                    assert(self.subs().contains(s@));
                }
                Ok(Some(s))
            },
            None => Ok(None),
        }
    }
}

/// Whether some session row carries the given identifier.
pub open spec fn has_session_id(rows: Seq<SessionV>, id: Uuid) -> bool {
    exists|i: int| 0 <= i < rows.len() && rows[i].id == id
}

/// A verified in-memory forwarding-session repository.
#[derive(Debug)]
pub struct InMemorySessionRepository {
    items: Vec<ForwardingSession>,
}

impl InMemorySessionRepository {
    /// An empty store.
    pub fn new() -> (r: Self)
        ensures
            r.inv(),
            r.rows() == Seq::<SessionV>::empty(),
    {
        let r = InMemorySessionRepository { items: Vec::new() };
        proof {
            assert(r.rows() =~= Seq::<SessionV>::empty());
        }
        r
    }

    /// The index of the row carrying `id`, if any.
    fn index_of_session(&self, id: &Uuid) -> (r: Option<usize>)
        ensures
            match r {
                Some(i) => i < self.rows().len() && self.rows()[i as int].id == *id,
                None => !has_session_id(self.rows(), *id),
            },
    {
        let n = self.items.len();
        let mut i: usize = 0;
        while i < n
            invariant
                n == self.items@.len(),
                0 <= i <= n,
                forall|j: int| 0 <= j < i ==> self.rows()[j].id != *id,
            decreases n - i,
        {
            if uuid_eq(self.items[i].id().as_uuid(), id) {
                return Some(i);
            }
            i = i + 1;
        }
        None
    }

    /// Seed one session row. Refuses a duplicate identifier and growth
    /// beyond the store bound.
    pub fn insert(&mut self, session: ForwardingSession) -> (r: bool)
        requires
            old(self).inv(),
        ensures
            final(self).inv(),
            r ==> !has_session_id(old(self).rows(), session@.id) && final(self).rows() == old(
                self,
            ).rows().push(session@),
            !r ==> final(self).rows() == old(self).rows(),
    {
        if self.items.len() >= MAX_ROWS {
            return false;
        }
        match self.index_of_session(session.id().as_uuid()) {
            Some(_) => false,
            None => {
                let ghost sv = session@;
                self.items.push(session);
                proof {
                    assert(self.rows() =~= old(self).rows().push(sv));
                    let rows = self.rows();
                    assert forall|i: int, j: int|
                        0 <= i < j < rows.len() implies rows[i].id != rows[j].id by {
                        if j == rows.len() - 1 {
                            assert(!(0 <= i < old(self).rows().len() && old(self).rows()[i].id
                                == sv.id));
                        }
                    }
                }
                true
            },
        }
    }
}

impl ForwardingSessionRepository for InMemorySessionRepository {
    closed spec fn rows(&self) -> Seq<SessionV> {
        self.items@.map_values(|s: ForwardingSession| s@)
    }

    closed spec fn inv(&self) -> bool {
        distinct_session_ids(self.rows()) && self.items@.len() <= MAX_ROWS
    }

    proof fn inv_properties(&self) {
    }

    fn find_stale_sessions(&self, cutoff: i64, limit: i64) -> (r: Result<
        Vec<ForwardingSession>,
        RepoError,
    >) {
        let mut out: Vec<ForwardingSession> = Vec::new();
        if limit <= 0 {
            return Ok(out);
        }
        let n = self.items.len();
        let mut i: usize = 0;
        let ghost mut idxs: Seq<int> = Seq::empty();
        while i < n && (out.len() as i64) < limit
            invariant
                self.inv(),
                n == self.items@.len(),
                0 <= i <= n,
                out@.len() == idxs.len(),
                out@.len() <= i,
                limit >= 0 ==> out@.len() <= limit,
                forall|k: int| 0 <= k < idxs.len() ==> 0 <= #[trigger] idxs[k] < i,
                forall|a: int, b: int| 0 <= a < b < idxs.len() ==> idxs[a] < idxs[b],
                forall|k: int|
                    0 <= k < out@.len() ==> #[trigger] out@[k]@ == self.rows()[idxs[k]],
                forall|k: int| 0 <= k < out@.len() ==> is_stale_active(#[trigger] out@[k]@, cutoff),
            decreases n - i,
        {
            let s = &self.items[i];
            let st = s.status();
            if s.last_heartbeat_at() < cutoff && st.is_active() {
                out.push(s.clone());
                proof {
                    idxs = idxs.push(i as int);
                }
            }
            i = i + 1;
        }
        proof {
            assert forall|a: int, b: int|
                0 <= a < b < out@.len() implies out@[a]@.id != out@[b]@.id by {
                assert(0 <= idxs[a] < idxs[b] < n);
                assert(self.rows()[idxs[a]].id != self.rows()[idxs[b]].id);
            }
            assert forall|k: int| 0 <= k < out@.len() implies self.rows().contains(
                #[trigger] out@[k]@,
            ) by {
                assert(self.rows()[idxs[k]] == out@[k]@);
            }
        }
        Ok(out)
    }

    fn update_if_active(&mut self, session: &ForwardingSession) -> (r: Result<bool, RepoError>) {
        match self.index_of_session(session.id().as_uuid()) {
            None => {
                proof {
                    assert forall|i: int|
                        0 <= i < self.rows().len() && self.rows()[i].id == session@.id implies !(
                        self.rows()[i].status == crate::domain::status::SessionStatus::Connected
                            || self.rows()[i].status
                            == crate::domain::status::SessionStatus::Reconnecting) by {
                        assert(has_session_id(self.rows(), session@.id));
                    }
                }
                Ok(false)
            },
            Some(i) => {
                let st = self.items[i].status();
                if st.is_active() {
                    self.items[i] = session.clone();
                    proof {
                        assert(self.rows() =~= old(self).rows().update(i as int, session@));
                        let rows = self.rows();
                        assert forall|a: int, b: int|
                            0 <= a < b < rows.len() implies rows[a].id != rows[b].id by {
                            assert(old(self).rows()[a].id != old(self).rows()[b].id);
                        }
                    }
                    Ok(true)
                } else {
                    proof {
                        assert forall|j: int|
                            0 <= j < self.rows().len() && self.rows()[j].id == session@.id
                            implies !(self.rows()[j].status
                            == crate::domain::status::SessionStatus::Connected
                            || self.rows()[j].status
                            == crate::domain::status::SessionStatus::Reconnecting) by {
                            if j != i as int {
                                assert(self.rows()[j].id != self.rows()[i as int].id);
                            }
                        }
                    }
                    Ok(false)
                }
            },
        }
    }
}

} // verus!
