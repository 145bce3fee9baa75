//! The background sweeper use case: find sessions whose heartbeat went
//! stale, move each through the status state machine to `Disconnected`,
//! and persist the change only where the stored row is still active.

use vstd::prelude::*;

use crate::domain::session::SessionV;
use crate::domain::status::SessionStatus;
use crate::ext::now_millis;
use crate::repo::contract::{
    distinct_session_ids, is_stale_active, ForwardingSessionRepository,
};
use crate::usecase::error::UsecaseError;

verus! {

/// At how many positions two equal-length row sequences differ.
pub open spec fn changed_count(a: Seq<SessionV>, b: Seq<SessionV>) -> nat
    decreases a.len(),
{
    if a.len() == 0 || a.len() != b.len() {
        0
    } else {
        changed_count(a.drop_last(), b.drop_last()) + if a.last() == b.last() {
            0nat
        } else {
            1nat
        }
    }
}

proof fn lemma_changed_count_refl(a: Seq<SessionV>)
    ensures
        changed_count(a, a) == 0,
    decreases a.len(),
{
    if a.len() > 0 {
        lemma_changed_count_refl(a.drop_last());
    }
}

proof fn lemma_changed_count_update(a: Seq<SessionV>, b: Seq<SessionV>, i: int, x: SessionV)
    requires
        a.len() == b.len(),
        0 <= i < a.len(),
        b[i] == a[i],
        x != a[i],
    ensures
        changed_count(a, b.update(i, x)) == changed_count(a, b) + 1,
    decreases a.len(),
{
    let b2 = b.update(i, x);
    if i == a.len() - 1 {
        assert(b2.drop_last() =~= b.drop_last());
        assert(b2.last() == x);
        assert(b.last() == a.last());
    } else {
        assert(b2.drop_last() =~= b.drop_last().update(i, x));
        assert(b2.last() == b.last());
        assert(b.drop_last()[i] == a.drop_last()[i]);
        lemma_changed_count_update(a.drop_last(), b.drop_last(), i, x);
    }
}

/// The sweeper, generic over the repository contract it depends on.
pub struct HeartbeatSweeperUseCase<R: ForwardingSessionRepository> {
    session_repo: R,
}

impl<R: ForwardingSessionRepository> HeartbeatSweeperUseCase<R> {
    /// The session rows the held repository persists.
    pub closed spec fn sessions(&self) -> Seq<SessionV> {
        self.session_repo.rows()
    }

    /// The held repository is well-formed.
    pub closed spec fn wf(&self) -> bool {
        self.session_repo.inv()
    }

    pub fn new(session_repo: R) -> (r: Self)
        ensures
            r.sessions() == session_repo.rows(),
            session_repo.inv() ==> r.wf(),
    {
        HeartbeatSweeperUseCase { session_repo }
    }

    /// Sweep one batch of stale sessions.
    ///
    /// No row is inserted or removed, and no identifier moves. A row
    /// changes only by disconnecting a then-`Connected` session: its
    /// status becomes `Disconnected`, its heartbeat stamp is kept, and its
    /// `updated_at` does not decrease. The answer counts exactly the rows
    /// that changed, at most `limit` of them. A session whose state
    /// machine rejects the disconnect (a reconnecting one) or whose
    /// stored row is no longer active is skipped, as is one whose write
    /// fails; only a failure to fetch the batch aborts the sweep, and it
    /// changes nothing.
    pub fn sweep_stale_sessions(&mut self, timeout_ms: i64, limit: i64) -> (r: Result<
        usize,
        UsecaseError,
    >)
        requires
            old(self).wf(),
        ensures
            final(self).wf(),
            match r {
                Ok(count) => {
                    &&& final(self).sessions().len() == old(self).sessions().len()
                    &&& forall|i: int|
                        0 <= i < old(self).sessions().len()
                            ==> #[trigger] final(self).sessions()[i].id
                            == old(self).sessions()[i].id
                    &&& forall|i: int|
                        0 <= i < old(self).sessions().len()
                            ==> (#[trigger] final(self).sessions()[i] == old(self).sessions()[i]
                            || (old(self).sessions()[i].status == SessionStatus::Connected
                            && final(self).sessions()[i].status == SessionStatus::Disconnected
                            && final(self).sessions()[i].last_heartbeat_at
                            == old(self).sessions()[i].last_heartbeat_at
                            && final(self).sessions()[i].updated_at
                            >= old(self).sessions()[i].updated_at))
                    &&& count == changed_count(old(self).sessions(), final(self).sessions())
                    &&& limit >= 0 ==> count <= limit
                },
                Err(e) => e@ is Infra && final(self).sessions() == old(self).sessions(),
            },
    {
        let now = now_millis();
        let wide: i128 = (now as i128) - (timeout_ms as i128);
        let cutoff: i64 = if wide < -0x8000_0000_0000_0000i128 {
            -0x8000_0000_0000_0000i64
        } else if wide > 0x7fff_ffff_ffff_ffffi128 {
            0x7fff_ffff_ffff_ffffi64
        } else {
            wide as i64
        };
        let stale = match self.session_repo.find_stale_sessions(cutoff, limit) {
            Ok(v) => v,
            Err(e) => {
                return Err(UsecaseError::from_repo(e));
            },
        };
        let ghost orig = old(self).sessions();
        proof {
            self.session_repo.inv_properties();
            lemma_changed_count_refl(orig);
        }
        let n = stale.len();
        let mut count: usize = 0;
        let mut j: usize = 0;
        while j < n
            invariant
                n == stale@.len(),
                0 <= j <= n,
                count <= j,
                orig == old(self).sessions(),
                distinct_session_ids(orig),
                self.session_repo.inv(),
                self.session_repo.rows().len() == orig.len(),
                forall|i: int|
                    0 <= i < orig.len() ==> #[trigger] self.session_repo.rows()[i].id
                        == orig[i].id,
                forall|i: int|
                    0 <= i < orig.len() ==> (#[trigger] self.session_repo.rows()[i] == orig[i] || (
                    orig[i].status == SessionStatus::Connected
                        && self.session_repo.rows()[i].status == SessionStatus::Disconnected
                        && self.session_repo.rows()[i].last_heartbeat_at
                        == orig[i].last_heartbeat_at && self.session_repo.rows()[i].updated_at
                        >= orig[i].updated_at)),
                forall|i: int|
                    0 <= i < orig.len() && #[trigger] self.session_repo.rows()[i] != orig[i]
                        ==> exists|k: int| 0 <= k < j && stale@[k]@.id == orig[i].id,
                count == changed_count(orig, self.session_repo.rows()),
                forall|k: int|
                    0 <= k < n ==> orig.contains(#[trigger] stale@[k]@) && is_stale_active(
                        stale@[k]@,
                        cutoff,
                    ),
                forall|a: int, b: int| 0 <= a < b < n ==> stale@[a]@.id != stale@[b]@.id,
            decreases n - j,
        {
            let mut session = stale[j].clone();
            let marked = session.mark_disconnected();
            if marked.is_ok() {
                let ghost before = self.session_repo.rows();
                match self.session_repo.update_if_active(&session) {
                    Ok(true) => {
                        proof {
                            let i = choose|i: int|
                                0 <= i < before.len() && before[i].id == session@.id && (
                                before[i].status == SessionStatus::Connected || before[i].status
                                    == SessionStatus::Reconnecting) && self.session_repo.rows()
                                    == before.update(i, session@);
                            assert(orig[i].id == session@.id);
                            if before[i] != orig[i] {
                                let k = choose|k: int|
                                    0 <= k < j && stale@[k]@.id == orig[i].id;
                                assert(stale@[k]@.id == stale@[j as int]@.id);
                                assert(false);
                            }
                            let sv = stale@[j as int]@;
                            let m = choose|m: int| 0 <= m < orig.len() && orig[m] == sv;
                            if m < i {
                                assert(orig[m].id != orig[i].id);
                            } else if i < m {
                                assert(orig[i].id != orig[m].id);
                            }
                            assert(orig[i] == stale@[j as int]@);
                            assert(session@.status == SessionStatus::Disconnected);
                            assert(session@ != orig[i]);
                            lemma_changed_count_update(orig, before, i, session@);
                        }
                        count = count + 1;
                    },
                    Ok(false) => {
                    },
                    Err(_) => {
                    },
                }
            }
            j = j + 1;
        }
        Ok(count)
    }
}

} // verus!
