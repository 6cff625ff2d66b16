//! Rules of the idle-connection pool for the outbound leg.
//!
//! The pool caches idle outbound connections to the single upstream
//! target. An idle connection is reused only while it is within the idle
//! timeout; expired entries are evicted, never handed out. The number of
//! idle entries retained is capped. A connection whose outbound leg fails
//! is simply not released, so it never re-enters the idle set.
//! Connections are identified by the number they were opened under, so
//! the count of numbers given out is the count of distinct outbound
//! connections ever opened.

use vstd::prelude::*;

verus! {

/// Configuration of the pool: how long an idle connection may wait before
/// it is dropped rather than reused, and how many idle connections are
/// retained at most.
#[derive(Clone, Copy, PartialEq, Eq, Structural)]
pub struct PoolConfig {
    pub idle_timeout_ms: u64,
    pub max_idle: usize,
}

/// One idle outbound connection: the number it was opened under and the
/// time it went idle.
#[derive(Clone, Copy, PartialEq, Eq, Structural)]
pub struct IdleEntry {
    pub conn_id: u64,
    pub idle_since_ms: u64,
}

/// Mathematical image of the pool.
pub ghost struct PoolModel {
    pub idle: Seq<IdleEntry>,
    pub next_id: u64,
    pub idle_timeout_ms: u64,
    pub max_idle: usize,
}

impl PoolModel {
    /// The cap on retained idle connections holds.
    pub open spec fn wf(self) -> bool {
        self.idle.len() <= self.max_idle
    }
}

/// Whether an idle connection has outlived the idle timeout at `now_ms`.
pub open spec fn entry_expired(e: IdleEntry, now_ms: u64, timeout_ms: u64) -> bool {
    e.idle_since_ms + timeout_ms < now_ms
}

/// What acquiring a connection at `now_ms` does: expired entries at the
/// top of the stack are evicted until a live one is reused; if none is
/// left, a new connection is opened under the next number.
pub open spec fn acquire_model(m: PoolModel, now_ms: u64) -> (PoolModel, u64, bool)
    decreases m.idle.len(),
{
    if m.idle.len() == 0 {
        (
            PoolModel {
                idle: m.idle,
                next_id: (m.next_id + 1) as u64,
                idle_timeout_ms: m.idle_timeout_ms,
                max_idle: m.max_idle,
            },
            m.next_id,
            true,
        )
    } else {
        let rest = PoolModel {
            idle: m.idle.drop_last(),
            next_id: m.next_id,
            idle_timeout_ms: m.idle_timeout_ms,
            max_idle: m.max_idle,
        };
        if entry_expired(m.idle.last(), now_ms, m.idle_timeout_ms) {
            acquire_model(rest, now_ms)
        } else {
            (rest, m.idle.last().conn_id, false)
        }
    }
}

/// What returning connection `conn_id` to the pool at `now_ms` does: it is
/// retained as idle if the cap leaves room, else dropped.
pub open spec fn release_model(m: PoolModel, conn_id: u64, now_ms: u64) -> PoolModel {
    if m.idle.len() < m.max_idle {
        PoolModel {
            idle: m.idle.push(IdleEntry { conn_id, idle_since_ms: now_ms }),
            next_id: m.next_id,
            idle_timeout_ms: m.idle_timeout_ms,
            max_idle: m.max_idle,
        }
    } else {
        m
    }
}

/// The idle outbound connections to the fixed upstream target, with the
/// number the next opened connection will carry.
pub struct Pool {
    pub config: PoolConfig,
    pub idle: Vec<IdleEntry>,
    pub next_id: u64,
}

impl View for Pool {
    type V = PoolModel;

    open spec fn view(&self) -> PoolModel {
        PoolModel {
            idle: self.idle@,
            next_id: self.next_id,
            idle_timeout_ms: self.config.idle_timeout_ms,
            max_idle: self.config.max_idle,
        }
    }
}

impl Pool {
    /// A pool with no idle connections and no connection yet opened.
    pub fn new(config: PoolConfig) -> (p: Pool)
        ensures
            p@.idle == Seq::<IdleEntry>::empty(),
            p@.next_id == 0,
            p@.idle_timeout_ms == config.idle_timeout_ms,
            p@.max_idle == config.max_idle,
            p@.wf(),
    {
        Pool { config, idle: Vec::new(), next_id: 0 }
    }

    /// Acquires a connection for one outbound request: the reused idle
    /// connection's number and `false`, or a newly opened connection's
    /// number and `true`.
    pub fn acquire(&mut self, now_ms: u64) -> (r: (u64, bool))
        requires
            old(self)@.wf(),
            old(self)@.next_id < u64::MAX,
        ensures
            final(self)@.wf(),
            (final(self)@, r.0, r.1) == acquire_model(old(self)@, now_ms),
    {
        loop
            invariant
                self@.wf(),
                self.next_id < u64::MAX,
                acquire_model(self@, now_ms) == acquire_model(old(self)@, now_ms),
            decreases self.idle.len(),
        {
            if self.idle.len() == 0 {
                let id = self.next_id;
                self.next_id = self.next_id + 1;
                return (id, true);
            }
            let ghost pre = self@;
            let e = self.idle[self.idle.len() - 1];
            let timeout = self.config.idle_timeout_ms;
            let is_expired = now_ms > timeout && e.idle_since_ms < now_ms - timeout;
            proof {
                assert(e == pre.idle.last());
                assert(is_expired == entry_expired(e, now_ms, pre.idle_timeout_ms));
            }
            let _ = self.idle.pop();
            proof {
                assert(self@.idle =~= pre.idle.drop_last());
            }
            if !is_expired {
                return (e.conn_id, false);
            }
        }
    }

    /// Returns a connection to the pool after a completed response.
    pub fn release(&mut self, conn_id: u64, now_ms: u64)
        requires
            old(self)@.wf(),
        ensures
            final(self)@.wf(),
            final(self)@ == release_model(old(self)@, conn_id, now_ms),
    {
        if self.idle.len() < self.config.max_idle {
            self.idle.push(IdleEntry { conn_id, idle_since_ms: now_ms });
        }
    }
}

/// Idle eviction: a connection handed out as reused was idle in the pool
/// and within the idle timeout at the moment of acquisition — one left
/// idle beyond the timeout is never reused — and a new connection is
/// opened exactly when every idle entry has outlived the timeout.
pub proof fn lemma_no_expired_reuse(m: PoolModel, now_ms: u64)
    ensures
        ({
            let (m2, id, fresh) = acquire_model(m, now_ms);
            &&& !fresh ==> exists|i: int|
                0 <= i < m.idle.len() && m.idle[i].conn_id == id && !entry_expired(
                    m.idle[i],
                    now_ms,
                    m.idle_timeout_ms,
                )
            &&& fresh <==> (forall|i: int|
                0 <= i < m.idle.len() ==> entry_expired(m.idle[i], now_ms, m.idle_timeout_ms))
            &&& fresh ==> id == m.next_id
            &&& !fresh ==> m2.next_id == m.next_id
        }),
    decreases m.idle.len(),
{
    if m.idle.len() == 0 {
    } else {
        let rest = PoolModel {
            idle: m.idle.drop_last(),
            next_id: m.next_id,
            idle_timeout_ms: m.idle_timeout_ms,
            max_idle: m.max_idle,
        };
        let last_i = m.idle.len() - 1;
        assert(m.idle[last_i] == m.idle.last());
        assert(forall|i: int| 0 <= i < rest.idle.len() ==> #[trigger] rest.idle[i] == m.idle[i]);
        if entry_expired(m.idle.last(), now_ms, m.idle_timeout_ms) {
            lemma_no_expired_reuse(rest, now_ms);
            let (m2, id, fresh) = acquire_model(rest, now_ms);
            assert((m2, id, fresh) == acquire_model(m, now_ms));
            if !fresh {
                let i = choose|i: int|
                    0 <= i < rest.idle.len() && rest.idle[i].conn_id == id && !entry_expired(
                        rest.idle[i],
                        now_ms,
                        rest.idle_timeout_ms,
                    );
                assert(m.idle[i].conn_id == id && !entry_expired(
                    m.idle[i],
                    now_ms,
                    m.idle_timeout_ms,
                ));
            } else {
                assert forall|i: int| 0 <= i < m.idle.len() implies entry_expired(
                    #[trigger] m.idle[i],
                    now_ms,
                    m.idle_timeout_ms,
                ) by {
                    if i < last_i {
                        assert(rest.idle[i] == m.idle[i]);
                    }
                }
            }
        } else {
            let id = m.idle.last().conn_id;
            assert(m.idle[last_i].conn_id == id && !entry_expired(
                m.idle[last_i],
                now_ms,
                m.idle_timeout_ms,
            ));
        }
    }
}

/// One request/response cycle against the pool: a connection acquired at
/// `t_acq`, used for the round trip, and returned at `t_rel`.
pub open spec fn cycle_model(m: PoolModel, t_acq: u64, t_rel: u64) -> PoolModel {
    let (m1, id, fresh) = acquire_model(m, t_acq);
    release_model(m1, id, t_rel)
}

/// The pool after a sequence of such cycles, each given as the pair of
/// its acquire time and its release time.
pub open spec fn run_cycles(m: PoolModel, ts: Seq<(u64, u64)>) -> PoolModel
    decreases ts.len(),
{
    if ts.len() == 0 {
        m
    } else {
        run_cycles(cycle_model(m, ts[0].0, ts[0].1), ts.drop_first())
    }
}

/// The cycles are sequential — each acquire comes at or after the
/// previous release — and each comes within the idle timeout of the
/// previous release.
pub open spec fn well_spaced(ts: Seq<(u64, u64)>, timeout_ms: u64) -> bool {
    &&& forall|k: int| 0 <= k < ts.len() ==> #[trigger] ts[k].0 <= ts[k].1
    &&& forall|k: int|
        0 <= k < ts.len() - 1 ==> #[trigger] ts[k].1 <= ts[k + 1].0 && ts[k + 1].0 <= ts[k].1
            + timeout_ms
}

/// Helper for the reuse law: with exactly one idle connection, still
/// within its timeout when the next cycle begins, a well-spaced run of
/// cycles opens no connection at all.
proof fn lemma_run_cycles_reuses_single(m: PoolModel, ts: Seq<(u64, u64)>)
    requires
        m.idle.len() == 1,
        m.max_idle >= 1,
        well_spaced(ts, m.idle_timeout_ms),
        ts.len() > 0 ==> m.idle[0].idle_since_ms + m.idle_timeout_ms >= ts[0].0,
    ensures
        run_cycles(m, ts).next_id == m.next_id,
    decreases ts.len(),
{
    if ts.len() > 0 {
        let e = m.idle[0];
        assert(e == m.idle.last());
        assert(!entry_expired(e, ts[0].0, m.idle_timeout_ms));
        let (m1, id, fresh) = acquire_model(m, ts[0].0);
        assert(!fresh && id == e.conn_id && m1.idle =~= m.idle.drop_last());
        assert(m1.idle.len() == 0);
        let m2 = release_model(m1, id, ts[0].1);
        assert(m2.idle == m1.idle.push(IdleEntry { conn_id: id, idle_since_ms: ts[0].1 }));
        assert(m2.idle.len() == 1 && m2.idle[0].idle_since_ms == ts[0].1);
        let rest = ts.drop_first();
        assert forall|k: int| 0 <= k < rest.len() implies #[trigger] rest[k].0 <= rest[k].1 by {
            assert(rest[k] == ts[k + 1]);
        }
        assert forall|k: int| 0 <= k < rest.len() - 1 implies #[trigger] rest[k].1 <= rest[k + 1].0
            && rest[k + 1].0 <= rest[k].1 + m2.idle_timeout_ms by {
            assert(rest[k] == ts[k + 1] && rest[k + 1] == ts[k + 2]);
        }
        if rest.len() > 0 {
            assert(rest[0] == ts[1]);
            assert(ts[1].0 <= ts[0].1 + m.idle_timeout_ms);
        }
        lemma_run_cycles_reuses_single(m2, rest);
    }
}

/// Connection reuse: starting from a pool with no idle connection and
/// room to retain at least one, a well-spaced sequence of N sequential
/// request cycles opens at most one distinct outbound connection in all —
/// the bound comes from the pool's timeout and capacity, not from N.
pub proof fn lemma_sequential_cycles_open_at_most_one(m: PoolModel, ts: Seq<(u64, u64)>)
    requires
        m.idle.len() == 0,
        m.max_idle >= 1,
        m.next_id < u64::MAX,
        well_spaced(ts, m.idle_timeout_ms),
    ensures
        run_cycles(m, ts).next_id <= m.next_id + 1,
        ts.len() > 0 ==> run_cycles(m, ts).next_id == m.next_id + 1,
        ts.len() == 0 ==> run_cycles(m, ts) == m,
{
    if ts.len() > 0 {
        let (m1, id, fresh) = acquire_model(m, ts[0].0);
        assert(fresh && id == m.next_id && m1.next_id == m.next_id + 1);
        let m2 = release_model(m1, id, ts[0].1);
        assert(m2.idle.len() == 1 && m2.idle[0].idle_since_ms == ts[0].1);
        assert(m2.next_id == m.next_id + 1);
        let rest = ts.drop_first();
        assert forall|k: int| 0 <= k < rest.len() implies #[trigger] rest[k].0 <= rest[k].1 by {
            assert(rest[k] == ts[k + 1]);
        }
        assert forall|k: int| 0 <= k < rest.len() - 1 implies #[trigger] rest[k].1 <= rest[k + 1].0
            && rest[k + 1].0 <= rest[k].1 + m2.idle_timeout_ms by {
            assert(rest[k] == ts[k + 1] && rest[k + 1] == ts[k + 2]);
        }
        if rest.len() > 0 {
            assert(rest[0] == ts[1]);
            assert(ts[1].0 <= ts[0].1 + m.idle_timeout_ms);
        }
        lemma_run_cycles_reuses_single(m2, rest);
    }
}

} // verus!
