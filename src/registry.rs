//! The daemon's state: the table of live sessions, each with the handle of
//! the task that serves it, the session-id counter, and the idle clock.
//!
//! Session ids increase strictly for the life of the daemon, so the table,
//! kept in order of registration, is sorted by id and holds no id twice.

use crate::idle::{idle_tick, tick_spec, TickVerdict};
use tokio::task::JoinHandle;
use vstd::prelude::*;

verus! {

#[verifier::external_type_specification]
#[verifier::external_body]
#[verifier::reject_recursive_types(T)]
pub struct ExJoinHandle<T>(JoinHandle<T>);

#[verifier::external_type_specification]
#[verifier::external_body]
pub struct ExJoinError(tokio::task::JoinError);

/// Relies on tokio's `JoinHandle::is_finished`: whether the session's task
/// has completed. That depends on the scheduler, so nothing is stated of it.
#[verifier::external_body]
fn task_finished(task: &JoinHandle<()>) -> (r: bool) {
    task.is_finished()
}

/// Relies on tokio's `JoinHandle::abort`: asks the runtime to cancel the
/// task; it has no result.
#[verifier::external_body]
fn abort_task(task: &JoinHandle<()>) {
    task.abort()
}

/// One live session: its id and the task serving its connection.
pub struct Session {
    pub id: u64,
    pub task: JoinHandle<()>,
}

/// The ids that remain of `ids` when the sessions flagged in `finished`
/// (by position) are removed, in their order.
pub open spec fn survivors(ids: Seq<u64>, finished: Seq<bool>) -> Seq<u64>
    decreases ids.len(),
{
    if ids.len() == 0 {
        Seq::empty()
    } else {
        let rest = survivors(ids.drop_last(), finished);
        if finished[ids.len() - 1] {
            rest
        } else {
            rest.push(ids.last())
        }
    }
}

/// Strictly increasing ids, all of them below `bound`.
pub open spec fn ids_below(ids: Seq<u64>, bound: int) -> bool {
    &&& forall|i: int, j: int| 0 <= i < j < ids.len() ==> ids[i] < ids[j]
    &&& forall|i: int| 0 <= i < ids.len() ==> ids[i] < bound
}

/// Removing sessions keeps the remaining ids in order, and each of them
/// was in the table before.
pub proof fn lemma_survivors_ordered(ids: Seq<u64>, finished: Seq<bool>, bound: int)
    requires
        ids_below(ids, bound),
        ids.len() <= finished.len(),
    ensures
        ids_below(survivors(ids, finished), bound),
        forall|x: u64| survivors(ids, finished).contains(x) ==> ids.contains(x),
    decreases ids.len(),
{
    if ids.len() > 0 {
        let init = ids.drop_last();
        lemma_survivors_ordered(init, finished, bound);
        let rest = survivors(init, finished);
        assert forall|x: u64| rest.contains(x) implies x < ids.last() by {
            assert(init.contains(x));
            let i = choose|i: int| 0 <= i < init.len() && init[i] == x;
            assert(ids[i] == x);
        }
        if !finished[ids.len() - 1] {
            let s = rest.push(ids.last());
            assert forall|x: u64| s.contains(x) implies ids.contains(x) by {
                if x != ids.last() {
                    assert(rest.contains(x));
                    assert(init.contains(x));
                    let i = choose|i: int| 0 <= i < init.len() && init[i] == x;
                    assert(ids[i] == x);
                } else {
                    assert(ids[ids.len() - 1] == x);
                }
            }
            assert forall|i: int, j: int| 0 <= i < j < s.len() implies s[i] < s[j] by {
                if j == s.len() - 1 {
                    assert(rest.contains(s[i]));
                }
            }
        } else {
            assert forall|x: u64| rest.contains(x) implies ids.contains(x) by {
                assert(init.contains(x));
                let i = choose|i: int| 0 <= i < init.len() && init[i] == x;
                assert(ids[i] == x);
            }
        }
    }
}

/// The idle clock after a tick that decided `v`, where it read `prev`.
pub open spec fn clock_after(v: TickVerdict, prev: u64) -> u64 {
    match v {
        TickVerdict::Continue { idle_since } => idle_since,
        TickVerdict::Stop => prev,
    }
}

/// The idle clock's rule: a tick that sees live sessions resets the clock
/// to the tick's time; a tick that sees none never moves it.
pub proof fn lemma_idle_clock_rule(live: nat, idle_since: u64, now: u64, timeout: int)
    ensures
        live > 0 ==> clock_after(tick_spec(live, idle_since as int, now as int, timeout), idle_since)
            == now,
        live == 0 ==> clock_after(tick_spec(live, idle_since as int, now as int, timeout), idle_since)
            == idle_since,
{
}

/// The state that the daemon's governing loop owns.
pub struct DaemonState {
    sessions: Vec<Session>,
    next_id: u64,
    idle_since: u64,
    idle_timeout: u64,
}

impl DaemonState {
    /// The ids of the live sessions, in order of registration.
    pub closed spec fn ids(&self) -> Seq<u64> {
        self.sessions@.map_values(|s: Session| s.id)
    }

    /// The id the next session will get.
    pub closed spec fn next_id(&self) -> u64 {
        self.next_id
    }

    /// When the idle clock was last reset.
    pub closed spec fn idle_since(&self) -> u64 {
        self.idle_since
    }

    /// How long the daemon stays up with no session.
    pub closed spec fn idle_timeout(&self) -> u64 {
        self.idle_timeout
    }

    /// Ids are unique, in order of registration, and below the counter.
    pub open spec fn wf(&self) -> bool {
        ids_below(self.ids(), self.next_id() as int)
    }

    /// A daemon with no session, whose idle clock starts at `now`.
    pub fn new(idle_timeout: u64, now: u64) -> (s: Self)
        ensures
            s.wf(),
            s.ids() == Seq::<u64>::empty(),
            s.next_id() == 0,
            s.idle_since() == now,
            s.idle_timeout() == idle_timeout,
    {
        let s = DaemonState { sessions: Vec::new(), next_id: 0, idle_since: now, idle_timeout };
        assert(s.ids() =~= Seq::<u64>::empty());
        s
    }

    /// The number of live sessions.
    pub fn session_count(&self) -> (n: usize)
        ensures
            n == self.ids().len(),
    {
        self.sessions.len()
    }

    /// When the idle clock was last reset.
    pub fn idle_clock(&self) -> (t: u64)
        ensures
            t == self.idle_since(),
    {
        self.idle_since
    }

    /// The id that the next accepted session will get, or `None` once the
    /// ids are used up.
    pub fn next_session_id(&self) -> (r: Option<u64>)
        ensures
            r == (if self.next_id() < u64::MAX {
                Some(self.next_id())
            } else {
                None
            }),
    {
        if self.next_id < u64::MAX {
            Some(self.next_id)
        } else {
            None
        }
    }

    /// Records a newly accepted session served by `task`: it gets the next
    /// id, which is returned, and the idle clock is reset to `now`.
    pub fn register(&mut self, task: JoinHandle<()>, now: u64) -> (id: u64)
        requires
            old(self).wf(),
            old(self).next_id() < u64::MAX,
        ensures
            final(self).wf(),
            id == old(self).next_id(),
            final(self).ids() == old(self).ids().push(id),
            final(self).next_id() == id + 1,
            final(self).idle_since() == now,
            final(self).idle_timeout() == old(self).idle_timeout(),
    {
        let id = self.next_id;
        self.sessions.push(Session { id, task });
        self.next_id = id + 1;
        self.idle_since = now;
        assert(self.ids() =~= old(self).ids().push(id));
        id
    }

    /// Drops from the table every session flagged in `finished`, which
    /// holds one flag per session, in table order.
    pub fn retain_unfinished(&mut self, finished: &Vec<bool>)
        requires
            old(self).wf(),
            finished@.len() == old(self).ids().len(),
        ensures
            final(self).wf(),
            final(self).ids() == survivors(old(self).ids(), finished@),
            final(self).next_id() == old(self).next_id(),
            final(self).idle_since() == old(self).idle_since(),
            final(self).idle_timeout() == old(self).idle_timeout(),
    {
        let ghost ids0 = old(self).ids();
        let mut i: usize = 0;
        let mut j: usize = 0;
        while j < finished.len()
            invariant
                finished@.len() == ids0.len(),
                i <= j <= ids0.len(),
                self.sessions@.len() == i + (ids0.len() - j),
                self.ids() == survivors(ids0.take(j as int), finished@) + ids0.skip(j as int),
                survivors(ids0.take(j as int), finished@).len() == i,
                self.next_id == old(self).next_id,
                self.idle_since == old(self).idle_since,
                self.idle_timeout == old(self).idle_timeout,
            decreases finished.len() - j,
        {
            let ghost before = self.ids();
            let ghost kept = survivors(ids0.take(j as int), finished@);
            assert(ids0.take(j as int + 1).drop_last() =~= ids0.take(j as int));
            assert(before[i as int] == ids0[j as int]);
            if finished[j] {
                let ghost before_s = self.sessions@;
                let _done = self.sessions.remove(i);
                assert(self.ids() =~= before.remove(i as int));
                assert(self.ids() =~= kept + ids0.skip(j as int + 1));
            } else {
                assert(self.ids() =~= kept.push(ids0[j as int]) + ids0.skip(j as int + 1));
                i = i + 1;
            }
            j = j + 1;
        }
        assert(ids0.take(ids0.len() as int) =~= ids0);
        assert(self.ids() =~= survivors(ids0, finished@));
        proof {
            lemma_survivors_ordered(ids0, finished@, self.next_id as int);
        }
    }

    /// One tick of the idle monitor, given which sessions' tasks have
    /// finished (one flag per session, in table order): those sessions are
    /// dropped; then, if any session is left, the idle clock is reset to
    /// `now`, and if none is, `true` says that the daemon has had no session
    /// for the whole idle timeout and must stop.
    pub fn tick_with(&mut self, finished: &Vec<bool>, now: u64) -> (stop: bool)
        requires
            old(self).wf(),
            finished@.len() == old(self).ids().len(),
        ensures
            final(self).wf(),
            final(self).ids() == survivors(old(self).ids(), finished@),
            stop == (tick_spec(
                final(self).ids().len(),
                old(self).idle_since() as int,
                now as int,
                old(self).idle_timeout() as int,
            ) == TickVerdict::Stop),
            final(self).idle_since() == clock_after(
                tick_spec(
                    final(self).ids().len(),
                    old(self).idle_since() as int,
                    now as int,
                    old(self).idle_timeout() as int,
                ),
                old(self).idle_since(),
            ),
            final(self).next_id() == old(self).next_id(),
            final(self).idle_timeout() == old(self).idle_timeout(),
    {
        self.retain_unfinished(finished);
        let verdict = idle_tick(self.sessions.len(), self.idle_since, now, self.idle_timeout);
        match verdict {
            TickVerdict::Continue { idle_since } => {
                self.idle_since = idle_since;
                false
            },
            TickVerdict::Stop => true,
        }
    }

    /// One tick of the idle monitor: asks each session's task whether it
    /// has finished, then proceeds as `tick_with` does with those answers.
    pub fn tick(&mut self, now: u64) -> (stop: bool)
        requires
            old(self).wf(),
        ensures
            final(self).wf(),
            exists|finished: Seq<bool>|
                {
                    &&& finished.len() == old(self).ids().len()
                    &&& final(self).ids() == survivors(old(self).ids(), finished)
                    &&& stop == (tick_spec(
                        final(self).ids().len(),
                        old(self).idle_since() as int,
                        now as int,
                        old(self).idle_timeout() as int,
                    ) == TickVerdict::Stop)
                    &&& final(self).idle_since() == clock_after(
                        tick_spec(
                            final(self).ids().len(),
                            old(self).idle_since() as int,
                            now as int,
                            old(self).idle_timeout() as int,
                        ),
                        old(self).idle_since(),
                    )
                },
            final(self).next_id() == old(self).next_id(),
            final(self).idle_timeout() == old(self).idle_timeout(),
    {
        let mut finished: Vec<bool> = Vec::new();
        let mut k: usize = 0;
        while k < self.sessions.len()
            invariant
                finished@.len() == k,
                k <= self.sessions@.len(),
            decreases self.sessions@.len() - k,
        {
            finished.push(task_finished(&self.sessions[k].task));
            k = k + 1;
        }
        self.tick_with(&finished, now)
    }

    /// Ends the daemon's sessions: every session's task is cancelled at
    /// once, with no drain. Returns the ids of those sessions, in table
    /// order.
    pub fn shutdown(self) -> (cancelled: Vec<u64>)
        ensures
            cancelled@ == self.ids(),
    {
        let mut cancelled: Vec<u64> = Vec::new();
        let mut k: usize = 0;
        while k < self.sessions.len()
            invariant
                k <= self.sessions@.len(),
                cancelled@ == self.ids().take(k as int),
            decreases self.sessions@.len() - k,
        {
            abort_task(&self.sessions[k].task);
            cancelled.push(self.sessions[k].id);
            k = k + 1;
            assert(cancelled@ =~= self.ids().take(k as int));
        }
        assert(self.ids().take(k as int) =~= self.ids());
        cancelled
    }
}

} // verus!
