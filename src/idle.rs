//! The idle monitor: on every tick it decides, from the number of live
//! sessions and the idle clock, whether the daemon keeps running.
//!
//! Times are milliseconds on a monotonic clock chosen by the caller.

use vstd::prelude::*;

verus! {

/// Time elapsed from `since` to `now`; a reading taken before `since`
/// counts as no time at all, as a monotonic clock's elapsed time does.
pub open spec fn elapsed(since: int, now: int) -> int {
    if now >= since {
        now - since
    } else {
        0
    }
}

/// What one tick of the idle monitor decides.
#[derive(Clone, Copy, Debug, PartialEq, Eq, Structural)]
pub enum TickVerdict {
    /// Keep running; the idle clock now reads `idle_since`.
    Continue { idle_since: u64 },
    /// No session has been live for the whole idle timeout: stop the daemon.
    Stop,
}

/// One tick: with live sessions the idle clock is reset to `now`; with none
/// the clock is left alone, and the daemon stops once the idle time reaches
/// the timeout.
pub open spec fn tick_spec(live: nat, idle_since: int, now: int, timeout: int) -> TickVerdict {
    if live > 0 {
        TickVerdict::Continue { idle_since: now as u64 }
    } else if elapsed(idle_since, now) >= timeout {
        TickVerdict::Stop
    } else {
        TickVerdict::Continue { idle_since: idle_since as u64 }
    }
}

/// Decides one tick of the idle monitor.
pub fn idle_tick(live: usize, idle_since: u64, now: u64, timeout: u64) -> (v: TickVerdict)
    ensures
        v == tick_spec(live as nat, idle_since as int, now as int, timeout as int),
{
    if live > 0 {
        TickVerdict::Continue { idle_since: now }
    } else {
        let idle: u64 = if now >= idle_since {
            now - idle_since
        } else {
            0
        };
        if idle >= timeout {
            TickVerdict::Stop
        } else {
            TickVerdict::Continue { idle_since }
        }
    }
}

/// The time of the `k`-th tick of a timer that first fires at `first` and
/// then every `period`.
pub open spec fn nth_tick(first: int, period: int, k: nat) -> int {
    first + k * period
}

/// While sessions are live a tick never stops the daemon: it resets the
/// idle clock to the tick's time.
pub proof fn lemma_live_sessions_keep_running(live: nat, idle_since: int, now: u64, timeout: int)
    requires
        live > 0,
    ensures
        tick_spec(live, idle_since, now as int, timeout) == (TickVerdict::Continue { idle_since: now }),
{
}

/// Once the idle clock has been reset at `reset_at` (a session connected, or
/// a tick saw live sessions), no tick before the timeout has run out from
/// that moment stops the daemon, whatever the number of live sessions.
pub proof fn lemma_reset_defers_stop(live: nat, reset_at: u64, now: u64, timeout: u64)
    requires
        reset_at <= now < reset_at + timeout,
    ensures
        tick_spec(live, reset_at as int, now as int, timeout as int) != TickVerdict::Stop,
{
}

/// With no live session from `idle_since` on, and a tick timer of period
/// `period` whose first tick after `idle_since` is not already a full period
/// past the deadline: every tick before the idle time reaches the timeout
/// keeps the clock as it is and the daemon running, and the first tick at or
/// after that moment stops the daemon, less than one period after it.
pub proof fn lemma_stop_within_one_tick(idle_since: u64, timeout: u64, first: int, period: int)
    requires
        0 < period,
        idle_since <= first < idle_since + timeout + period,
    ensures
        exists|k: nat|
            {
                &&& tick_spec(0, idle_since as int, nth_tick(first, period, k), timeout as int)
                    == TickVerdict::Stop
                &&& idle_since + timeout <= nth_tick(first, period, k) < idle_since + timeout
                    + period
                &&& forall|j: nat|
                    j < k ==> tick_spec(
                        0,
                        idle_since as int,
                        #[trigger] nth_tick(first, period, j),
                        timeout as int,
                    ) == (TickVerdict::Continue { idle_since })
            },
{
    let deadline: int = idle_since + timeout;
    if first >= deadline {
        assert(nth_tick(first, period, 0) == first);
        assert forall|j: nat| j < 0 implies tick_spec(
            0,
            idle_since as int,
            #[trigger] nth_tick(first, period, j),
            timeout as int,
        ) == (TickVerdict::Continue { idle_since }) by {}
    } else {
        let d: int = deadline - first;
        let k: nat = ((d + period - 1) / period) as nat;
        let r: int = (d + period - 1) % period;
        assert(d + period - 1 == k * period + r && 0 <= r < period) by {
            vstd::arithmetic::div_mod::lemma_fundamental_div_mod(d + period - 1, period);
        }
        assert(d <= k * period < d + period);
        assert forall|j: nat| j < k implies tick_spec(
            0,
            idle_since as int,
            #[trigger] nth_tick(first, period, j),
            timeout as int,
        ) == (TickVerdict::Continue { idle_since }) by {
            assert(j * period <= (k - 1) * period) by (nonlinear_arith)
                requires
                    j < k,
                    0 < period,
            ;
            assert((k - 1) * period == k * period - period) by (nonlinear_arith);
            assert(0 <= j * period) by (nonlinear_arith)
                requires
                    0 < period,
            ;
        }
        assert(tick_spec(0, idle_since as int, nth_tick(first, period, k), timeout as int)
            == TickVerdict::Stop);
    }
}

} // verus!
