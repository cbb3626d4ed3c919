//! The client side: how it reaches a daemon (optionally launching one and
//! retrying on a fixed interval within a fixed budget), and how its bridge
//! moves lines between local input/output and the connection.

use vstd::prelude::*;

verus! {

/// Connect attempts made after launching a daemon before giving up.
pub const CONNECT_RETRIES: u32 = 20;

/// Pause between two connect attempts after launching a daemon, in
/// milliseconds.
pub const RETRY_INTERVAL_MS: u64 = 100;

/// Why the client could not reach a daemon.
#[derive(Clone, Copy, Debug, PartialEq, Eq, Structural)]
pub enum ConnectError {
    /// No daemon answered, and the client may not launch one.
    NoDaemon,
    /// A daemon was launched, but none answered within the retry budget.
    StartTimeout,
}

/// Where the client stands in reaching a daemon.
#[derive(Clone, Copy, Debug, PartialEq, Eq, Structural)]
pub enum ConnectPhase {
    /// Only the first, direct attempt has been made.
    Direct,
    /// A daemon was launched; this many attempts since then have failed.
    Launched { failures: u32 },
}

/// What to do after a failed connect attempt.
#[derive(Clone, Copy, Debug, PartialEq, Eq, Structural)]
pub enum ConnectStep {
    /// Launch a detached daemon, then try to connect again at once.
    LaunchDaemon,
    /// Wait this many milliseconds, then try to connect again.
    RetryAfter(u64),
    /// Stop trying.
    GiveUp(ConnectError),
}

/// The client's connect state.
#[derive(Clone, Copy, Debug, PartialEq, Eq, Structural)]
pub struct Connector {
    /// Whether the client may launch a daemon when none answers.
    pub auto_start: bool,
    pub phase: ConnectPhase,
}

/// The step that follows a failed attempt in state `c`.
pub open spec fn failure_step(c: Connector) -> ConnectStep {
    match c.phase {
        ConnectPhase::Direct => if c.auto_start {
            ConnectStep::LaunchDaemon
        } else {
            ConnectStep::GiveUp(ConnectError::NoDaemon)
        },
        ConnectPhase::Launched { failures } => if failures + 1 >= CONNECT_RETRIES {
            ConnectStep::GiveUp(ConnectError::StartTimeout)
        } else {
            ConnectStep::RetryAfter(RETRY_INTERVAL_MS)
        },
    }
}

/// The state after a failed attempt in state `c`.
pub open spec fn failure_next(c: Connector) -> Connector {
    match c.phase {
        ConnectPhase::Direct => if c.auto_start {
            Connector { auto_start: c.auto_start, phase: ConnectPhase::Launched { failures: 0 } }
        } else {
            c
        },
        ConnectPhase::Launched { failures } => if failures + 1 >= CONNECT_RETRIES {
            Connector {
                auto_start: c.auto_start,
                phase: ConnectPhase::Launched { failures: CONNECT_RETRIES },
            }
        } else {
            Connector {
                auto_start: c.auto_start,
                phase: ConnectPhase::Launched { failures: (failures + 1) as u32 },
            }
        },
    }
}

/// The state after `n` failed attempts from `c`.
pub open spec fn after_failures(c: Connector, n: nat) -> Connector
    decreases n,
{
    if n == 0 {
        c
    } else {
        failure_next(after_failures(c, (n - 1) as nat))
    }
}

/// A client that has not tried to connect yet.
pub open spec fn fresh(auto_start: bool) -> Connector {
    Connector { auto_start, phase: ConnectPhase::Direct }
}

impl Connector {
    /// The failure count never passes the retry budget.
    pub open spec fn wf(&self) -> bool {
        match self.phase {
            ConnectPhase::Direct => true,
            ConnectPhase::Launched { failures } => failures <= CONNECT_RETRIES,
        }
    }

    /// A client about to make its first, direct attempt.
    pub fn new(auto_start: bool) -> (c: Self)
        ensures
            c == fresh(auto_start),
            c.wf(),
    {
        Connector { auto_start, phase: ConnectPhase::Direct }
    }

    /// Records a failed connect attempt and says what to do next: after the
    /// direct attempt, launch a daemon when allowed and give up otherwise;
    /// after a launch, retry on the fixed interval until the budget of
    /// attempts is spent, then give up on a timeout.
    pub fn on_failure(&mut self) -> (step: ConnectStep)
        requires
            old(self).wf(),
        ensures
            final(self).wf(),
            step == failure_step(*old(self)),
            *final(self) == failure_next(*old(self)),
    {
        match self.phase {
            ConnectPhase::Direct => {
                if self.auto_start {
                    self.phase = ConnectPhase::Launched { failures: 0 };
                    ConnectStep::LaunchDaemon
                } else {
                    ConnectStep::GiveUp(ConnectError::NoDaemon)
                }
            },
            ConnectPhase::Launched { failures } => {
                if failures >= CONNECT_RETRIES - 1 {
                    self.phase = ConnectPhase::Launched { failures: CONNECT_RETRIES };
                    ConnectStep::GiveUp(ConnectError::StartTimeout)
                } else {
                    self.phase = ConnectPhase::Launched { failures: failures + 1 };
                    ConnectStep::RetryAfter(RETRY_INTERVAL_MS)
                }
            },
        }
    }
}

/// Without auto-start the client gives up as soon as the direct attempt
/// fails.
pub proof fn lemma_no_auto_start_fails_at_once()
    ensures
        failure_step(fresh(false)) == ConnectStep::GiveUp(ConnectError::NoDaemon),
{
}

/// With auto-start, after the direct attempt fails the client launches a
/// daemon, then retries on the fixed interval, and gives up on a timeout
/// exactly when the launched daemon has failed the whole budget of
/// attempts: at most one direct attempt and `CONNECT_RETRIES` more.
pub proof fn lemma_bounded_retry_budget(k: nat)
    requires
        k <= CONNECT_RETRIES,
    ensures
        failure_step(after_failures(fresh(true), k)) == (if k == 0 {
            ConnectStep::LaunchDaemon
        } else if k < CONNECT_RETRIES {
            ConnectStep::RetryAfter(RETRY_INTERVAL_MS)
        } else {
            ConnectStep::GiveUp(ConnectError::StartTimeout)
        }),
{
    lemma_launched_failures(k);
}

/// After the direct failure and `k - 1` failures since the launch, the
/// client stands at `k - 1` failures.
proof fn lemma_launched_failures(k: nat)
    requires
        k <= CONNECT_RETRIES,
    ensures
        k > 0 ==> after_failures(fresh(true), k) == (Connector {
            auto_start: true,
            phase: ConnectPhase::Launched { failures: (k - 1) as u32 },
        }),
    decreases k,
{
    if k > 0 {
        assert(after_failures(fresh(true), 0) == fresh(true));
        if k > 1 {
            lemma_launched_failures((k - 1) as nat);
        }
        assert(after_failures(fresh(true), k) == failure_next(
            after_failures(fresh(true), (k - 1) as nat),
        ));
    }
}

/// Something the client's bridge observed.
pub enum BridgeEvent {
    /// A line arrived from the daemon.
    FromDaemon(String),
    /// A line was read from local input.
    FromInput(String),
    /// The daemon closed the connection.
    DaemonClosed,
    /// Local input reached its end.
    InputClosed,
    /// A read on either side failed.
    ReadFailed,
}

/// What the bridge does next.
pub enum BridgeAction {
    /// Write this line to local output and flush.
    ToOutput(String),
    /// Send this line to the daemon.
    ToDaemon(String),
    /// Tear both directions down.
    Stop,
}

/// The bridge's reaction: a line is passed on unchanged to the other side;
/// the end of either stream, or a failed read, stops both directions.
pub fn bridge_step(e: BridgeEvent) -> (a: BridgeAction)
    ensures
        match e {
            BridgeEvent::FromDaemon(l) => a matches BridgeAction::ToOutput(o) && o@ == l@,
            BridgeEvent::FromInput(l) => a matches BridgeAction::ToDaemon(o) && o@ == l@,
            _ => a is Stop,
        },
{
    match e {
        BridgeEvent::FromDaemon(l) => BridgeAction::ToOutput(l),
        BridgeEvent::FromInput(l) => BridgeAction::ToDaemon(l),
        BridgeEvent::DaemonClosed => BridgeAction::Stop,
        BridgeEvent::InputClosed => BridgeAction::Stop,
        BridgeEvent::ReadFailed => BridgeAction::Stop,
    }
}

} // verus!
