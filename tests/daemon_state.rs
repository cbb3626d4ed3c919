use relay_bus::registry::DaemonState;
use std::time::Duration;
use tokio::runtime::{Builder, Runtime};
use tokio::task::JoinHandle;

fn runtime() -> Runtime {
    Builder::new_current_thread().enable_all().build().unwrap()
}

fn pending(rt: &Runtime) -> JoinHandle<()> {
    rt.spawn(std::future::pending::<()>())
}

fn done(rt: &Runtime) -> JoinHandle<()> {
    rt.spawn(async {})
}

fn settle(rt: &Runtime) {
    rt.block_on(async { tokio::time::sleep(Duration::from_millis(20)).await });
}

#[test]
fn ids_increase_and_register_resets_clock() {
    let rt = runtime();
    let mut s = DaemonState::new(2_000, 0);
    assert_eq!(s.next_session_id(), Some(0));
    assert_eq!(s.register(pending(&rt), 500), 0);
    assert_eq!(s.register(pending(&rt), 700), 1);
    assert_eq!(s.next_session_id(), Some(2));
    assert_eq!(s.session_count(), 2);
    assert_eq!(s.idle_clock(), 700);
    assert_eq!(s.shutdown(), vec![0, 1]);
}

#[test]
fn tick_with_drops_finished_sessions() {
    let rt = runtime();
    let mut s = DaemonState::new(2_000, 0);
    for _ in 0..4 {
        s.register(pending(&rt), 0);
    }
    assert!(!s.tick_with(&vec![true, false, true, false], 1_000));
    assert_eq!(s.session_count(), 2);
    assert_eq!(s.idle_clock(), 1_000);
    assert_eq!(s.next_session_id(), Some(4));
    assert_eq!(s.shutdown(), vec![1, 3]);
}

#[test]
fn tick_reaps_tasks_that_completed() {
    let rt = runtime();
    let mut s = DaemonState::new(2_000, 0);
    s.register(done(&rt), 0);
    s.register(pending(&rt), 0);
    s.register(done(&rt), 0);
    settle(&rt);
    assert!(!s.tick(1_000));
    assert_eq!(s.session_count(), 1);
    assert_eq!(s.shutdown(), vec![1]);
}

#[test]
fn idle_daemon_stops_after_timeout() {
    let mut s = DaemonState::new(2_000, 0);
    assert!(!s.tick_with(&vec![], 1_000));
    assert!(!s.tick_with(&vec![], 1_999));
    assert!(s.tick_with(&vec![], 2_000));
}

#[test]
fn connection_before_timeout_defers_stop() {
    let rt = runtime();
    let mut s = DaemonState::new(2_000, 0);
    assert!(!s.tick_with(&vec![], 1_000));
    s.register(done(&rt), 1_500);
    // the session ended before the next tick; the clock restarted at 1500
    assert!(!s.tick_with(&vec![true], 2_500));
    assert_eq!(s.session_count(), 0);
    assert!(!s.tick_with(&vec![], 3_499));
    assert!(s.tick_with(&vec![], 3_500));
}

#[test]
fn shutdown_cancels_running_sessions() {
    let rt = runtime();
    let mut s = DaemonState::new(1_000, 0);
    let h = pending(&rt);
    s.register(h, 0);
    assert_eq!(s.shutdown(), vec![0]);
    settle(&rt);
}

#[test]
fn two_clients_then_idle_exit_within_three_seconds() {
    // idle timeout 2 s, ticks every second; A and B connect at 0.2 s and
    // leave at 1.5 s
    let rt = runtime();
    let mut s = DaemonState::new(2_000, 0);
    s.register(pending(&rt), 200);
    s.register(pending(&rt), 200);
    assert!(!s.tick_with(&vec![false, false], 1_000));
    let mut t: u64 = 2_000;
    let mut first = true;
    let mut stop_at = None;
    while t <= 10_000 {
        let flags = if first { vec![true, true] } else { vec![] };
        first = false;
        if s.tick_with(&flags, t) {
            stop_at = Some(t);
            break;
        }
        t += 1_000;
    }
    // last live tick at 1 s; no session from 1.5 s on
    assert_eq!(stop_at, Some(3_000));
    assert!(stop_at.unwrap() - 1_500 <= 3_000);
    assert_eq!(s.shutdown(), Vec::<u64>::new());
}
