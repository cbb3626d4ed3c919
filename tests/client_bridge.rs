use relay_bus::client::{
    bridge_step, BridgeAction, BridgeEvent, ConnectError, ConnectPhase, ConnectStep, Connector,
    CONNECT_RETRIES, RETRY_INTERVAL_MS,
};

#[test]
fn no_auto_start_gives_up_at_once() {
    let mut c = Connector::new(false);
    assert_eq!(c.on_failure(), ConnectStep::GiveUp(ConnectError::NoDaemon));
    assert_eq!(c.phase, ConnectPhase::Direct);
}

#[test]
fn auto_start_launches_then_retries_within_budget() {
    let mut c = Connector::new(true);
    assert_eq!(c.on_failure(), ConnectStep::LaunchDaemon);
    assert_eq!(c.phase, ConnectPhase::Launched { failures: 0 });
    let mut retries = 0;
    loop {
        match c.on_failure() {
            ConnectStep::RetryAfter(ms) => {
                assert_eq!(ms, RETRY_INTERVAL_MS);
                retries += 1;
            }
            ConnectStep::GiveUp(e) => {
                assert_eq!(e, ConnectError::StartTimeout);
                break;
            }
            ConnectStep::LaunchDaemon => panic!("a daemon is launched once"),
        }
    }
    // 20 attempts after the launch: 19 pauses, then the timeout
    assert_eq!(retries, CONNECT_RETRIES - 1);
    assert_eq!(c.phase, ConnectPhase::Launched { failures: CONNECT_RETRIES });
    assert_eq!(c.on_failure(), ConnectStep::GiveUp(ConnectError::StartTimeout));
}

#[test]
fn bridge_passes_lines_and_stops_on_end() {
    match bridge_step(BridgeEvent::FromDaemon("a\n".to_string())) {
        BridgeAction::ToOutput(l) => assert_eq!(l, "a\n"),
        _ => panic!("expected output"),
    }
    match bridge_step(BridgeEvent::FromInput("b\n".to_string())) {
        BridgeAction::ToDaemon(l) => assert_eq!(l, "b\n"),
        _ => panic!("expected send"),
    }
    assert!(matches!(bridge_step(BridgeEvent::DaemonClosed), BridgeAction::Stop));
    assert!(matches!(bridge_step(BridgeEvent::InputClosed), BridgeAction::Stop));
    assert!(matches!(bridge_step(BridgeEvent::ReadFailed), BridgeAction::Stop));
}
