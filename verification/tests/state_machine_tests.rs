use am_radio_core::state_machine::{BroadcastState, ConnectionState, SourceMode, WatchdogState};

#[test]
fn test_normal_flow() {
    let mut state = BroadcastState::Idle;

    // Arm
    state = state.request_arm().unwrap();
    assert_eq!(state, BroadcastState::Arming);
    state = state.confirm_armed();
    assert_eq!(state, BroadcastState::Armed);

    // Start
    state = state.request_start().unwrap();
    assert_eq!(state, BroadcastState::Starting);
    state = state.confirm_broadcasting();
    assert_eq!(state, BroadcastState::Broadcasting);

    // Stop
    state = state.request_stop().unwrap();
    assert_eq!(state, BroadcastState::Stopping);
    state = state.confirm_stopped();
    assert_eq!(state, BroadcastState::Idle);
}

#[test]
fn test_cannot_broadcast_without_arm() {
    let state = BroadcastState::Idle;
    assert!(state.request_start().is_err());
}

#[test]
fn test_emergency_from_any_state() {
    assert!(BroadcastState::Idle.request_emergency().is_ok());
    assert!(BroadcastState::Armed.request_emergency().is_ok());
    assert!(BroadcastState::Broadcasting.request_emergency().is_ok());
}

#[test]
fn test_cannot_double_arm() {
    assert!(BroadcastState::Arming.request_arm().is_err());
    assert!(BroadcastState::Armed.request_arm().is_err());
}

#[test]
fn test_cannot_start_while_stopping() {
    assert!(BroadcastState::Stopping.request_start().is_err());
}

#[test]
fn test_stop_cancels_arming() {
    assert_eq!(BroadcastState::Arming.request_stop().unwrap(), BroadcastState::Idle);
}

#[test]
fn test_stop_disarms() {
    assert_eq!(BroadcastState::Armed.request_stop().unwrap(), BroadcastState::Idle);
}

#[test]
fn test_emergency_stops_correctly() {
    assert_eq!(BroadcastState::Emergency.request_stop_emergency().unwrap(), BroadcastState::Idle);
}

#[test]
fn test_cannot_stop_emergency_from_normal() {
    assert!(BroadcastState::Idle.request_stop_emergency().is_err());
    assert!(BroadcastState::Broadcasting.request_stop_emergency().is_err());
}

#[test]
fn test_is_broadcasting() {
    assert!(!BroadcastState::Idle.is_broadcasting());
    assert!(!BroadcastState::Armed.is_broadcasting());
    assert!(BroadcastState::Broadcasting.is_broadcasting());
    assert!(BroadcastState::Emergency.is_broadcasting());
}

#[test]
fn test_is_transitioning() {
    assert!(BroadcastState::Arming.is_transitioning());
    assert!(BroadcastState::Starting.is_transitioning());
    assert!(BroadcastState::Stopping.is_transitioning());
    assert!(!BroadcastState::Idle.is_transitioning());
    assert!(!BroadcastState::Broadcasting.is_transitioning());
}

#[test]
fn test_display_strings() {
    assert_eq!(BroadcastState::Idle.display(), "IDLE");
    assert_eq!(BroadcastState::Broadcasting.display(), "BROADCASTING");
    assert_eq!(BroadcastState::Emergency.display(), "EMERGENCY");
    assert_eq!(ConnectionState::Disconnected.display(), "DISCONNECTED");
    assert_eq!(ConnectionState::Connected.display(), "CONNECTED");
}

#[test]
fn test_watchdog_from_status() {
    assert_eq!(WatchdogState::from_status("OK"), WatchdogState::Okay);
    assert_eq!(WatchdogState::from_status("0"), WatchdogState::Okay);
    assert_eq!(WatchdogState::from_status("WARNING"), WatchdogState::Warning);
    assert_eq!(WatchdogState::from_status("1"), WatchdogState::Warning);
    assert_eq!(WatchdogState::from_status("TRIGGERED"), WatchdogState::Triggered);
    assert_eq!(WatchdogState::from_status("garbage"), WatchdogState::Okay);
}

#[test]
fn test_source_mode_roundtrip() {
    assert_eq!(SourceMode::from_str("BRAM"), SourceMode::Bram);
    assert_eq!(SourceMode::from_str("ADC"), SourceMode::Adc);
    assert_eq!(SourceMode::from_str("bram"), SourceMode::Bram);
    assert_eq!(SourceMode::from_str("garbage"), SourceMode::Bram);
    assert_eq!(SourceMode::from_str(SourceMode::Bram.as_str()), SourceMode::Bram);
    assert_eq!(SourceMode::from_str(SourceMode::Adc.as_str()), SourceMode::Adc);
}

#[test]
fn test_default_states() {
    assert_eq!(BroadcastState::default(), BroadcastState::Idle);
    assert_eq!(ConnectionState::default(), ConnectionState::Disconnected);
    assert_eq!(WatchdogState::default(), WatchdogState::Okay);
    assert_eq!(SourceMode::default(), SourceMode::Bram);
}

#[test]
fn test_confirm_noop_wrong_state() {
    assert_eq!(BroadcastState::Idle.confirm_armed(), BroadcastState::Idle);
    assert_eq!(BroadcastState::Idle.confirm_broadcasting(), BroadcastState::Idle);
    assert_eq!(BroadcastState::Idle.confirm_stopped(), BroadcastState::Idle);
    assert_eq!(BroadcastState::Broadcasting.confirm_armed(), BroadcastState::Broadcasting);
}

#[test]
fn test_confirm_twice_same_as_once() {
    for s in [
        BroadcastState::Idle,
        BroadcastState::Arming,
        BroadcastState::Armed,
        BroadcastState::Starting,
        BroadcastState::Broadcasting,
        BroadcastState::Stopping,
        BroadcastState::Emergency,
    ] {
        assert_eq!(s.confirm_armed().confirm_armed(), s.confirm_armed());
        assert_eq!(s.confirm_broadcasting().confirm_broadcasting(), s.confirm_broadcasting());
        assert_eq!(s.confirm_stopped().confirm_stopped(), s.confirm_stopped());
    }
}

#[test]
fn test_stop_path_reaches_idle_from_every_normal_state() {
    for s in [
        BroadcastState::Idle,
        BroadcastState::Arming,
        BroadcastState::Armed,
        BroadcastState::Starting,
        BroadcastState::Broadcasting,
        BroadcastState::Stopping,
    ] {
        match s.request_stop() {
            Ok(next) => assert_eq!(next.confirm_stopped(), BroadcastState::Idle),
            Err(_) => {}
        }
    }
    // Emergency takes its own exit.
    assert_eq!(BroadcastState::Emergency.request_stop_emergency().unwrap(), BroadcastState::Idle);
}
