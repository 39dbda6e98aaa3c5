use am_radio_core::codec::Command;
use am_radio_core::config::Config;
use am_radio_core::errors::ErrorKind;
use am_radio_core::event_bus::EventType;
use am_radio_core::state_machine::{BroadcastState, ConnectionState, SourceMode, WatchdogState};
use am_radio_core::supervisor::Supervisor;

fn connected() -> Supervisor {
    let mut sup = Supervisor::new();
    sup.begin_connect().unwrap();
    sup.connect_succeeded();
    sup
}

#[test]
fn test_connect_lifecycle() {
    let mut sup = Supervisor::new();
    assert!(!sup.is_connected());
    let ev = sup.begin_connect().unwrap();
    assert_eq!(ev, vec![EventType::ConnectionStateChanged(ConnectionState::Connecting)]);
    assert_eq!(sup.begin_connect().unwrap_err(), ErrorKind::AlreadyConnected);
    let ev = sup.connect_succeeded();
    assert_eq!(
        ev,
        vec![
            EventType::ConnectSuccess,
            EventType::ConnectionStateChanged(ConnectionState::Connected),
        ]
    );
    assert!(sup.is_connected());

    let (stop, ev) = sup.disconnect();
    assert_eq!(stop, None);
    assert_eq!(
        ev,
        vec![
            EventType::Disconnected,
            EventType::ConnectionStateChanged(ConnectionState::Disconnected),
        ]
    );
    assert!(!sup.is_connected());
    assert_eq!(sup.get_state().broadcast, BroadcastState::Idle);
}

#[test]
fn test_disconnect_stops_running_broadcast() {
    let mut sup = connected();
    sup.arm().unwrap();
    sup.poll_tick(true, Some(b"broadcasting=0"), 10); // confirms Armed
    sup.start_broadcast().unwrap();
    sup.poll_tick(true, Some(b"broadcasting=1"), 20); // confirms Broadcasting
    assert_eq!(sup.get_state().broadcast, BroadcastState::Broadcasting);
    let (stop, _ev) = sup.disconnect();
    assert_eq!(stop, Some(Command::OutputOff));
}

#[test]
fn test_arm_requires_connection() {
    let mut sup = Supervisor::new();
    assert_eq!(sup.arm().unwrap_err(), ErrorKind::NotConnected);
}

#[test]
fn test_start_requires_armed() {
    let mut sup = connected();
    assert_eq!(sup.start_broadcast().unwrap_err(), ErrorKind::InvalidStateTransition);
    sup.arm().unwrap();
    assert_eq!(sup.get_state().broadcast, BroadcastState::Arming);
    sup.poll_tick(true, Some(b"broadcasting=0"), 10);
    assert_eq!(sup.get_state().broadcast, BroadcastState::Armed);
    let cmd = sup.start_broadcast().unwrap();
    assert_eq!(cmd, Command::OutputOn);
    assert_eq!(sup.get_state().broadcast, BroadcastState::Starting);
}

#[test]
fn test_stop_broadcast_paths() {
    let mut sup = connected();
    assert_eq!(sup.stop_broadcast().unwrap_err(), ErrorKind::InvalidStateTransition);
    sup.arm().unwrap();
    // Cancelling an arm is local: no wire command.
    assert_eq!(sup.stop_broadcast().unwrap(), None);
    assert_eq!(sup.get_state().broadcast, BroadcastState::Idle);

    sup.arm().unwrap();
    sup.poll_tick(true, Some(b"broadcasting=0"), 10);
    sup.start_broadcast().unwrap();
    // Stopping a started broadcast owes the master-off command.
    assert_eq!(sup.stop_broadcast().unwrap(), Some(Command::OutputOff));
    assert_eq!(sup.get_state().broadcast, BroadcastState::Stopping);
}

#[test]
fn test_emergency_flow() {
    let mut sup = connected();
    assert_eq!(sup.stop_emergency().unwrap_err(), ErrorKind::InvalidStateTransition);
    assert_eq!(sup.start_emergency().unwrap(), Command::OutputOn);
    assert_eq!(sup.get_state().broadcast, BroadcastState::Emergency);
    assert_eq!(sup.start_emergency().unwrap_err(), ErrorKind::InvalidStateTransition);
    assert_eq!(sup.stop_emergency().unwrap(), Command::OutputOff);
    assert_eq!(sup.get_state().broadcast, BroadcastState::Idle);
}

#[test]
fn test_set_channel_validation_before_any_command() {
    let mut sup = Supervisor::new();
    assert_eq!(sup.set_channel(1, 540_000, true).unwrap_err(), ErrorKind::NotConnected);

    let mut sup = connected();
    assert_eq!(sup.set_channel(0, 540_000, true).unwrap_err(), ErrorKind::ChannelOutOfRange);
    assert_eq!(sup.set_channel(13, 540_000, true).unwrap_err(), ErrorKind::ChannelOutOfRange);
    // Out-of-band frequencies are rejected outright: no commands exist.
    assert_eq!(
        sup.set_channel(1, Config::MIN_FREQUENCY - 1, true).unwrap_err(),
        ErrorKind::FrequencyOutOfRange
    );
    assert_eq!(
        sup.set_channel(1, Config::MAX_FREQUENCY + 1, true).unwrap_err(),
        ErrorKind::FrequencyOutOfRange
    );
    // The state is untouched by a rejected request.
    assert_eq!(sup.get_state().channels[0].frequency, 540_000);
    assert!(!sup.get_state().channels[0].enabled);

    // Band edges are accepted.
    let (cmds, ev) = sup.set_channel(1, Config::MIN_FREQUENCY, true).unwrap();
    assert_eq!(
        cmds,
        vec![
            Command::ChannelFrequency { channel: 1, hz: Config::MIN_FREQUENCY },
            Command::ChannelOutput { channel: 1, on: true },
        ]
    );
    assert_eq!(ev, vec![EventType::ChannelUpdated(1)]);
    sup.set_channel(2, Config::MAX_FREQUENCY, false).unwrap();
    assert_eq!(sup.get_state().channels[0].frequency, Config::MIN_FREQUENCY);
    assert!(sup.get_state().channels[0].enabled);
    assert_eq!(sup.get_state().channels[1].frequency, Config::MAX_FREQUENCY);
}

#[test]
fn test_set_source() {
    let mut sup = connected();
    let (cmd, ev) = sup.set_source(SourceMode::Adc).unwrap();
    assert_eq!(cmd, Command::SetSource { mode: SourceMode::Adc });
    assert_eq!(ev, vec![EventType::SourceChanged(SourceMode::Adc)]);
    assert_eq!(sup.get_state().source, SourceMode::Adc);
}

#[test]
fn test_enable_preset_plan() {
    let mut sup = connected();
    let (cmds, ev) = sup.enable_preset(3).unwrap();
    // Twelve disables then three enables, two commands each.
    assert_eq!(cmds.len(), 2 * (12 + 3));
    assert_eq!(ev.len(), 12 + 3);
    assert_eq!(cmds[0], Command::ChannelFrequency { channel: 1, hz: 540_000 });
    assert_eq!(cmds[1], Command::ChannelOutput { channel: 1, on: false });
    assert_eq!(cmds[24], Command::ChannelFrequency { channel: 12, hz: 1_640_000 });
    assert_eq!(cmds[25], Command::ChannelOutput { channel: 12, on: true });
    let state = sup.get_state();
    for c in &state.channels {
        let expect = c.id == 12 || c.id == 4 || c.id == 8;
        assert_eq!(c.enabled, expect, "channel {}", c.id);
        assert_eq!(c.frequency, 540_000 + (c.id as u32 - 1) * 100_000);
    }
}

#[test]
fn test_status_poll_round_trip() {
    let mut sup = connected();
    let line = b"broadcasting=1,watchdog_triggered=0,ch1_enabled=1,ch1_freq=540000";
    let out = sup.poll_tick(true, Some(line), 1000);
    let state = sup.get_state();
    assert_eq!(state.broadcast, BroadcastState::Broadcasting);
    assert_eq!(state.watchdog, WatchdogState::Okay);
    assert!(state.channels[0].enabled);
    assert_eq!(state.channels[0].frequency, 540_000);
    assert_eq!(state.last_status_time, Some(1000));
    // The start is edge-triggered: exactly one BroadcastStarted on this tick…
    let starts = out.events.iter().filter(|e| matches!(e, EventType::BroadcastStarted)).count();
    assert_eq!(starts, 1);
    // …and none on a tick where the value stays 1.
    let out = sup.poll_tick(true, Some(line), 1500);
    let starts = out.events.iter().filter(|e| matches!(e, EventType::BroadcastStarted)).count();
    assert_eq!(starts, 0);
}

#[test]
fn test_trigger_forces_idle_from_broadcasting() {
    let mut sup = connected();
    sup.poll_tick(true, Some(b"broadcasting=1"), 10);
    assert_eq!(sup.get_state().broadcast, BroadcastState::Broadcasting);
    let out = sup.poll_tick(true, Some(b"broadcasting=1,watchdog_triggered=1"), 20);
    assert_eq!(sup.get_state().watchdog, WatchdogState::Triggered);
    assert_eq!(sup.get_state().broadcast, BroadcastState::Idle);
    assert!(out.events.contains(&EventType::WatchdogTriggered));
    assert!(out.events.contains(&EventType::BroadcastStopped));
}

#[test]
fn test_trigger_forces_idle_from_emergency() {
    let mut sup = connected();
    sup.start_emergency().unwrap();
    assert_eq!(sup.get_state().broadcast, BroadcastState::Emergency);
    sup.poll_tick(true, Some(b"watchdog_triggered=1"), 20);
    assert_eq!(sup.get_state().watchdog, WatchdogState::Triggered);
    assert_eq!(sup.get_state().broadcast, BroadcastState::Idle);
}

#[test]
fn test_triggered_blocks_arm_until_reset() {
    let mut sup = connected();
    sup.poll_tick(true, Some(b"watchdog_triggered=1"), 10);
    assert_eq!(sup.arm().unwrap_err(), ErrorKind::WatchdogTriggered);
    // A benign report does not clear the trap.
    sup.poll_tick(true, Some(b"watchdog_triggered=0"), 20);
    assert_eq!(sup.get_state().watchdog, WatchdogState::Triggered);
    // Only the explicit reset does.
    let (cmd, ev) = sup.reset_watchdog().unwrap();
    assert_eq!(cmd, Command::WatchdogReset);
    assert_eq!(ev, vec![EventType::WatchdogReset]);
    assert_eq!(sup.get_state().watchdog, WatchdogState::Okay);
    // The reset does not re-arm.
    assert_eq!(sup.get_state().broadcast, BroadcastState::Idle);
    sup.arm().unwrap();
}

#[test]
fn test_watchdog_warning_events_are_edges() {
    let mut sup = connected();
    let out = sup.poll_tick(true, Some(b"watchdog_warning=1"), 10);
    assert!(out.events.contains(&EventType::WatchdogWarning));
    let out = sup.poll_tick(true, Some(b"watchdog_warning=1"), 20);
    assert!(!out.events.contains(&EventType::WatchdogWarning));
    let out = sup.poll_tick(true, Some(b"watchdog_warning=0"), 30);
    assert!(out.events.contains(&EventType::WatchdogOk));
}

#[test]
fn test_heartbeat_failures_cause_single_connection_lost() {
    let mut sup = connected();
    let max = Config::MAX_CONSECUTIVE_ERRORS as usize;
    let mut lost_events = 0;
    let mut lost_flags = 0;
    for i in 0..max {
        let out = sup.poll_tick(false, None, 100 + i as u64);
        lost_events +=
            out.events.iter().filter(|e| matches!(e, EventType::ConnectionLost)).count();
        if out.connection_lost {
            lost_flags += 1;
        }
    }
    assert_eq!(sup.get_state().connection, ConnectionState::Reconnecting);
    assert_eq!(lost_events, 1, "exactly one ConnectionLost, not one per failure");
    assert_eq!(lost_flags, 1);
    // The local trip is treated like a device-reported one.
    assert_eq!(sup.get_state().watchdog, WatchdogState::Triggered);
    assert_eq!(sup.get_state().broadcast, BroadcastState::Idle);
}

#[test]
fn test_heartbeat_recovery_resets_run() {
    let mut sup = connected();
    sup.poll_tick(false, None, 10);
    sup.poll_tick(false, None, 20);
    // A clean heartbeat ends the run before the cap.
    sup.poll_tick(true, None, 30);
    sup.poll_tick(false, None, 40);
    sup.poll_tick(false, None, 50);
    assert_eq!(sup.get_state().connection, ConnectionState::Connected);
    assert_eq!(sup.get_state().watchdog, WatchdogState::Okay);
}

#[test]
fn test_reconnect_cycle() {
    let mut sup = connected();
    for i in 0..Config::MAX_CONSECUTIVE_ERRORS {
        sup.poll_tick(false, None, i as u64);
    }
    assert_eq!(sup.get_state().connection, ConnectionState::Reconnecting);
    let ev = sup.reconnect_attempt(1);
    assert_eq!(ev, vec![EventType::ReconnectAttempt(1)]);
    let ev = sup.reconnect_succeeded();
    assert_eq!(
        ev,
        vec![
            EventType::ReconnectSuccess,
            EventType::ConnectionStateChanged(ConnectionState::Connected),
        ]
    );
    assert_eq!(sup.get_state().connection, ConnectionState::Connected);
    assert_eq!(sup.get_state().error_count, 0);
}

#[test]
fn test_reconnect_exhausted() {
    let mut sup = connected();
    for i in 0..Config::MAX_CONSECUTIVE_ERRORS {
        sup.poll_tick(false, None, i as u64);
    }
    let ev = sup.reconnect_exhausted();
    assert_eq!(
        ev,
        vec![
            EventType::ReconnectFailed,
            EventType::ConnectionStateChanged(ConnectionState::Disconnected),
        ]
    );
    assert_eq!(sup.get_state().connection, ConnectionState::Disconnected);
}

#[test]
fn test_temperature_and_source_from_status() {
    let mut sup = connected();
    sup.poll_tick(true, Some(b"temp=45.2,source=ADC"), 10);
    let state = sup.get_state();
    assert_eq!(state.temperature_deci, Some(452));
    assert_eq!(state.source, SourceMode::Adc);
}

#[test]
fn test_out_of_band_reported_frequency_is_ignored() {
    let mut sup = connected();
    sup.poll_tick(true, Some(b"ch1_freq=100"), 10);
    assert_eq!(sup.get_state().channels[0].frequency, 540_000);
    sup.poll_tick(true, Some(b"ch1_freq=600000"), 20);
    assert_eq!(sup.get_state().channels[0].frequency, 600_000);
}

#[test]
fn test_connect_failed_counts_error() {
    let mut sup = Supervisor::new();
    sup.begin_connect().unwrap();
    let ev = sup.connect_failed(String::from("connection refused"));
    assert_eq!(ev.len(), 2);
    assert!(matches!(ev[0], EventType::ConnectFailed(_)));
    assert_eq!(sup.get_state().connection, ConnectionState::Disconnected);
    assert_eq!(sup.get_state().error_count, 1);
}
