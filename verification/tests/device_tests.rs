use am_radio_core::device::{AuditEntry, AuditLog, Channel, DeviceState, StateResponse};
use am_radio_core::errors::ErrorKind;
use am_radio_core::state_machine::{BroadcastState, ConnectionState, SourceMode, WatchdogState};

#[test]
fn test_device_state_defaults() {
    let s = DeviceState::default();
    assert_eq!(s.connection, ConnectionState::Disconnected);
    assert_eq!(s.broadcast, BroadcastState::Idle);
    assert_eq!(s.watchdog, WatchdogState::Okay);
    assert_eq!(s.source, SourceMode::Bram);
    assert_eq!(s.channels.len(), 12);
    for (i, c) in s.channels.iter().enumerate() {
        assert_eq!(c.id as usize, i + 1);
        assert!(!c.enabled);
        assert_eq!(c.frequency, 540_000 + i as u32 * 100_000);
        assert_eq!(c.amplitude_milli, 1000);
        assert_eq!(c.phase_deci, 0);
    }
    assert_eq!(s.temperature_deci, None);
    assert_eq!(s.last_status_time, None);
    assert_eq!(s.error_count, 0);
}

#[test]
fn test_channel_new_defaults() {
    let c = Channel::new(5);
    assert_eq!(c.id, 5);
    assert!(!c.enabled);
    assert_eq!(c.frequency, 540_000);
}

#[test]
fn test_staleness() {
    let mut s = DeviceState::default();
    assert!(s.is_stale(0));
    s.last_status_time = Some(1000);
    assert!(!s.is_stale(1000));
    assert!(!s.is_stale(1500));
    assert!(s.is_stale(1501));
}

fn entry(t: u64, msg: &str) -> AuditEntry {
    AuditEntry { timestamp: t, level: String::from("INFO"), message: String::from(msg) }
}

#[test]
fn test_audit_log_caps_at_hundred() {
    let mut log = AuditLog::new();
    for i in 0..105u64 {
        log.append(entry(i, "tick"));
    }
    assert_eq!(log.len(), 100);
    let all = log.recent(1000);
    assert_eq!(all.len(), 100);
    // The five oldest entries were evicted.
    assert_eq!(all[0].timestamp, 5);
    assert_eq!(all[99].timestamp, 104);
}

#[test]
fn test_audit_log_recent_limit() {
    let mut log = AuditLog::new();
    for i in 0..10u64 {
        log.append(entry(i, "tick"));
    }
    let last3 = log.recent(3);
    assert_eq!(last3.len(), 3);
    assert_eq!(last3[0].timestamp, 7);
    assert_eq!(last3[2].timestamp, 9);
    assert_eq!(last3[0].level, "INFO");
    assert_eq!(last3[0].message, "tick");
}

#[test]
fn test_state_response_renders_display_strings() {
    let mut s = DeviceState::default();
    s.connection = ConnectionState::Connected;
    s.broadcast = BroadcastState::Broadcasting;
    s.watchdog = WatchdogState::Warning;
    s.source = SourceMode::Adc;
    s.channels[2].enabled = true;
    let r = StateResponse::from_device_state(&s);
    assert_eq!(r.connection_state, "CONNECTED");
    assert_eq!(r.broadcast_state, "BROADCASTING");
    assert_eq!(r.watchdog_state, "WARNING");
    assert_eq!(r.source, "ADC");
    assert_eq!(r.channels.len(), 12);
    assert_eq!(r.channels[2].id, 3);
    assert!(r.channels[2].enabled);
    assert_eq!(r.channels[2].frequency, 740_000);
}

#[test]
fn test_error_messages() {
    assert_eq!(ErrorKind::NotConnected.message(), "not connected");
    assert_eq!(ErrorKind::AlreadyConnected.message(), "already connected");
    assert_eq!(ErrorKind::InvalidStateTransition.message(), "invalid state transition");
    assert_eq!(ErrorKind::ChannelOutOfRange.message(), "channel out of range");
    assert_eq!(ErrorKind::FrequencyOutOfRange.message(), "frequency out of range");
    assert_eq!(ErrorKind::CommandTimeout.message(), "command timeout");
    assert_eq!(ErrorKind::ConnectionLost.message(), "connection lost");
    assert_eq!(ErrorKind::ReconnectExhausted.message(), "reconnect attempts exhausted");
    assert_eq!(ErrorKind::WatchdogTriggered.message(), "watchdog triggered");
}
