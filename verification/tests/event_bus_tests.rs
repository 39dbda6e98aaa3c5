use am_radio_core::event_bus::{EventBus, EventType, RecvOutcome};

#[test]
fn test_event_bus() {
    let bus = EventBus::new();
    let mut rx = bus.subscribe();

    bus.emit(EventType::ConnectSuccess);

    let event = rx.try_next();
    assert!(matches!(event, RecvOutcome::Event(EventType::ConnectSuccess)));
}

#[test]
fn test_multiple_subscribers() {
    let bus = EventBus::new();
    let mut rx1 = bus.subscribe();
    let mut rx2 = bus.subscribe();

    bus.emit(EventType::BroadcastStarted);

    // Both should receive the event
    assert!(matches!(rx1.try_next(), RecvOutcome::Event(EventType::BroadcastStarted)));
    assert!(matches!(rx2.try_next(), RecvOutcome::Event(EventType::BroadcastStarted)));
}

#[test]
fn test_watchdog_event_types() {
    let bus = EventBus::new();
    let mut rx = bus.subscribe();

    bus.emit(EventType::WatchdogTriggered);
    assert!(matches!(rx.try_next(), RecvOutcome::Event(EventType::WatchdogTriggered)));

    bus.emit(EventType::WatchdogWarning);
    assert!(matches!(rx.try_next(), RecvOutcome::Event(EventType::WatchdogWarning)));
}

#[test]
fn test_event_ordering() {
    let bus = EventBus::new();
    let mut rx = bus.subscribe();

    bus.emit(EventType::ConnectSuccess);
    bus.emit(EventType::BroadcastStarted);
    bus.emit(EventType::WatchdogTriggered);

    assert!(matches!(rx.try_next(), RecvOutcome::Event(EventType::ConnectSuccess)));
    assert!(matches!(rx.try_next(), RecvOutcome::Event(EventType::BroadcastStarted)));
    assert!(matches!(rx.try_next(), RecvOutcome::Event(EventType::WatchdogTriggered)));
}

#[test]
fn test_no_subscribers_doesnt_panic() {
    let bus = EventBus::new();
    bus.emit(EventType::ConnectSuccess);
    bus.emit(EventType::WatchdogTriggered);
}

#[test]
fn test_emit_all_and_collect_pending() {
    let bus = EventBus::new();
    let mut rx = bus.subscribe();

    let batch = vec![
        EventType::ConnectSuccess,
        EventType::DeviceStateUpdated,
        EventType::Disconnected,
    ];
    bus.emit_all(&batch);

    let seen = rx.collect_pending(10);
    assert_eq!(seen, batch);
    assert!(matches!(rx.try_next(), RecvOutcome::Empty));
}
