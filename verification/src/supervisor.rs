//! The connection supervisor's decision core.
//!
//! Everything here is a pure state transition: callers' intents are
//! validated against the three state machines and turned into wire commands
//! and events; each poll tick takes the heartbeat outcome and the parsed
//! status line and reconciles the snapshot. The surrounding process owns
//! the socket, performs the returned commands, publishes the returned
//! events, and feeds outcomes back in.

use vstd::prelude::*;

use crate::codec::Command;
use crate::config::{spec_preset_channels, spec_preset_frequency, ChannelPresets, Config,
    FrequencyPresets};
use crate::device::{spec_default_device_state, spec_device_wf, Channel, DeviceState};
use crate::errors::ErrorKind;
use crate::event_bus::EventType;
use crate::state_machine::{
    spec_confirm_armed, BroadcastState, ConnectionState, SourceMode, WatchdogState,
};
use crate::status::{parse_status, spec_parse_status, StatusReportView};
use crate::watchdog::{spec_watchdog_after_report, WatchdogMonitor};

verus! {

/// The broadcast state after the device's reported output field lands:
/// a reported `1` confirms a pending start and reconciles the resting
/// states up to Broadcasting, a reported `0` confirms a pending stop and
/// ends a running broadcast. Stopping waits for the `0` it asked for;
/// Emergency is left only by an explicit request.
pub open spec fn spec_broadcast_after_field(b: BroadcastState, rep: Option<bool>) -> BroadcastState {
    match rep {
        None => b,
        Some(true) => match b {
            BroadcastState::Idle => BroadcastState::Broadcasting,
            BroadcastState::Arming => BroadcastState::Broadcasting,
            BroadcastState::Armed => BroadcastState::Broadcasting,
            BroadcastState::Starting => BroadcastState::Broadcasting,
            _ => b,
        },
        Some(false) => match b {
            BroadcastState::Stopping => BroadcastState::Idle,
            BroadcastState::Broadcasting => BroadcastState::Idle,
            _ => b,
        },
    }
}

/// The watchdog state a status report names: a reported trip wins, then a
/// reported warning, then a clean report; a line that carries neither
/// watchdog field reports nothing.
pub open spec fn spec_reported_watchdog(rv: StatusReportView) -> Option<WatchdogState> {
    if rv.watchdog_triggered == Some(true) {
        Some(WatchdogState::Triggered)
    } else if rv.watchdog_warning == Some(true) {
        Some(WatchdogState::Warning)
    } else if rv.watchdog_triggered is Some || rv.watchdog_warning is Some {
        Some(WatchdogState::Okay)
    } else {
        None
    }
}

/// The watchdog state after one status report.
pub open spec fn spec_status_watchdog(w: WatchdogState, rv: StatusReportView) -> WatchdogState {
    spec_watchdog_after_report(w, spec_reported_watchdog(rv))
}

/// The broadcast state after one status report: a successful poll confirms
/// a pending arm, the output field is reconciled, and a watchdog trip
/// forces Idle whatever the prior value.
pub open spec fn spec_status_broadcast(b: BroadcastState, w: WatchdogState, rv: StatusReportView) -> BroadcastState {
    let b2 = spec_broadcast_after_field(spec_confirm_armed(b), rv.broadcasting);
    if spec_status_watchdog(w, rv) is Triggered && !(w is Triggered) {
        BroadcastState::Idle
    } else {
        b2
    }
}

/// The events one applied status report publishes, edge-triggered: a
/// broadcast start or stop only on the tick where the state changes, the
/// watchdog transitions only as they happen, and the unconditional
/// state-updated notification last.
pub open spec fn spec_status_events(b: BroadcastState, w: WatchdogState, rv: StatusReportView) -> Seq<EventType> {
    let b1 = spec_confirm_armed(b);
    let b2 = spec_broadcast_after_field(b1, rv.broadcasting);
    let w2 = spec_status_watchdog(w, rv);
    let trip = w2 is Triggered && !(w is Triggered);
    let ev_field = if !(b1 is Broadcasting) && b2 is Broadcasting {
        seq![EventType::BroadcastStarted]
    } else if b1 is Broadcasting && !(b2 is Broadcasting) {
        seq![EventType::BroadcastStopped]
    } else {
        Seq::<EventType>::empty()
    };
    let ev_wd = if trip {
        seq![EventType::WatchdogTriggered] + if !(b2 is Idle) {
            seq![EventType::BroadcastStopped]
        } else {
            Seq::<EventType>::empty()
        }
    } else if w2 is Warning && w is Okay {
        seq![EventType::WatchdogWarning]
    } else if w2 is Okay && w is Warning {
        seq![EventType::WatchdogOk]
    } else {
        Seq::<EventType>::empty()
    };
    ev_field + ev_wd + seq![EventType::DeviceStateUpdated]
}

/// One channel after a status report's per-channel fields land: the enabled
/// flag follows the report, and a reported frequency is taken only inside
/// the settable band, preserving the snapshot's frequency invariant.
pub open spec fn spec_channel_after(c: Channel, en: Option<bool>, fr: Option<u32>) -> Channel {
    Channel {
        enabled: match en {
            Some(e) => e,
            None => c.enabled,
        },
        frequency: match fr {
            Some(hz) => if Config::MIN_FREQUENCY <= hz <= Config::MAX_FREQUENCY {
                hz
            } else {
                c.frequency
            },
            None => c.frequency,
        },
        ..c
    }
}

/// A watchdog trip entering through a status report forces the broadcast
/// machine to Idle, whatever its prior value — Broadcasting and Emergency
/// included.
pub proof fn lemma_triggered_forces_idle(b: BroadcastState, w: WatchdogState, rv: StatusReportView)
    requires
        !(w is Triggered),
        spec_status_watchdog(w, rv) is Triggered,
    ensures
        spec_status_broadcast(b, w, rv) is Idle,
{
}

/// What one poll tick decided: the events to publish, in order, and whether
/// the connection was declared lost on this very tick.
pub struct TickOutcome {
    pub events: Vec<EventType>,
    pub connection_lost: bool,
}

/// The events of a tick whose heartbeat failed: nothing until the failure
/// run fills, then — exactly once — the trip, the forced broadcast stop
/// where one was running, and the connection-lost pair.
pub open spec fn spec_failure_events(
    crossed: bool,
    wd_newly_triggered: bool,
    b_old: BroadcastState,
) -> Seq<EventType> {
    if crossed {
        (if wd_newly_triggered {
            seq![EventType::WatchdogTriggered]
        } else {
            Seq::<EventType>::empty()
        }) + (if !(b_old is Idle) {
            seq![EventType::BroadcastStopped]
        } else {
            Seq::<EventType>::empty()
        }) + seq![
            EventType::ConnectionLost,
            EventType::ConnectionStateChanged(ConnectionState::Reconnecting),
        ]
    } else {
        Seq::<EventType>::empty()
    }
}

/// How many connection-lost notifications an event sequence carries.
pub open spec fn spec_count_connection_lost(s: Seq<EventType>) -> int
    decreases s.len(),
{
    if s.len() == 0 {
        0
    } else {
        spec_count_connection_lost(s.drop_last()) + (if s.last() is ConnectionLost {
            1int
        } else {
            0int
        })
    }
}

proof fn lemma_count_lost_add(a: Seq<EventType>, b: Seq<EventType>)
    ensures
        spec_count_connection_lost(a + b) == spec_count_connection_lost(a)
            + spec_count_connection_lost(b),
    decreases b.len(),
{
    if b.len() == 0 {
        assert(a + b =~= a);
    } else {
        assert((a + b).drop_last() =~= a + b.drop_last());
        assert((a + b).last() == b.last());
        lemma_count_lost_add(a, b.drop_last());
    }
}

proof fn lemma_count_lost_singleton(e: EventType)
    ensures
        spec_count_connection_lost(seq![e]) == (if e is ConnectionLost {
            1int
        } else {
            0int
        }),
{
    assert(spec_count_connection_lost(Seq::<EventType>::empty()) == 0);
    assert(seq![e].len() == 1);
    assert(seq![e].drop_last() =~= Seq::<EventType>::empty());
    assert(seq![e].last() == e);
    assert(spec_count_connection_lost(seq![e]) == spec_count_connection_lost(
        Seq::<EventType>::empty(),
    ) + (if e is ConnectionLost {
        1int
    } else {
        0int
    }));
}

proof fn lemma_count_lost_pair(d: EventType, e: EventType)
    ensures
        spec_count_connection_lost(seq![d, e]) == (if d is ConnectionLost {
            1int
        } else {
            0int
        }) + (if e is ConnectionLost {
            1int
        } else {
            0int
        }),
{
    assert(seq![d, e] =~= seq![d] + seq![e]);
    lemma_count_lost_add(seq![d], seq![e]);
    lemma_count_lost_singleton(d);
    lemma_count_lost_singleton(e);
}

/// The lost connection is announced exactly once: a failing tick carries
/// one connection-lost event when — and only when — the failure run reaches
/// its cap on that tick, and a tick that applied a status report never
/// carries one.
pub proof fn lemma_connection_lost_announced_once(
    crossed: bool,
    wd_newly_triggered: bool,
    b: BroadcastState,
    w: WatchdogState,
    rv: StatusReportView,
)
    ensures
        spec_count_connection_lost(spec_failure_events(crossed, wd_newly_triggered, b)) == (
        if crossed {
            1int
        } else {
            0int
        }),
        spec_count_connection_lost(spec_status_events(b, w, rv)) == 0,
{
    let empty = Seq::<EventType>::empty();
    assert(spec_count_connection_lost(empty) == 0);
    let ev_trip = if wd_newly_triggered {
        seq![EventType::WatchdogTriggered]
    } else {
        empty
    };
    let ev_stop = if !(b is Idle) {
        seq![EventType::BroadcastStopped]
    } else {
        empty
    };
    let tail = seq![
        EventType::ConnectionLost,
        EventType::ConnectionStateChanged(ConnectionState::Reconnecting),
    ];
    lemma_count_lost_singleton(EventType::WatchdogTriggered);
    lemma_count_lost_singleton(EventType::BroadcastStopped);
    lemma_count_lost_pair(
        EventType::ConnectionLost,
        EventType::ConnectionStateChanged(ConnectionState::Reconnecting),
    );
    lemma_count_lost_add(ev_trip, ev_stop);
    lemma_count_lost_add(ev_trip + ev_stop, tail);

    let b1 = spec_confirm_armed(b);
    let b2 = spec_broadcast_after_field(b1, rv.broadcasting);
    let w2 = spec_status_watchdog(w, rv);
    let trip = w2 is Triggered && !(w is Triggered);
    let ev_field = if !(b1 is Broadcasting) && b2 is Broadcasting {
        seq![EventType::BroadcastStarted]
    } else if b1 is Broadcasting && !(b2 is Broadcasting) {
        seq![EventType::BroadcastStopped]
    } else {
        empty
    };
    let ev_wd = if trip {
        seq![EventType::WatchdogTriggered] + if !(b2 is Idle) {
            seq![EventType::BroadcastStopped]
        } else {
            empty
        }
    } else if w2 is Warning && w is Okay {
        seq![EventType::WatchdogWarning]
    } else if w2 is Okay && w is Warning {
        seq![EventType::WatchdogOk]
    } else {
        empty
    };
    lemma_count_lost_singleton(EventType::BroadcastStarted);
    lemma_count_lost_singleton(EventType::WatchdogWarning);
    lemma_count_lost_singleton(EventType::WatchdogOk);
    lemma_count_lost_singleton(EventType::DeviceStateUpdated);
    lemma_count_lost_add(
        seq![EventType::WatchdogTriggered],
        if !(b2 is Idle) {
            seq![EventType::BroadcastStopped]
        } else {
            empty
        },
    );
    lemma_count_lost_add(ev_field, ev_wd);
    lemma_count_lost_add(ev_field + ev_wd, seq![EventType::DeviceStateUpdated]);
}

/// The session core's decision state: the reconciled snapshot, the watchdog
/// monitor, and the reconnection bookkeeping.
#[derive(Debug)]
pub struct Supervisor {
    pub state: DeviceState,
    pub monitor: WatchdogMonitor,
    pub reconnect_attempts: u8,
    pub max_reconnect_attempts: u8,
}

impl Supervisor {
    /// The snapshot keeps its shape, the monitor its bounds, the snapshot's
    /// watchdog field mirrors the monitor, and the reconnect cap is
    /// positive.
    pub open spec fn wf(&self) -> bool {
        &&& spec_device_wf(self.state@)
        &&& self.monitor.wf()
        &&& self.state@.watchdog == self.monitor.state
        &&& self.max_reconnect_attempts >= 1
    }

    /// A fresh supervisor: default snapshot, clear watchdog, configured
    /// caps.
    pub fn new() -> (r: Supervisor)
        ensures
            r.wf(),
            spec_default_device_state(r.state@),
            r.monitor.consecutive_failures == 0,
            r.reconnect_attempts == 0,
            r.max_reconnect_attempts == Config::MAX_RECONNECT_ATTEMPTS,
            r.monitor.max_failures == Config::MAX_CONSECUTIVE_ERRORS,
    {
        Supervisor {
            state: DeviceState::default(),
            monitor: WatchdogMonitor::new(Config::MAX_CONSECUTIVE_ERRORS),
            reconnect_attempts: 0,
            max_reconnect_attempts: Config::MAX_RECONNECT_ATTEMPTS,
        }
    }

    /// A copy of the snapshot, for external callers.
    pub fn get_state(&self) -> (r: DeviceState)
        ensures
            r@ == self.state@,
    {
        self.state.snapshot()
    }

    /// Whether an established session exists right now.
    pub fn is_connected(&self) -> (r: bool)
        ensures
            r == (self.state@.connection is Connected),
    {
        matches!(self.state.connection, ConnectionState::Connected)
    }

    /// Begin connecting: refused when any session exists, otherwise the
    /// snapshot moves to Connecting and says so.
    pub fn begin_connect(&mut self) -> (r: Result<Vec<EventType>, ErrorKind>)
        requires
            old(self).wf(),
        ensures
            final(self).wf(),
            r is Ok <==> old(self).state@.connection is Disconnected,
            r is Err ==> r == Err::<Vec<EventType>, ErrorKind>(ErrorKind::AlreadyConnected)
                && final(self).state@ == old(self).state@ && final(self).monitor == old(self).monitor,
            r matches Ok(ev) ==> ({
                &&& final(self).state@ == (crate::device::DeviceStateView {
                    connection: ConnectionState::Connecting,
                    ..old(self).state@
                })
                &&& final(self).monitor == old(self).monitor
                &&& ev@ == seq![
                    EventType::ConnectionStateChanged(ConnectionState::Connecting),
                ]
            }),
    {
        if !matches!(self.state.connection, ConnectionState::Disconnected) {
            return Err(ErrorKind::AlreadyConnected);
        }
        self.state.connection = ConnectionState::Connecting;
        let mut ev: Vec<EventType> = Vec::new();
        ev.push(EventType::ConnectionStateChanged(ConnectionState::Connecting));
        proof {
            assert(ev@ =~= seq![EventType::ConnectionStateChanged(ConnectionState::Connecting)]);
        }
        Ok(ev)
    }

    /// The transport connected: the session is established, the error and
    /// reconnect counters restart, and the success pair of events is owed.
    pub fn connect_succeeded(&mut self) -> (ev: Vec<EventType>)
        requires
            old(self).wf(),
        ensures
            final(self).wf(),
            final(self).state@ == (crate::device::DeviceStateView {
                connection: ConnectionState::Connected,
                error_count: 0u32,
                ..old(self).state@
            }),
            final(self).monitor == (WatchdogMonitor {
                consecutive_failures: 0u8,
                ..old(self).monitor
            }),
            final(self).reconnect_attempts == 0,
            ev@ == seq![
                EventType::ConnectSuccess,
                EventType::ConnectionStateChanged(ConnectionState::Connected),
            ],
    {
        self.state.connection = ConnectionState::Connected;
        self.state.error_count = 0;
        self.monitor.heartbeat_ok();
        self.reconnect_attempts = 0;
        let mut ev: Vec<EventType> = Vec::new();
        ev.push(EventType::ConnectSuccess);
        ev.push(EventType::ConnectionStateChanged(ConnectionState::Connected));
        proof {
            assert(ev@ =~= seq![
                EventType::ConnectSuccess,
                EventType::ConnectionStateChanged(ConnectionState::Connected),
            ]);
        }
        ev
    }

    /// Connecting failed for good: back to Disconnected, the failure
    /// counted, the failure pair of events owed. The reason travels in the
    /// event for observers.
    pub fn connect_failed(&mut self, reason: String) -> (ev: Vec<EventType>)
        requires
            old(self).wf(),
        ensures
            final(self).wf(),
            final(self).state@ == (crate::device::DeviceStateView {
                connection: ConnectionState::Disconnected,
                error_count: if old(self).state@.error_count < u32::MAX {
                    (old(self).state@.error_count + 1) as u32
                } else {
                    u32::MAX
                },
                ..old(self).state@
            }),
            final(self).monitor == old(self).monitor,
            ev@.len() == 2,
            ev@[0] is ConnectFailed,
            ev@[1] == EventType::ConnectionStateChanged(ConnectionState::Disconnected),
    {
        self.state.connection = ConnectionState::Disconnected;
        if self.state.error_count < u32::MAX {
            self.state.error_count = self.state.error_count + 1;
        }
        let mut ev: Vec<EventType> = Vec::new();
        ev.push(EventType::ConnectFailed(reason));
        ev.push(EventType::ConnectionStateChanged(ConnectionState::Disconnected));
        ev
    }

    /// Tear the session down: where a broadcast (or emergency broadcast) is
    /// running, the master-off command is owed first; the snapshot resets
    /// to its defaults and the disconnect pair of events is published.
    pub fn disconnect(&mut self) -> (r: (Option<Command>, Vec<EventType>))
        requires
            old(self).wf(),
        ensures
            final(self).wf(),
            spec_default_device_state(final(self).state@),
            final(self).monitor.consecutive_failures == 0,
            final(self).monitor.max_failures == old(self).monitor.max_failures,
            final(self).reconnect_attempts == 0,
            r.0 == if old(self).state@.broadcast is Broadcasting || old(self).state@.broadcast is Emergency {
                Some(Command::OutputOff)
            } else {
                None::<Command>
            },
            r.1@ == seq![
                EventType::Disconnected,
                EventType::ConnectionStateChanged(ConnectionState::Disconnected),
            ],
    {
        let stop = if self.state.broadcast.is_broadcasting() {
            Some(Command::OutputOff)
        } else {
            None
        };
        self.state = DeviceState::default();
        self.monitor.reset();
        self.reconnect_attempts = 0;
        let mut ev: Vec<EventType> = Vec::new();
        ev.push(EventType::Disconnected);
        ev.push(EventType::ConnectionStateChanged(ConnectionState::Disconnected));
        proof {
            assert(ev@ =~= seq![
                EventType::Disconnected,
                EventType::ConnectionStateChanged(ConnectionState::Disconnected),
            ]);
        }
        (stop, ev)
    }

    /// Arm the transmitter. Owed exactly when a session exists, the
    /// watchdog has not tripped, and the broadcast machine sits in Idle;
    /// the machine then moves to Arming, to be confirmed by the next poll.
    /// No wire command is involved.
    pub fn arm(&mut self) -> (r: Result<(), ErrorKind>)
        requires
            old(self).wf(),
        ensures
            final(self).wf(),
            final(self).monitor == old(self).monitor,
            r is Ok <==> (old(self).state@.connection is Connected && !(old(self).state@.watchdog is Triggered) && old(self).state@.broadcast is Idle),
            !(old(self).state@.connection is Connected) ==> r == Err::<(), ErrorKind>(
                ErrorKind::NotConnected,
            ),
            old(self).state@.connection is Connected && old(self).state@.watchdog is Triggered
                ==> r == Err::<(), ErrorKind>(ErrorKind::WatchdogTriggered),
            old(self).state@.connection is Connected && !(old(self).state@.watchdog is Triggered)
                && !(old(self).state@.broadcast is Idle) ==> r == Err::<(), ErrorKind>(
                ErrorKind::InvalidStateTransition,
            ),
            r is Ok ==> final(self).state@ == (crate::device::DeviceStateView {
                broadcast: BroadcastState::Arming,
                ..old(self).state@
            }),
            r is Err ==> final(self).state@ == old(self).state@,
    {
        if !matches!(self.state.connection, ConnectionState::Connected) {
            return Err(ErrorKind::NotConnected);
        }
        if matches!(self.state.watchdog, WatchdogState::Triggered) {
            return Err(ErrorKind::WatchdogTriggered);
        }
        match self.state.broadcast.request_arm() {
            Ok(next) => {
                self.state.broadcast = next;
                Ok(())
            },
            Err(_) => Err(ErrorKind::InvalidStateTransition),
        }
    }

    /// Start broadcasting. Owed exactly when a session exists, the watchdog
    /// has not tripped, and the machine sits in Armed; the machine then
    /// moves to Starting and the master-on command is owed to the wire.
    pub fn start_broadcast(&mut self) -> (r: Result<Command, ErrorKind>)
        requires
            old(self).wf(),
        ensures
            final(self).wf(),
            final(self).monitor == old(self).monitor,
            r is Ok <==> (old(self).state@.connection is Connected && !(old(self).state@.watchdog is Triggered) && old(self).state@.broadcast is Armed),
            r matches Ok(c) ==> c == Command::OutputOn,
            !(old(self).state@.connection is Connected) ==> r == Err::<Command, ErrorKind>(
                ErrorKind::NotConnected,
            ),
            old(self).state@.connection is Connected && old(self).state@.watchdog is Triggered
                ==> r == Err::<Command, ErrorKind>(ErrorKind::WatchdogTriggered),
            old(self).state@.connection is Connected && !(old(self).state@.watchdog is Triggered)
                && !(old(self).state@.broadcast is Armed) ==> r == Err::<Command, ErrorKind>(
                ErrorKind::InvalidStateTransition,
            ),
            r is Ok ==> final(self).state@ == (crate::device::DeviceStateView {
                broadcast: BroadcastState::Starting,
                ..old(self).state@
            }),
            r is Err ==> final(self).state@ == old(self).state@,
    {
        if !matches!(self.state.connection, ConnectionState::Connected) {
            return Err(ErrorKind::NotConnected);
        }
        if matches!(self.state.watchdog, WatchdogState::Triggered) {
            return Err(ErrorKind::WatchdogTriggered);
        }
        match self.state.broadcast.request_start() {
            Ok(next) => {
                self.state.broadcast = next;
                Ok(Command::OutputOn)
            },
            Err(_) => Err(ErrorKind::InvalidStateTransition),
        }
    }

    /// Stop, disarm, or cancel an arm in progress. Owed exactly when a
    /// session exists and the machine sits in Arming, Armed, Starting or
    /// Broadcasting. The master-off command is owed only when the machine
    /// enters Stopping; cancelling an arm or disarming is local.
    pub fn stop_broadcast(&mut self) -> (r: Result<Option<Command>, ErrorKind>)
        requires
            old(self).wf(),
        ensures
            final(self).wf(),
            final(self).monitor == old(self).monitor,
            r is Ok <==> (old(self).state@.connection is Connected && (old(self).state@.broadcast is Arming || old(self).state@.broadcast is Armed || old(self).state@.broadcast is Starting || old(self).state@.broadcast is Broadcasting)),
            !(old(self).state@.connection is Connected) ==> r == Err::<Option<Command>, ErrorKind>(
                ErrorKind::NotConnected,
            ),
            old(self).state@.connection is Connected && !(old(self).state@.broadcast is Arming
                || old(self).state@.broadcast is Armed || old(self).state@.broadcast is Starting
                || old(self).state@.broadcast is Broadcasting) ==> r == Err::<
                Option<Command>,
                ErrorKind,
            >(ErrorKind::InvalidStateTransition),
            r matches Ok(c) ==> ({
                &&& final(self).state@ == (crate::device::DeviceStateView {
                    broadcast: crate::state_machine::spec_request_stop(
                        old(self).state@.broadcast,
                    )->Ok_0,
                    ..old(self).state@
                })
                &&& c == if final(self).state@.broadcast is Stopping {
                    Some(Command::OutputOff)
                } else {
                    None::<Command>
                }
            }),
            r is Err ==> final(self).state@ == old(self).state@,
    {
        if !matches!(self.state.connection, ConnectionState::Connected) {
            return Err(ErrorKind::NotConnected);
        }
        match self.state.broadcast.request_stop() {
            Ok(next) => {
                self.state.broadcast = next;
                let cmd = if matches!(next, BroadcastState::Stopping) {
                    Some(Command::OutputOff)
                } else {
                    None
                };
                Ok(cmd)
            },
            Err(_) => Err(ErrorKind::InvalidStateTransition),
        }
    }

    /// Emergency broadcast: owed whenever a session exists and the machine
    /// is not already in Emergency, bypassing the arm precondition (and the
    /// watchdog block — the emergency path is the operator's override). The
    /// master-on command is owed to the wire.
    pub fn start_emergency(&mut self) -> (r: Result<Command, ErrorKind>)
        requires
            old(self).wf(),
        ensures
            final(self).wf(),
            final(self).monitor == old(self).monitor,
            r is Ok <==> (old(self).state@.connection is Connected && !(old(self).state@.broadcast is Emergency)),
            r matches Ok(c) ==> c == Command::OutputOn,
            !(old(self).state@.connection is Connected) ==> r == Err::<Command, ErrorKind>(
                ErrorKind::NotConnected,
            ),
            old(self).state@.connection is Connected && old(self).state@.broadcast is Emergency
                ==> r == Err::<Command, ErrorKind>(ErrorKind::InvalidStateTransition),
            r is Ok ==> final(self).state@ == (crate::device::DeviceStateView {
                broadcast: BroadcastState::Emergency,
                ..old(self).state@
            }),
            r is Err ==> final(self).state@ == old(self).state@,
    {
        if !matches!(self.state.connection, ConnectionState::Connected) {
            return Err(ErrorKind::NotConnected);
        }
        match self.state.broadcast.request_emergency() {
            Ok(next) => {
                self.state.broadcast = next;
                Ok(Command::OutputOn)
            },
            Err(_) => Err(ErrorKind::InvalidStateTransition),
        }
    }

    /// Leave Emergency: owed exactly when a session exists and the machine
    /// sits in Emergency; it returns to Idle and the master-off command is
    /// owed to the wire.
    pub fn stop_emergency(&mut self) -> (r: Result<Command, ErrorKind>)
        requires
            old(self).wf(),
        ensures
            final(self).wf(),
            final(self).monitor == old(self).monitor,
            r is Ok <==> (old(self).state@.connection is Connected && old(self).state@.broadcast is Emergency),
            r matches Ok(c) ==> c == Command::OutputOff,
            !(old(self).state@.connection is Connected) ==> r == Err::<Command, ErrorKind>(
                ErrorKind::NotConnected,
            ),
            old(self).state@.connection is Connected && !(old(self).state@.broadcast is Emergency)
                ==> r == Err::<Command, ErrorKind>(ErrorKind::InvalidStateTransition),
            r is Ok ==> final(self).state@ == (crate::device::DeviceStateView {
                broadcast: BroadcastState::Idle,
                ..old(self).state@
            }),
            r is Err ==> final(self).state@ == old(self).state@,
    {
        if !matches!(self.state.connection, ConnectionState::Connected) {
            return Err(ErrorKind::NotConnected);
        }
        match self.state.broadcast.request_stop_emergency() {
            Ok(next) => {
                self.state.broadcast = next;
                Ok(Command::OutputOff)
            },
            Err(_) => Err(ErrorKind::InvalidStateTransition),
        }
    }

    /// Set one channel's frequency and output state. Owed exactly when a
    /// session exists, the channel exists and the frequency lies in the
    /// settable band; a violated bound is rejected before any wire command
    /// exists. On success the two channel commands are owed in order, the
    /// snapshot echoes the change, and the channel-updated event is
    /// published.
    pub fn set_channel(&mut self, channel: u8, frequency: u32, enabled: bool) -> (r: Result<
        (Vec<Command>, Vec<EventType>),
        ErrorKind,
    >)
        requires
            old(self).wf(),
        ensures
            final(self).wf(),
            final(self).monitor == old(self).monitor,
            r is Ok <==> (old(self).state@.connection is Connected && 1 <= channel
                <= Config::NUM_CHANNELS && Config::MIN_FREQUENCY <= frequency
                <= Config::MAX_FREQUENCY),
            !(old(self).state@.connection is Connected) ==> r == Err::<
                (Vec<Command>, Vec<EventType>),
                ErrorKind,
            >(ErrorKind::NotConnected),
            old(self).state@.connection is Connected && !(1 <= channel <= Config::NUM_CHANNELS)
                ==> r == Err::<(Vec<Command>, Vec<EventType>), ErrorKind>(
                ErrorKind::ChannelOutOfRange,
            ),
            old(self).state@.connection is Connected && 1 <= channel <= Config::NUM_CHANNELS && !(
            Config::MIN_FREQUENCY <= frequency <= Config::MAX_FREQUENCY) ==> r == Err::<
                (Vec<Command>, Vec<EventType>),
                ErrorKind,
            >(ErrorKind::FrequencyOutOfRange),
            r is Err ==> final(self).state@ == old(self).state@,
            r matches Ok(out) ==> ({
                &&& out.0@ == seq![
                    Command::ChannelFrequency { channel, hz: frequency },
                    Command::ChannelOutput { channel, on: enabled },
                ]
                &&& out.1@ == seq![EventType::ChannelUpdated(channel)]
                &&& final(self).state@ == (crate::device::DeviceStateView {
                    channels: old(self).state@.channels.update(
                        channel - 1,
                        Channel {
                            enabled,
                            frequency,
                            ..old(self).state@.channels[channel - 1]
                        },
                    ),
                    ..old(self).state@
                })
            }),
    {
        if !matches!(self.state.connection, ConnectionState::Connected) {
            return Err(ErrorKind::NotConnected);
        }
        if channel < 1 || channel > Config::NUM_CHANNELS {
            return Err(ErrorKind::ChannelOutOfRange);
        }
        if frequency < Config::MIN_FREQUENCY || frequency > Config::MAX_FREQUENCY {
            return Err(ErrorKind::FrequencyOutOfRange);
        }
        let idx: usize = (channel - 1) as usize;
        let old_channel = self.state.channels[idx];
        self.state.channels[idx] = Channel { enabled, frequency, ..old_channel };
        let mut commands: Vec<Command> = Vec::new();
        commands.push(Command::ChannelFrequency { channel, hz: frequency });
        commands.push(Command::ChannelOutput { channel, on: enabled });
        let mut ev: Vec<EventType> = Vec::new();
        ev.push(EventType::ChannelUpdated(channel));
        proof {
            assert(commands@ =~= seq![
                Command::ChannelFrequency { channel, hz: frequency },
                Command::ChannelOutput { channel, on: enabled },
            ]);
            assert(ev@ =~= seq![EventType::ChannelUpdated(channel)]);
        }
        Ok((commands, ev))
    }

    /// Select the audio source. Owed exactly when a session exists; the
    /// source command is owed to the wire, the snapshot echoes the mode and
    /// the source-changed event is published.
    pub fn set_source(&mut self, mode: SourceMode) -> (r: Result<
        (Command, Vec<EventType>),
        ErrorKind,
    >)
        requires
            old(self).wf(),
        ensures
            final(self).wf(),
            final(self).monitor == old(self).monitor,
            r is Ok <==> old(self).state@.connection is Connected,
            !(old(self).state@.connection is Connected) ==> r == Err::<
                (Command, Vec<EventType>),
                ErrorKind,
            >(ErrorKind::NotConnected),
            r is Err ==> final(self).state@ == old(self).state@,
            r matches Ok(out) ==> ({
                &&& out.0 == Command::SetSource { mode }
                &&& out.1@ == seq![EventType::SourceChanged(mode)]
                &&& final(self).state@ == (crate::device::DeviceStateView {
                    source: mode,
                    ..old(self).state@
                })
            }),
    {
        if !matches!(self.state.connection, ConnectionState::Connected) {
            return Err(ErrorKind::NotConnected);
        }
        self.state.source = mode;
        let mut ev: Vec<EventType> = Vec::new();
        ev.push(EventType::SourceChanged(mode));
        proof {
            assert(ev@ =~= seq![EventType::SourceChanged(mode)]);
        }
        Ok((Command::SetSource { mode }, ev))
    }

    /// Reset the watchdog: owed exactly when a session exists. The reset
    /// command is owed to the wire, the local trap and failure run clear,
    /// and the reset event is published. The broadcast machine stays where
    /// it is: a reset never re-arms.
    pub fn reset_watchdog(&mut self) -> (r: Result<(Command, Vec<EventType>), ErrorKind>)
        requires
            old(self).wf(),
        ensures
            final(self).wf(),
            r is Ok <==> old(self).state@.connection is Connected,
            !(old(self).state@.connection is Connected) ==> r == Err::<
                (Command, Vec<EventType>),
                ErrorKind,
            >(ErrorKind::NotConnected) && final(self).state@ == old(self).state@ && final(self).monitor == old(self).monitor,
            r matches Ok(out) ==> ({
                &&& out.0 == Command::WatchdogReset
                &&& out.1@ == seq![EventType::WatchdogReset]
                &&& final(self).state@ == (crate::device::DeviceStateView {
                    watchdog: WatchdogState::Okay,
                    ..old(self).state@
                })
                &&& final(self).monitor == (WatchdogMonitor {
                    state: WatchdogState::Okay,
                    consecutive_failures: 0u8,
                    max_failures: old(self).monitor.max_failures,
                })
            }),
    {
        if !matches!(self.state.connection, ConnectionState::Connected) {
            return Err(ErrorKind::NotConnected);
        }
        self.monitor.reset();
        self.state.watchdog = WatchdogState::Okay;
        let mut ev: Vec<EventType> = Vec::new();
        ev.push(EventType::WatchdogReset);
        proof {
            assert(ev@ =~= seq![EventType::WatchdogReset]);
        }
        Ok((Command::WatchdogReset, ev))
    }

    /// Enable a preset distribution of channels: every channel is first set
    /// to its preset frequency and disabled, then the channels the preset
    /// count selects are enabled, in preset order. Owed exactly when a
    /// session exists; the channel commands are owed to the wire in that
    /// same order, with one channel-updated event per touched channel.
    pub fn enable_preset(&mut self, count: u8) -> (r: Result<
        (Vec<Command>, Vec<EventType>),
        ErrorKind,
    >)
        requires
            old(self).wf(),
        ensures
            final(self).wf(),
            final(self).monitor == old(self).monitor,
            r is Ok <==> old(self).state@.connection is Connected,
            !(old(self).state@.connection is Connected) ==> r == Err::<
                (Vec<Command>, Vec<EventType>),
                ErrorKind,
            >(ErrorKind::NotConnected) && final(self).state@ == old(self).state@,
            r matches Ok(out) ==> ({
                let picks = spec_preset_channels(count);
                let n = Config::NUM_CHANNELS as int;
                &&& final(self).state@ == (crate::device::DeviceStateView {
                    channels: final(self).state@.channels,
                    ..old(self).state@
                })
                &&& final(self).state@.channels.len() == old(self).state@.channels.len()
                &&& (forall|i: int|
                    0 <= i < n ==> #[trigger] final(self).state@.channels[i] == (Channel {
                        enabled: picks.contains((i + 1) as u8),
                        frequency: spec_preset_frequency((i + 1) as u8),
                        ..old(self).state@.channels[i]
                    }))
                &&& out.0@.len() == 2 * (n + picks.len())
                &&& (forall|k: int|
                    0 <= k < n ==> #[trigger] out.0@[2 * k] == (Command::ChannelFrequency {
                        channel: (k + 1) as u8,
                        hz: spec_preset_frequency((k + 1) as u8),
                    }) && out.0@[2 * k + 1] == (Command::ChannelOutput {
                        channel: (k + 1) as u8,
                        on: false,
                    }))
                &&& (forall|j: int|
                    0 <= j < picks.len() ==> #[trigger] out.0@[2 * n + 2 * j]
                        == (Command::ChannelFrequency {
                        channel: picks[j],
                        hz: spec_preset_frequency(picks[j]),
                    }) && out.0@[2 * n + 2 * j + 1] == (Command::ChannelOutput {
                        channel: picks[j],
                        on: true,
                    }))
                &&& out.1@.len() == n + picks.len()
                &&& (forall|k: int|
                    0 <= k < n ==> #[trigger] out.1@[k] == EventType::ChannelUpdated(
                        (k + 1) as u8,
                    ))
                &&& (forall|j: int|
                    0 <= j < picks.len() ==> #[trigger] out.1@[n + j]
                        == EventType::ChannelUpdated(picks[j]))
            }),
    {
        if !matches!(self.state.connection, ConnectionState::Connected) {
            return Err(ErrorKind::NotConnected);
        }
        proof {
            crate::config::lemma_preset_channels_valid(count);
            crate::config::lemma_presets_agree_and_in_band();
        }
        let ghost n = Config::NUM_CHANNELS as int;
        let mut commands: Vec<Command> = Vec::new();
        let mut events: Vec<EventType> = Vec::new();
        let mut ch: u8 = 1;
        while ch <= Config::NUM_CHANNELS
            invariant
                old(self).wf(),
                1 <= ch <= Config::NUM_CHANNELS + 1,
                self.monitor == old(self).monitor,
                self.reconnect_attempts == old(self).reconnect_attempts,
                self.max_reconnect_attempts == old(self).max_reconnect_attempts,
                self.state@ == (crate::device::DeviceStateView {
                    channels: self.state@.channels,
                    ..old(self).state@
                }),
                self.state@.channels.len() == old(self).state@.channels.len(),
                old(self).state@.channels.len() == Config::NUM_CHANNELS,
                forall|i: int|
                    0 <= i < ch - 1 ==> #[trigger] self.state@.channels[i] == (Channel {
                        enabled: false,
                        frequency: spec_preset_frequency((i + 1) as u8),
                        ..old(self).state@.channels[i]
                    }),
                forall|i: int|
                    ch - 1 <= i < Config::NUM_CHANNELS ==> #[trigger] self.state@.channels[i]
                        == old(self).state@.channels[i],
                commands@.len() == 2 * (ch - 1),
                forall|k: int|
                    0 <= k < ch - 1 ==> #[trigger] commands@[2 * k] == (Command::ChannelFrequency {
                        channel: (k + 1) as u8,
                        hz: spec_preset_frequency((k + 1) as u8),
                    }) && commands@[2 * k + 1] == (Command::ChannelOutput {
                        channel: (k + 1) as u8,
                        on: false,
                    }),
                events@.len() == ch - 1,
                forall|k: int|
                    0 <= k < ch - 1 ==> #[trigger] events@[k] == EventType::ChannelUpdated(
                        (k + 1) as u8,
                    ),
            decreases Config::NUM_CHANNELS + 1 - ch,
        {
            let frequency = FrequencyPresets::for_channel(ch);
            let idx: usize = (ch - 1) as usize;
            let old_channel = self.state.channels[idx];
            self.state.channels[idx] = Channel { enabled: false, frequency, ..old_channel };
            commands.push(Command::ChannelFrequency { channel: ch, hz: frequency });
            commands.push(Command::ChannelOutput { channel: ch, on: false });
            events.push(EventType::ChannelUpdated(ch));
            ch = ch + 1;
        }
        let picks = ChannelPresets::for_count(count);
        let mut j: usize = 0;
        while j < picks.len()
            invariant
                old(self).wf(),
                j <= picks@.len(),
                picks@ == spec_preset_channels(count),
                forall|i: int|
                    0 <= i < picks@.len() ==> 1 <= #[trigger] picks@[i] <= Config::NUM_CHANNELS,
                self.monitor == old(self).monitor,
                self.reconnect_attempts == old(self).reconnect_attempts,
                self.max_reconnect_attempts == old(self).max_reconnect_attempts,
                self.state@ == (crate::device::DeviceStateView {
                    channels: self.state@.channels,
                    ..old(self).state@
                }),
                self.state@.channels.len() == old(self).state@.channels.len(),
                old(self).state@.channels.len() == Config::NUM_CHANNELS,
                forall|i: int|
                    0 <= i < Config::NUM_CHANNELS ==> #[trigger] self.state@.channels[i]
                        == (Channel {
                        enabled: picks@.take(j as int).contains((i + 1) as u8),
                        frequency: spec_preset_frequency((i + 1) as u8),
                        ..old(self).state@.channels[i]
                    }),
                commands@.len() == 2 * (Config::NUM_CHANNELS + j),
                forall|k: int|
                    0 <= k < Config::NUM_CHANNELS ==> #[trigger] commands@[2 * k]
                        == (Command::ChannelFrequency {
                        channel: (k + 1) as u8,
                        hz: spec_preset_frequency((k + 1) as u8),
                    }) && commands@[2 * k + 1] == (Command::ChannelOutput {
                        channel: (k + 1) as u8,
                        on: false,
                    }),
                forall|k: int|
                    0 <= k < j ==> #[trigger] commands@[2 * Config::NUM_CHANNELS as int + 2 * k]
                        == (Command::ChannelFrequency {
                        channel: picks@[k],
                        hz: spec_preset_frequency(picks@[k]),
                    }) && commands@[2 * Config::NUM_CHANNELS as int + 2 * k + 1]
                        == (Command::ChannelOutput { channel: picks@[k], on: true }),
                events@.len() == Config::NUM_CHANNELS + j,
                forall|k: int|
                    0 <= k < Config::NUM_CHANNELS ==> #[trigger] events@[k]
                        == EventType::ChannelUpdated((k + 1) as u8),
                forall|k: int|
                    0 <= k < j ==> #[trigger] events@[Config::NUM_CHANNELS as int + k]
                        == EventType::ChannelUpdated(picks@[k]),
            decreases picks@.len() - j,
        {
            let ch = picks[j];
            let frequency = FrequencyPresets::for_channel(ch);
            let idx: usize = (ch - 1) as usize;
            let old_channel = self.state.channels[idx];
            self.state.channels[idx] = Channel { enabled: true, frequency, ..old_channel };
            commands.push(Command::ChannelFrequency { channel: ch, hz: frequency });
            commands.push(Command::ChannelOutput { channel: ch, on: true });
            events.push(EventType::ChannelUpdated(ch));
            proof {
                assert(picks@.take(j + 1) =~= picks@.take(j as int).push(picks@[j as int]));
                assert forall|i: int|
                    0 <= i < Config::NUM_CHANNELS implies #[trigger] self.state@.channels[i]
                    == (Channel {
                    enabled: picks@.take(j + 1).contains((i + 1) as u8),
                    frequency: spec_preset_frequency((i + 1) as u8),
                    ..old(self).state@.channels[i]
                }) by {
                    let t0 = picks@.take(j as int);
                    let t1 = picks@.take(j + 1);
                    assert(t1.contains((i + 1) as u8) <==> (t0.contains((i + 1) as u8) || picks@[
                        j as int] == (i + 1) as u8)) by {
                        if t1.contains((i + 1) as u8) {
                            let w = choose|w: int| 0 <= w < t1.len() && t1[w] == (i + 1) as u8;
                            if w < t0.len() {
                                assert(t0[w] == (i + 1) as u8);
                            }
                        }
                        if t0.contains((i + 1) as u8) {
                            let w = choose|w: int| 0 <= w < t0.len() && t0[w] == (i + 1) as u8;
                            assert(t1[w] == (i + 1) as u8);
                        }
                        if picks@[j as int] == (i + 1) as u8 {
                            assert(t1[j as int] == (i + 1) as u8);
                        }
                    }
                }
            }
            j = j + 1;
        }
        proof {
            assert(picks@.take(picks@.len() as int) =~= picks@);
        }
        Ok((commands, events))
    }

    /// One poll tick, in the order the loop runs it: the heartbeat outcome
    /// first — a failure grows the run and, exactly at the cap, trips the
    /// watchdog, forces the broadcast machine to Idle and declares the
    /// connection lost, once; a clean heartbeat ends the run, and an
    /// answered status query is parsed and reconciled into the snapshot
    /// with edge-triggered events.
    pub fn poll_tick(&mut self, heartbeat_ok: bool, status_line: Option<&[u8]>, now_ms: u64) -> (r:
        TickOutcome)
        requires
            old(self).wf(),
        ensures
            final(self).wf(),
            final(self).reconnect_attempts == old(self).reconnect_attempts,
            final(self).max_reconnect_attempts == old(self).max_reconnect_attempts,
            final(self).monitor.max_failures == old(self).monitor.max_failures,
            !heartbeat_ok ==> ({
                let max = old(self).monitor.max_failures;
                let cf2 = if old(self).monitor.consecutive_failures < max {
                    old(self).monitor.consecutive_failures + 1 as int
                } else {
                    max as int
                };
                let crossed = old(self).monitor.consecutive_failures < max && cf2 == max;
                let wd_new = cf2 == max && !(old(self).state@.watchdog is Triggered);
                &&& final(self).monitor.consecutive_failures == cf2
                &&& final(self).state@.watchdog == (if cf2 == max {
                    WatchdogState::Triggered
                } else {
                    old(self).state@.watchdog
                })
                &&& final(self).state@.broadcast == (if crossed {
                    BroadcastState::Idle
                } else {
                    old(self).state@.broadcast
                })
                &&& final(self).state@.connection == (if crossed {
                    ConnectionState::Reconnecting
                } else {
                    old(self).state@.connection
                })
                &&& final(self).state@.channels == old(self).state@.channels
                &&& final(self).state@.source == old(self).state@.source
                &&& final(self).state@.temperature_deci == old(self).state@.temperature_deci
                &&& final(self).state@.last_status_time == old(self).state@.last_status_time
                &&& final(self).state@.error_count == (if old(self).state@.error_count < u32::MAX {
                    old(self).state@.error_count + 1 as int
                } else {
                    u32::MAX as int
                })
                &&& r.connection_lost == crossed
                &&& r.events@ == spec_failure_events(crossed, wd_new, old(self).state@.broadcast)
            }),
            heartbeat_ok && status_line is None ==> ({
                &&& final(self).monitor == (WatchdogMonitor {
                    consecutive_failures: 0u8,
                    ..old(self).monitor
                })
                &&& final(self).state@ == old(self).state@
                &&& r.connection_lost == false
                &&& r.events@ == seq![EventType::DeviceStateUpdated]
            }),
            heartbeat_ok ==> (status_line matches Some(line) ==> ({
                let rv = spec_parse_status(line@);
                let w2 = spec_status_watchdog(old(self).state@.watchdog, rv);
                &&& final(self).monitor.consecutive_failures == 0
                &&& final(self).monitor.state == w2
                &&& final(self).state@.watchdog == w2
                &&& final(self).state@.broadcast == spec_status_broadcast(
                    old(self).state@.broadcast,
                    old(self).state@.watchdog,
                    rv,
                )
                &&& final(self).state@.connection == old(self).state@.connection
                &&& final(self).state@.source == (match rv.source {
                    Some(m) => m,
                    None => old(self).state@.source,
                })
                &&& final(self).state@.temperature_deci == (match rv.temperature_deci {
                    Some(t) => Some(t),
                    None => old(self).state@.temperature_deci,
                })
                &&& final(self).state@.last_status_time == Some(now_ms)
                &&& final(self).state@.error_count == old(self).state@.error_count
                &&& final(self).state@.channels.len() == old(self).state@.channels.len()
                &&& (forall|i: int|
                    0 <= i < old(self).state@.channels.len()
                        ==> #[trigger] final(self).state@.channels[i] == spec_channel_after(
                        old(self).state@.channels[i],
                        rv.channel_enabled[i],
                        rv.channel_freq[i],
                    ))
                &&& r.connection_lost == false
                &&& r.events@ == spec_status_events(
                    old(self).state@.broadcast,
                    old(self).state@.watchdog,
                    rv,
                )
            })),
    {
        if !heartbeat_ok {
            let before = self.monitor.consecutive_failures;
            let tripped_now = self.monitor.heartbeat_failed();
            if self.state.error_count < u32::MAX {
                self.state.error_count = self.state.error_count + 1;
            }
            self.state.watchdog = self.monitor.state;
            let crossed = before < self.monitor.max_failures && self.monitor.consecutive_failures
                == self.monitor.max_failures;
            let mut events: Vec<EventType> = Vec::new();
            if crossed {
                if tripped_now {
                    events.push(EventType::WatchdogTriggered);
                }
                if !matches!(self.state.broadcast, BroadcastState::Idle) {
                    events.push(EventType::BroadcastStopped);
                }
                self.state.broadcast = BroadcastState::Idle;
                self.state.connection = ConnectionState::Reconnecting;
                events.push(EventType::ConnectionLost);
                events.push(
                    EventType::ConnectionStateChanged(ConnectionState::Reconnecting),
                );
            }
            proof {
                let max = old(self).monitor.max_failures;
                let cf2 = if old(self).monitor.consecutive_failures < max {
                    old(self).monitor.consecutive_failures + 1 as int
                } else {
                    max as int
                };
                let sp_crossed = old(self).monitor.consecutive_failures < max && cf2 == max;
                let wd_new = cf2 == max && !(old(self).state@.watchdog is Triggered);
                assert(events@ =~= spec_failure_events(
                    sp_crossed,
                    wd_new,
                    old(self).state@.broadcast,
                ));
            }
            return TickOutcome { events, connection_lost: crossed };
        }
        self.monitor.heartbeat_ok();
        let line = match status_line {
            None => {
                let mut events: Vec<EventType> = Vec::new();
                events.push(EventType::DeviceStateUpdated);
                proof {
                    assert(events@ =~= seq![EventType::DeviceStateUpdated]);
                }
                return TickOutcome { events, connection_lost: false };
            },
            Some(line) => line,
        };
        let report = parse_status(line);
        let ghost rv = spec_parse_status(line@);
        let b0 = self.state.broadcast;
        let w0 = self.state.watchdog;
        let b1 = b0.confirm_armed();
        let b2 = match report.broadcasting {
            None => b1,
            Some(true) => match b1 {
                BroadcastState::Idle => BroadcastState::Broadcasting,
                BroadcastState::Arming => BroadcastState::Broadcasting,
                BroadcastState::Armed => BroadcastState::Broadcasting,
                BroadcastState::Starting => BroadcastState::Broadcasting,
                other => other,
            },
            Some(false) => match b1 {
                BroadcastState::Stopping => BroadcastState::Idle,
                BroadcastState::Broadcasting => BroadcastState::Idle,
                other => other,
            },
        };
        proof {
            assert(b2 == spec_broadcast_after_field(b1, rv.broadcasting));
        }
        let mut events: Vec<EventType> = Vec::new();
        if !matches!(b1, BroadcastState::Broadcasting) && matches!(
            b2,
            BroadcastState::Broadcasting,
        ) {
            events.push(EventType::BroadcastStarted);
        } else if matches!(b1, BroadcastState::Broadcasting) && !matches!(
            b2,
            BroadcastState::Broadcasting,
        ) {
            events.push(EventType::BroadcastStopped);
        }
        let reported: Option<WatchdogState> = if matches!(report.watchdog_triggered, Some(true)) {
            Some(WatchdogState::Triggered)
        } else if matches!(report.watchdog_warning, Some(true)) {
            Some(WatchdogState::Warning)
        } else if report.watchdog_triggered.is_some() || report.watchdog_warning.is_some() {
            Some(WatchdogState::Okay)
        } else {
            None
        };
        proof {
            assert(reported == spec_reported_watchdog(rv));
        }
        self.monitor.observe_report(reported);
        let w2 = self.monitor.state;
        let trip = matches!(w2, WatchdogState::Triggered) && !matches!(
            w0,
            WatchdogState::Triggered,
        );
        let b3: BroadcastState;
        if trip {
            events.push(EventType::WatchdogTriggered);
            if !matches!(b2, BroadcastState::Idle) {
                events.push(EventType::BroadcastStopped);
            }
            b3 = BroadcastState::Idle;
        } else {
            if matches!(w2, WatchdogState::Warning) && matches!(w0, WatchdogState::Okay) {
                events.push(EventType::WatchdogWarning);
            } else if matches!(w2, WatchdogState::Okay) && matches!(w0, WatchdogState::Warning) {
                events.push(EventType::WatchdogOk);
            }
            b3 = b2;
        }
        self.state.broadcast = b3;
        self.state.watchdog = w2;
        match report.source {
            Some(m) => {
                self.state.source = m;
            },
            None => {},
        }
        match report.temperature_deci {
            Some(t) => {
                self.state.temperature_deci = Some(t);
            },
            None => {},
        }
        let mut i: usize = 0;
        while i < Config::NUM_CHANNELS as usize
            invariant
                old(self).wf(),
                i <= Config::NUM_CHANNELS,
                self.state@.channels.len() == old(self).state@.channels.len(),
                old(self).state@.channels.len() == Config::NUM_CHANNELS,
                report@ == rv,
                crate::status::spec_report_wf(rv),
                self.monitor.wf(),
                self.monitor.consecutive_failures == 0,
                self.monitor.state == w2,
                self.monitor.max_failures == old(self).monitor.max_failures,
                self.reconnect_attempts == old(self).reconnect_attempts,
                self.max_reconnect_attempts == old(self).max_reconnect_attempts,
                forall|k: int|
                    0 <= k < i ==> #[trigger] self.state@.channels[k] == spec_channel_after(
                        old(self).state@.channels[k],
                        rv.channel_enabled[k],
                        rv.channel_freq[k],
                    ),
                forall|k: int|
                    i <= k < Config::NUM_CHANNELS ==> #[trigger] self.state@.channels[k] == old(
                        self,
                    ).state@.channels[k],
                self.state@.broadcast == b3,
                self.state@.watchdog == w2,
                self.state@.connection == old(self).state@.connection,
                self.state@.source == (match rv.source {
                    Some(m) => m,
                    None => old(self).state@.source,
                }),
                self.state@.temperature_deci == (match rv.temperature_deci {
                    Some(t) => Some(t),
                    None => old(self).state@.temperature_deci,
                }),
                self.state@.last_status_time == old(self).state@.last_status_time,
                self.state@.error_count == old(self).state@.error_count,
            decreases Config::NUM_CHANNELS - i,
        {
            let en = report.channel_enabled[i];
            let fr = report.channel_freq[i];
            let old_channel = self.state.channels[i];
            let new_enabled = match en {
                Some(e) => e,
                None => old_channel.enabled,
            };
            let new_frequency = match fr {
                Some(hz) => {
                    if Config::MIN_FREQUENCY <= hz && hz <= Config::MAX_FREQUENCY {
                        hz
                    } else {
                        old_channel.frequency
                    }
                },
                None => old_channel.frequency,
            };
            self.state.channels[i] = Channel {
                enabled: new_enabled,
                frequency: new_frequency,
                ..old_channel
            };
            i = i + 1;
        }
        self.state.last_status_time = Some(now_ms);
        events.push(EventType::DeviceStateUpdated);
        proof {
            assert(events@ =~= spec_status_events(b0, w0, rv));
        }
        TickOutcome { events, connection_lost: false }
    }

    /// Record one reconnection attempt by number; the attempt event is
    /// published.
    pub fn reconnect_attempt(&mut self, attempt: u8) -> (ev: Vec<EventType>)
        requires
            old(self).wf(),
        ensures
            final(self).wf(),
            final(self).state@ == old(self).state@,
            final(self).monitor == old(self).monitor,
            final(self).reconnect_attempts == attempt,
            ev@ == seq![EventType::ReconnectAttempt(attempt)],
    {
        self.reconnect_attempts = attempt;
        let mut ev: Vec<EventType> = Vec::new();
        ev.push(EventType::ReconnectAttempt(attempt));
        proof {
            assert(ev@ =~= seq![EventType::ReconnectAttempt(attempt)]);
        }
        ev
    }

    /// Reconnection succeeded: the session is re-established, the counters
    /// restart, and the success pair of events is published. The watchdog
    /// trap, if set, stays set until an explicit reset.
    pub fn reconnect_succeeded(&mut self) -> (ev: Vec<EventType>)
        requires
            old(self).wf(),
        ensures
            final(self).wf(),
            final(self).state@ == (crate::device::DeviceStateView {
                connection: ConnectionState::Connected,
                error_count: 0u32,
                ..old(self).state@
            }),
            final(self).monitor == (WatchdogMonitor {
                consecutive_failures: 0u8,
                ..old(self).monitor
            }),
            final(self).reconnect_attempts == 0,
            ev@ == seq![
                EventType::ReconnectSuccess,
                EventType::ConnectionStateChanged(ConnectionState::Connected),
            ],
    {
        self.state.connection = ConnectionState::Connected;
        self.state.error_count = 0;
        self.monitor.heartbeat_ok();
        self.reconnect_attempts = 0;
        let mut ev: Vec<EventType> = Vec::new();
        ev.push(EventType::ReconnectSuccess);
        ev.push(EventType::ConnectionStateChanged(ConnectionState::Connected));
        proof {
            assert(ev@ =~= seq![
                EventType::ReconnectSuccess,
                EventType::ConnectionStateChanged(ConnectionState::Connected),
            ]);
        }
        ev
    }

    /// Every reconnection attempt failed: the session ends at Disconnected
    /// and the terminal pair of events is published.
    pub fn reconnect_exhausted(&mut self) -> (ev: Vec<EventType>)
        requires
            old(self).wf(),
        ensures
            final(self).wf(),
            final(self).state@ == (crate::device::DeviceStateView {
                connection: ConnectionState::Disconnected,
                ..old(self).state@
            }),
            final(self).monitor == old(self).monitor,
            ev@ == seq![
                EventType::ReconnectFailed,
                EventType::ConnectionStateChanged(ConnectionState::Disconnected),
            ],
    {
        self.state.connection = ConnectionState::Disconnected;
        let mut ev: Vec<EventType> = Vec::new();
        ev.push(EventType::ReconnectFailed);
        ev.push(EventType::ConnectionStateChanged(ConnectionState::Disconnected));
        proof {
            assert(ev@ =~= seq![
                EventType::ReconnectFailed,
                EventType::ConnectionStateChanged(ConnectionState::Disconnected),
            ]);
        }
        ev
    }
}

} // verus!
