//! Typed state-change events and the in-process publish/subscribe bus that
//! distributes them.
//!
//! The bus carries events from the session core to any number of observers
//! over a bounded buffer; a subscriber that falls behind is told how many
//! events it missed instead of ever stalling the publisher, since the
//! publisher is the watchdog heartbeat path.

use vstd::prelude::*;

use crate::state_machine::{ConnectionState, SourceMode};

verus! {

/// A state-change notification distributed on the bus.
#[derive(Clone, Debug, PartialEq)]
pub enum EventType {
    ConnectSuccess,
    ConnectFailed(String),
    Disconnected,
    ConnectionLost,
    ConnectionStateChanged(ConnectionState),
    /// Reconnection attempt, by number.
    ReconnectAttempt(u8),
    ReconnectSuccess,
    ReconnectFailed,
    BroadcastStarted,
    BroadcastStopped,
    WatchdogOk,
    WatchdogWarning,
    /// The device disabled RF output on its own.
    WatchdogTriggered,
    WatchdogReset,
    /// Channel identifier whose settings changed.
    ChannelUpdated(u8),
    ChannelEnabled(u8),
    ChannelDisabled(u8),
    FrequencyChanged(u8, u32),
    SourceChanged(SourceMode),
    DeviceStateUpdated,
    CommandFailed(String),
    NetworkError(String),
}

#[verifier::external_type_specification]
#[verifier::external_body]
#[verifier::reject_recursive_types(T)]
pub struct ExBroadcastSender<T>(tokio::sync::broadcast::Sender<T>);

#[verifier::external_type_specification]
#[verifier::external_body]
#[verifier::reject_recursive_types(T)]
pub struct ExBroadcastReceiver<T>(tokio::sync::broadcast::Receiver<T>);

/// Relies on tokio's broadcast channel constructor: a fresh channel whose
/// buffer holds `capacity` events. The constructor panics only on a
/// capacity of zero or above half the address space, which the
/// precondition rules out.
#[verifier::external_body]
fn broadcast_sender(capacity: usize) -> tokio::sync::broadcast::Sender<EventType>
    requires
        1 <= capacity <= usize::MAX / 2,
{
    let (sender, _receiver) = tokio::sync::broadcast::channel(capacity);
    sender
}

/// Relies on tokio's broadcast `Receiver::try_recv`: the next buffered
/// event, or which of the terminal conditions holds.
#[verifier::external_body]
fn receiver_try_next(rx: &mut tokio::sync::broadcast::Receiver<EventType>) -> RecvOutcome {
    match rx.try_recv() {
        Ok(event) => RecvOutcome::Event(event),
        Err(tokio::sync::broadcast::error::TryRecvError::Empty) => RecvOutcome::Empty,
        Err(tokio::sync::broadcast::error::TryRecvError::Closed) => RecvOutcome::Closed,
        Err(tokio::sync::broadcast::error::TryRecvError::Lagged(n)) => RecvOutcome::Lagged(n),
    }
}

/// What polling a subscription yields.
#[derive(Clone, Debug, PartialEq)]
pub enum RecvOutcome {
    /// The next event, in publication order.
    Event(EventType),
    /// Nothing buffered right now.
    Empty,
    /// The bus is gone.
    Closed,
    /// The subscriber fell behind; this many events were dropped for it.
    Lagged(u64),
}

/// Buffer capacity of the bus.
pub const BUS_CAPACITY: usize = 256;

/// In-process publish/subscribe bus for `EventType` notifications.
#[derive(Debug)]
pub struct EventBus {
    sender: tokio::sync::broadcast::Sender<EventType>,
}

/// One subscriber's view of the bus, receiving every event published after
/// the subscription was taken.
#[derive(Debug)]
pub struct EventSubscription {
    receiver: tokio::sync::broadcast::Receiver<EventType>,
}

impl EventBus {
    /// A fresh bus with the fixed buffer capacity.
    pub fn new() -> Self {
        EventBus { sender: broadcast_sender(BUS_CAPACITY) }
    }

    /// Relies on tokio's broadcast `Sender::send`: the event goes to every
    /// live subscriber; with none, it is simply dropped. Publication never
    /// blocks.
    #[verifier::external_body]
    pub fn emit(&self, event: EventType) {
        let _ = self.sender.send(event);
    }

    /// Publish a batch of events in order.
    pub fn emit_all(&self, events: &Vec<EventType>) {
        let mut i: usize = 0;
        while i < events.len()
            decreases events.len() - i,
        {
            self.emit(events[i].clone());
            i = i + 1;
        }
    }

    /// Relies on tokio's broadcast `Sender::subscribe`: a new receiver that
    /// sees every event published from this point on.
    #[verifier::external_body]
    pub fn subscribe(&self) -> EventSubscription {
        EventSubscription { receiver: self.sender.subscribe() }
    }

    /// Relies on tokio's broadcast `Sender::clone`: a handle publishing into
    /// the same channel.
    #[verifier::external_body]
    pub fn get_sender(&self) -> tokio::sync::broadcast::Sender<EventType> {
        self.sender.clone()
    }
}

impl Default for EventBus {
    fn default() -> Self {
        EventBus::new()
    }
}

impl EventSubscription {
    /// The next buffered event, or the terminal condition met.
    pub fn try_next(&mut self) -> RecvOutcome {
        receiver_try_next(&mut self.receiver)
    }

    /// Drain buffered events in publication order, stopping at the first
    /// non-event outcome or after `max` events.
    pub fn collect_pending(&mut self, max: usize) -> (r: Vec<EventType>)
        ensures
            r@.len() <= max,
    {
        let mut out: Vec<EventType> = Vec::new();
        let mut i: usize = 0;
        while i < max
            invariant
                out@.len() <= i <= max,
            decreases max - i,
        {
            match self.try_next() {
                RecvOutcome::Event(e) => {
                    out.push(e);
                },
                _ => {
                    return out;
                },
            }
            i = i + 1;
        }
        out
    }
}

} // verus!
