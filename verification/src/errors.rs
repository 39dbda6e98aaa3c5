//! Error taxonomy of the session core.

use vstd::prelude::*;

verus! {

/// Why an operation of the session core was refused or failed.
///
/// Validation errors (`InvalidStateTransition`, `ChannelOutOfRange`,
/// `FrequencyOutOfRange`, `NotConnected`, `AlreadyConnected`,
/// `WatchdogTriggered`) are returned synchronously from the refusing call;
/// connection loss and reconnection outcomes surface asynchronously as
/// events, since they can happen outside any single call.
#[derive(Clone, Copy, Debug, PartialEq, Eq, Structural)]
pub enum ErrorKind {
    /// No session is established.
    NotConnected,
    /// A session is already established.
    AlreadyConnected,
    /// The broadcast state table refuses the requested transition.
    InvalidStateTransition,
    /// The channel identifier names no channel.
    ChannelOutOfRange,
    /// The frequency lies outside the settable band.
    FrequencyOutOfRange,
    /// The device did not answer within the command timeout.
    CommandTimeout,
    /// The established session was lost.
    ConnectionLost,
    /// Reconnection attempts were exhausted.
    ReconnectExhausted,
    /// The watchdog has tripped and blocks new arms and starts until reset.
    WatchdogTriggered,
}

impl ErrorKind {
    /// Human-readable description of the error.
    pub fn message(&self) -> (r: &'static str)
        ensures
            *self is NotConnected ==> r@ == "not connected"@,
            *self is AlreadyConnected ==> r@ == "already connected"@,
            *self is InvalidStateTransition ==> r@ == "invalid state transition"@,
            *self is ChannelOutOfRange ==> r@ == "channel out of range"@,
            *self is FrequencyOutOfRange ==> r@ == "frequency out of range"@,
            *self is CommandTimeout ==> r@ == "command timeout"@,
            *self is ConnectionLost ==> r@ == "connection lost"@,
            *self is ReconnectExhausted ==> r@ == "reconnect attempts exhausted"@,
            *self is WatchdogTriggered ==> r@ == "watchdog triggered"@,
    {
        match self {
            ErrorKind::NotConnected => "not connected",
            ErrorKind::AlreadyConnected => "already connected",
            ErrorKind::InvalidStateTransition => "invalid state transition",
            ErrorKind::ChannelOutOfRange => "channel out of range",
            ErrorKind::FrequencyOutOfRange => "frequency out of range",
            ErrorKind::CommandTimeout => "command timeout",
            ErrorKind::ConnectionLost => "connection lost",
            ErrorKind::ReconnectExhausted => "reconnect attempts exhausted",
            ErrorKind::WatchdogTriggered => "watchdog triggered",
        }
    }
}

} // verus!
