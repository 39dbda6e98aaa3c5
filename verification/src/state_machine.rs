//! The three cooperating state machines of the session core: broadcast,
//! connection and watchdog, plus the audio source mode.
//!
//! Broadcast transitions come in two kinds. A *request* is caller-initiated,
//! is validated against the current state and may fail. A *confirm* is driven
//! by a parsed poll response, never fails, and is a no-op on any state it
//! does not target.

use vstd::prelude::*;
use vstd::string::StringSliceAdditionalSpecFns;

verus! {

/// Broadcast control state.
///
/// Normal path: Idle -> Arming -> Armed -> Starting -> Broadcasting
/// -> Stopping -> Idle. Emergency is reachable from every other state and is
/// left only through an explicit stop-emergency request.
#[derive(Clone, Copy, Debug, PartialEq, Eq, Structural)]
pub enum BroadcastState {
    Idle,
    /// Arm requested, waiting for confirmation.
    Arming,
    Armed,
    /// Start requested, waiting for confirmation.
    Starting,
    Broadcasting,
    /// Stop requested, waiting for confirmation.
    Stopping,
    Emergency,
}

impl Default for BroadcastState {
    fn default() -> (r: Self)
        ensures
            r == BroadcastState::Idle,
    {
        BroadcastState::Idle
    }
}

/// What `request_arm` returns on each state.
pub open spec fn spec_request_arm(s: BroadcastState) -> Result<BroadcastState, &'static str> {
    match s {
        BroadcastState::Idle => Ok(BroadcastState::Arming),
        BroadcastState::Arming => Err("Already arming"),
        BroadcastState::Armed => Err("Already armed"),
        BroadcastState::Starting => Err("Cannot arm while starting"),
        BroadcastState::Broadcasting => Err("Cannot arm while broadcasting"),
        BroadcastState::Stopping => Err("Cannot arm while stopping"),
        BroadcastState::Emergency => Err("Cannot arm during emergency"),
    }
}

/// What `request_start` returns on each state.
pub open spec fn spec_request_start(s: BroadcastState) -> Result<BroadcastState, &'static str> {
    match s {
        BroadcastState::Idle => Err("Must arm before broadcasting"),
        BroadcastState::Arming => Err("Still arming, please wait"),
        BroadcastState::Armed => Ok(BroadcastState::Starting),
        BroadcastState::Starting => Err("Already starting"),
        BroadcastState::Broadcasting => Err("Already broadcasting"),
        BroadcastState::Stopping => Err("Currently stopping"),
        BroadcastState::Emergency => Err("Already in emergency mode"),
    }
}

/// What `request_stop` returns on each state.
pub open spec fn spec_request_stop(s: BroadcastState) -> Result<BroadcastState, &'static str> {
    match s {
        BroadcastState::Idle => Err("Not broadcasting"),
        BroadcastState::Arming => Ok(BroadcastState::Idle),
        BroadcastState::Armed => Ok(BroadcastState::Idle),
        BroadcastState::Starting => Ok(BroadcastState::Stopping),
        BroadcastState::Broadcasting => Ok(BroadcastState::Stopping),
        BroadcastState::Stopping => Err("Already stopping"),
        BroadcastState::Emergency => Err("Use stop_emergency for emergency"),
    }
}

/// What `request_emergency` returns on each state.
pub open spec fn spec_request_emergency(s: BroadcastState) -> Result<
    BroadcastState,
    &'static str,
> {
    match s {
        BroadcastState::Emergency => Err("Already in emergency mode"),
        _ => Ok(BroadcastState::Emergency),
    }
}

/// What `request_stop_emergency` returns on each state.
pub open spec fn spec_request_stop_emergency(s: BroadcastState) -> Result<
    BroadcastState,
    &'static str,
> {
    match s {
        BroadcastState::Emergency => Ok(BroadcastState::Idle),
        _ => Err("Not in emergency mode"),
    }
}

/// What `confirm_armed` returns: Arming moves to Armed, all else unchanged.
pub open spec fn spec_confirm_armed(s: BroadcastState) -> BroadcastState {
    match s {
        BroadcastState::Arming => BroadcastState::Armed,
        _ => s,
    }
}

/// What `confirm_broadcasting` returns: Starting moves to Broadcasting, all
/// else unchanged.
pub open spec fn spec_confirm_broadcasting(s: BroadcastState) -> BroadcastState {
    match s {
        BroadcastState::Starting => BroadcastState::Broadcasting,
        _ => s,
    }
}

/// What `confirm_stopped` returns: Stopping moves to Idle, all else
/// unchanged.
pub open spec fn spec_confirm_stopped(s: BroadcastState) -> BroadcastState {
    match s {
        BroadcastState::Stopping => BroadcastState::Idle,
        _ => s,
    }
}

impl BroadcastState {
    /// Request to arm: valid only from Idle, which yields the intermediate
    /// Arming state.
    pub fn request_arm(&self) -> (r: Result<BroadcastState, &'static str>)
        ensures
            r == spec_request_arm(*self),
            r is Ok <==> *self is Idle,
    {
        match self {
            BroadcastState::Idle => Ok(BroadcastState::Arming),
            BroadcastState::Arming => Err("Already arming"),
            BroadcastState::Armed => Err("Already armed"),
            BroadcastState::Starting => Err("Cannot arm while starting"),
            BroadcastState::Broadcasting => Err("Cannot arm while broadcasting"),
            BroadcastState::Stopping => Err("Cannot arm while stopping"),
            BroadcastState::Emergency => Err("Cannot arm during emergency"),
        }
    }

    /// Confirm armed (from polling): a no-op except on Arming.
    pub fn confirm_armed(&self) -> (r: BroadcastState)
        ensures
            r == spec_confirm_armed(*self),
    {
        match self {
            BroadcastState::Arming => BroadcastState::Armed,
            other => *other,
        }
    }

    /// Request to start broadcasting: valid only from Armed, which yields the
    /// intermediate Starting state.
    pub fn request_start(&self) -> (r: Result<BroadcastState, &'static str>)
        ensures
            r == spec_request_start(*self),
            r is Ok <==> *self is Armed,
    {
        match self {
            BroadcastState::Idle => Err("Must arm before broadcasting"),
            BroadcastState::Arming => Err("Still arming, please wait"),
            BroadcastState::Armed => Ok(BroadcastState::Starting),
            BroadcastState::Starting => Err("Already starting"),
            BroadcastState::Broadcasting => Err("Already broadcasting"),
            BroadcastState::Stopping => Err("Currently stopping"),
            BroadcastState::Emergency => Err("Already in emergency mode"),
        }
    }

    /// Confirm broadcasting (from polling): a no-op except on Starting.
    pub fn confirm_broadcasting(&self) -> (r: BroadcastState)
        ensures
            r == spec_confirm_broadcasting(*self),
    {
        match self {
            BroadcastState::Starting => BroadcastState::Broadcasting,
            other => *other,
        }
    }

    /// Request to stop: cancels an arm in progress, disarms, or begins the
    /// stop of a started or running broadcast. Invalid from Idle, Stopping
    /// and Emergency.
    pub fn request_stop(&self) -> (r: Result<BroadcastState, &'static str>)
        ensures
            r == spec_request_stop(*self),
            r is Ok <==> (*self is Arming || *self is Armed || *self is Starting
                || *self is Broadcasting),
    {
        match self {
            BroadcastState::Idle => Err("Not broadcasting"),
            BroadcastState::Arming => Ok(BroadcastState::Idle),
            BroadcastState::Armed => Ok(BroadcastState::Idle),
            BroadcastState::Starting => Ok(BroadcastState::Stopping),
            BroadcastState::Broadcasting => Ok(BroadcastState::Stopping),
            BroadcastState::Stopping => Err("Already stopping"),
            BroadcastState::Emergency => Err("Use stop_emergency for emergency"),
        }
    }

    /// Confirm stopped (from polling): a no-op except on Stopping.
    pub fn confirm_stopped(&self) -> (r: BroadcastState)
        ensures
            r == spec_confirm_stopped(*self),
    {
        match self {
            BroadcastState::Stopping => BroadcastState::Idle,
            other => *other,
        }
    }

    /// Emergency broadcast: valid from every state except Emergency itself,
    /// bypassing the Idle -> Arming -> Armed precondition.
    pub fn request_emergency(&self) -> (r: Result<BroadcastState, &'static str>)
        ensures
            r == spec_request_emergency(*self),
            r is Ok <==> !(*self is Emergency),
    {
        match self {
            BroadcastState::Emergency => Err("Already in emergency mode"),
            _ => Ok(BroadcastState::Emergency),
        }
    }

    /// Leave Emergency: valid only from Emergency, and returns to Idle.
    pub fn request_stop_emergency(&self) -> (r: Result<BroadcastState, &'static str>)
        ensures
            r == spec_request_stop_emergency(*self),
            r is Ok <==> *self is Emergency,
    {
        match self {
            BroadcastState::Emergency => Ok(BroadcastState::Idle),
            _ => Err("Not in emergency mode"),
        }
    }

    /// Whether RF output is considered active (Broadcasting or Emergency).
    pub fn is_broadcasting(&self) -> (r: bool)
        ensures
            r == (*self is Broadcasting || *self is Emergency),
    {
        matches!(self, BroadcastState::Broadcasting | BroadcastState::Emergency)
    }

    /// Whether the machine sits in an intermediate state awaiting a confirm.
    pub fn is_transitioning(&self) -> (r: bool)
        ensures
            r == (*self is Arming || *self is Starting || *self is Stopping),
    {
        matches!(
            self,
            BroadcastState::Arming | BroadcastState::Starting | BroadcastState::Stopping
        )
    }

    /// Display string for the UI.
    pub fn display(&self) -> (r: &'static str)
        ensures
            r@ == spec_broadcast_display(*self),
    {
        match self {
            BroadcastState::Idle => "IDLE",
            BroadcastState::Arming => "ARMING...",
            BroadcastState::Armed => "ARMED",
            BroadcastState::Starting => "STARTING...",
            BroadcastState::Broadcasting => "BROADCASTING",
            BroadcastState::Stopping => "STOPPING...",
            BroadcastState::Emergency => "EMERGENCY",
        }
    }
}

/// The display string of each broadcast state.
pub open spec fn spec_broadcast_display(s: BroadcastState) -> Seq<char> {
    match s {
        BroadcastState::Idle => "IDLE"@,
        BroadcastState::Arming => "ARMING..."@,
        BroadcastState::Armed => "ARMED"@,
        BroadcastState::Starting => "STARTING..."@,
        BroadcastState::Broadcasting => "BROADCASTING"@,
        BroadcastState::Stopping => "STOPPING..."@,
        BroadcastState::Emergency => "EMERGENCY"@,
    }
}

/// Every state but Emergency has a one-step path back to Idle through
/// `request_stop` and the matching confirm: wherever `request_stop` succeeds,
/// applying `confirm_stopped` to its result lands on Idle, and from Emergency
/// `request_stop_emergency` returns Idle directly.
pub proof fn lemma_stop_path_reaches_idle(s: BroadcastState)
    ensures
        !(s is Emergency) ==> (spec_request_stop(s) matches Ok(t) ==> spec_confirm_stopped(t)
            is Idle),
        s is Emergency ==> spec_request_stop_emergency(s) == Ok::<
            BroadcastState,
            &'static str,
        >(BroadcastState::Idle),
{
}

/// Starting is owed exactly to the Armed state: a start request from Idle
/// always errors, and from Armed always yields Starting.
pub proof fn lemma_start_only_from_armed()
    ensures
        spec_request_start(BroadcastState::Idle) is Err,
        spec_request_start(BroadcastState::Armed) == Ok::<
            BroadcastState,
            &'static str,
        >(BroadcastState::Starting),
{
}

/// The confirm transitions are idempotent: applying one twice changes nothing
/// beyond the first application, and applying one to a state it does not
/// target changes nothing at all.
pub proof fn lemma_confirm_idempotent(s: BroadcastState)
    ensures
        spec_confirm_armed(spec_confirm_armed(s)) == spec_confirm_armed(s),
        spec_confirm_broadcasting(spec_confirm_broadcasting(s)) == spec_confirm_broadcasting(s),
        spec_confirm_stopped(spec_confirm_stopped(s)) == spec_confirm_stopped(s),
        !(s is Arming) ==> spec_confirm_armed(s) == s,
        !(s is Starting) ==> spec_confirm_broadcasting(s) == s,
        !(s is Stopping) ==> spec_confirm_stopped(s) == s,
{
}

/// Connection state machine, owned exclusively by the supervisor and driven
/// by socket events rather than external request.
#[derive(Clone, Copy, Debug, PartialEq, Eq, Structural)]
pub enum ConnectionState {
    Disconnected,
    Connecting,
    Connected,
    Reconnecting,
}

impl Default for ConnectionState {
    fn default() -> (r: Self)
        ensures
            r == ConnectionState::Disconnected,
    {
        ConnectionState::Disconnected
    }
}

/// The display string of each connection state.
pub open spec fn spec_connection_display(s: ConnectionState) -> Seq<char> {
    match s {
        ConnectionState::Disconnected => "DISCONNECTED"@,
        ConnectionState::Connecting => "CONNECTING..."@,
        ConnectionState::Connected => "CONNECTED"@,
        ConnectionState::Reconnecting => "RECONNECTING..."@,
    }
}

impl ConnectionState {
    /// Display string for the UI.
    pub fn display(&self) -> (r: &'static str)
        ensures
            r@ == spec_connection_display(*self),
    {
        match self {
            ConnectionState::Disconnected => "DISCONNECTED",
            ConnectionState::Connecting => "CONNECTING...",
            ConnectionState::Connected => "CONNECTED",
            ConnectionState::Reconnecting => "RECONNECTING...",
        }
    }
}

/// Watchdog state as derived from the device's self-reported field and from
/// local heartbeat outcomes. Triggered is a trap state cleared only by an
/// explicit watchdog reset.
#[derive(Clone, Copy, Debug, PartialEq, Eq, Structural)]
pub enum WatchdogState {
    Okay,
    Warning,
    Triggered,
}

impl Default for WatchdogState {
    fn default() -> (r: Self)
        ensures
            r == WatchdogState::Okay,
    {
        WatchdogState::Okay
    }
}

/// The watchdog state that a raw status value names, compared without regard
/// to ASCII case; anything unrecognised reads as Ok.
pub open spec fn spec_watchdog_from_bytes(b: Seq<u8>) -> WatchdogState {
    let up = crate::codec::spec_upper_bytes(b);
    if up == "0".spec_bytes() || up == "OK".spec_bytes() {
        WatchdogState::Okay
    } else if up == "1".spec_bytes() || up == "WARNING".spec_bytes() {
        WatchdogState::Warning
    } else if up == "2".spec_bytes() || up == "TRIGGERED".spec_bytes() {
        WatchdogState::Triggered
    } else {
        WatchdogState::Okay
    }
}

/// The display string of each watchdog state.
pub open spec fn spec_watchdog_display(s: WatchdogState) -> Seq<char> {
    match s {
        WatchdogState::Okay => "OK"@,
        WatchdogState::Warning => "WARNING"@,
        WatchdogState::Triggered => "TRIGGERED"@,
    }
}

impl WatchdogState {
    /// Parse a raw watchdog status value ("0"/"OK", "1"/"WARNING",
    /// "2"/"TRIGGERED", case-insensitive; anything else reads as Ok).
    pub fn from_status(value: &str) -> (r: Self)
        ensures
            r == spec_watchdog_from_bytes(value.spec_bytes()),
    {
        let b = value.as_bytes();
        let up = crate::codec::upper_bytes(b);
        if crate::codec::bytes_eq_str(up.as_slice(), "0") || crate::codec::bytes_eq_str(
            up.as_slice(),
            "OK",
        ) {
            WatchdogState::Okay
        } else if crate::codec::bytes_eq_str(up.as_slice(), "1") || crate::codec::bytes_eq_str(
            up.as_slice(),
            "WARNING",
        ) {
            WatchdogState::Warning
        } else if crate::codec::bytes_eq_str(up.as_slice(), "2") || crate::codec::bytes_eq_str(
            up.as_slice(),
            "TRIGGERED",
        ) {
            WatchdogState::Triggered
        } else {
            WatchdogState::Okay
        }
    }

    /// Display string for the UI.
    pub fn display(&self) -> (r: &'static str)
        ensures
            r@ == spec_watchdog_display(*self),
    {
        match self {
            WatchdogState::Okay => "OK",
            WatchdogState::Warning => "WARNING",
            WatchdogState::Triggered => "TRIGGERED",
        }
    }
}

/// Audio source feeding the transmitter: pre-recorded block memory or the
/// live analog input.
#[derive(Clone, Copy, Debug, PartialEq, Eq, Structural)]
pub enum SourceMode {
    Bram,
    Adc,
}

impl Default for SourceMode {
    fn default() -> (r: Self)
        ensures
            r == SourceMode::Bram,
    {
        SourceMode::Bram
    }
}

/// The source mode that a raw value names, compared without regard to ASCII
/// case; anything but ADC reads as the BRAM default.
pub open spec fn spec_source_from_bytes(b: Seq<u8>) -> SourceMode {
    if crate::codec::spec_upper_bytes(b) == "ADC".spec_bytes() {
        SourceMode::Adc
    } else {
        SourceMode::Bram
    }
}

/// The wire spelling of each source mode.
pub open spec fn spec_source_display(s: SourceMode) -> Seq<char> {
    match s {
        SourceMode::Bram => "BRAM"@,
        SourceMode::Adc => "ADC"@,
    }
}

impl SourceMode {
    /// Wire spelling of the mode.
    pub fn as_str(&self) -> (r: &'static str)
        ensures
            r@ == spec_source_display(*self),
    {
        match self {
            SourceMode::Bram => "BRAM",
            SourceMode::Adc => "ADC",
        }
    }

    /// Parse a raw source value ("ADC" in any ASCII case yields Adc; anything
    /// else yields the Bram default).
    pub fn from_str(s: &str) -> (r: Self)
        ensures
            r == spec_source_from_bytes(s.spec_bytes()),
    {
        let b = s.as_bytes();
        let up = crate::codec::upper_bytes(b);
        if crate::codec::bytes_eq_str(up.as_slice(), "ADC") {
            SourceMode::Adc
        } else {
            SourceMode::Bram
        }
    }
}

} // verus!
