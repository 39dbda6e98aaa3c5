//! The reconciled device snapshot, its channels, the audit ring buffer, and
//! the plain response types handed to external callers.
//!
//! The snapshot is written only by the supervisor, in response to confirmed
//! device responses or local command echoes; external callers read copies.

use vstd::prelude::*;

use crate::config::{spec_preset_frequency, Config};
use crate::state_machine::{
    spec_broadcast_display, spec_connection_display, spec_source_display, spec_watchdog_display,
    BroadcastState, ConnectionState, SourceMode, WatchdogState,
};

verus! {

/// One transmitter channel. Amplitude is kept in thousandths of full scale
/// and phase in tenths of a degree, so the fields stay plain integers.
#[derive(Clone, Copy, Debug, PartialEq, Eq, Structural)]
pub struct Channel {
    /// Channel identifier, numbered from one.
    pub id: u8,
    pub enabled: bool,
    /// Carrier frequency in hertz.
    pub frequency: u32,
    /// Amplitude in thousandths of full scale (zero up to one thousand).
    pub amplitude_milli: u16,
    /// Phase in tenths of a degree.
    pub phase_deci: u16,
}

impl Channel {
    /// A fresh channel: disabled, at the default frequency and full
    /// amplitude.
    pub fn new(id: u8) -> (r: Channel)
        ensures
            r == (Channel {
                id,
                enabled: false,
                frequency: Config::DEFAULT_FREQUENCY,
                amplitude_milli: 1000u16,
                phase_deci: 0u16,
            }),
    {
        Channel {
            id,
            enabled: false,
            frequency: Config::DEFAULT_FREQUENCY,
            amplitude_milli: 1000,
            phase_deci: 0,
        }
    }
}

/// A requested change to one channel, fields left `None` staying as they
/// are.
#[derive(Clone, Copy, Debug)]
pub struct ChannelChange {
    pub channel_id: u8,
    pub frequency: Option<u32>,
    pub enabled: Option<bool>,
}

/// A channel update as received from an external caller.
#[derive(Clone, Copy, Debug)]
pub struct ChannelUpdate {
    pub enabled: bool,
    pub frequency: Option<u32>,
}

/// The latest reconciled snapshot of the device.
#[derive(Clone, Debug)]
pub struct DeviceState {
    pub connection: ConnectionState,
    pub broadcast: BroadcastState,
    pub watchdog: WatchdogState,
    pub source: SourceMode,
    pub channels: Vec<Channel>,
    /// Device temperature in tenths of a degree, when reported.
    pub temperature_deci: Option<u32>,
    /// Milliseconds timestamp of the last confirmed status, when any.
    pub last_status_time: Option<u64>,
    pub error_count: u32,
}

/// Mathematical image of a `DeviceState`.
pub struct DeviceStateView {
    pub connection: ConnectionState,
    pub broadcast: BroadcastState,
    pub watchdog: WatchdogState,
    pub source: SourceMode,
    pub channels: Seq<Channel>,
    pub temperature_deci: Option<u32>,
    pub last_status_time: Option<u64>,
    pub error_count: u32,
}

impl View for DeviceState {
    type V = DeviceStateView;

    open spec fn view(&self) -> DeviceStateView {
        DeviceStateView {
            connection: self.connection,
            broadcast: self.broadcast,
            watchdog: self.watchdog,
            source: self.source,
            channels: self.channels@,
            temperature_deci: self.temperature_deci,
            last_status_time: self.last_status_time,
            error_count: self.error_count,
        }
    }
}

/// Shape and range invariant of a snapshot: one entry per channel, numbered
/// in order, every frequency inside the settable band and every amplitude
/// at most full scale.
pub open spec fn spec_device_wf(s: DeviceStateView) -> bool {
    &&& s.channels.len() == Config::NUM_CHANNELS
    &&& forall|i: int|
        0 <= i < s.channels.len() ==> (#[trigger] s.channels[i]).id == i + 1
    &&& forall|i: int|
        0 <= i < s.channels.len() ==> Config::MIN_FREQUENCY <= (#[trigger] s.channels[i]).frequency
            <= Config::MAX_FREQUENCY
    &&& forall|i: int|
        0 <= i < s.channels.len() ==> (#[trigger] s.channels[i]).amplitude_milli <= 1000
}

/// The snapshot a session starts from: disconnected, idle, watchdog clear,
/// every channel disabled at its preset frequency.
pub open spec fn spec_default_device_state(s: DeviceStateView) -> bool {
    &&& s.connection is Disconnected
    &&& s.broadcast is Idle
    &&& s.watchdog is Okay
    &&& s.source is Bram
    &&& s.channels.len() == Config::NUM_CHANNELS
    &&& forall|i: int|
        0 <= i < s.channels.len() ==> #[trigger] s.channels[i] == (Channel {
            id: (i + 1) as u8,
            enabled: false,
            frequency: spec_preset_frequency((i + 1) as u8),
            amplitude_milli: 1000u16,
            phase_deci: 0u16,
        })
    &&& s.temperature_deci is None
    &&& s.last_status_time is None
    &&& s.error_count == 0
}

impl Default for DeviceState {
    /// The defaults that a session starts from and that a disconnect resets
    /// to.
    fn default() -> (r: Self)
        ensures
            spec_default_device_state(r@),
            spec_device_wf(r@),
    {
        let mut channels: Vec<Channel> = Vec::new();
        let mut id: u8 = 1;
        while id <= Config::NUM_CHANNELS
            invariant
                1 <= id <= Config::NUM_CHANNELS + 1,
                channels@.len() == id - 1,
                forall|i: int|
                    0 <= i < channels@.len() ==> #[trigger] channels@[i] == (Channel {
                        id: (i + 1) as u8,
                        enabled: false,
                        frequency: spec_preset_frequency((i + 1) as u8),
                        amplitude_milli: 1000u16,
                        phase_deci: 0u16,
                    }),
            decreases Config::NUM_CHANNELS + 1 - id,
        {
            let frequency = crate::config::FrequencyPresets::for_channel(id);
            channels.push(
                Channel { id, enabled: false, frequency, amplitude_milli: 1000, phase_deci: 0 },
            );
            id = id + 1;
        }
        proof {
            assert forall|i: int|
                0 <= i < channels@.len() implies Config::MIN_FREQUENCY
                <= (#[trigger] channels@[i]).frequency <= Config::MAX_FREQUENCY by {
            }
        }
        DeviceState {
            connection: ConnectionState::Disconnected,
            broadcast: BroadcastState::Idle,
            watchdog: WatchdogState::Okay,
            source: SourceMode::Bram,
            channels,
            temperature_deci: None,
            last_status_time: None,
            error_count: 0,
        }
    }
}

/// Whether a snapshot taken at `last` counts as stale at `now`: it does when
/// no confirmed status exists, or when more than one poll interval has
/// passed since the last one.
pub open spec fn spec_is_stale(last: Option<u64>, now_ms: u64) -> bool {
    match last {
        None => true,
        Some(t) => now_ms > t && now_ms - t > Config::POLL_INTERVAL_MS,
    }
}

impl DeviceState {
    /// Whether the snapshot may no longer reflect the device: no confirmed
    /// status has been received within one poll interval.
    pub fn is_stale(&self, now_ms: u64) -> (r: bool)
        ensures
            r == spec_is_stale(self.last_status_time, now_ms),
    {
        match self.last_status_time {
            None => true,
            Some(t) => now_ms > t && now_ms - t > Config::POLL_INTERVAL_MS,
        }
    }

    /// An identical copy of the snapshot, for handing to external callers.
    pub fn snapshot(&self) -> (r: DeviceState)
        ensures
            r@ == self@,
    {
        DeviceState {
            connection: self.connection,
            broadcast: self.broadcast,
            watchdog: self.watchdog,
            source: self.source,
            channels: vstd::slice::slice_to_vec(self.channels.as_slice()),
            temperature_deci: self.temperature_deci,
            last_status_time: self.last_status_time,
            error_count: self.error_count,
        }
    }
}

/// One entry of the audit log.
#[derive(Clone, Debug)]
pub struct AuditEntry {
    /// Seconds since the epoch, as supplied by the caller's clock.
    pub timestamp: u64,
    pub level: String,
    pub message: String,
}

/// Append-only audit ring buffer: the newest entries win, the oldest are
/// evicted once the fixed cap is reached.
#[derive(Debug)]
pub struct AuditLog {
    entries: Vec<AuditEntry>,
}

impl View for AuditLog {
    type V = Seq<AuditEntry>;

    closed spec fn view(&self) -> Seq<AuditEntry> {
        self.entries@
    }
}

impl AuditLog {
    /// The log never outgrows its cap.
    pub open spec fn wf(&self) -> bool {
        self@.len() <= Config::MAX_LOG_ENTRIES
    }

    /// An empty log.
    pub fn new() -> (r: AuditLog)
        ensures
            r@ =~= Seq::<AuditEntry>::empty(),
            r.wf(),
    {
        AuditLog { entries: Vec::new() }
    }

    /// Number of entries held.
    pub fn len(&self) -> (r: usize)
        ensures
            r == self@.len(),
    {
        self.entries.len()
    }

    /// Append one entry; at the cap, the oldest entry is evicted first.
    pub fn append(&mut self, entry: AuditEntry)
        requires
            old(self).wf(),
        ensures
            final(self).wf(),
            old(self)@.len() < Config::MAX_LOG_ENTRIES ==> final(self)@ == old(self)@.push(entry),
            old(self)@.len() == Config::MAX_LOG_ENTRIES ==> final(self)@ == old(
                self,
            )@.drop_first().push(entry),
    {
        if self.entries.len() == Config::MAX_LOG_ENTRIES {
            self.entries.remove(0);
            proof {
                assert(self.entries@ =~= old(self)@.drop_first());
            }
        }
        self.entries.push(entry);
    }

    /// The newest entries, oldest first, at most `limit` of them.
    pub fn recent(&self, limit: usize) -> (r: Vec<AuditEntry>)
        ensures
            r@.len() == if limit < self@.len() {
                limit as int
            } else {
                self@.len() as int
            },
            forall|i: int|
                0 <= i < r@.len() ==> entry_like(#[trigger] r@[i], self@[self@.len() - r@.len() + i]),
    {
        let start: usize = if limit < self.entries.len() {
            self.entries.len() - limit
        } else {
            0
        };
        let mut out: Vec<AuditEntry> = Vec::new();
        let mut i: usize = start;
        while i < self.entries.len()
            invariant
                start <= i <= self.entries@.len(),
                out@.len() == i - start,
                forall|j: int|
                    0 <= j < out@.len() ==> entry_like(#[trigger] out@[j], self.entries@[start + j]),
            decreases self.entries@.len() - i,
        {
            let e = &self.entries[i];
            out.push(
                AuditEntry {
                    timestamp: e.timestamp,
                    level: e.level.clone(),
                    message: e.message.clone(),
                },
            );
            i = i + 1;
        }
        out
    }
}

/// Whether two audit entries carry the same timestamp and texts.
pub open spec fn entry_like(a: AuditEntry, b: AuditEntry) -> bool {
    a.timestamp == b.timestamp && a.level@ == b.level@ && a.message@ == b.message@
}

/// One channel as reported to external callers.
#[derive(Clone, Copy, Debug, PartialEq, Eq, Structural)]
pub struct ChannelInfo {
    pub id: u8,
    pub enabled: bool,
    pub frequency: u32,
}

/// The snapshot as handed to the presentation layer: display strings plus
/// the channel table.
#[derive(Clone, Debug)]
pub struct StateResponse {
    pub connection_state: String,
    pub broadcast_state: String,
    pub watchdog_state: String,
    pub channels: Vec<ChannelInfo>,
    pub source: String,
}

impl StateResponse {
    /// Render a snapshot for display: the display string of each state and
    /// one `ChannelInfo` per channel, in order.
    pub fn from_device_state(s: &DeviceState) -> (r: StateResponse)
        ensures
            r.connection_state@ == spec_connection_display(s.connection),
            r.broadcast_state@ == spec_broadcast_display(s.broadcast),
            r.watchdog_state@ == spec_watchdog_display(s.watchdog),
            r.source@ == spec_source_display(s.source),
            r.channels@.len() == s.channels@.len(),
            forall|i: int|
                0 <= i < s.channels@.len() ==> #[trigger] r.channels@[i] == (ChannelInfo {
                    id: s.channels@[i].id,
                    enabled: s.channels@[i].enabled,
                    frequency: s.channels@[i].frequency,
                }),
    {
        let mut channels: Vec<ChannelInfo> = Vec::new();
        let mut i: usize = 0;
        while i < s.channels.len()
            invariant
                i <= s.channels@.len(),
                channels@.len() == i,
                forall|j: int|
                    0 <= j < i ==> #[trigger] channels@[j] == (ChannelInfo {
                        id: s.channels@[j].id,
                        enabled: s.channels@[j].enabled,
                        frequency: s.channels@[j].frequency,
                    }),
            decreases s.channels@.len() - i,
        {
            let c = &s.channels[i];
            channels.push(ChannelInfo { id: c.id, enabled: c.enabled, frequency: c.frequency });
            i = i + 1;
        }
        StateResponse {
            connection_state: String::from_str(s.connection.display()),
            broadcast_state: String::from_str(s.broadcast.display()),
            watchdog_state: String::from_str(s.watchdog.display()),
            channels,
            source: String::from_str(s.source.as_str()),
        }
    }
}

} // verus!
