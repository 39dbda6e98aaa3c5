//! Configuration constants, the SCPI-like command strings, and the channel
//! and frequency presets.

use vstd::prelude::*;

verus! {

/// Application configuration constants.
pub struct Config;

impl Config {
    pub const DEFAULT_IP: &'static str = "192.168.0.100";

    pub const DEFAULT_PORT: u16 = 5000;

    pub const CONNECTION_TIMEOUT_SECS: u64 = 5;

    pub const COMMAND_TIMEOUT_SECS: u64 = 2;

    /// Poll cadence; must stay well under the device watchdog timeout.
    pub const POLL_INTERVAL_MS: u64 = 500;

    pub const WATCHDOG_TIMEOUT_SECS: u64 = 5;

    pub const MAX_RECONNECT_ATTEMPTS: u8 = 5;

    pub const RECONNECT_DELAY_SECS: u64 = 2;

    /// Consecutive heartbeat failures tolerated before the connection counts
    /// as lost.
    pub const MAX_CONSECUTIVE_ERRORS: u8 = 3;

    /// Lowest settable channel frequency, in hertz.
    pub const MIN_FREQUENCY: u32 = 500_000;

    /// Highest settable channel frequency, in hertz.
    pub const MAX_FREQUENCY: u32 = 1_700_000;

    pub const DEFAULT_FREQUENCY: u32 = 540_000;

    pub const NUM_CHANNELS: u8 = 12;

    /// Size cap of the audit ring buffer.
    pub const MAX_LOG_ENTRIES: usize = 100;
}

/// Command strings of the device's line protocol.
pub struct ScpiCommands;

impl ScpiCommands {
    pub const IDENTITY: &'static str = "*IDN?";

    pub const RESET: &'static str = "*RST";

    pub const STATUS: &'static str = "STATUS?";

    pub const WATCHDOG_RESET: &'static str = "WATCHDOG:RESET";

    pub const WATCHDOG_STATUS: &'static str = "WATCHDOG:STATUS?";

    pub const OUTPUT_ON: &'static str = "OUTPUT:STATE ON";

    pub const OUTPUT_OFF: &'static str = "OUTPUT:STATE OFF";

    pub const OUTPUT_STATUS: &'static str = "OUTPUT:STATE?";

    pub const FREQ_QUERY_PREFIX: &'static str = "FREQ:CH";

    pub const SOURCE_MODE: &'static str = "SOURCE:MODE";

    pub const SOURCE_BRAM: &'static str = "SOURCE:MODE BRAM";

    pub const SOURCE_ADC: &'static str = "SOURCE:MODE ADC";

    pub const SOURCE_STATUS: &'static str = "SOURCE:MODE?";

    pub const TEMP_QUERY: &'static str = "SYSTEM:TEMP?";
}

/// Preset frequency of a channel: 100 kHz spacing upward from 540 kHz, with
/// channel numbers below one clamped to the first preset.
pub open spec fn spec_preset_frequency(ch: u8) -> u32 {
    (540_000 + (if ch >= 1 {
        (ch - 1) as int
    } else {
        0
    }) * 100_000) as u32
}

/// The twelve preset frequencies in channel order.
pub open spec fn spec_preset_list() -> Seq<u32> {
    seq![
        540_000u32,
        640_000u32,
        740_000u32,
        840_000u32,
        940_000u32,
        1_040_000u32,
        1_140_000u32,
        1_240_000u32,
        1_340_000u32,
        1_440_000u32,
        1_540_000u32,
        1_640_000u32,
    ]
}

/// Frequency presets for quick channel setup.
pub struct FrequencyPresets;

impl FrequencyPresets {
    /// Preset frequency for a channel (100 kHz spacing starting at 540 kHz).
    pub fn for_channel(ch: u8) -> (r: u32)
        ensures
            r == spec_preset_frequency(ch),
    {
        let base: u32 = 540_000;
        let spacing: u32 = 100_000;
        let idx: u32 = if ch >= 1 {
            (ch - 1) as u32
        } else {
            0
        };
        base + idx * spacing
    }

    /// All twelve preset frequencies in channel order.
    pub fn all() -> (r: Vec<u32>)
        ensures
            r@ == spec_preset_list(),
            r@.len() == 12,
    {
        let mut v: Vec<u32> = Vec::new();
        v.push(540_000);
        v.push(640_000);
        v.push(740_000);
        v.push(840_000);
        v.push(940_000);
        v.push(1_040_000);
        v.push(1_140_000);
        v.push(1_240_000);
        v.push(1_340_000);
        v.push(1_440_000);
        v.push(1_540_000);
        v.push(1_640_000);
        proof {
            assert(v@ =~= spec_preset_list());
        }
        v
    }
}

/// Every preset frequency agrees with the per-channel formula and lies
/// inside the settable band.
pub proof fn lemma_presets_agree_and_in_band()
    ensures
        forall|i: int|
            0 <= i < 12 ==> #[trigger] spec_preset_list()[i] == spec_preset_frequency(
                (i + 1) as u8,
            ),
        forall|i: int|
            0 <= i < 12 ==> Config::MIN_FREQUENCY <= #[trigger] spec_preset_list()[i]
                <= Config::MAX_FREQUENCY,
{
    assert forall|i: int| 0 <= i < 12 implies #[trigger] spec_preset_list()[i]
        == spec_preset_frequency((i + 1) as u8) by {
        assert(spec_preset_list()[i] == 540_000 + i * 100_000);
    }
    assert forall|i: int|
        0 <= i < 12 implies Config::MIN_FREQUENCY <= #[trigger] spec_preset_list()[i]
        <= Config::MAX_FREQUENCY by {
        assert(spec_preset_list()[i] == 540_000 + i * 100_000);
    }
}

/// The channel identifiers that a preset count selects; unknown counts fall
/// back to channel one alone.
pub open spec fn spec_preset_channels(count: u8) -> Seq<u8> {
    if count == 1 {
        seq![1u8]
    } else if count == 2 {
        seq![1u8, 7u8]
    } else if count == 3 {
        seq![12u8, 4u8, 8u8]
    } else if count == 4 {
        seq![12u8, 3u8, 6u8, 9u8]
    } else if count == 6 {
        seq![12u8, 2u8, 4u8, 6u8, 8u8, 10u8]
    } else if count == 8 {
        seq![12u8, 1u8, 3u8, 4u8, 6u8, 7u8, 9u8, 10u8]
    } else if count == 12 {
        seq![1u8, 2u8, 3u8, 4u8, 5u8, 6u8, 7u8, 8u8, 9u8, 10u8, 11u8, 12u8]
    } else {
        seq![1u8]
    }
}

/// Channel distribution presets.
pub struct ChannelPresets;

impl ChannelPresets {
    /// Channel identifiers for a given preset count.
    pub fn for_count(count: u8) -> (r: Vec<u8>)
        ensures
            r@ == spec_preset_channels(count),
    {
        let mut v: Vec<u8> = Vec::new();
        if count == 1 {
            v.push(1);
        } else if count == 2 {
            v.push(1);
            v.push(7);
        } else if count == 3 {
            v.push(12);
            v.push(4);
            v.push(8);
        } else if count == 4 {
            v.push(12);
            v.push(3);
            v.push(6);
            v.push(9);
        } else if count == 6 {
            v.push(12);
            v.push(2);
            v.push(4);
            v.push(6);
            v.push(8);
            v.push(10);
        } else if count == 8 {
            v.push(12);
            v.push(1);
            v.push(3);
            v.push(4);
            v.push(6);
            v.push(7);
            v.push(9);
            v.push(10);
        } else if count == 12 {
            let mut ch: u8 = 1;
            while ch <= 12
                invariant
                    1 <= ch <= 13,
                    v@ =~= Seq::new((ch - 1) as nat, |i: int| (i + 1) as u8),
                decreases 13 - ch,
            {
                v.push(ch);
                ch = ch + 1;
            }
        } else {
            v.push(1);
        }
        proof {
            assert(v@ =~= spec_preset_channels(count));
        }
        v
    }
}

/// A preset names each channel at most once, and only channels that exist.
pub proof fn lemma_preset_channels_valid(count: u8)
    ensures
        forall|i: int|
            0 <= i < spec_preset_channels(count).len() ==> 1 <= #[trigger] spec_preset_channels(
                count,
            )[i] <= 12,
        forall|i: int, j: int|
            0 <= i < j < spec_preset_channels(count).len() ==> spec_preset_channels(count)[i]
                != spec_preset_channels(count)[j],
{
}

} // verus!
