//! An in-memory device: it answers the line protocol the way the real
//! transmitter does, for driving the session core end to end without
//! hardware. The surrounding process can serve it over a socket.

use vstd::prelude::*;
use vstd::string::StringSliceAdditionalSpecFns;

use crate::codec::{
    decode_command, push_all, push_str_bytes, spec_decode_command, spec_trim, spec_u32_dec,
    trim_bytes, u32_to_dec, Command,
};
use crate::config::Config;
use crate::state_machine::SourceMode;

verus! {

/// The wire spelling of a simulated truth value.
pub open spec fn spec_bit(b: bool) -> Seq<u8> {
    if b {
        "1".spec_bytes()
    } else {
        "0".spec_bytes()
    }
}

/// One `key=value` pair of the status line.
pub open spec fn spec_kv(key: Seq<u8>, value: Seq<u8>) -> Seq<u8> {
    key + seq!['=' as u8] + value
}

/// The status key of one channel: `ch<n>` followed by the given suffix.
pub open spec fn spec_channel_key(n: int, suffix: Seq<u8>) -> Seq<u8> {
    "ch".spec_bytes() + spec_u32_dec(n as nat) + suffix
}

/// The per-channel fields of the simulated status line, from channel slot
/// `i` onward: `,ch<n>_enabled=<0|1>,ch<n>_freq=<hz>` for each channel.
pub open spec fn spec_sim_channel_fields(en: Seq<bool>, fr: Seq<u32>, i: int) -> Seq<u8>
    decreases en.len() - i,
{
    if i < 0 || i >= en.len() {
        Seq::<u8>::empty()
    } else {
        seq![',' as u8] + spec_kv(spec_channel_key(i + 1, "_enabled".spec_bytes()), spec_bit(en[i]))
            + seq![',' as u8] + spec_kv(
            spec_channel_key(i + 1, "_freq".spec_bytes()),
            spec_u32_dec(fr[i] as nat),
        ) + spec_sim_channel_fields(en, fr, i + 1)
    }
}

/// The whole simulated status line, newline included: the master output
/// state, the source, the two clear watchdog fields, then every channel.
pub open spec fn spec_sim_status_line(
    broadcasting: bool,
    source: SourceMode,
    en: Seq<bool>,
    fr: Seq<u32>,
) -> Seq<u8> {
    spec_kv("broadcasting".spec_bytes(), spec_bit(broadcasting)) + seq![',' as u8] + spec_kv(
        "source".spec_bytes(),
        if source is Adc {
            "ADC".spec_bytes()
        } else {
            "BRAM".spec_bytes()
        },
    ) + seq![',' as u8] + spec_kv("watchdog_triggered".spec_bytes(), "0".spec_bytes()) + seq![
        ',' as u8,
    ] + spec_kv("watchdog_warning".spec_bytes(), "0".spec_bytes()) + spec_sim_channel_fields(
        en,
        fr,
        0,
    ) + seq!['\n' as u8]
}

/// A simulated transmitter: the state the device itself would hold.
#[derive(Debug)]
pub struct DeviceSimulator {
    pub broadcasting: bool,
    pub source: SourceMode,
    pub channel_enabled: Vec<bool>,
    pub channel_freq: Vec<u32>,
}

impl DeviceSimulator {
    /// One slot per channel.
    pub open spec fn wf(&self) -> bool {
        &&& self.channel_enabled@.len() == Config::NUM_CHANNELS
        &&& self.channel_freq@.len() == Config::NUM_CHANNELS
    }

    /// A fresh simulated device: output off, live input selected, every
    /// channel disabled at the default frequency.
    pub fn new() -> (r: DeviceSimulator)
        ensures
            r.wf(),
            r.broadcasting == false,
            r.source == SourceMode::Adc,
            forall|i: int| 0 <= i < Config::NUM_CHANNELS ==> #[trigger] r.channel_enabled@[i] == false,
            forall|i: int|
                0 <= i < Config::NUM_CHANNELS ==> #[trigger] r.channel_freq@[i]
                    == Config::DEFAULT_FREQUENCY,
    {
        let mut en: Vec<bool> = Vec::new();
        let mut fr: Vec<u32> = Vec::new();
        let mut i: usize = 0;
        while i < Config::NUM_CHANNELS as usize
            invariant
                i <= Config::NUM_CHANNELS,
                en@.len() == i,
                fr@.len() == i,
                forall|j: int| 0 <= j < i ==> #[trigger] en@[j] == false,
                forall|j: int| 0 <= j < i ==> #[trigger] fr@[j] == Config::DEFAULT_FREQUENCY,
            decreases Config::NUM_CHANNELS - i,
        {
            en.push(false);
            fr.push(Config::DEFAULT_FREQUENCY);
            i = i + 1;
        }
        DeviceSimulator {
            broadcasting: false,
            source: SourceMode::Adc,
            channel_enabled: en,
            channel_freq: fr,
        }
    }

    /// The status line the simulated device would answer right now,
    /// newline included.
    #[verifier::rlimit(60)]
    pub fn status_line(&self) -> (r: Vec<u8>)
        requires
            self.wf(),
        ensures
            r@ == spec_sim_status_line(
                self.broadcasting,
                self.source,
                self.channel_enabled@,
                self.channel_freq@,
            ),
    {
        let mut out: Vec<u8> = Vec::new();
        push_str_bytes(&mut out, "broadcasting");
        out.push('=' as u8);
        if self.broadcasting {
            push_str_bytes(&mut out, "1");
        } else {
            push_str_bytes(&mut out, "0");
        }
        out.push(',' as u8);
        push_str_bytes(&mut out, "source");
        out.push('=' as u8);
        match self.source {
            SourceMode::Adc => push_str_bytes(&mut out, "ADC"),
            SourceMode::Bram => push_str_bytes(&mut out, "BRAM"),
        }
        out.push(',' as u8);
        push_str_bytes(&mut out, "watchdog_triggered");
        out.push('=' as u8);
        push_str_bytes(&mut out, "0");
        out.push(',' as u8);
        push_str_bytes(&mut out, "watchdog_warning");
        out.push('=' as u8);
        push_str_bytes(&mut out, "0");
        let ghost header = out@;
        proof {
            assert(header =~= spec_kv("broadcasting".spec_bytes(), spec_bit(self.broadcasting))
                + seq![',' as u8] + spec_kv(
                "source".spec_bytes(),
                if self.source is Adc {
                    "ADC".spec_bytes()
                } else {
                    "BRAM".spec_bytes()
                },
            ) + seq![',' as u8] + spec_kv("watchdog_triggered".spec_bytes(), "0".spec_bytes())
                + seq![',' as u8] + spec_kv("watchdog_warning".spec_bytes(), "0".spec_bytes()));
        }
        let mut i: usize = 0;
        while i < Config::NUM_CHANNELS as usize
            invariant
                i <= Config::NUM_CHANNELS,
                self.wf(),
                header + spec_sim_channel_fields(self.channel_enabled@, self.channel_freq@, 0)
                    =~= out@ + spec_sim_channel_fields(
                    self.channel_enabled@,
                    self.channel_freq@,
                    i as int,
                ),
            decreases Config::NUM_CHANNELS - i,
        {
            let ghost before = out@;
            let n: u32 = (i + 1) as u32;
            out.push(',' as u8);
            push_str_bytes(&mut out, "ch");
            let d = u32_to_dec(n);
            push_all(&mut out, &d);
            push_str_bytes(&mut out, "_enabled");
            out.push('=' as u8);
            if self.channel_enabled[i] {
                push_str_bytes(&mut out, "1");
            } else {
                push_str_bytes(&mut out, "0");
            }
            out.push(',' as u8);
            push_str_bytes(&mut out, "ch");
            let d2 = u32_to_dec(n);
            push_all(&mut out, &d2);
            push_str_bytes(&mut out, "_freq");
            out.push('=' as u8);
            let f = u32_to_dec(self.channel_freq[i]);
            push_all(&mut out, &f);
            proof {
                let en = self.channel_enabled@;
                let fr = self.channel_freq@;
                assert(out@ =~= before + (seq![',' as u8] + spec_kv(
                    spec_channel_key(i + 1, "_enabled".spec_bytes()),
                    spec_bit(en[i as int]),
                ) + seq![',' as u8] + spec_kv(
                    spec_channel_key(i + 1, "_freq".spec_bytes()),
                    spec_u32_dec(fr[i as int] as nat),
                )));
                assert(spec_sim_channel_fields(en, fr, i as int) =~= (seq![',' as u8] + spec_kv(
                    spec_channel_key(i + 1, "_enabled".spec_bytes()),
                    spec_bit(en[i as int]),
                ) + seq![',' as u8] + spec_kv(
                    spec_channel_key(i + 1, "_freq".spec_bytes()),
                    spec_u32_dec(fr[i as int] as nat),
                )) + spec_sim_channel_fields(en, fr, i + 1));
                assert(header + spec_sim_channel_fields(en, fr, 0) =~= out@
                    + spec_sim_channel_fields(en, fr, i + 1));
            }
            i = i + 1;
        }
        proof {
            assert(spec_sim_channel_fields(
                self.channel_enabled@,
                self.channel_freq@,
                Config::NUM_CHANNELS as int,
            ) =~= Seq::<u8>::empty());
            assert(out@ =~= header + spec_sim_channel_fields(
                self.channel_enabled@,
                self.channel_freq@,
                0,
            ));
        }
        out.push('\n' as u8);
        proof {
            assert(out@ =~= spec_sim_status_line(
                self.broadcasting,
                self.source,
                self.channel_enabled@,
                self.channel_freq@,
            ));
        }
        out
    }

    /// Take one received line, newline or padding included, act on the
    /// command it names, and answer what the device would answer: the
    /// identity line, the status line, or nothing. A line naming no
    /// command, or naming a channel that does not exist, changes nothing.
    pub fn handle_line(&mut self, line: &[u8]) -> (r: Option<Vec<u8>>)
        requires
            old(self).wf(),
        ensures
            final(self).wf(),
            ({
                let c = spec_decode_command(spec_trim(line@));
                &&& (c is None || c == Some(Command::WatchdogReset)) ==> (*final(self)
                    == *old(self) && r is None)
                &&& c == Some(Command::Identity) ==> (*final(self) == *old(self) && (
                r matches Some(v) && v@ == "RedPitaya,STEMlab125-10,SIM,v1.0\n".spec_bytes()))
                &&& c == Some(Command::StatusQuery) ==> (*final(self) == *old(self) && (
                r matches Some(v) && v@ == spec_sim_status_line(
                    old(self).broadcasting,
                    old(self).source,
                    old(self).channel_enabled@,
                    old(self).channel_freq@,
                )))
                &&& c == Some(Command::OutputOn) ==> (*final(self) == (DeviceSimulator {
                    broadcasting: true,
                    ..*old(self)
                }) && r is None)
                &&& c == Some(Command::OutputOff) ==> (*final(self) == (DeviceSimulator {
                    broadcasting: false,
                    ..*old(self)
                }) && r is None)
                &&& (forall|mode: SourceMode|
                    c == Some(Command::SetSource { mode }) ==> (*final(self) == (DeviceSimulator {
                        source: mode,
                        ..*old(self)
                    }) && r is None))
                &&& (forall|channel: u8, on: bool|
                    c == Some(Command::ChannelOutput { channel, on }) ==> (r is None && (if 1
                        <= channel <= Config::NUM_CHANNELS {
                        final(self).channel_enabled@ == old(self).channel_enabled@.update(
                            channel - 1,
                            on,
                        ) && final(self).channel_freq@ == old(self).channel_freq@ && final(self).broadcasting == old(self).broadcasting && final(self).source == old(self).source
                    } else {
                        *final(self) == *old(self)
                    })))
                &&& (forall|channel: u8, hz: u32|
                    c == Some(Command::ChannelFrequency { channel, hz }) ==> (r is None && (if 1
                        <= channel <= Config::NUM_CHANNELS {
                        final(self).channel_freq@ == old(self).channel_freq@.update(
                            channel - 1,
                            hz,
                        ) && final(self).channel_enabled@ == old(self).channel_enabled@ && final(self).broadcasting == old(self).broadcasting && final(self).source == old(self).source
                    } else {
                        *final(self) == *old(self)
                    })))
            }),
    {
        let trimmed = trim_bytes(line);
        match decode_command(trimmed.as_slice()) {
            None => None,
            Some(Command::WatchdogReset) => None,
            Some(Command::Identity) => {
                let mut v: Vec<u8> = Vec::new();
                push_str_bytes(&mut v, "RedPitaya,STEMlab125-10,SIM,v1.0\n");
                proof {
                    assert(v@ =~= "RedPitaya,STEMlab125-10,SIM,v1.0\n".spec_bytes());
                }
                Some(v)
            },
            Some(Command::StatusQuery) => Some(self.status_line()),
            Some(Command::OutputOn) => {
                self.broadcasting = true;
                None
            },
            Some(Command::OutputOff) => {
                self.broadcasting = false;
                None
            },
            Some(Command::SetSource { mode }) => {
                self.source = mode;
                None
            },
            Some(Command::ChannelOutput { channel, on }) => {
                if 1 <= channel && channel <= Config::NUM_CHANNELS {
                    let idx: usize = (channel - 1) as usize;
                    self.channel_enabled[idx] = on;
                }
                None
            },
            Some(Command::ChannelFrequency { channel, hz }) => {
                if 1 <= channel && channel <= Config::NUM_CHANNELS {
                    let idx: usize = (channel - 1) as usize;
                    self.channel_freq[idx] = hz;
                }
                None
            },
        }
    }
}

/// Bytes that can stand unquoted in a status field: no separator, no pair
/// delimiter, no whitespace.
pub open spec fn spec_plain_bytes(s: Seq<u8>) -> bool {
    forall|i: int|
        0 <= i < s.len() ==> ((#[trigger] s[i]) != ',' as u8 && s[i] != ':' as u8 && s[i]
            != '=' as u8 && !crate::codec::spec_is_space(s[i]))
}

/// The words of the status line are plain, with the lengths and leading
/// bytes that tell them apart.
proof fn lemma_sim_word_facts()
    ensures
        spec_plain_bytes("broadcasting".spec_bytes()),
        "broadcasting".spec_bytes().len() == 12,
        "broadcasting".spec_bytes()[0] == 'b' as u8,
        spec_plain_bytes("source".spec_bytes()),
        "source".spec_bytes().len() == 6,
        spec_plain_bytes("watchdog_triggered".spec_bytes()),
        "watchdog_triggered".spec_bytes().len() == 18,
        spec_plain_bytes("watchdog_warning".spec_bytes()),
        "watchdog_warning".spec_bytes().len() == 16,
        spec_plain_bytes("temp".spec_bytes()),
        "temp".spec_bytes().len() == 4,
        spec_plain_bytes("ch".spec_bytes()),
        "ch".spec_bytes().len() == 2,
        "ch".spec_bytes()[0] == 'c' as u8,
        spec_plain_bytes("_enabled".spec_bytes()),
        "_enabled".spec_bytes().len() == 8,
        "_enabled".spec_bytes()[0] == '_' as u8,
        spec_plain_bytes("_freq".spec_bytes()),
        "_freq".spec_bytes().len() == 5,
        "_freq".spec_bytes()[0] == '_' as u8,
        spec_plain_bytes("ADC".spec_bytes()),
        "ADC".spec_bytes().len() == 3,
        crate::codec::spec_upper_bytes("ADC".spec_bytes()) == "ADC".spec_bytes(),
        spec_plain_bytes("BRAM".spec_bytes()),
        "BRAM".spec_bytes().len() == 4,
        crate::codec::spec_upper_bytes("BRAM".spec_bytes()) == "BRAM".spec_bytes(),
        "1".spec_bytes() =~= seq!['1' as u8],
        "0".spec_bytes() =~= seq!['0' as u8],
        "ON".spec_bytes().len() == 2,
        "OFF".spec_bytes().len() == 3,
{
    broadcast use vstd::string::is_ascii_spec_bytes;

    reveal_strlit("broadcasting");
    reveal_strlit("source");
    reveal_strlit("watchdog_triggered");
    reveal_strlit("watchdog_warning");
    reveal_strlit("temp");
    reveal_strlit("ch");
    reveal_strlit("_enabled");
    reveal_strlit("_freq");
    reveal_strlit("ADC");
    reveal_strlit("BRAM");
    reveal_strlit("1");
    reveal_strlit("0");
    reveal_strlit("ON");
    reveal_strlit("OFF");
    assert(vstd::string::is_ascii("broadcasting"));
    assert(vstd::string::is_ascii("source"));
    assert(vstd::string::is_ascii("watchdog_triggered"));
    assert(vstd::string::is_ascii("watchdog_warning"));
    assert(vstd::string::is_ascii("temp"));
    assert(vstd::string::is_ascii("ch"));
    assert(vstd::string::is_ascii("_enabled"));
    assert(vstd::string::is_ascii("_freq"));
    assert(vstd::string::is_ascii("ADC"));
    assert(vstd::string::is_ascii("BRAM"));
    assert(vstd::string::is_ascii("1"));
    assert(vstd::string::is_ascii("0"));
    assert(vstd::string::is_ascii("ON"));
    assert(vstd::string::is_ascii("OFF"));
    assert(crate::codec::spec_upper_bytes("ADC".spec_bytes()) =~= "ADC".spec_bytes());
    assert(crate::codec::spec_upper_bytes("BRAM".spec_bytes()) =~= "BRAM".spec_bytes());
}

/// Trimming takes nothing from a string whose ends are not whitespace.
proof fn lemma_trim_id(s: Seq<u8>)
    requires
        s.len() == 0 || (!crate::codec::spec_is_space(s.first()) && !crate::codec::spec_is_space(
            s.last(),
        )),
    ensures
        crate::codec::spec_trim(s) == s,
{
    assert(crate::codec::spec_trim_front(s) == s);
    assert(crate::codec::spec_trim_back(s) == s);
}

/// A plain key joined to a clean value applies as exactly that pair: the
/// field splits at its equals sign and the trims take nothing.
proof fn lemma_apply_plain_kv(r: crate::status::StatusReportView, key: Seq<u8>, value: Seq<u8>)
    requires
        spec_plain_bytes(key),
        forall|i: int| 0 <= i < value.len() ==> (#[trigger] value[i]) != ':' as u8,
        value.len() == 0 || (!crate::codec::spec_is_space(value.first())
            && !crate::codec::spec_is_space(value.last())),
    ensures
        crate::status::spec_apply_field(r, spec_kv(key, value)) == crate::status::spec_apply_kv(
            r,
            key,
            value,
        ),
{
    let f = spec_kv(key, value);
    let eqv = seq!['=' as u8] + value;
    assert(f =~= key + eqv);
    assert(eqv[0] == '=' as u8);
    crate::codec::lemma_find_boundary(key, eqv, '=' as u8);
    let ei = crate::codec::spec_find(f, '=' as u8, 0);
    let ci = crate::codec::spec_find(f, ':' as u8, 0);
    assert(ei == key.len());
    crate::codec::lemma_find_props(f, ':' as u8, 0);
    if ci < ei {
        assert(f[ci] == key[ci]);
        assert(false);
    }
    assert(f.len() == key.len() + 1 + value.len());
    assert(f.take(ei) =~= key);
    assert(f.skip(ei + 1) =~= value);
    lemma_trim_id(key);
    lemma_trim_id(value);
}

/// As `lemma_apply_plain_kv`, for the line's final field, which carries the
/// terminating newline: the trim takes exactly that newline.
proof fn lemma_apply_plain_kv_newline(
    r: crate::status::StatusReportView,
    key: Seq<u8>,
    value: Seq<u8>,
)
    requires
        spec_plain_bytes(key),
        crate::codec::spec_all_digits(value),
        value.len() >= 1,
    ensures
        crate::status::spec_apply_field(r, spec_kv(key, value) + seq!['\n' as u8])
            == crate::status::spec_apply_kv(r, key, value),
{
    let vn = value + seq!['\n' as u8];
    let f = spec_kv(key, value) + seq!['\n' as u8];
    let eqv = seq!['=' as u8] + vn;
    assert(f =~= key + eqv);
    assert(eqv[0] == '=' as u8);
    crate::codec::lemma_find_boundary(key, eqv, '=' as u8);
    let ei = crate::codec::spec_find(f, '=' as u8, 0);
    let ci = crate::codec::spec_find(f, ':' as u8, 0);
    assert(ei == key.len());
    crate::codec::lemma_find_props(f, ':' as u8, 0);
    if ci < ei {
        assert(f[ci] == key[ci]);
        assert(false);
    }
    assert(f.len() == key.len() + 1 + vn.len());
    assert(f.take(ei) =~= key);
    assert(f.skip(ei + 1) =~= vn);
    lemma_trim_id(key);
    assert(crate::codec::spec_is_digit(value[0]));
    assert(crate::codec::spec_trim_front(vn) == vn);
    assert(vn.last() == '\n' as u8);
    assert(vn.drop_last() =~= value);
    assert(crate::codec::spec_is_digit(value[value.len() - 1]));
    assert(crate::codec::spec_trim_back(value) == value);
    assert(crate::codec::spec_trim_back(vn) == value);
    assert(crate::codec::spec_trim(vn) == value);
}

/// The `broadcasting` pair lands in the report's broadcasting field.
proof fn lemma_kv_broadcasting(r: crate::status::StatusReportView, b: bool)
    ensures
        crate::status::spec_apply_kv(r, "broadcasting".spec_bytes(), spec_bit(b))
            == (crate::status::StatusReportView { broadcasting: Some(b), ..r }),
{
    lemma_sim_word_facts();
    assert(crate::status::spec_parse_onoff(spec_bit(b)) == Some(b));
}

/// The `source` pair lands in the report's source field.
proof fn lemma_kv_source(r: crate::status::StatusReportView, m: SourceMode)
    ensures
        crate::status::spec_apply_kv(
            r,
            "source".spec_bytes(),
            if m is Adc {
                "ADC".spec_bytes()
            } else {
                "BRAM".spec_bytes()
            },
        ) == (crate::status::StatusReportView { source: Some(m), ..r }),
{
    lemma_sim_word_facts();
    if m is Adc {
        assert(crate::state_machine::spec_source_from_bytes("ADC".spec_bytes()) == SourceMode::Adc);
    } else {
        assert("BRAM".spec_bytes() != "ADC".spec_bytes());
        assert(crate::state_machine::spec_source_from_bytes("BRAM".spec_bytes())
            == SourceMode::Bram);
    }
}

/// The clear `watchdog_triggered` pair lands as a false report.
proof fn lemma_kv_watchdog_triggered(r: crate::status::StatusReportView)
    ensures
        crate::status::spec_apply_kv(r, "watchdog_triggered".spec_bytes(), "0".spec_bytes())
            == (crate::status::StatusReportView { watchdog_triggered: Some(false), ..r }),
{
    lemma_sim_word_facts();
    assert(crate::status::spec_parse_onoff("0".spec_bytes()) == Some(false));
}

/// The clear `watchdog_warning` pair lands as a false report.
proof fn lemma_kv_watchdog_warning(r: crate::status::StatusReportView)
    ensures
        crate::status::spec_apply_kv(r, "watchdog_warning".spec_bytes(), "0".spec_bytes())
            == (crate::status::StatusReportView { watchdog_warning: Some(false), ..r }),
{
    lemma_sim_word_facts();
    assert(crate::status::spec_parse_onoff("0".spec_bytes()) == Some(false));
}

/// A channel key is two or three digits longer than its suffix and starts
/// with the channel prefix.
proof fn lemma_channel_key_shape(n: int)
    requires
        1 <= n <= 12,
    ensures
        1 <= spec_u32_dec(n as nat).len() <= 2,
        spec_u32_dec(n as nat).len() == 1 <==> n < 10,
{
    lemma_sim_word_facts();
    if n >= 10 {
        assert(spec_u32_dec(n as nat) == spec_u32_dec((n / 10) as nat).push(
            (n % 10 + '0' as u8) as u8,
        ));
        assert(spec_u32_dec((n / 10) as nat).len() == 1);
    }
}

/// The slot a constructed channel key names: its own channel, under its own
/// suffix, and nothing under the other.
proof fn lemma_channel_key_slot_of(n: int, suffix: Seq<u8>, other: Seq<u8>)
    requires
        1 <= n <= 12,
        suffix.len() > 0,
        suffix[0] == '_' as u8,
        other.len() != suffix.len(),
    ensures
        crate::status::spec_channel_key_slot(spec_channel_key(n, suffix), suffix) == Some(n - 1),
        crate::status::spec_channel_key_slot(spec_channel_key(n, suffix), other) is None,
{
    lemma_sim_word_facts();
    let d = spec_u32_dec(n as nat);
    crate::codec::lemma_u32_dec_digits(n as nat);
    crate::codec::lemma_dec_round_trip(n as u32);
    assert(spec_u32_dec(n as u32 as nat) == d);
    let k = spec_channel_key(n, suffix);
    assert(crate::codec::spec_starts_with(k, "ch".spec_bytes())) by {
        assert(k.take(2) =~= "ch".spec_bytes());
    }
    let rest = k.skip(2);
    assert(rest =~= d + suffix);
    assert(forall|i: int| 0 <= i < d.len() ==> (#[trigger] d[i]) != '_' as u8) by {
        assert(forall|i: int|
            0 <= i < d.len() ==> crate::codec::spec_is_digit(#[trigger] d[i]));
    }
    crate::codec::lemma_find_boundary(d, suffix, '_' as u8);
    assert(crate::codec::spec_find(rest, '_' as u8, 0) == d.len());
    assert(rest.take(d.len() as int) =~= d);
    assert(rest.skip(d.len() as int) =~= suffix);
    assert(suffix != other);
}

/// The `ch<n>_enabled` pair lands in that channel's enabled slot.
proof fn lemma_kv_channel_enabled(r: crate::status::StatusReportView, n: int, b: bool)
    requires
        1 <= n <= 12,
    ensures
        crate::status::spec_apply_kv(
            r,
            spec_channel_key(n, "_enabled".spec_bytes()),
            spec_bit(b),
        ) == (crate::status::StatusReportView {
            channel_enabled: r.channel_enabled.update(n - 1, Some(b)),
            ..r
        }),
{
    lemma_sim_word_facts();
    lemma_channel_key_shape(n);
    let d = spec_u32_dec(n as nat);
    let k = spec_channel_key(n, "_enabled".spec_bytes());
    assert(k.len() == 2 + d.len() + 8);
    assert(k[0] == 'c' as u8);
    assert(k != "broadcasting".spec_bytes());
    assert(k != "source".spec_bytes());
    assert(k != "watchdog_triggered".spec_bytes());
    assert(k != "watchdog_warning".spec_bytes());
    assert(k != "temp".spec_bytes());
    lemma_channel_key_slot_of(n, "_enabled".spec_bytes(), "_freq".spec_bytes());
    assert(crate::status::spec_parse_onoff(spec_bit(b)) == Some(b));
}

/// The `ch<n>_freq` pair lands in that channel's frequency slot.
proof fn lemma_kv_channel_freq(r: crate::status::StatusReportView, n: int, hz: u32)
    requires
        1 <= n <= 12,
    ensures
        crate::status::spec_apply_kv(
            r,
            spec_channel_key(n, "_freq".spec_bytes()),
            spec_u32_dec(hz as nat),
        ) == (crate::status::StatusReportView {
            channel_freq: r.channel_freq.update(n - 1, Some(hz)),
            ..r
        }),
{
    lemma_sim_word_facts();
    lemma_channel_key_shape(n);
    let d = spec_u32_dec(n as nat);
    let k = spec_channel_key(n, "_freq".spec_bytes());
    assert(k.len() == 2 + d.len() + 5);
    assert(k[0] == 'c' as u8);
    assert(k != "broadcasting".spec_bytes());
    assert(k != "source".spec_bytes());
    assert(k != "watchdog_triggered".spec_bytes());
    assert(k != "watchdog_warning".spec_bytes());
    assert(k != "temp".spec_bytes());
    lemma_channel_key_slot_of(n, "_freq".spec_bytes(), "_enabled".spec_bytes());
    crate::codec::lemma_dec_round_trip(hz);
}

/// A pair whose key and value are comma-free is itself comma-free.
proof fn lemma_kv_comma_free(key: Seq<u8>, value: Seq<u8>)
    requires
        forall|i: int| 0 <= i < key.len() ==> (#[trigger] key[i]) != ',' as u8,
        forall|i: int| 0 <= i < value.len() ==> (#[trigger] value[i]) != ',' as u8,
    ensures
        forall|i: int|
            0 <= i < spec_kv(key, value).len() ==> (#[trigger] spec_kv(key, value)[i])
                != ',' as u8,
{
    let f = spec_kv(key, value);
    assert forall|i: int| 0 <= i < f.len() implies (#[trigger] f[i]) != ',' as u8 by {
        if i < key.len() {
            assert(f[i] == key[i]);
        } else if i == key.len() {
            assert(f[i] == '=' as u8);
        } else {
            assert(f[i] == value[i - key.len() - 1]);
        }
    }
}

/// Digit strings are comma-free.
proof fn lemma_digits_comma_free(s: Seq<u8>)
    requires
        crate::codec::spec_all_digits(s),
    ensures
        forall|i: int| 0 <= i < s.len() ==> (#[trigger] s[i]) != ',' as u8,
{
    assert forall|i: int| 0 <= i < s.len() implies (#[trigger] s[i]) != ',' as u8 by {
        assert(crate::codec::spec_is_digit(s[i]));
    }
}

/// A channel key is plain.
proof fn lemma_channel_key_plain(n: int, suffix: Seq<u8>)
    requires
        1 <= n <= 12,
        spec_plain_bytes(suffix),
    ensures
        spec_plain_bytes(spec_channel_key(n, suffix)),
{
    lemma_sim_word_facts();
    let d = spec_u32_dec(n as nat);
    crate::codec::lemma_u32_dec_digits(n as nat);
    let k = spec_channel_key(n, suffix);
    assert forall|i: int|
        0 <= i < k.len() implies ((#[trigger] k[i]) != ',' as u8 && k[i] != ':' as u8 && k[i]
        != '=' as u8 && !crate::codec::spec_is_space(k[i])) by {
        if i < 2 {
            assert(k[i] == "ch".spec_bytes()[i]);
        } else if i < 2 + d.len() {
            assert(k[i] == d[i - 2]);
            assert(crate::codec::spec_is_digit(d[i - 2]));
        } else {
            assert(k[i] == suffix[i - 2 - d.len()]);
        }
    }
}

/// Parsing the channel tail of the status line, newline included, lands
/// every remaining channel's fields in its slots and touches nothing else.
proof fn lemma_parse_channel_suffix(
    en: Seq<bool>,
    fr: Seq<u32>,
    i: int,
    r: crate::status::StatusReportView,
)
    requires
        en.len() == 12,
        fr.len() == 12,
        0 <= i < 12,
        crate::status::spec_report_wf(r),
    ensures
        ({
            let kv_en = spec_kv(spec_channel_key(i + 1, "_enabled".spec_bytes()), spec_bit(en[i]));
            let kv_fr = spec_kv(
                spec_channel_key(i + 1, "_freq".spec_bytes()),
                spec_u32_dec(fr[i] as nat),
            );
            let rest = kv_en + seq![',' as u8] + kv_fr + spec_sim_channel_fields(en, fr, i + 1)
                + seq!['\n' as u8];
            let result = crate::status::spec_parse_fields(rest, Seq::<u8>::empty(), r);
            &&& crate::status::spec_report_wf(result)
            &&& result.broadcasting == r.broadcasting
            &&& result.watchdog_triggered == r.watchdog_triggered
            &&& result.watchdog_warning == r.watchdog_warning
            &&& result.source == r.source
            &&& result.temperature_deci == r.temperature_deci
            &&& (forall|j: int|
                0 <= j < 12 ==> #[trigger] result.channel_enabled[j] == (if i <= j {
                    Some(en[j])
                } else {
                    r.channel_enabled[j]
                }))
            &&& (forall|j: int|
                0 <= j < 12 ==> #[trigger] result.channel_freq[j] == (if i <= j {
                    Some(fr[j])
                } else {
                    r.channel_freq[j]
                }))
        }),
    decreases 12 - i,
{
    lemma_sim_word_facts();
    crate::codec::lemma_u32_dec_digits((i + 1) as nat);
    crate::codec::lemma_u32_dec_digits(fr[i] as nat);
    let key_en = spec_channel_key(i + 1, "_enabled".spec_bytes());
    let key_fr = spec_channel_key(i + 1, "_freq".spec_bytes());
    let kv_en = spec_kv(key_en, spec_bit(en[i]));
    let kv_fr = spec_kv(key_fr, spec_u32_dec(fr[i] as nat));
    let tail = spec_sim_channel_fields(en, fr, i + 1);
    let nl = seq!['\n' as u8];
    let rest = kv_en + seq![',' as u8] + kv_fr + tail + nl;
    lemma_channel_key_plain(i + 1, "_enabled".spec_bytes());
    lemma_channel_key_plain(i + 1, "_freq".spec_bytes());
    lemma_kv_comma_free(key_en, spec_bit(en[i]));
    lemma_kv_comma_free(key_fr, spec_u32_dec(fr[i] as nat));

    assert(rest =~= kv_en + seq![',' as u8] + (kv_fr + tail + nl));
    crate::status::lemma_parse_fields_split(kv_en, kv_fr + tail + nl, Seq::<u8>::empty(), r);
    assert(Seq::<u8>::empty() + kv_en =~= kv_en);
    lemma_apply_plain_kv(r, key_en, spec_bit(en[i]));
    lemma_kv_channel_enabled(r, i + 1, en[i]);
    let r1 = crate::status::spec_apply_field(r, kv_en);
    assert(r1 == (crate::status::StatusReportView {
        channel_enabled: r.channel_enabled.update(i, Some(en[i])),
        ..r
    }));

    if i == 11 {
        assert(tail =~= Seq::<u8>::empty());
        assert(kv_fr + tail + nl =~= kv_fr + nl);
        assert(forall|x: int|
            0 <= x < (kv_fr + nl).len() ==> (#[trigger] (kv_fr + nl)[x]) != ',' as u8) by {
            lemma_digits_comma_free(spec_u32_dec(fr[i] as nat));
        }
        crate::status::lemma_parse_fields_no_comma(kv_fr + nl, Seq::<u8>::empty(), r1);
        assert(Seq::<u8>::empty() + (kv_fr + nl) =~= spec_kv(key_fr, spec_u32_dec(fr[i] as nat))
            + nl);
        lemma_apply_plain_kv_newline(r1, key_fr, spec_u32_dec(fr[i] as nat));
        lemma_kv_channel_freq(r1, i + 1, fr[i]);
    } else {
        let kv_en2 = spec_kv(
            spec_channel_key(i + 2, "_enabled".spec_bytes()),
            spec_bit(en[i + 1]),
        );
        let kv_fr2 = spec_kv(
            spec_channel_key(i + 2, "_freq".spec_bytes()),
            spec_u32_dec(fr[i + 1] as nat),
        );
        let tail2 = spec_sim_channel_fields(en, fr, i + 2);
        assert(tail == seq![',' as u8] + kv_en2 + seq![',' as u8] + kv_fr2 + tail2);
        assert(kv_fr + tail + nl =~= kv_fr + seq![',' as u8] + (kv_en2 + seq![',' as u8] + kv_fr2
            + tail2 + nl));
        lemma_digits_comma_free(spec_u32_dec(fr[i] as nat));
        crate::status::lemma_parse_fields_split(
            kv_fr,
            kv_en2 + seq![',' as u8] + kv_fr2 + tail2 + nl,
            Seq::<u8>::empty(),
            r1,
        );
        assert(Seq::<u8>::empty() + kv_fr =~= kv_fr);
        lemma_apply_plain_kv(r1, key_fr, spec_u32_dec(fr[i] as nat));
        lemma_kv_channel_freq(r1, i + 1, fr[i]);
        let r2 = crate::status::spec_apply_field(r1, kv_fr);
        assert(crate::status::spec_report_wf(r2));
        lemma_parse_channel_suffix(en, fr, i + 1, r2);
    }
}

/// The simulated status line parses back to exactly the simulated state:
/// the master output and source as reported, both watchdog fields clear,
/// and every channel's enabled flag and frequency in its slot.
pub proof fn lemma_sim_status_line_parses(
    broadcasting: bool,
    source: SourceMode,
    en: Seq<bool>,
    fr: Seq<u32>,
)
    requires
        en.len() == 12,
        fr.len() == 12,
    ensures
        ({
            let rv = crate::status::spec_parse_status(
                spec_sim_status_line(broadcasting, source, en, fr),
            );
            &&& rv.broadcasting == Some(broadcasting)
            &&& rv.source == Some(source)
            &&& rv.watchdog_triggered == Some(false)
            &&& rv.watchdog_warning == Some(false)
            &&& rv.temperature_deci is None
            &&& (forall|j: int| 0 <= j < 12 ==> #[trigger] rv.channel_enabled[j] == Some(en[j]))
            &&& (forall|j: int| 0 <= j < 12 ==> #[trigger] rv.channel_freq[j] == Some(fr[j]))
        }),
{
    lemma_sim_word_facts();
    let srcb = if source is Adc {
        "ADC".spec_bytes()
    } else {
        "BRAM".spec_bytes()
    };
    let kv1 = spec_kv("broadcasting".spec_bytes(), spec_bit(broadcasting));
    let kv2 = spec_kv("source".spec_bytes(), srcb);
    let kv3 = spec_kv("watchdog_triggered".spec_bytes(), "0".spec_bytes());
    let kv4 = spec_kv("watchdog_warning".spec_bytes(), "0".spec_bytes());
    let cf = spec_sim_channel_fields(en, fr, 0);
    let nl = seq!['\n' as u8];
    let line = spec_sim_status_line(broadcasting, source, en, fr);
    let comma = seq![',' as u8];
    lemma_kv_comma_free("broadcasting".spec_bytes(), spec_bit(broadcasting));
    lemma_kv_comma_free("source".spec_bytes(), srcb);
    lemma_kv_comma_free("watchdog_triggered".spec_bytes(), "0".spec_bytes());
    lemma_kv_comma_free("watchdog_warning".spec_bytes(), "0".spec_bytes());
    let r0 = crate::status::spec_empty_report();

    assert(line =~= kv1 + comma + (kv2 + comma + kv3 + comma + kv4 + cf + nl));
    crate::status::lemma_parse_fields_split(
        kv1,
        kv2 + comma + kv3 + comma + kv4 + cf + nl,
        Seq::<u8>::empty(),
        r0,
    );
    assert(Seq::<u8>::empty() + kv1 =~= kv1);
    lemma_apply_plain_kv(r0, "broadcasting".spec_bytes(), spec_bit(broadcasting));
    lemma_kv_broadcasting(r0, broadcasting);
    let r1 = crate::status::spec_apply_field(r0, kv1);

    assert(kv2 + comma + kv3 + comma + kv4 + cf + nl =~= kv2 + comma + (kv3 + comma + kv4 + cf
        + nl));
    crate::status::lemma_parse_fields_split(
        kv2,
        kv3 + comma + kv4 + cf + nl,
        Seq::<u8>::empty(),
        r1,
    );
    assert(Seq::<u8>::empty() + kv2 =~= kv2);
    lemma_apply_plain_kv(r1, "source".spec_bytes(), srcb);
    lemma_kv_source(r1, source);
    let r2 = crate::status::spec_apply_field(r1, kv2);

    assert(kv3 + comma + kv4 + cf + nl =~= kv3 + comma + (kv4 + cf + nl));
    crate::status::lemma_parse_fields_split(kv3, kv4 + cf + nl, Seq::<u8>::empty(), r2);
    assert(Seq::<u8>::empty() + kv3 =~= kv3);
    lemma_apply_plain_kv(r2, "watchdog_triggered".spec_bytes(), "0".spec_bytes());
    lemma_kv_watchdog_triggered(r2);
    let r3 = crate::status::spec_apply_field(r2, kv3);

    let kv_en0 = spec_kv(spec_channel_key(1, "_enabled".spec_bytes()), spec_bit(en[0]));
    let kv_fr0 = spec_kv(spec_channel_key(1, "_freq".spec_bytes()), spec_u32_dec(fr[0] as nat));
    let tail1 = spec_sim_channel_fields(en, fr, 1);
    assert(cf == comma + kv_en0 + comma + kv_fr0 + tail1);
    assert(kv4 + cf + nl =~= kv4 + comma + (kv_en0 + comma + kv_fr0 + tail1 + nl));
    crate::status::lemma_parse_fields_split(
        kv4,
        kv_en0 + comma + kv_fr0 + tail1 + nl,
        Seq::<u8>::empty(),
        r3,
    );
    assert(Seq::<u8>::empty() + kv4 =~= kv4);
    lemma_apply_plain_kv(r3, "watchdog_warning".spec_bytes(), "0".spec_bytes());
    lemma_kv_watchdog_warning(r3);
    let r4 = crate::status::spec_apply_field(r3, kv4);
    assert(crate::status::spec_report_wf(r4));

    lemma_parse_channel_suffix(en, fr, 0, r4);
}

} // verus!
