//! Inbound status decoding: one comma-separated line of `key=value` or
//! `key:value` pairs becomes a strongly typed report.
//!
//! Raw strings stop here; state-machine logic only ever sees the typed
//! fields. Unknown keys and malformed values are ignored, field by field,
//! so one bad pair never poisons the rest of the line.

use vstd::prelude::*;
use vstd::string::StringSliceAdditionalSpecFns;

use crate::codec::{
    bytes_eq_str, find_byte, parse_u32, spec_all_digits, spec_find, spec_parse_u32,
    spec_starts_with, spec_trim, starts_with_str, trim_bytes,
};
use crate::state_machine::{spec_source_from_bytes, SourceMode};

verus! {

/// Number of transmitter channels.
pub const NUM_CHANNELS: usize = 12;

/// The typed fields of one parsed status line. A `None` field was absent
/// from the line (or carried a value that does not parse).
#[derive(Clone, Debug)]
pub struct StatusReport {
    /// Master output state: `broadcasting=0|1` (also `ON`/`OFF`).
    pub broadcasting: Option<bool>,
    /// Device-reported watchdog trip: `watchdog_triggered=0|1`.
    pub watchdog_triggered: Option<bool>,
    /// Device-reported watchdog warning: `watchdog_warning=0|1`.
    pub watchdog_warning: Option<bool>,
    /// Audio source: `source=BRAM|ADC`.
    pub source: Option<SourceMode>,
    /// Temperature in tenths of a degree: `temp=45.2` reads as 452.
    pub temperature_deci: Option<u32>,
    /// Per-channel output state: `ch1_enabled=0|1` lands at index 0.
    pub channel_enabled: Vec<Option<bool>>,
    /// Per-channel frequency in hertz: `ch1_freq=540000` lands at index 0.
    pub channel_freq: Vec<Option<u32>>,
}

/// Mathematical image of a `StatusReport`.
pub struct StatusReportView {
    pub broadcasting: Option<bool>,
    pub watchdog_triggered: Option<bool>,
    pub watchdog_warning: Option<bool>,
    pub source: Option<SourceMode>,
    pub temperature_deci: Option<u32>,
    pub channel_enabled: Seq<Option<bool>>,
    pub channel_freq: Seq<Option<u32>>,
}

impl View for StatusReport {
    type V = StatusReportView;

    open spec fn view(&self) -> StatusReportView {
        StatusReportView {
            broadcasting: self.broadcasting,
            watchdog_triggered: self.watchdog_triggered,
            watchdog_warning: self.watchdog_warning,
            source: self.source,
            temperature_deci: self.temperature_deci,
            channel_enabled: self.channel_enabled@,
            channel_freq: self.channel_freq@,
        }
    }
}

/// The report of a line that names nothing: every field absent, one slot per
/// channel.
pub open spec fn spec_empty_report() -> StatusReportView {
    StatusReportView {
        broadcasting: None,
        watchdog_triggered: None,
        watchdog_warning: None,
        source: None,
        temperature_deci: None,
        channel_enabled: Seq::new(NUM_CHANNELS as nat, |i: int| None),
        channel_freq: Seq::new(NUM_CHANNELS as nat, |i: int| None),
    }
}

/// Both channel tables hold exactly one slot per channel.
pub open spec fn spec_report_wf(r: StatusReportView) -> bool {
    &&& r.channel_enabled.len() == NUM_CHANNELS
    &&& r.channel_freq.len() == NUM_CHANNELS
}

/// The truth value a wire field names: `1`/`ON` is true, `0`/`OFF` is false,
/// anything else does not parse.
pub open spec fn spec_parse_onoff(v: Seq<u8>) -> Option<bool> {
    if v == "1".spec_bytes() || v == "ON".spec_bytes() {
        Some(true)
    } else if v == "0".spec_bytes() || v == "OFF".spec_bytes() {
        Some(false)
    } else {
        None
    }
}

/// Parse a wire truth value.
pub fn parse_onoff(v: &[u8]) -> (r: Option<bool>)
    ensures
        r == spec_parse_onoff(v@),
{
    if bytes_eq_str(v, "1") || bytes_eq_str(v, "ON") {
        Some(true)
    } else if bytes_eq_str(v, "0") || bytes_eq_str(v, "OFF") {
        Some(false)
    } else {
        None
    }
}

/// A temperature in tenths of a degree: an unsigned decimal with an optional
/// fraction, of which the first digit counts. `45.2` reads as 452, `45` as
/// 450.
pub open spec fn spec_parse_temp_deci(v: Seq<u8>) -> Option<u32> {
    let i = spec_find(v, '.' as u8, 0);
    if i == v.len() {
        match spec_parse_u32(v) {
            Some(n) => if n * 10 <= u32::MAX {
                Some((n * 10) as u32)
            } else {
                None
            },
            None => None,
        }
    } else {
        let frac = v.skip(i + 1);
        match spec_parse_u32(v.take(i)) {
            Some(n) => if frac.len() >= 1 && spec_all_digits(frac) && n * 10 + (frac[0]
                - '0' as u8) <= u32::MAX {
                Some((n * 10 + (frac[0] - '0' as u8)) as u32)
            } else {
                None
            },
            None => None,
        }
    }
}

/// Parse a temperature value into tenths of a degree.
pub fn parse_temp_deci(v: &[u8]) -> (r: Option<u32>)
    ensures
        r == spec_parse_temp_deci(v@),
{
    let i = find_byte(v, '.' as u8, 0);
    if i == v.len() {
        match parse_u32(v) {
            Some(n) => {
                if n <= u32::MAX / 10 {
                    Some(n * 10)
                } else {
                    None
                }
            },
            None => None,
        }
    } else {
        let ints = vstd::slice::slice_subrange(v, 0, i);
        let frac = vstd::slice::slice_subrange(v, i + 1, v.len());
        proof {
            assert(ints@ =~= v@.take(i as int));
            assert(frac@ =~= v@.skip(i + 1));
        }
        match parse_u32(ints) {
            Some(n) => {
                if frac.len() >= 1 && all_digits(frac) {
                    let d = frac[0] - '0' as u8;
                    if n <= (u32::MAX - d as u32) / 10 {
                        Some(n * 10 + d as u32)
                    } else {
                        None
                    }
                } else {
                    None
                }
            },
            None => None,
        }
    }
}

/// Whether every byte of a string is an ASCII decimal digit.
pub fn all_digits(s: &[u8]) -> (r: bool)
    ensures
        r == spec_all_digits(s@),
{
    let mut i: usize = 0;
    while i < s.len()
        invariant
            i <= s@.len(),
            forall|j: int| 0 <= j < i ==> crate::codec::spec_is_digit(#[trigger] s@[j]),
        decreases s.len() - i,
    {
        let c = s[i];
        if c < '0' as u8 || c > '9' as u8 {
            return false;
        }
        i = i + 1;
    }
    true
}

/// The channel slot (zero-based) that a key of the form `ch<n><suffix>`
/// names, for channel numbers 1 up to the channel count.
pub open spec fn spec_channel_key_slot(k: Seq<u8>, suffix: Seq<u8>) -> Option<int> {
    if spec_starts_with(k, "ch".spec_bytes()) {
        let rest = k.skip("ch".spec_bytes().len() as int);
        let i = spec_find(rest, '_' as u8, 0);
        if i == rest.len() {
            None
        } else {
            match spec_parse_u32(rest.take(i)) {
                Some(n) => if 1 <= n <= NUM_CHANNELS && rest.skip(i) == suffix {
                    Some(n - 1)
                } else {
                    None
                },
                None => None,
            }
        }
    } else {
        None
    }
}

/// Find which channel slot a key names, given the expected suffix
/// (underscore included).
pub fn channel_key_slot(k: &[u8], suffix: &str) -> (r: Option<usize>)
    ensures
        match r {
            Some(slot) => Some(slot as int) == spec_channel_key_slot(k@, suffix.spec_bytes())
                && slot < NUM_CHANNELS,
            None => spec_channel_key_slot(k@, suffix.spec_bytes()) is None,
        },
{
    if !starts_with_str(k, "ch") {
        return None;
    }
    let plen = "ch".as_bytes().len();
    let rest = vstd::slice::slice_subrange(k, plen, k.len());
    proof {
        assert(rest@ =~= k@.skip("ch".spec_bytes().len() as int));
    }
    let i = find_byte(rest, '_' as u8, 0);
    if i == rest.len() {
        return None;
    }
    let digits = vstd::slice::slice_subrange(rest, 0, i);
    proof {
        assert(digits@ =~= rest@.take(i as int));
    }
    match parse_u32(digits) {
        Some(n) => {
            let tail = vstd::slice::slice_subrange(rest, i, rest.len());
            proof {
                assert(tail@ =~= rest@.skip(i as int));
            }
            if 1 <= n && n <= NUM_CHANNELS as u32 && bytes_eq_str(tail, suffix) {
                Some((n - 1) as usize)
            } else {
                None
            }
        },
        None => None,
    }
}

/// The report after one trimmed `key`/`value` pair is taken in. Unknown keys
/// and unparsable values leave the report unchanged.
pub open spec fn spec_apply_kv(r: StatusReportView, k: Seq<u8>, v: Seq<u8>) -> StatusReportView {
    if k == "broadcasting".spec_bytes() {
        match spec_parse_onoff(v) {
            Some(b) => StatusReportView { broadcasting: Some(b), ..r },
            None => r,
        }
    } else if k == "watchdog_triggered".spec_bytes() {
        match spec_parse_onoff(v) {
            Some(b) => StatusReportView { watchdog_triggered: Some(b), ..r },
            None => r,
        }
    } else if k == "watchdog_warning".spec_bytes() {
        match spec_parse_onoff(v) {
            Some(b) => StatusReportView { watchdog_warning: Some(b), ..r },
            None => r,
        }
    } else if k == "source".spec_bytes() {
        StatusReportView { source: Some(spec_source_from_bytes(v)), ..r }
    } else if k == "temp".spec_bytes() {
        match spec_parse_temp_deci(v) {
            Some(t) => StatusReportView { temperature_deci: Some(t), ..r },
            None => r,
        }
    } else {
        match spec_channel_key_slot(k, "_enabled".spec_bytes()) {
            Some(slot) => match spec_parse_onoff(v) {
                Some(b) => StatusReportView {
                    channel_enabled: r.channel_enabled.update(slot, Some(b)),
                    ..r
                },
                None => r,
            },
            None => match spec_channel_key_slot(k, "_freq".spec_bytes()) {
                Some(slot) => match spec_parse_u32(v) {
                    Some(hz) => StatusReportView {
                        channel_freq: r.channel_freq.update(slot, Some(hz)),
                        ..r
                    },
                    None => r,
                },
                None => r,
            },
        }
    }
}

/// Apply one trimmed key/value pair to the report.
pub fn apply_kv(r: &mut StatusReport, k: &[u8], v: &[u8])
    requires
        spec_report_wf(old(r)@),
    ensures
        final(r)@ == spec_apply_kv(old(r)@, k@, v@),
        spec_report_wf(final(r)@),
{
    if bytes_eq_str(k, "broadcasting") {
        if let Some(b) = parse_onoff(v) {
            r.broadcasting = Some(b);
        }
    } else if bytes_eq_str(k, "watchdog_triggered") {
        if let Some(b) = parse_onoff(v) {
            r.watchdog_triggered = Some(b);
        }
    } else if bytes_eq_str(k, "watchdog_warning") {
        if let Some(b) = parse_onoff(v) {
            r.watchdog_warning = Some(b);
        }
    } else if bytes_eq_str(k, "source") {
        let m = source_from_bytes(v);
        r.source = Some(m);
    } else if bytes_eq_str(k, "temp") {
        if let Some(t) = parse_temp_deci(v) {
            r.temperature_deci = Some(t);
        }
    } else {
        match channel_key_slot(k, "_enabled") {
            Some(slot) => {
                if let Some(b) = parse_onoff(v) {
                    r.channel_enabled[slot] = Some(b);
                }
            },
            None => {
                match channel_key_slot(k, "_freq") {
                    Some(slot) => {
                        if let Some(hz) = parse_u32(v) {
                            r.channel_freq[slot] = Some(hz);
                        }
                    },
                    None => {},
                }
            },
        }
    }
}

/// Parse a raw source value from bytes, as `SourceMode::from_str` does.
fn source_from_bytes(v: &[u8]) -> (r: SourceMode)
    ensures
        r == spec_source_from_bytes(v@),
{
    let up = crate::codec::upper_bytes(v);
    if bytes_eq_str(up.as_slice(), "ADC") {
        SourceMode::Adc
    } else {
        SourceMode::Bram
    }
}

/// The report after one raw field is taken in: the field splits at its first
/// `=` or `:`, both sides are trimmed, and a field with no separator is
/// ignored.
pub open spec fn spec_apply_field(r: StatusReportView, f: Seq<u8>) -> StatusReportView {
    let ci = spec_find(f, ':' as u8, 0);
    let ei = spec_find(f, '=' as u8, 0);
    let i = if ci < ei {
        ci
    } else {
        ei
    };
    if i == f.len() {
        r
    } else {
        spec_apply_kv(r, spec_trim(f.take(i)), spec_trim(f.skip(i + 1)))
    }
}

/// Apply one raw comma-separated field to the report.
pub fn apply_field(r: &mut StatusReport, f: &[u8])
    requires
        spec_report_wf(old(r)@),
    ensures
        final(r)@ == spec_apply_field(old(r)@, f@),
        spec_report_wf(final(r)@),
{
    let ci = find_byte(f, ':' as u8, 0);
    let ei = find_byte(f, '=' as u8, 0);
    let i = if ci < ei {
        ci
    } else {
        ei
    };
    if i == f.len() {
        return ;
    }
    let rawk = vstd::slice::slice_subrange(f, 0, i);
    let rawv = vstd::slice::slice_subrange(f, i + 1, f.len());
    proof {
        assert(rawk@ =~= f@.take(i as int));
        assert(rawv@ =~= f@.skip(i + 1));
    }
    let k = trim_bytes(rawk);
    let v = trim_bytes(rawv);
    apply_kv(r, k.as_slice(), v.as_slice());
}

/// The report of a whole status line: fields split on commas, applied left
/// to right, starting from the empty report. `cur` carries the bytes of the
/// field being read.
pub open spec fn spec_parse_fields(s: Seq<u8>, cur: Seq<u8>, r: StatusReportView) -> StatusReportView
    decreases s.len(),
{
    if s.len() == 0 {
        spec_apply_field(r, cur)
    } else if s[0] == ',' as u8 {
        spec_parse_fields(s.drop_first(), Seq::empty(), spec_apply_field(r, cur))
    } else {
        spec_parse_fields(s.drop_first(), cur.push(s[0]), r)
    }
}

/// The report of a whole status line.
pub open spec fn spec_parse_status(s: Seq<u8>) -> StatusReportView {
    spec_parse_fields(s, Seq::empty(), spec_empty_report())
}

/// A comma-free tail closes the current field: parsing it takes in exactly
/// one more field, the bytes read so far followed by that tail.
pub proof fn lemma_parse_fields_no_comma(f: Seq<u8>, cur: Seq<u8>, r: StatusReportView)
    requires
        forall|i: int| 0 <= i < f.len() ==> f[i] != ',' as u8,
    ensures
        spec_parse_fields(f, cur, r) == spec_apply_field(r, cur + f),
    decreases f.len(),
{
    if f.len() == 0 {
        assert(cur + f =~= cur);
    } else {
        assert(f[0] != ',' as u8);
        assert(forall|i: int| 0 <= i < f.drop_first().len() ==> #[trigger] f.drop_first()[i] == f[
            i + 1]);
        lemma_parse_fields_no_comma(f.drop_first(), cur.push(f[0]), r);
        assert(cur.push(f[0]) + f.drop_first() =~= cur + f);
    }
}

/// Parsing splits at the first comma: a comma-free field followed by a comma
/// is taken into the report, and the rest of the line parses against that
/// report with a fresh field.
pub proof fn lemma_parse_fields_split(f: Seq<u8>, rest: Seq<u8>, cur: Seq<u8>, r: StatusReportView)
    requires
        forall|i: int| 0 <= i < f.len() ==> f[i] != ',' as u8,
    ensures
        spec_parse_fields(f + seq![',' as u8] + rest, cur, r) == spec_parse_fields(
            rest,
            Seq::<u8>::empty(),
            spec_apply_field(r, cur + f),
        ),
    decreases f.len(),
{
    let s = f + seq![',' as u8] + rest;
    if f.len() == 0 {
        assert(s[0] == ',' as u8);
        assert(s.drop_first() =~= rest);
        assert(cur + f =~= cur);
    } else {
        assert(s[0] == f[0]);
        assert(f[0] != ',' as u8);
        assert(s.drop_first() =~= f.drop_first() + seq![',' as u8] + rest);
        assert(forall|i: int| 0 <= i < f.drop_first().len() ==> #[trigger] f.drop_first()[i] == f[
            i + 1]);
        lemma_parse_fields_split(f.drop_first(), rest, cur.push(f[0]), r);
        assert(cur.push(f[0]) + f.drop_first() =~= cur + f);
    }
}

/// An empty report with one slot per channel.
pub fn empty_report() -> (r: StatusReport)
    ensures
        r@ == spec_empty_report(),
        spec_report_wf(r@),
{
    let mut en: Vec<Option<bool>> = Vec::new();
    let mut fr: Vec<Option<u32>> = Vec::new();
    let mut i: usize = 0;
    while i < NUM_CHANNELS
        invariant
            i <= NUM_CHANNELS,
            en@ =~= Seq::new(i as nat, |j: int| None::<bool>),
            fr@ =~= Seq::new(i as nat, |j: int| None::<u32>),
        decreases NUM_CHANNELS - i,
    {
        en.push(None);
        fr.push(None);
        i = i + 1;
    }
    let r = StatusReport {
        broadcasting: None,
        watchdog_triggered: None,
        watchdog_warning: None,
        source: None,
        temperature_deci: None,
        channel_enabled: en,
        channel_freq: fr,
    };
    proof {
        assert(r@.channel_enabled =~= spec_empty_report().channel_enabled);
        assert(r@.channel_freq =~= spec_empty_report().channel_freq);
    }
    r
}

/// Parse one status line, newline included or not, into a typed report.
pub fn parse_status(line: &[u8]) -> (r: StatusReport)
    ensures
        r@ == spec_parse_status(line@),
        spec_report_wf(r@),
{
    let mut rep = empty_report();
    let mut cur: Vec<u8> = Vec::new();
    let mut i: usize = 0;
    proof {
        assert(line@.skip(0) =~= line@);
        assert(cur@ =~= Seq::<u8>::empty());
    }
    while i < line.len()
        invariant
            i <= line@.len(),
            spec_report_wf(rep@),
            spec_parse_fields(line@.skip(i as int), cur@, rep@) == spec_parse_status(line@),
        decreases line.len() - i,
    {
        let c = line[i];
        proof {
            let rest = line@.skip(i as int);
            assert(rest[0] == line@[i as int]);
            assert(rest.drop_first() =~= line@.skip(i + 1));
        }
        if c == ',' as u8 {
            apply_field(&mut rep, cur.as_slice());
            cur = Vec::new();
            proof {
                assert(cur@ =~= Seq::<u8>::empty());
            }
        } else {
            cur.push(c);
        }
        i = i + 1;
    }
    proof {
        assert(line@.skip(line@.len() as int) =~= Seq::<u8>::empty());
    }
    apply_field(&mut rep, cur.as_slice());
    rep
}

} // verus!
