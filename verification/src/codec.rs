//! Byte-level protocol codec: ASCII helpers, decimal numbers, outbound
//! command encoding and inbound status-line parsing.
//!
//! The wire protocol is newline-terminated ASCII text. Everything here works
//! on plain bytes so that the exact wire bytes are what the contracts speak
//! of; the surrounding process only moves the bytes on and off the socket.

use vstd::prelude::*;
use vstd::string::StringSliceAdditionalSpecFns;

use crate::state_machine::SourceMode;

verus! {

/// ASCII uppercase of one byte: lowercase letters are shifted, everything
/// else is left alone.
pub open spec fn spec_upper_byte(b: u8) -> u8 {
    if 'a' as u8 <= b <= 'z' as u8 {
        (b - 32) as u8
    } else {
        b
    }
}

/// ASCII uppercase of a byte sequence.
pub open spec fn spec_upper_bytes(b: Seq<u8>) -> Seq<u8> {
    b.map_values(|x: u8| spec_upper_byte(x))
}

/// Uppercase a byte string (ASCII only; other bytes pass through unchanged).
pub fn upper_bytes(b: &[u8]) -> (r: Vec<u8>)
    ensures
        r@ == spec_upper_bytes(b@),
{
    let mut out: Vec<u8> = Vec::new();
    let mut i: usize = 0;
    while i < b.len()
        invariant
            i <= b.len(),
            out@ =~= spec_upper_bytes(b@.take(i as int)),
        decreases b.len() - i,
    {
        let c = b[i];
        if 'a' as u8 <= c && c <= 'z' as u8 {
            out.push(c - 32);
        } else {
            out.push(c);
        }
        proof {
            assert(b@.take(i + 1 as int) =~= b@.take(i as int).push(b@[i as int]));
            assert(spec_upper_bytes(b@.take(i + 1)) =~= spec_upper_bytes(b@.take(i as int)).push(
                spec_upper_byte(b@[i as int]),
            ));
        }
        i = i + 1;
    }
    proof {
        assert(b@.take(b@.len() as int) =~= b@);
    }
    out
}

/// Byte-for-byte equality of two byte strings.
pub fn bytes_eq(a: &[u8], b: &[u8]) -> (r: bool)
    ensures
        r == (a@ == b@),
{
    if a.len() != b.len() {
        proof {
            assert(a@ != b@);
        }
        return false;
    }
    let mut i: usize = 0;
    while i < a.len()
        invariant
            i <= a.len(),
            a@.len() == b@.len(),
            forall|j: int| 0 <= j < i ==> a@[j] == b@[j],
        decreases a.len() - i,
    {
        if a[i] != b[i] {
            proof {
                assert(a@ != b@);
            }
            return false;
        }
        i = i + 1;
    }
    proof {
        assert(a@ =~= b@);
    }
    true
}

/// Whether a byte string holds exactly the UTF-8 bytes of the given string.
pub fn bytes_eq_str(a: &[u8], s: &str) -> (r: bool)
    ensures
        r == (a@ == s.spec_bytes()),
{
    bytes_eq(a, s.as_bytes())
}

/// Whether a byte is an ASCII decimal digit.
pub open spec fn spec_is_digit(b: u8) -> bool {
    '0' as u8 <= b <= '9' as u8
}

/// Whether every byte of a sequence is an ASCII decimal digit.
pub open spec fn spec_all_digits(s: Seq<u8>) -> bool {
    forall|i: int| 0 <= i < s.len() ==> spec_is_digit(#[trigger] s[i])
}

/// Numeric value of a digit string, most significant digit first.
pub open spec fn spec_dec_value(s: Seq<u8>) -> int
    decreases s.len(),
{
    if s.len() == 0 {
        0
    } else {
        spec_dec_value(s.drop_last()) * 10 + (s.last() - '0' as u8)
    }
}

/// The value of a digit string is never negative.
pub proof fn lemma_dec_value_nonneg(s: Seq<u8>)
    requires
        spec_all_digits(s),
    ensures
        spec_dec_value(s) >= 0,
    decreases s.len(),
{
    if s.len() > 0 {
        assert(spec_all_digits(s.drop_last())) by {
            assert(forall|i: int|
                0 <= i < s.len() - 1 ==> #[trigger] s.drop_last()[i] == s[i]);
        }
        lemma_dec_value_nonneg(s.drop_last());
    }
}

/// The value of a digit string never shrinks as more digits are appended.
pub proof fn lemma_dec_value_prefix_le(s: Seq<u8>, i: int)
    requires
        0 <= i <= s.len(),
        spec_all_digits(s),
    ensures
        spec_dec_value(s.take(i)) <= spec_dec_value(s),
    decreases s.len() - i,
{
    if i < s.len() {
        assert(s.take(i + 1).drop_last() =~= s.take(i));
        assert(s.take(i + 1).last() == s[i]);
        assert(spec_all_digits(s.take(i))) by {
            assert(forall|j: int| 0 <= j < i ==> #[trigger] s.take(i)[j] == s[j]);
        }
        lemma_dec_value_nonneg(s.take(i));
        assert(spec_dec_value(s.take(i)) <= spec_dec_value(s.take(i + 1)));
        lemma_dec_value_prefix_le(s, i + 1);
    } else {
        assert(s.take(i) =~= s);
    }
}

/// What parsing an unsigned decimal returns: the value, where the string is
/// a nonempty run of digits whose value fits in 32 bits, and nothing
/// otherwise.
pub open spec fn spec_parse_u32(s: Seq<u8>) -> Option<u32> {
    if s.len() == 0 || !spec_all_digits(s) || spec_dec_value(s) > u32::MAX {
        None
    } else {
        Some(spec_dec_value(s) as u32)
    }
}

/// Parse an unsigned decimal number from its ASCII digits.
pub fn parse_u32(s: &[u8]) -> (r: Option<u32>)
    ensures
        r == spec_parse_u32(s@),
{
    if s.len() == 0 {
        return None;
    }
    let mut acc: u32 = 0;
    let mut i: usize = 0;
    while i < s.len()
        invariant
            0 < s@.len(),
            i <= s.len(),
            spec_all_digits(s@.take(i as int)),
            acc == spec_dec_value(s@.take(i as int)),
        decreases s.len() - i,
    {
        let c = s[i];
        if c < '0' as u8 || c > '9' as u8 {
            proof {
                assert(!spec_is_digit(s@[i as int]));
            }
            return None;
        }
        let wide: u64 = acc as u64 * 10 + (c - '0' as u8) as u64;
        proof {
            assert(s@.take(i + 1).drop_last() =~= s@.take(i as int));
            assert(s@.take(i + 1).last() == s@[i as int]);
        }
        if wide > u32::MAX as u64 {
            proof {
                assert(spec_dec_value(s@.take(i + 1)) == wide);
                if spec_all_digits(s@) {
                    lemma_dec_value_prefix_le(s@, i + 1);
                    assert(spec_dec_value(s@) > u32::MAX);
                }
            }
            return None;
        }
        acc = wide as u32;
        proof {
            assert(spec_all_digits(s@.take(i + 1))) by {
                assert(forall|j: int|
                    0 <= j < i + 1 ==> #[trigger] s@.take(i + 1)[j] == s@.take(i as int).push(
                        s@[i as int],
                    )[j]);
            }
        }
        i = i + 1;
    }
    proof {
        assert(s@.take(s@.len() as int) =~= s@);
    }
    Some(acc)
}

/// Decimal digits of a number, most significant first, no leading zeros
/// (a lone zero for zero).
pub open spec fn spec_u32_dec(n: nat) -> Seq<u8>
    decreases n,
{
    if n < 10 {
        seq![(n + '0' as u8) as u8]
    } else {
        spec_u32_dec(n / 10).push((n % 10 + '0' as u8) as u8)
    }
}

/// Decimal rendering consists of digits and carries the rendered value.
pub proof fn lemma_u32_dec_digits(n: nat)
    ensures
        spec_u32_dec(n).len() >= 1,
        spec_all_digits(spec_u32_dec(n)),
        spec_dec_value(spec_u32_dec(n)) == n,
    decreases n,
{
    if n < 10 {
        let s = spec_u32_dec(n);
        assert(s =~= seq![(n + '0' as u8) as u8]);
        assert(s.len() == 1);
        assert(s.last() == (n + '0' as u8) as u8);
        assert(s.drop_last() =~= Seq::<u8>::empty());
        assert(spec_dec_value(s.drop_last()) == 0);
        assert(spec_dec_value(s) == 0 * 10 + ((n + '0' as u8) as u8 - '0' as u8));
    } else {
        lemma_u32_dec_digits(n / 10);
        let s = spec_u32_dec(n);
        assert(s.drop_last() =~= spec_u32_dec(n / 10));
        assert(s.last() == (n % 10 + '0' as u8) as u8);
        assert(spec_all_digits(s)) by {
            assert(forall|i: int|
                0 <= i < s.len() - 1 ==> #[trigger] s[i] == spec_u32_dec(n / 10)[i]);
        }
        assert(spec_dec_value(s) == spec_dec_value(spec_u32_dec(n / 10)) * 10 + (n % 10));
        assert(n / 10 * 10 + n % 10 == n);
    }
}

/// Parsing inverts rendering: the digits of `n` parse back to `n`.
pub proof fn lemma_dec_round_trip(n: u32)
    ensures
        spec_parse_u32(spec_u32_dec(n as nat)) == Some(n),
{
    lemma_u32_dec_digits(n as nat);
}

/// Render a number as ASCII decimal digits.
pub fn u32_to_dec(n: u32) -> (r: Vec<u8>)
    ensures
        r@ == spec_u32_dec(n as nat),
    decreases n,
{
    if n < 10 {
        let mut v: Vec<u8> = Vec::new();
        v.push(n as u8 + '0' as u8);
        proof {
            assert(v@ =~= spec_u32_dec(n as nat));
        }
        v
    } else {
        let mut v = u32_to_dec(n / 10);
        v.push((n % 10) as u8 + '0' as u8);
        v
    }
}

/// Whether a byte is ASCII whitespace as trimmed at field boundaries.
pub open spec fn spec_is_space(b: u8) -> bool {
    b == ' ' as u8 || b == '\t' as u8 || b == '\r' as u8 || b == '\n' as u8
}

/// A sequence with leading whitespace removed.
pub open spec fn spec_trim_front(s: Seq<u8>) -> Seq<u8>
    decreases s.len(),
{
    if s.len() > 0 && spec_is_space(s.first()) {
        spec_trim_front(s.drop_first())
    } else {
        s
    }
}

/// A sequence with trailing whitespace removed.
pub open spec fn spec_trim_back(s: Seq<u8>) -> Seq<u8>
    decreases s.len(),
{
    if s.len() > 0 && spec_is_space(s.last()) {
        spec_trim_back(s.drop_last())
    } else {
        s
    }
}

/// A sequence with whitespace removed from both ends.
pub open spec fn spec_trim(s: Seq<u8>) -> Seq<u8> {
    spec_trim_back(spec_trim_front(s))
}

/// Whether a byte is ASCII whitespace as trimmed at field boundaries.
pub fn is_space_byte(c: u8) -> (r: bool)
    ensures
        r == spec_is_space(c),
{
    c == ' ' as u8 || c == '\t' as u8 || c == '\r' as u8 || c == '\n' as u8
}

/// Trim ASCII whitespace from both ends of a byte string.
pub fn trim_bytes(s: &[u8]) -> (r: Vec<u8>)
    ensures
        r@ == spec_trim(s@),
{
    proof {
        assert(s@.skip(0) =~= s@);
    }
    let mut start: usize = 0;
    while start < s.len() && is_space_byte(s[start])
        invariant
            start <= s.len(),
            spec_trim_front(s@) == spec_trim_front(s@.skip(start as int)),
        decreases s.len() - start,
    {
        proof {
            assert(s@.skip(start as int).drop_first() =~= s@.skip(start + 1));
        }
        start = start + 1;
    }
    proof {
        if start < s.len() {
            assert(!spec_is_space(s@.skip(start as int).first()));
        }
        assert(spec_trim_front(s@.skip(start as int)) == s@.skip(start as int));
    }
    proof {
        assert(s@.skip(start as int) =~= s@.subrange(start as int, s@.len() as int));
    }
    let mut end: usize = s.len();
    while end > start && is_space_byte(s[end - 1])
        invariant
            start <= end <= s.len(),
            spec_trim_front(s@) == s@.skip(start as int),
            spec_trim_back(s@.skip(start as int)) == spec_trim_back(
                s@.subrange(start as int, end as int),
            ),
        decreases end,
    {
        proof {
            assert(s@.subrange(start as int, end as int).drop_last() =~= s@.subrange(
                start as int,
                end - 1 as int,
            ));
        }
        end = end - 1;
    }
    proof {
        let mid = s@.subrange(start as int, end as int);
        if end > start {
            assert(!spec_is_space(mid.last()));
        }
        assert(spec_trim_back(mid) == mid);
    }
    let mut out: Vec<u8> = Vec::new();
    let mut i: usize = start;
    while i < end
        invariant
            start <= i <= end <= s.len(),
            out@ =~= s@.subrange(start as int, i as int),
        decreases end - i,
    {
        out.push(s[i]);
        proof {
            assert(s@.subrange(start as int, i + 1 as int) =~= s@.subrange(
                start as int,
                i as int,
            ).push(s@[i as int]));
        }
        i = i + 1;
    }
    out
}

/// Index of the first occurrence of a byte at or after `from`, or the length
/// of the sequence when the byte does not occur there.
pub open spec fn spec_find(s: Seq<u8>, b: u8, from: int) -> int
    decreases s.len() - from,
{
    if from >= s.len() {
        s.len() as int
    } else if s[from] == b {
        from
    } else {
        spec_find(s, b, from + 1)
    }
}

/// Where `spec_find` lands: at or after `from`, at most the length, on the
/// byte when inside the sequence, and past every non-occurrence in between.
pub proof fn lemma_find_props(s: Seq<u8>, b: u8, from: int)
    requires
        0 <= from <= s.len(),
    ensures
        from <= spec_find(s, b, from) <= s.len(),
        spec_find(s, b, from) < s.len() ==> s[spec_find(s, b, from)] == b,
        forall|j: int| from <= j < spec_find(s, b, from) ==> s[j] != b,
    decreases s.len() - from,
{
    if from < s.len() && s[from] != b {
        lemma_find_props(s, b, from + 1);
    }
}

/// Find the first occurrence of a byte, starting at `from`.
pub fn find_byte(s: &[u8], b: u8, from: usize) -> (r: usize)
    requires
        from <= s@.len(),
    ensures
        r == spec_find(s@, b, from as int),
        from <= r <= s@.len(),
    decreases s@.len() - from,
{
    proof {
        lemma_find_props(s@, b, from as int);
    }
    let mut i: usize = from;
    while i < s.len()
        invariant
            from <= i <= s@.len(),
            spec_find(s@, b, from as int) == spec_find(s@, b, i as int),
        decreases s.len() - i,
    {
        if s[i] == b {
            return i;
        }
        i = i + 1;
    }
    i
}

/// A command of the line protocol, as sent to the device.
#[derive(Clone, Copy, Debug, PartialEq, Eq, Structural)]
pub enum Command {
    /// Identity query.
    Identity,
    /// Bulk status query.
    StatusQuery,
    /// Watchdog heartbeat; no response is expected.
    WatchdogReset,
    /// Master RF output on.
    OutputOn,
    /// Master RF output off.
    OutputOff,
    /// Enable or disable one channel's output.
    ChannelOutput { channel: u8, on: bool },
    /// Set one channel's frequency in hertz.
    ChannelFrequency { channel: u8, hz: u32 },
    /// Select the audio source.
    SetSource { mode: SourceMode },
}

/// The exact wire bytes of a command, newline excluded.
pub open spec fn spec_encode_command(c: Command) -> Seq<u8> {
    match c {
        Command::Identity => "*IDN?".spec_bytes(),
        Command::StatusQuery => "STATUS?".spec_bytes(),
        Command::WatchdogReset => "WATCHDOG:RESET".spec_bytes(),
        Command::OutputOn => "OUTPUT:STATE ON".spec_bytes(),
        Command::OutputOff => "OUTPUT:STATE OFF".spec_bytes(),
        Command::ChannelOutput { channel, on } => "CH".spec_bytes() + spec_u32_dec(channel as nat)
            + ":".spec_bytes() + (if on {
            "OUTPUT ON".spec_bytes()
        } else {
            "OUTPUT OFF".spec_bytes()
        }),
        Command::ChannelFrequency { channel, hz } => "FREQ:CH".spec_bytes() + spec_u32_dec(
            channel as nat,
        ) + " ".spec_bytes() + spec_u32_dec(hz as nat),
        Command::SetSource { mode } => if mode is Adc {
            "SOURCE:MODE ADC".spec_bytes()
        } else {
            "SOURCE:MODE BRAM".spec_bytes()
        },
    }
}

/// Append the UTF-8 bytes of a string to a byte vector.
pub fn push_str_bytes(v: &mut Vec<u8>, s: &str)
    ensures
        final(v)@ == old(v)@ + s.spec_bytes(),
{
    let b = s.as_bytes();
    let mut i: usize = 0;
    while i < b.len()
        invariant
            i <= b@.len(),
            v@ =~= old(v)@ + b@.take(i as int),
        decreases b.len() - i,
    {
        v.push(b[i]);
        proof {
            assert(b@.take(i + 1) =~= b@.take(i as int).push(b@[i as int]));
        }
        i = i + 1;
    }
    proof {
        assert(b@.take(b@.len() as int) =~= b@);
    }
}

/// Append all bytes of another vector to a byte vector.
pub fn push_all(v: &mut Vec<u8>, b: &Vec<u8>)
    ensures
        final(v)@ == old(v)@ + b@,
{
    let mut i: usize = 0;
    while i < b.len()
        invariant
            i <= b@.len(),
            v@ =~= old(v)@ + b@.take(i as int),
        decreases b.len() - i,
    {
        v.push(b[i]);
        proof {
            assert(b@.take(i + 1) =~= b@.take(i as int).push(b@[i as int]));
        }
        i = i + 1;
    }
    proof {
        assert(b@.take(b@.len() as int) =~= b@);
    }
}

/// Encode a command to its exact wire bytes, newline excluded.
pub fn encode_command(c: &Command) -> (r: Vec<u8>)
    ensures
        r@ == spec_encode_command(*c),
{
    let mut out: Vec<u8> = Vec::new();
    match c {
        Command::Identity => {
            push_str_bytes(&mut out, "*IDN?");
        },
        Command::StatusQuery => {
            push_str_bytes(&mut out, "STATUS?");
        },
        Command::WatchdogReset => {
            push_str_bytes(&mut out, "WATCHDOG:RESET");
        },
        Command::OutputOn => {
            push_str_bytes(&mut out, "OUTPUT:STATE ON");
        },
        Command::OutputOff => {
            push_str_bytes(&mut out, "OUTPUT:STATE OFF");
        },
        Command::ChannelOutput { channel, on } => {
            push_str_bytes(&mut out, "CH");
            let d = u32_to_dec(*channel as u32);
            push_all(&mut out, &d);
            push_str_bytes(&mut out, ":");
            if *on {
                push_str_bytes(&mut out, "OUTPUT ON");
            } else {
                push_str_bytes(&mut out, "OUTPUT OFF");
            }
        },
        Command::ChannelFrequency { channel, hz } => {
            push_str_bytes(&mut out, "FREQ:CH");
            let d = u32_to_dec(*channel as u32);
            push_all(&mut out, &d);
            push_str_bytes(&mut out, " ");
            let h = u32_to_dec(*hz);
            push_all(&mut out, &h);
        },
        Command::SetSource { mode } => {
            match mode {
                SourceMode::Adc => push_str_bytes(&mut out, "SOURCE:MODE ADC"),
                SourceMode::Bram => push_str_bytes(&mut out, "SOURCE:MODE BRAM"),
            }
        },
    }
    proof {
        assert(out@ =~= spec_encode_command(*c));
    }
    out
}

/// The exact wire bytes of a framed command: its encoding plus the
/// terminating newline.
pub open spec fn spec_frame_command(c: Command) -> Seq<u8> {
    spec_encode_command(c).push('\n' as u8)
}

/// Encode a command and terminate it with a newline, ready for the wire.
pub fn frame_command(c: &Command) -> (r: Vec<u8>)
    ensures
        r@ == spec_frame_command(*c),
{
    let mut out = encode_command(c);
    out.push('\n' as u8);
    out
}

/// Whether a sequence begins with the given prefix.
pub open spec fn spec_starts_with(s: Seq<u8>, p: Seq<u8>) -> bool {
    p.len() <= s.len() && s.take(p.len() as int) == p
}

/// Whether a byte string begins with the UTF-8 bytes of the given string.
pub fn starts_with_str(s: &[u8], p: &str) -> (r: bool)
    ensures
        r == spec_starts_with(s@, p.spec_bytes()),
{
    let pb = p.as_bytes();
    if pb.len() > s.len() {
        return false;
    }
    let head = vstd::slice::slice_subrange(s, 0, pb.len());
    bytes_eq(head, pb)
}

/// What decoding the tail of a channel-output command returns: digits, a
/// colon, then the literal output suffix.
pub open spec fn spec_decode_channel_output(rest: Seq<u8>) -> Option<Command> {
    let i = spec_find(rest, ':' as u8, 0);
    if i == rest.len() {
        None
    } else {
        match spec_parse_u32(rest.take(i)) {
            Some(ch) => if ch <= u8::MAX {
                let tail = rest.skip(i + 1);
                if tail == "OUTPUT ON".spec_bytes() {
                    Some(Command::ChannelOutput { channel: ch as u8, on: true })
                } else if tail == "OUTPUT OFF".spec_bytes() {
                    Some(Command::ChannelOutput { channel: ch as u8, on: false })
                } else {
                    None
                }
            } else {
                None
            },
            None => None,
        }
    }
}

/// What decoding the tail of a frequency command returns: channel digits, a
/// space, then the frequency digits.
pub open spec fn spec_decode_channel_frequency(rest: Seq<u8>) -> Option<Command> {
    let i = spec_find(rest, ' ' as u8, 0);
    if i == rest.len() {
        None
    } else {
        match spec_parse_u32(rest.take(i)) {
            Some(ch) => if ch <= u8::MAX {
                match spec_parse_u32(rest.skip(i + 1)) {
                    Some(hz) => Some(Command::ChannelFrequency { channel: ch as u8, hz }),
                    None => None,
                }
            } else {
                None
            },
            None => None,
        }
    }
}

/// The command that a received line names, newline excluded, or nothing for
/// a line outside the protocol.
pub open spec fn spec_decode_command(s: Seq<u8>) -> Option<Command> {
    if s == "*IDN?".spec_bytes() {
        Some(Command::Identity)
    } else if s == "STATUS?".spec_bytes() {
        Some(Command::StatusQuery)
    } else if s == "WATCHDOG:RESET".spec_bytes() {
        Some(Command::WatchdogReset)
    } else if s == "OUTPUT:STATE ON".spec_bytes() {
        Some(Command::OutputOn)
    } else if s == "OUTPUT:STATE OFF".spec_bytes() {
        Some(Command::OutputOff)
    } else if s == "SOURCE:MODE ADC".spec_bytes() {
        Some(Command::SetSource { mode: SourceMode::Adc })
    } else if s == "SOURCE:MODE BRAM".spec_bytes() {
        Some(Command::SetSource { mode: SourceMode::Bram })
    } else if spec_starts_with(s, "FREQ:CH".spec_bytes()) {
        spec_decode_channel_frequency(s.skip("FREQ:CH".spec_bytes().len() as int))
    } else if spec_starts_with(s, "CH".spec_bytes()) {
        spec_decode_channel_output(s.skip("CH".spec_bytes().len() as int))
    } else {
        None
    }
}

/// Decode a received line, newline excluded, into the command it names.
pub fn decode_command(s: &[u8]) -> (r: Option<Command>)
    ensures
        r == spec_decode_command(s@),
{
    if bytes_eq_str(s, "*IDN?") {
        Some(Command::Identity)
    } else if bytes_eq_str(s, "STATUS?") {
        Some(Command::StatusQuery)
    } else if bytes_eq_str(s, "WATCHDOG:RESET") {
        Some(Command::WatchdogReset)
    } else if bytes_eq_str(s, "OUTPUT:STATE ON") {
        Some(Command::OutputOn)
    } else if bytes_eq_str(s, "OUTPUT:STATE OFF") {
        Some(Command::OutputOff)
    } else if bytes_eq_str(s, "SOURCE:MODE ADC") {
        Some(Command::SetSource { mode: SourceMode::Adc })
    } else if bytes_eq_str(s, "SOURCE:MODE BRAM") {
        Some(Command::SetSource { mode: SourceMode::Bram })
    } else if starts_with_str(s, "FREQ:CH") {
        let plen = "FREQ:CH".as_bytes().len();
        let rest = vstd::slice::slice_subrange(s, plen, s.len());
        proof {
            assert(rest@ =~= s@.skip("FREQ:CH".spec_bytes().len() as int));
        }
        decode_channel_frequency(rest)
    } else if starts_with_str(s, "CH") {
        let plen = "CH".as_bytes().len();
        let rest = vstd::slice::slice_subrange(s, plen, s.len());
        proof {
            assert(rest@ =~= s@.skip("CH".spec_bytes().len() as int));
        }
        decode_channel_output(rest)
    } else {
        None
    }
}

/// Where a byte string is a run of non-separator bytes followed by the
/// separator, the first find lands exactly at the boundary.
pub proof fn lemma_find_boundary(a: Seq<u8>, b: Seq<u8>, sep: u8)
    requires
        forall|i: int| 0 <= i < a.len() ==> a[i] != sep,
        b.len() > 0,
        b[0] == sep,
    ensures
        spec_find(a + b, sep, 0) == a.len(),
{
    let s = a + b;
    lemma_find_props(s, sep, 0);
    let f = spec_find(s, sep, 0);
    assert(s[a.len() as int] == sep);
    if f < a.len() {
        assert(s[f] == a[f]);
    }
}

/// The UTF-8 bytes of the protocol's fixed words: their lengths, their
/// distinguishing first bytes, and the two one-byte separators.
proof fn lemma_protocol_literal_bytes()
    ensures
        "*IDN?".spec_bytes().len() == 5,
        "STATUS?".spec_bytes().len() == 7,
        "WATCHDOG:RESET".spec_bytes().len() == 14,
        "OUTPUT:STATE ON".spec_bytes().len() == 15,
        "OUTPUT:STATE ON".spec_bytes()[0] == 'O' as u8,
        "OUTPUT:STATE OFF".spec_bytes().len() == 16,
        "OUTPUT:STATE OFF".spec_bytes()[0] == 'O' as u8,
        "SOURCE:MODE ADC".spec_bytes().len() == 15,
        "SOURCE:MODE ADC".spec_bytes()[0] == 'S' as u8,
        "SOURCE:MODE BRAM".spec_bytes().len() == 16,
        "SOURCE:MODE BRAM".spec_bytes()[0] == 'S' as u8,
        "FREQ:CH".spec_bytes().len() == 7,
        "FREQ:CH".spec_bytes()[0] == 'F' as u8,
        "CH".spec_bytes().len() == 2,
        "CH".spec_bytes()[0] == 'C' as u8,
        "*IDN?".spec_bytes()[0] == '*' as u8,
        "STATUS?".spec_bytes()[0] == 'S' as u8,
        "WATCHDOG:RESET".spec_bytes()[0] == 'W' as u8,
        ":".spec_bytes() =~= seq![':' as u8],
        " ".spec_bytes() =~= seq![' ' as u8],
        "OUTPUT ON".spec_bytes().len() == 9,
        "OUTPUT OFF".spec_bytes().len() == 10,
{
    broadcast use vstd::string::is_ascii_spec_bytes;

    reveal_strlit("*IDN?");
    reveal_strlit("STATUS?");
    reveal_strlit("WATCHDOG:RESET");
    reveal_strlit("OUTPUT:STATE ON");
    reveal_strlit("OUTPUT:STATE OFF");
    reveal_strlit("SOURCE:MODE ADC");
    reveal_strlit("SOURCE:MODE BRAM");
    reveal_strlit("FREQ:CH");
    reveal_strlit("CH");
    reveal_strlit(":");
    reveal_strlit(" ");
    reveal_strlit("OUTPUT ON");
    reveal_strlit("OUTPUT OFF");
    assert(vstd::string::is_ascii("*IDN?"));
    assert(vstd::string::is_ascii("STATUS?"));
    assert(vstd::string::is_ascii("WATCHDOG:RESET"));
    assert(vstd::string::is_ascii("OUTPUT:STATE ON"));
    assert(vstd::string::is_ascii("OUTPUT:STATE OFF"));
    assert(vstd::string::is_ascii("SOURCE:MODE ADC"));
    assert(vstd::string::is_ascii("SOURCE:MODE BRAM"));
    assert(vstd::string::is_ascii("FREQ:CH"));
    assert(vstd::string::is_ascii("CH"));
    assert(vstd::string::is_ascii(":"));
    assert(vstd::string::is_ascii(" "));
    assert(vstd::string::is_ascii("OUTPUT ON"));
    assert(vstd::string::is_ascii("OUTPUT OFF"));
    assert(":".spec_bytes() =~= seq![':' as u8]);
    assert(" ".spec_bytes() =~= seq![' ' as u8]);
}

/// Decoding inverts encoding: every command's wire bytes decode back to the
/// command itself.
pub proof fn lemma_command_round_trip(c: Command)
    ensures
        spec_decode_command(spec_encode_command(c)) == Some(c),
{
    lemma_protocol_literal_bytes();
    let s = spec_encode_command(c);
    match c {
        Command::Identity => {},
        Command::StatusQuery => {},
        Command::WatchdogReset => {},
        Command::OutputOn => {},
        Command::OutputOff => {},
        Command::SetSource { mode } => {},
        Command::ChannelFrequency { channel, hz } => {
            let p = "FREQ:CH".spec_bytes();
            let a = spec_u32_dec(channel as nat);
            let sp = " ".spec_bytes();
            let h = spec_u32_dec(hz as nat);
            lemma_u32_dec_digits(channel as nat);
            lemma_u32_dec_digits(hz as nat);
            lemma_dec_round_trip(channel as u32);
            lemma_dec_round_trip(hz);
            assert(s == p + a + sp + h);
            assert(s[0] == 'F' as u8);
            assert(s != "*IDN?".spec_bytes());
            assert(s != "STATUS?".spec_bytes());
            assert(s != "WATCHDOG:RESET".spec_bytes());
            assert(s != "OUTPUT:STATE ON".spec_bytes());
            assert(s != "OUTPUT:STATE OFF".spec_bytes());
            assert(s != "SOURCE:MODE ADC".spec_bytes());
            assert(s != "SOURCE:MODE BRAM".spec_bytes());
            assert(spec_starts_with(s, p)) by {
                assert(s.take(p.len() as int) =~= p);
            }
            let rest = s.skip(p.len() as int);
            assert(rest =~= a + (sp + h));
            assert((sp + h)[0] == ' ' as u8);
            assert(forall|i: int| 0 <= i < a.len() ==> a[i] != ' ' as u8) by {
                assert(forall|i: int|
                    0 <= i < a.len() ==> spec_is_digit(#[trigger] a[i]));
            }
            lemma_find_boundary(a, sp + h, ' ' as u8);
            assert(spec_find(rest, ' ' as u8, 0) == a.len());
            assert(rest.take(a.len() as int) =~= a);
            assert(rest.skip(a.len() as int + 1) =~= h);
            assert(spec_decode_channel_frequency(rest) == Some(c));
        },
        Command::ChannelOutput { channel, on } => {
            let p = "CH".spec_bytes();
            let a = spec_u32_dec(channel as nat);
            let colon = ":".spec_bytes();
            let word = if on {
                "OUTPUT ON".spec_bytes()
            } else {
                "OUTPUT OFF".spec_bytes()
            };
            lemma_u32_dec_digits(channel as nat);
            lemma_dec_round_trip(channel as u32);
            assert(s == p + a + colon + word);
            assert(s[0] == 'C' as u8);
            assert(s != "*IDN?".spec_bytes());
            assert(s != "STATUS?".spec_bytes());
            assert(s != "WATCHDOG:RESET".spec_bytes());
            assert(s != "OUTPUT:STATE ON".spec_bytes());
            assert(s != "OUTPUT:STATE OFF".spec_bytes());
            assert(s != "SOURCE:MODE ADC".spec_bytes());
            assert(s != "SOURCE:MODE BRAM".spec_bytes());
            assert(!spec_starts_with(s, "FREQ:CH".spec_bytes())) by {
                if spec_starts_with(s, "FREQ:CH".spec_bytes()) {
                    assert(s.take("FREQ:CH".spec_bytes().len() as int)[0] == s[0]);
                }
            }
            assert(spec_starts_with(s, p)) by {
                assert(s.take(p.len() as int) =~= p);
            }
            let rest = s.skip(p.len() as int);
            assert(rest =~= a + (colon + word));
            assert((colon + word)[0] == ':' as u8);
            assert(forall|i: int| 0 <= i < a.len() ==> a[i] != ':' as u8) by {
                assert(forall|i: int|
                    0 <= i < a.len() ==> spec_is_digit(#[trigger] a[i]));
            }
            lemma_find_boundary(a, colon + word, ':' as u8);
            assert(spec_find(rest, ':' as u8, 0) == a.len());
            assert(rest.take(a.len() as int) =~= a);
            assert(rest.skip(a.len() as int + 1) =~= word);
            if on {
                assert(rest.skip(a.len() as int + 1) == "OUTPUT ON".spec_bytes());
            } else {
                assert(rest.skip(a.len() as int + 1) != "OUTPUT ON".spec_bytes());
                assert(rest.skip(a.len() as int + 1) == "OUTPUT OFF".spec_bytes());
            }
            assert(spec_decode_channel_output(rest) == Some(c));
        },
    }
}

/// Decode the tail of a channel-output command (after the channel prefix).
fn decode_channel_output(rest: &[u8]) -> (r: Option<Command>)
    ensures
        r == spec_decode_channel_output(rest@),
{
    let i = find_byte(rest, ':' as u8, 0);
    if i == rest.len() {
        return None;
    }
    let digits = vstd::slice::slice_subrange(rest, 0, i);
    proof {
        assert(digits@ =~= rest@.take(i as int));
    }
    match parse_u32(digits) {
        Some(ch) => {
            if ch <= u8::MAX as u32 {
                let tail = vstd::slice::slice_subrange(rest, i + 1, rest.len());
                proof {
                    assert(tail@ =~= rest@.skip(i + 1));
                }
                if bytes_eq_str(tail, "OUTPUT ON") {
                    Some(Command::ChannelOutput { channel: ch as u8, on: true })
                } else if bytes_eq_str(tail, "OUTPUT OFF") {
                    Some(Command::ChannelOutput { channel: ch as u8, on: false })
                } else {
                    None
                }
            } else {
                None
            }
        },
        None => None,
    }
}

/// Decode the tail of a frequency command (after the command prefix).
fn decode_channel_frequency(rest: &[u8]) -> (r: Option<Command>)
    ensures
        r == spec_decode_channel_frequency(rest@),
{
    let i = find_byte(rest, ' ' as u8, 0);
    if i == rest.len() {
        return None;
    }
    let digits = vstd::slice::slice_subrange(rest, 0, i);
    proof {
        assert(digits@ =~= rest@.take(i as int));
    }
    match parse_u32(digits) {
        Some(ch) => {
            if ch <= u8::MAX as u32 {
                let tail = vstd::slice::slice_subrange(rest, i + 1, rest.len());
                proof {
                    assert(tail@ =~= rest@.skip(i + 1));
                }
                match parse_u32(tail) {
                    Some(hz) => Some(Command::ChannelFrequency { channel: ch as u8, hz }),
                    None => None,
                }
            } else {
                None
            }
        },
        None => None,
    }
}

} // verus!
