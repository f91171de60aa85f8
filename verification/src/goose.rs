//! GOOSE trip-message state: the per-publish counters, the destination
//! MAC address parser and the IEC 61850 timestamp encoding.
//!
//! The frame transmission itself is the excluded I/O boundary; this
//! module computes the values a publisher needs: a sequence number that
//! advances on every publish, a state number that advances only when
//! the trip value changes, and the encoded timestamp bytes.

use vstd::prelude::*;
use vstd::arithmetic::div_mod::{
    lemma_mod_division_less_than_divisor, lemma_multiply_divide_lt,
};
use vstd::string::StringSliceAdditionalSpecFns;

use crate::config::GooseConfig;

verus! {

/// The data of one GOOSE trip publication.
#[derive(Debug, Clone, PartialEq, Eq, Structural)]
pub struct GooseTripMessage {
    /// Trip signal: true for trip, false for normal.
    pub trip: bool,
    /// Sequence number, advanced on every publish.
    pub sq_num: u32,
    /// State number, advanced only when the trip value changes.
    pub st_num: u32,
    /// Timestamp of the evaluation, in microseconds.
    pub timestamp: u64,
}

/// Publisher-side state of the GOOSE trip stream: configuration, the
/// two counters and the last published trip value.
pub struct GoosePublisher {
    /// Addressing and identifiers of the stream.
    pub config: GooseConfig,
    /// Sequence number of the last publication.
    pub sq_num: u32,
    /// State number of the last publication.
    pub st_num: u32,
    /// Trip value of the last publication.
    pub last_trip_state: bool,
    /// Source MAC address, replaced by the sender with the interface's
    /// own once known.
    pub src_mac: [u8; 6],
}

impl GoosePublisher {
    /// Create a publisher with both counters at zero and a normal
    /// (non-trip) last state.
    pub fn new(config: GooseConfig) -> (r: Self)
        ensures
            r.config == config,
            r.sq_num == 0u32,
            r.st_num == 0u32,
            !r.last_trip_state,
            r.src_mac@ =~= seq![0x00u8, 0x01u8, 0x02u8, 0x03u8, 0x04u8, 0x05u8],
    {
        Self {
            config,
            sq_num: 0,
            st_num: 0,
            last_trip_state: false,
            src_mac: [0x00, 0x01, 0x02, 0x03, 0x04, 0x05],
        }
    }

    /// Account for one publication: the sequence number advances
    /// (wrapping), the state number advances exactly when the trip
    /// value changed, and the message carrying the new counters is
    /// returned for the (external) frame encoder.
    pub fn publish_trip(&mut self, trip: bool, timestamp: u64) -> (msg: GooseTripMessage)
        requires
            trip != old(self).last_trip_state ==> old(self).st_num < u32::MAX,
        ensures
            final(self).config == old(self).config,
            final(self).src_mac == old(self).src_mac,
            final(self).sq_num == (old(self).sq_num + 1) % 0x1_0000_0000,
            trip == old(self).last_trip_state ==> final(self).st_num == old(self).st_num,
            trip != old(self).last_trip_state ==> final(self).st_num == old(self).st_num + 1,
            final(self).last_trip_state == trip,
            msg == (GooseTripMessage {
                trip,
                sq_num: final(self).sq_num,
                st_num: final(self).st_num,
                timestamp,
            }),
    {
        self.sq_num = self.sq_num.wrapping_add(1);

        if trip != self.last_trip_state {
            self.st_num = self.st_num + 1;
            self.last_trip_state = trip;
        }

        GooseTripMessage { trip, sq_num: self.sq_num, st_num: self.st_num, timestamp }
    }

    /// The configuration.
    pub fn config(&self) -> (r: &GooseConfig)
        ensures
            *r == self.config,
    {
        &self.config
    }

    /// Sequence number of the last publication.
    pub fn sq_num(&self) -> (r: u32)
        ensures
            r == self.sq_num,
    {
        self.sq_num
    }

    /// State number of the last publication.
    pub fn st_num(&self) -> (r: u32)
        ensures
            r == self.st_num,
    {
        self.st_num
    }

    /// Trip value of the last publication.
    pub fn last_trip_state(&self) -> (r: bool)
        ensures
            r == self.last_trip_state,
    {
        self.last_trip_state
    }

    /// Rewind both counters and the last trip value to their initial
    /// state.
    pub fn reset(&mut self)
        ensures
            final(self).config == old(self).config,
            final(self).src_mac == old(self).src_mac,
            final(self).sq_num == 0u32,
            final(self).st_num == 0u32,
            !final(self).last_trip_state,
    {
        self.sq_num = 0;
        self.st_num = 0;
        self.last_trip_state = false;
    }
}

/// Why a MAC address string was rejected.
#[derive(Debug, Clone, PartialEq, Eq, Structural)]
pub enum MacParseError {
    /// The string is not six colon-separated parts.
    InvalidFormat,
    /// A part is not a hexadecimal byte.
    InvalidByte,
}

/// ASCII colon, the separator of a MAC address string.
pub const COLON: u8 = 0x3A;

/// The byte is an ASCII hexadecimal digit.
pub open spec fn is_hex_digit(b: u8) -> bool {
    (0x30 <= b <= 0x39) || (0x41 <= b <= 0x46) || (0x61 <= b <= 0x66)
}

/// Value of an ASCII hexadecimal digit; zero for any other byte.
pub open spec fn hex_digit_value(b: u8) -> int {
    if 0x30 <= b <= 0x39 {
        b - 0x30
    } else if 0x41 <= b <= 0x46 {
        b - 0x41 + 10
    } else if 0x61 <= b <= 0x66 {
        b - 0x61 + 10
    } else {
        0
    }
}

/// Base-16 value of a digit string, most significant digit first.
pub open spec fn hex_value(part: Seq<u8>) -> int
    decreases part.len(),
{
    if part.len() == 0 {
        0
    } else {
        hex_value(part.drop_last()) * 16 + hex_digit_value(part.last())
    }
}

/// Every byte of the part is a hexadecimal digit.
pub open spec fn all_hex(part: Seq<u8>) -> bool {
    forall|i: int| 0 <= i < part.len() ==> is_hex_digit(#[trigger] part[i])
}

/// The part denotes one byte: at least one digit, all hexadecimal,
/// value at most 255.
pub open spec fn valid_hex_byte(part: Seq<u8>) -> bool {
    &&& part.len() >= 1
    &&& all_hex(part)
    &&& hex_value(part) <= 255
}

/// The colon-separated parts of a byte string: one more part than
/// there are colons, in order, each without its delimiters.
pub open spec fn split_colon(s: Seq<u8>) -> Seq<Seq<u8>>
    decreases s.len(),
{
    if s.len() == 0 {
        seq![Seq::<u8>::empty()]
    } else if s.last() == COLON {
        split_colon(s.drop_last()).push(Seq::<u8>::empty())
    } else {
        let p = split_colon(s.drop_last());
        p.update(p.len() - 1, p.last().push(s.last()))
    }
}

/// The string is a well-formed MAC address: six colon-separated
/// hexadecimal byte parts.
pub open spec fn valid_mac_string(s: Seq<u8>) -> bool {
    &&& split_colon(s).len() == 6
    &&& forall|j: int| 0 <= j < 6 ==> valid_hex_byte(#[trigger] split_colon(s)[j])
}

/// There is always at least one part.
proof fn lemma_split_colon_len(s: Seq<u8>)
    ensures
        split_colon(s).len() >= 1,
    decreases s.len(),
{
    if s.len() > 0 {
        lemma_split_colon_len(s.drop_last());
    }
}

/// The last part of a string is never longer than the string.
proof fn lemma_split_colon_last_len(s: Seq<u8>)
    ensures
        split_colon(s).last().len() <= s.len(),
    decreases s.len(),
{
    if s.len() > 0 {
        lemma_split_colon_last_len(s.drop_last());
        lemma_split_colon_len(s.drop_last());
    }
}

/// The value of a digit string never turns negative.
proof fn lemma_hex_value_nonneg(part: Seq<u8>)
    ensures
        hex_value(part) >= 0,
    decreases part.len(),
{
    if part.len() > 0 {
        lemma_hex_value_nonneg(part.drop_last());
    }
}

/// Hexadecimal value of one ASCII digit byte, if it is one.
fn hex_digit_of(b: u8) -> (r: Option<u8>)
    ensures
        (r is Some) == is_hex_digit(b),
        r is Some ==> r.unwrap() as int == hex_digit_value(b),
{
    if 0x30 <= b && b <= 0x39 {
        Some(b - 0x30)
    } else if 0x41 <= b && b <= 0x46 {
        Some(b - 0x41 + 10)
    } else if 0x61 <= b && b <= 0x66 {
        Some(b - 0x61 + 10)
    } else {
        None
    }
}

/// Parse a MAC address of the form "01:0C:CD:01:00:00": six
/// colon-separated hexadecimal byte parts, in order. Returns the six
/// bytes, or says whether the shape or a digit was at fault.
pub fn parse_mac_address(mac_str: &str) -> (r: Result<[u8; 6], MacParseError>)
    ensures
        (r is Ok) == valid_mac_string(mac_str.spec_bytes()),
        r matches Ok(m) ==> forall|j: int|
            0 <= j < 6 ==> #[trigger] m@[j] as int == hex_value(split_colon(mac_str.spec_bytes())[j]),
        split_colon(mac_str.spec_bytes()).len() != 6 ==> r == Err::<[u8; 6], _>(
            MacParseError::InvalidFormat,
        ),
        (r is Err) && split_colon(mac_str.spec_bytes()).len() == 6 ==> r == Err::<[u8; 6], _>(
            MacParseError::InvalidByte,
        ),
{
    let bytes = mac_str.as_bytes();
    let n = bytes.len();
    let ghost b = mac_str.spec_bytes();

    // First pass: the number of parts, capped just above six.
    let mut parts: usize = 1;
    let mut i: usize = 0;
    while i < n
        invariant
            i <= n,
            n == b.len(),
            bytes@ == b,
            parts as int == (if split_colon(b.take(i as int)).len() <= 7 {
                split_colon(b.take(i as int)).len()
            } else {
                7
            }),
        decreases n - i,
    {
        proof {
            assert(b.take(i + 1 as int).drop_last() =~= b.take(i as int));
            lemma_split_colon_len(b.take(i as int));
        }
        if bytes[i] == COLON {
            if parts < 7 {
                parts = parts + 1;
            }
        }
        i = i + 1;
    }
    proof {
        assert(b.take(n as int) =~= b);
    }
    if parts != 6 {
        return Err(MacParseError::InvalidFormat);
    }

    // Second pass: the value of each part, tracking whether every part
    // seen so far is a valid hexadecimal byte.
    let mut out: Vec<u8> = Vec::new();
    let mut ok = true;
    let mut cur_val: u32 = 0;
    let mut cur_len: usize = 0;
    let mut cur_hex_ok = true;
    let mut cur_val_ok = true;
    let mut i: usize = 0;
    while i < n
        invariant
            i <= n,
            n == b.len(),
            bytes@ == b,
            split_colon(b.take(i as int)).len() == out@.len() + 1,
            out@.len() + 1 <= 6,
            ok == (forall|j: int|
                0 <= j < out@.len() ==> valid_hex_byte(
                    #[trigger] split_colon(b.take(i as int))[j],
                )),
            ok ==> forall|j: int|
                0 <= j < out@.len() ==> #[trigger] out@[j] as int == hex_value(
                    split_colon(b.take(i as int))[j],
                ),
            cur_len as int == split_colon(b.take(i as int)).last().len(),
            cur_hex_ok == all_hex(split_colon(b.take(i as int)).last()),
            cur_val_ok == (hex_value(split_colon(b.take(i as int)).last()) <= 255),
            cur_val_ok ==> cur_val as int == hex_value(split_colon(b.take(i as int)).last()),
            cur_val <= 255,
            split_colon(b).len() == 6,
        decreases n - i,
    {
        let ghost pre = split_colon(b.take(i as int));
        let ghost cp = pre.last();
        proof {
            assert(b.take(i + 1 as int).drop_last() =~= b.take(i as int));
            assert(b.take(i + 1 as int).last() == b[i as int]);
            lemma_split_colon_len(b.take(i as int));
            lemma_split_colon_last_len(b.take(i as int));
            lemma_hex_value_nonneg(cp);
        }
        let c = bytes[i];
        if c == COLON {
            // The current part is complete.
            let part_ok = cur_hex_ok && cur_val_ok && cur_len > 0;
            proof {
                let spn = split_colon(b.take(i + 1 as int));
                assert(forall|j: int| 0 <= j < pre.len() ==> spn[j] == #[trigger] pre[j]);
                assert(spn[out@.len() as int] == cp);
                if !ok {
                    let k = choose|k: int|
                        0 <= k < out@.len() && !valid_hex_byte(#[trigger] pre[k]);
                    assert(!valid_hex_byte(spn[k]));
                }
            }
            if !part_ok {
                ok = false;
            }
            out.push(cur_val as u8);
            cur_val = 0;
            cur_len = 0;
            cur_hex_ok = true;
            cur_val_ok = true;
            proof {
                // One more part may not appear beyond the six counted
                // over the whole string: the parts of a prefix never
                // outnumber the parts of the string.
                lemma_split_colon_prefix_len(b, (i + 1) as int);
            }
        } else {
            let ghost ncp = cp.push(c);
            proof {
                assert(ncp.drop_last() =~= cp);
                assert(ncp.last() == c);
                assert(forall|k: int| 0 <= k < cp.len() ==> ncp[k] == cp[k]);
                if all_hex(cp) && is_hex_digit(c) {
                    assert(forall|k: int|
                        0 <= k < ncp.len() ==> is_hex_digit(#[trigger] ncp[k]));
                }
                if !all_hex(cp) {
                    let k = choose|k: int| 0 <= k < cp.len() && !is_hex_digit(cp[k]);
                    assert(!is_hex_digit(ncp[k]));
                }
                let spn = split_colon(b.take(i + 1 as int));
                assert(spn == pre.update(pre.len() - 1, ncp));
                assert(forall|j: int| 0 <= j < out@.len() ==> spn[j] == #[trigger] pre[j]);
                if !ok {
                    let k = choose|k: int|
                        0 <= k < out@.len() && !valid_hex_byte(#[trigger] pre[k]);
                    assert(!valid_hex_byte(spn[k]));
                }
            }
            match hex_digit_of(c) {
                Some(d) => {
                    let nv = cur_val * 16 + d as u32;
                    if cur_val_ok && nv <= 255 {
                        cur_val = nv;
                    } else {
                        cur_val_ok = false;
                    }
                },
                None => {
                    cur_hex_ok = false;
                    let nv = cur_val * 16;
                    if cur_val_ok && nv <= 255 {
                        cur_val = nv;
                    } else {
                        cur_val_ok = false;
                    }
                },
            }
            cur_len = cur_len + 1;
        }
        i = i + 1;
    }
    proof {
        assert(b.take(n as int) =~= b);
        lemma_hex_value_nonneg(split_colon(b).last());
    }

    // Close the sixth part.
    if !(cur_hex_ok && cur_val_ok && cur_len > 0) {
        ok = false;
    }
    out.push(cur_val as u8);

    if ok {
        let m = [out[0], out[1], out[2], out[3], out[4], out[5]];
        proof {
            assert(forall|j: int| 0 <= j < 6 ==> #[trigger] m@[j] == out@[j]);
        }
        Ok(m)
    } else {
        Err(MacParseError::InvalidByte)
    }
}

/// A prefix of a string never has more colon-separated parts than the
/// string itself.
proof fn lemma_split_colon_prefix_len(s: Seq<u8>, i: int)
    requires
        0 <= i <= s.len(),
    ensures
        split_colon(s.take(i)).len() <= split_colon(s).len(),
    decreases s.len() - i,
{
    if i < s.len() {
        lemma_split_colon_prefix_len(s, i + 1);
        assert(s.take(i + 1).drop_last() =~= s.take(i));
        lemma_split_colon_len(s.take(i));
    } else {
        assert(s.take(i) =~= s);
    }
}

/// The seconds field of the IEC 61850 timestamp: whole seconds of the
/// microsecond timestamp, truncated to 32 bits.
pub open spec fn iec_seconds(timestamp_us: u64) -> int {
    (timestamp_us as int / 1_000_000) % 0x1_0000_0000
}

/// The 24-bit fraction field of the IEC 61850 timestamp: the remaining
/// microseconds scaled to units of 2^-24 seconds.
pub open spec fn iec_fraction(timestamp_us: u64) -> int {
    ((timestamp_us as int % 1_000_000) * 0x100_0000) / 1_000_000
}

/// Encode a microsecond timestamp as the 8-byte IEC 61850 timestamp:
/// big-endian 32-bit seconds, a big-endian 24-bit fraction of a second,
/// and a quality octet of zero (good, synchronized).
pub fn timestamp_to_iec61850(timestamp_us: u64) -> (r: [u8; 8])
    ensures
        r@.len() == 8,
        r@[0] == iec_seconds(timestamp_us) / 0x100_0000,
        r@[1] == (iec_seconds(timestamp_us) / 0x1_0000) % 0x100,
        r@[2] == (iec_seconds(timestamp_us) / 0x100) % 0x100,
        r@[3] == iec_seconds(timestamp_us) % 0x100,
        r@[4] == iec_fraction(timestamp_us) / 0x1_0000,
        r@[5] == (iec_fraction(timestamp_us) / 0x100) % 0x100,
        r@[6] == iec_fraction(timestamp_us) % 0x100,
        r@[7] == 0,
{
    let seconds: u64 = (timestamp_us / 1_000_000) % 0x1_0000_0000;
    let remaining: u64 = timestamp_us % 1_000_000;
    proof {
        lemma_mod_division_less_than_divisor(timestamp_us as int / 1_000_000, 0x1_0000_0000);
        lemma_mod_division_less_than_divisor(timestamp_us as int, 1_000_000);
        lemma_multiply_divide_lt((remaining * 0x100_0000) as int, 1_000_000, 0x100_0000);
    }
    let fraction: u64 = (remaining * 0x100_0000) / 1_000_000;

    let b0: u8 = (seconds / 0x100_0000) as u8;
    let b1: u8 = ((seconds / 0x1_0000) % 0x100) as u8;
    let b2: u8 = ((seconds / 0x100) % 0x100) as u8;
    let b3: u8 = (seconds % 0x100) as u8;
    let b4: u8 = (fraction / 0x1_0000) as u8;
    let b5: u8 = ((fraction / 0x100) % 0x100) as u8;
    let b6: u8 = (fraction % 0x100) as u8;
    proof {
        lemma_mod_division_less_than_divisor(seconds as int / 0x1_0000, 0x100);
        lemma_mod_division_less_than_divisor(seconds as int / 0x100, 0x100);
        lemma_mod_division_less_than_divisor(seconds as int, 0x100);
        lemma_mod_division_less_than_divisor(fraction as int / 0x100, 0x100);
        lemma_mod_division_less_than_divisor(fraction as int, 0x100);
    }
    [b0, b1, b2, b3, b4, b5, b6, 0u8]
}

} // verus!
