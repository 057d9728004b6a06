//! Pure codecs for the wire representations used by the driver's attribute
//! files: big-endian 16-bit integers, unsigned decimal ASCII strings,
//! percent values scaled to a raw 0..=255 byte, colon-delimited X:Y pairs,
//! and the variable-length DPI stage table.

use vstd::prelude::*;

verus! {

/// The value of a big-endian pair of bytes.
pub open spec fn be16(hi: u8, lo: u8) -> u16 {
    (hi * 256 + lo) as u16
}

/// Decodes a big-endian pair of bytes into the 16-bit value they encode.
pub fn decode_u16_be(hi: u8, lo: u8) -> (r: u16)
    ensures
        r == be16(hi, lo),
{
    (hi as u16) * 256 + (lo as u16)
}

/// Encodes a 16-bit value as two big-endian bytes.
pub fn encode_u16_be(v: u16) -> (r: Vec<u8>)
    ensures
        r@ == seq![(v / 256) as u8, (v % 256) as u8],
        be16(r@[0], r@[1]) == v,
{
    let mut r: Vec<u8> = Vec::new();
    r.push((v / 256) as u8);
    r.push((v % 256) as u8);
    assert(r@ =~= seq![(v / 256) as u8, (v % 256) as u8]);
    r
}

/// Encoding a 16-bit value big-endian and decoding the two bytes again
/// yields the original value.
pub proof fn lemma_be16_round_trip(v: u16)
    ensures
        be16((v / 256) as u8, (v % 256) as u8) == v,
{
}

/// Whether a byte is an ASCII decimal digit.
pub open spec fn is_digit(b: u8) -> bool {
    48 <= b <= 57
}

/// Whether every byte of the sequence is an ASCII decimal digit.
pub open spec fn all_digits(s: Seq<u8>) -> bool {
    forall|i: int| 0 <= i < s.len() ==> is_digit(#[trigger] s[i])
}

/// The numeric value of a sequence of ASCII decimal digits.
pub open spec fn dec_val(s: Seq<u8>) -> int
    decreases s.len(),
{
    if s.len() == 0 {
        0
    } else {
        dec_val(s.drop_last()) * 10 + (s.last() - 48)
    }
}

/// Whether a byte sequence is a well-formed decimal string whose value
/// fits in 16 bits: nonempty, digits only, value at most `u16::MAX`.
pub open spec fn parses_u16(s: Seq<u8>) -> bool {
    s.len() > 0 && all_digits(s) && dec_val(s) <= 65535
}

proof fn lemma_dec_val_take_step(s: Seq<u8>, i: int)
    requires
        0 <= i < s.len(),
    ensures
        dec_val(s.take(i + 1)) == dec_val(s.take(i)) * 10 + (s[i] - 48),
{
    assert(s.take(i + 1).drop_last() =~= s.take(i));
    assert(s.take(i + 1).last() == s[i]);
}

/// Extending an all-digit string to the right never decreases its value,
/// provided the prefix value is nonnegative.
proof fn lemma_dec_val_extend(s: Seq<u8>, i: int)
    requires
        0 <= i <= s.len(),
        all_digits(s),
        dec_val(s.take(i)) >= 0,
    ensures
        dec_val(s) >= dec_val(s.take(i)),
    decreases s.len() - i,
{
    if i == s.len() {
        assert(s.take(i) =~= s);
    } else {
        lemma_dec_val_take_step(s, i);
        lemma_dec_val_extend(s, i + 1);
    }
}

/// Parses an unsigned base-10 ASCII string into a 16-bit value. Fails on an
/// empty string, a non-digit byte, or a value that does not fit.
pub fn parse_u16_dec(s: &[u8]) -> (r: Option<u16>)
    ensures
        r.is_some() <==> parses_u16(s@),
        r.is_some() ==> r.unwrap() == dec_val(s@),
{
    if s.len() == 0 {
        return None;
    }
    let mut i: usize = 0;
    let mut acc: u32 = 0;
    while i < s.len()
        invariant
            0 <= i <= s@.len(),
            acc <= 65535,
            acc == dec_val(s@.take(i as int)),
            forall|j: int| 0 <= j < i ==> is_digit(#[trigger] s@[j]),
        decreases s@.len() - i,
    {
        let b = s[i];
        if b < 48 || b > 57 {
            assert(!all_digits(s@)) by {
                assert(!is_digit(s@[i as int]));
            }
            return None;
        }
        let next: u32 = acc * 10 + (b - 48) as u32;
        proof {
            lemma_dec_val_take_step(s@, i as int);
        }
        if next > 65535 {
            proof {
                if all_digits(s@) {
                    lemma_dec_val_extend(s@, i + 1);
                }
            }
            return None;
        }
        acc = next;
        i = i + 1;
    }
    proof {
        assert(s@.take(s@.len() as int) =~= s@);
    }
    Some(acc as u16)
}

/// The canonical decimal-digit encoding of a nonnegative value: no sign and
/// no leading zeros (a single `0` for zero).
pub open spec fn dec_digits(v: int) -> Seq<u8>
    decreases v,
{
    if v < 10 {
        seq![(48 + if v >= 0 { v } else { 0 }) as u8]
    } else {
        dec_digits(v / 10).push((48 + v % 10) as u8)
    }
}

/// Formats a 16-bit value as unsigned base-10 ASCII digits.
pub fn format_u16_dec(v: u16) -> (r: Vec<u8>)
    ensures
        r@ == dec_digits(v as int),
    decreases v,
{
    if v < 10 {
        let mut r: Vec<u8> = Vec::new();
        r.push(48 + v as u8);
        assert(r@ =~= dec_digits(v as int));
        r
    } else {
        let mut r = format_u16_dec(v / 10);
        r.push(48 + (v % 10) as u8);
        assert(r@ =~= dec_digits(v as int));
        r
    }
}

/// The quotient `n / d` rounded to the nearest integer, halves away from
/// zero, for nonnegative `n` and positive `d`.
pub open spec fn round_div(n: int, d: int) -> int
    recommends
        n >= 0,
        d > 0,
{
    (2 * n + d) / (2 * d)
}

/// The percentage (0..=100) that a raw 0..=255 battery byte stands for.
pub open spec fn percent_of_raw(b: int) -> int {
    round_div(b * 100, 255)
}

/// The raw 0..=255 byte that a percentage (0..=100) is written back as.
pub open spec fn raw_of_percent(p: int) -> int {
    round_div(p * 255, 100)
}

/// Scales a raw 0..=255 byte to the percentage it represents, rounding to
/// the nearest integer.
pub fn raw_to_percent(b: u8) -> (p: u16)
    ensures
        p == percent_of_raw(b as int),
        p <= 100,
{
    let n: u32 = (b as u32) * 100;
    ((2 * n + 255) / 510) as u16
}

/// Scales a percentage back to the raw 0..=255 byte, rounding to the
/// nearest integer.
pub fn percent_to_raw(p: u16) -> (r: u8)
    requires
        p <= 100,
    ensures
        r == raw_of_percent(p as int),
{
    let n: u32 = (p as u32) * 255;
    ((2 * n + 100) / 200) as u8
}

/// The percentage value carried by a decimal text attribute: the text must
/// be a well-formed decimal whose value fits in a byte.
pub open spec fn percent_from_text(s: Seq<u8>) -> Option<u16> {
    if parses_u16(s) && dec_val(s) <= 255 {
        Some(percent_of_raw(dec_val(s)) as u16)
    } else {
        None
    }
}

/// Parses a decimal text attribute holding a raw 0..=255 value and scales
/// it to a percentage. Anything malformed or out of range yields nothing.
pub fn str_to_percent(s: &[u8]) -> (r: Option<u16>)
    ensures
        r == percent_from_text(s@),
{
    match parse_u16_dec(s) {
        Some(v) => {
            if v <= 255 {
                Some(raw_to_percent(v as u8))
            } else {
                None
            }
        },
        None => None,
    }
}

/// Scales a percentage to its raw 0..=255 byte and formats that byte as
/// decimal ASCII digits, the form the threshold attribute is written in.
pub fn percent_to_str(x: u16) -> (r: Vec<u8>)
    requires
        x <= 100,
    ensures
        r@ == dec_digits(raw_of_percent(x as int)),
{
    let raw = percent_to_raw(x);
    format_u16_dec(raw as u16)
}

/// Round-tripping a raw byte through the percent scaling changes it by at
/// most one: the two rounding steps together stay within a single unit.
pub proof fn lemma_percent_round_trip(b: u8)
    ensures
        percent_of_raw(b as int) == round_div(b as int * 100, 255),
        0 <= percent_of_raw(b as int) <= 100,
        raw_of_percent(percent_of_raw(b as int)) - b <= 1,
        b - raw_of_percent(percent_of_raw(b as int)) <= 1,
{
    let n = 200 * (b as int) + 255;
    let p = percent_of_raw(b as int);
    vstd::arithmetic::div_mod::lemma_fundamental_div_mod(n, 510);
    vstd::arithmetic::div_mod::lemma_mod_bound(n, 510);
    assert(p == n / 510);
    assert(510 * p <= n <= 510 * p + 509);
    let m = 510 * p + 100;
    let e = raw_of_percent(p);
    vstd::arithmetic::div_mod::lemma_fundamental_div_mod(m, 200);
    vstd::arithmetic::div_mod::lemma_mod_bound(m, 200);
    assert(e == m / 200);
    assert(200 * e <= m <= 200 * e + 199);
}

/// Whether a byte is an ASCII hexadecimal digit, either case.
pub open spec fn is_hex_digit(b: u8) -> bool {
    (48 <= b <= 57) || (65 <= b <= 70) || (97 <= b <= 102)
}

/// The value of an ASCII hexadecimal digit.
pub open spec fn hex_digit_val(b: u8) -> int {
    if 48 <= b <= 57 {
        b - 48
    } else if 65 <= b <= 70 {
        b - 55
    } else {
        b - 87
    }
}

/// Whether every byte of the sequence is an ASCII hexadecimal digit.
pub open spec fn all_hex_digits(s: Seq<u8>) -> bool {
    forall|i: int| 0 <= i < s.len() ==> is_hex_digit(#[trigger] s[i])
}

/// The numeric value of a sequence of ASCII hexadecimal digits.
pub open spec fn hex_val(s: Seq<u8>) -> int
    decreases s.len(),
{
    if s.len() == 0 {
        0
    } else {
        hex_val(s.drop_last()) * 16 + hex_digit_val(s.last())
    }
}

/// Whether a byte sequence is a well-formed hexadecimal string whose value
/// fits in 16 bits.
pub open spec fn parses_hex_u16(s: Seq<u8>) -> bool {
    s.len() > 0 && all_hex_digits(s) && hex_val(s) <= 65535
}

proof fn lemma_hex_val_take_step(s: Seq<u8>, i: int)
    requires
        0 <= i < s.len(),
    ensures
        hex_val(s.take(i + 1)) == hex_val(s.take(i)) * 16 + hex_digit_val(s[i]),
{
    assert(s.take(i + 1).drop_last() =~= s.take(i));
    assert(s.take(i + 1).last() == s[i]);
}

/// Extending an all-hex-digit string to the right never decreases its
/// value, provided the prefix value is nonnegative.
proof fn lemma_hex_val_extend(s: Seq<u8>, i: int)
    requires
        0 <= i <= s.len(),
        all_hex_digits(s),
        hex_val(s.take(i)) >= 0,
    ensures
        hex_val(s) >= hex_val(s.take(i)),
    decreases s.len() - i,
{
    if i == s.len() {
        assert(s.take(i) =~= s);
    } else {
        lemma_hex_val_take_step(s, i);
        lemma_hex_val_extend(s, i + 1);
    }
}

/// Parses an unsigned base-16 ASCII string, either case, into a 16-bit
/// value. Fails on an empty string, a non-hex byte, or a value that does
/// not fit.
pub fn parse_u16_hex(s: &[u8]) -> (r: Option<u16>)
    ensures
        r.is_some() <==> parses_hex_u16(s@),
        r.is_some() ==> r.unwrap() == hex_val(s@),
{
    if s.len() == 0 {
        return None;
    }
    let mut i: usize = 0;
    let mut acc: u32 = 0;
    while i < s.len()
        invariant
            0 <= i <= s@.len(),
            acc <= 65535,
            acc == hex_val(s@.take(i as int)),
            forall|j: int| 0 <= j < i ==> is_hex_digit(#[trigger] s@[j]),
        decreases s@.len() - i,
    {
        let b = s[i];
        let d: u32 = if 48 <= b && b <= 57 {
            (b - 48) as u32
        } else if 65 <= b && b <= 70 {
            (b - 55) as u32
        } else if 97 <= b && b <= 102 {
            (b - 87) as u32
        } else {
            assert(!all_hex_digits(s@)) by {
                assert(!is_hex_digit(s@[i as int]));
            }
            return None;
        };
        let next: u32 = acc * 16 + d;
        proof {
            lemma_hex_val_take_step(s@, i as int);
        }
        if next > 65535 {
            proof {
                if all_hex_digits(s@) {
                    lemma_hex_val_extend(s@, i + 1);
                }
            }
            return None;
        }
        acc = next;
        i = i + 1;
    }
    proof {
        assert(s@.take(s@.len() as int) =~= s@);
    }
    Some(acc as u16)
}

/// The index of the first occurrence of a byte in a sequence, or -1 when
/// the byte does not occur.
pub open spec fn find_byte(s: Seq<u8>, t: u8) -> int
    decreases s.len(),
{
    if s.len() == 0 {
        -1
    } else if s[0] == t {
        0
    } else if find_byte(s.skip(1), t) < 0 {
        -1
    } else {
        find_byte(s.skip(1), t) + 1
    }
}

/// `find_byte` names the first occurrence: at the returned index the byte
/// occurs and nowhere earlier, and a negative result means it is absent.
pub proof fn lemma_find_byte(s: Seq<u8>, t: u8)
    ensures
        find_byte(s, t) >= 0 ==> 0 <= find_byte(s, t) < s.len() && s[find_byte(s, t)] == t
            && (forall|j: int| 0 <= j < find_byte(s, t) ==> s[j] != t),
        find_byte(s, t) < 0 ==> forall|j: int| 0 <= j < s.len() ==> s[j] != t,
    decreases s.len(),
{
    if s.len() > 0 && s[0] != t {
        lemma_find_byte(s.skip(1), t);
        let r = find_byte(s.skip(1), t);
        if r >= 0 {
            assert(s[r + 1] == s.skip(1)[r]);
            assert forall|j: int| 0 <= j < r + 1 implies s[j] != t by {
                if j > 0 {
                    assert(s.skip(1)[j - 1] == s[j]);
                }
            }
        } else {
            assert forall|j: int| 0 <= j < s.len() implies s[j] != t by {
                if j > 0 {
                    assert(s.skip(1)[j - 1] == s[j]);
                }
            }
        }
    }
}

/// Finds the first occurrence of a byte in a slice.
pub fn find_byte_in(s: &[u8], t: u8) -> (r: Option<usize>)
    ensures
        r.is_some() <==> find_byte(s@, t) >= 0,
        r.is_some() ==> r.unwrap() == find_byte(s@, t) && r.unwrap() < s@.len(),
{
    let mut i: usize = 0;
    while i < s.len()
        invariant
            0 <= i <= s@.len(),
            forall|j: int| 0 <= j < i ==> s@[j] != t,
        decreases s@.len() - i,
    {
        if s[i] == t {
            proof {
                lemma_find_byte(s@, t);
            }
            return Some(i);
        }
        i = i + 1;
    }
    proof {
        lemma_find_byte(s@, t);
    }
    None
}

/// The typed value of a colon-delimited `x:y` text attribute: the part
/// before the first colon and the part between the first colon and the
/// second (or the end) must both be well-formed decimals.
pub open spec fn split_xy_spec(s: Seq<u8>) -> Option<(u16, u16)> {
    let p = find_byte(s, 58);
    if p < 0 {
        None
    } else {
        let xs = s.take(p);
        let rest = s.skip(p + 1);
        let q = find_byte(rest, 58);
        let ys = if q < 0 {
            rest
        } else {
            rest.take(q)
        };
        if parses_u16(xs) && parses_u16(ys) {
            Some((dec_val(xs) as u16, dec_val(ys) as u16))
        } else {
            None
        }
    }
}

/// Splits a colon-delimited `x:y` text attribute into its two decimal
/// parts. Fails when there is no colon or either part is malformed.
pub fn split_xy(s: &[u8]) -> (r: Option<(u16, u16)>)
    ensures
        r == split_xy_spec(s@),
{
    let p = match find_byte_in(s, 58) {
        Some(p) => p,
        None => {
            return None;
        },
    };
    let len = s.len();
    let xs = &s[0..p];
    let rest = &s[p + 1..len];
    proof {
        assert(xs@ =~= s@.take(p as int));
        assert(rest@ =~= s@.skip(p as int + 1));
    }
    let ys = match find_byte_in(rest, 58) {
        Some(q) => &rest[0..q],
        None => rest,
    };
    proof {
        let q = find_byte(s@.skip(p as int + 1), 58);
        if q >= 0 {
            assert(ys@ =~= s@.skip(p as int + 1).take(q));
        }
    }
    match (parse_u16_dec(xs), parse_u16_dec(ys)) {
        (Some(x), Some(y)) => Some((x, y)),
        _ => None,
    }
}

/// The sequence of (x, y) DPI pairs held by the body of a stage table:
/// repeating 4-byte records of two big-endian 16-bit values; a trailing
/// group of fewer than 4 bytes carries no record.
pub open spec fn stage_pairs(s: Seq<u8>) -> Seq<(u16, u16)> {
    Seq::new((s.len() / 4) as nat,
        |i: int| (be16(s[4 * i], s[4 * i + 1]), be16(s[4 * i + 2], s[4 * i + 3])))
}

/// Decodes a DPI stage table blob: the first byte is the active stage
/// index, the rest is a run of 4-byte (x, y) records; a trailing partial
/// record is dropped. Only an empty blob fails.
pub fn decode_dpi_stages(data: &[u8]) -> (r: Option<(u8, Vec<(u16, u16)>)>)
    ensures
        r.is_some() <==> data@.len() > 0,
        r.is_some() ==> r.unwrap().0 == data@[0] && r.unwrap().1@ == stage_pairs(data@.skip(1)),
{
    if data.len() == 0 {
        return None;
    }
    let active = data[0];
    let n = (data.len() - 1) / 4;
    proof {
        vstd::arithmetic::div_mod::lemma_fundamental_div_mod(data@.len() - 1, 4);
        vstd::arithmetic::div_mod::lemma_mod_bound(data@.len() - 1, 4);
    }
    let mut stages: Vec<(u16, u16)> = Vec::new();
    let mut i: usize = 0;
    while i < n
        invariant
            data@.len() >= 1,
            data@.len() <= usize::MAX,
            n == (data@.len() - 1) / 4,
            4 * n <= data@.len() - 1,
            0 <= i <= n,
            stages@.len() == i,
            forall|k: int| 0 <= k < i ==> stages@[k] == #[trigger] stage_pairs(data@.skip(1))[k],
        decreases n - i,
    {
        let x = decode_u16_be(data[1 + 4 * i], data[1 + 4 * i + 1]);
        let y = decode_u16_be(data[1 + 4 * i + 2], data[1 + 4 * i + 3]);
        stages.push((x, y));
        proof {
            let body = data@.skip(1);
            assert(body[4 * i as int] == data@[1 + 4 * i as int]);
            assert(body[4 * i as int + 1] == data@[1 + 4 * i as int + 1]);
            assert(body[4 * i as int + 2] == data@[1 + 4 * i as int + 2]);
            assert(body[4 * i as int + 3] == data@[1 + 4 * i as int + 3]);
        }
        i = i + 1;
    }
    proof {
        assert(stages@ =~= stage_pairs(data@.skip(1)));
    }
    Some((active, stages))
}

/// The canonical decimal encoding of a value parses back to that value.
pub proof fn lemma_dec_round_trip(v: int)
    requires
        0 <= v,
    ensures
        all_digits(dec_digits(v)),
        dec_val(dec_digits(v)) == v,
    decreases v,
{
    if v < 10 {
        assert(dec_digits(v) == seq![(48 + v) as u8]);
        assert(dec_digits(v).drop_last() =~= Seq::<u8>::empty());
        assert(dec_val(dec_digits(v)) == dec_val(Seq::<u8>::empty()) * 10 + ((48 + v) as u8 - 48));
    } else {
        lemma_dec_round_trip(v / 10);
        assert(dec_digits(v) == dec_digits(v / 10).push((48 + v % 10) as u8));
        assert(dec_digits(v).drop_last() =~= dec_digits(v / 10));
        assert(dec_val(dec_digits(v)) == dec_val(dec_digits(v / 10)) * 10 + (v % 10));
        vstd::arithmetic::div_mod::lemma_fundamental_div_mod(v, 10);
        assert(forall|i: int|
            0 <= i < dec_digits(v).len() - 1 ==> is_digit(#[trigger] dec_digits(v)[i]));
    }
}

} // verus!
