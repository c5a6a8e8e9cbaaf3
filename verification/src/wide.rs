//! UTF-16 ("wide") text, as the Windows shell reads and writes it.

use vstd::prelude::*;

verus! {

/// The code point that stands in for text that cannot be decoded.
pub const REPLACEMENT_CHARACTER: char = '\u{FFFD}';

/// True for a leading (high) surrogate code unit.
pub open spec fn is_high_surrogate(u: u16) -> bool {
    0xD800 <= u <= 0xDBFF
}

/// True for a trailing (low) surrogate code unit.
pub open spec fn is_low_surrogate(u: u16) -> bool {
    0xDC00 <= u <= 0xDFFF
}

/// The scalar value that a surrogate pair stands for.
pub open spec fn surrogate_pair_value(high: u16, low: u16) -> u32 {
    (0x10000 + (high - 0xD800) * 0x400 + (low - 0xDC00)) as u32
}

/// The UTF-16 code units of one character.
pub open spec fn char_utf16(c: char) -> Seq<u16> {
    let v = c as u32;
    if v < 0x10000 {
        seq![v as u16]
    } else {
        seq![(0xD800 + (v - 0x10000) / 0x400) as u16, (0xDC00 + (v - 0x10000) % 0x400) as u16]
    }
}

/// The UTF-16 encoding of a character sequence.
pub open spec fn encode_utf16(s: Seq<char>) -> Seq<u16>
    decreases s.len(),
{
    if s.len() == 0 {
        seq![]
    } else {
        encode_utf16(s.drop_last()) + char_utf16(s.last())
    }
}

/// Lossy UTF-16 decoding: a well-formed surrogate pair gives its character,
/// any other surrogate gives the replacement character, and every other
/// unit gives the character of the same value.
pub open spec fn decode_utf16_lossy(units: Seq<u16>) -> Seq<char>
    decreases units.len(),
{
    if units.len() == 0 {
        seq![]
    } else if units.len() >= 2 && is_high_surrogate(units[0]) && is_low_surrogate(units[1]) {
        seq![surrogate_pair_value(units[0], units[1]) as char] + decode_utf16_lossy(units.skip(2))
    } else if is_high_surrogate(units[0]) || is_low_surrogate(units[0]) {
        seq![REPLACEMENT_CHARACTER] + decode_utf16_lossy(units.skip(1))
    } else {
        seq![(units[0] as u32) as char] + decode_utf16_lossy(units.skip(1))
    }
}

/// Builds a `char` from a scalar value.
///
/// Calls `char::from_u32`, which std documents to return `Some` exactly when
/// the value is a Unicode scalar value (at most `0x10FFFF` and not a
/// surrogate), holding the character of that value.
#[verifier::external_body]
fn char_from_u32(v: u32) -> (res: Option<char>)
    ensures
        res == (if vstd::utf8::is_scalar(v) {
            Some(v as char)
        } else {
            None
        }),
{
    char::from_u32(v)
}

/// Appends a character to a string.
///
/// Calls `String::push`, which std documents to append the character to the
/// end of the string.
#[verifier::external_body]
pub(crate) fn push_char(s: &mut String, c: char)
    ensures
        final(s)@ == old(s)@.push(c),
{
    s.push(c)
}

/// Encodes `s` as UTF-16 and appends a terminating NUL unit, the form the
/// Win32 wide-string (`PCWSTR`) parameters expect.
pub fn to_wide_nul(s: &str) -> (res: Vec<u16>)
    ensures
        res@ == encode_utf16(s@).push(0u16),
{
    broadcast use vstd::utf8::char_is_scalar;

    let n = s.unicode_len();
    let mut out: Vec<u16> = Vec::new();
    let mut i: usize = 0;
    while i < n
        invariant
            n == s@.len(),
            i <= n,
            out@ == encode_utf16(s@.take(i as int)),
        decreases n - i,
    {
        let c = s.get_char(i);
        let v = c as u32;
        if v < 0x10000 {
            out.push(v as u16);
        } else {
            let w = v - 0x10000;
            out.push((0xD800 + w / 0x400) as u16);
            out.push((0xDC00 + w % 0x400) as u16);
        }
        assert(s@.take(i + 1).drop_last() =~= s@.take(i as int));
        i = i + 1;
    }
    assert(s@.take(n as int) =~= s@);
    out.push(0u16);
    out
}

/// Decodes UTF-16 code units, replacing unpaired surrogates with U+FFFD.
pub fn decode_wide_lossy(units: &[u16]) -> (res: String)
    ensures
        res@ == decode_utf16_lossy(units@),
{
    let n = units.len();
    let mut out = String::new();
    let mut i: usize = 0;
    assert(units@.skip(0) =~= units@);
    while i < n
        invariant
            n == units@.len(),
            i <= n,
            decode_utf16_lossy(units@) == out@ + decode_utf16_lossy(units@.skip(i as int)),
        decreases n - i,
    {
        let ghost rest = units@.skip(i as int);
        let u = units[i];
        if i + 1 < n && 0xD800 <= u && u <= 0xDBFF && 0xDC00 <= units[i + 1] && units[i + 1]
            <= 0xDFFF {
            let low = units[i + 1];
            let v: u32 = 0x10000 + (u as u32 - 0xD800) * 0x400 + (low as u32 - 0xDC00);
            assert(vstd::utf8::is_scalar(v));
            let c = match char_from_u32(v) {
                Some(c) => c,
                None => REPLACEMENT_CHARACTER,
            };
            push_char(&mut out, c);
            assert(rest.skip(2) =~= units@.skip(i + 2));
            i = i + 2;
        } else if 0xD800 <= u && u <= 0xDFFF {
            push_char(&mut out, REPLACEMENT_CHARACTER);
            assert(rest.skip(1) =~= units@.skip(i + 1));
            i = i + 1;
        } else {
            let c = match char_from_u32(u as u32) {
                Some(c) => c,
                None => REPLACEMENT_CHARACTER,
            };
            push_char(&mut out, c);
            assert(rest.skip(1) =~= units@.skip(i + 1));
            i = i + 1;
        }
    }
    assert(units@.skip(n as int) =~= Seq::<u16>::empty());
    out
}

/// Decoding the units of one character, followed by anything, yields that
/// character first.
proof fn lemma_decode_char_then(c: char, rest: Seq<u16>)
    ensures
        decode_utf16_lossy(char_utf16(c) + rest) == seq![c] + decode_utf16_lossy(rest),
{
    broadcast use vstd::utf8::char_is_scalar, vstd::utf8::char_u32_cast;

    let v = c as u32;
    let s = char_utf16(c) + rest;
    if v < 0x10000 {
        assert(s[0] == v as u16);
        assert(s.skip(1) =~= rest);
        assert((s[0] as u32) == v);
    } else {
        let w = (v - 0x10000) as u32;
        let hi = (0xD800 + w / 0x400) as u16;
        let lo = (0xDC00 + w % 0x400) as u16;
        assert(s[0] == hi && s[1] == lo);
        assert(s.skip(2) =~= rest);
        assert(0x10000 + (hi - 0xD800) * 0x400 + (lo - 0xDC00) == v) by (nonlinear_arith)
            requires
                0x10000 <= v <= 0x10FFFF,
                w == v - 0x10000,
                hi == 0xD800 + w / 0x400,
                lo == 0xDC00 + w % 0x400,
        ;
        assert(surrogate_pair_value(hi, lo) == v);
    }
}

/// Decoding an encoded sequence followed by anything yields the sequence
/// first.
proof fn lemma_decode_encoded_then(x: Seq<char>, rest: Seq<u16>)
    ensures
        decode_utf16_lossy(encode_utf16(x) + rest) == x + decode_utf16_lossy(rest),
    decreases x.len(),
{
    if x.len() == 0 {
        assert(encode_utf16(x) + rest =~= rest);
        assert(x + decode_utf16_lossy(rest) =~= decode_utf16_lossy(rest));
    } else {
        let xs = x.drop_last();
        let c = x.last();
        assert(encode_utf16(x) + rest =~= encode_utf16(xs) + (char_utf16(c) + rest));
        lemma_decode_encoded_then(xs, char_utf16(c) + rest);
        lemma_decode_char_then(c, rest);
        assert(x =~= xs + seq![c]);
        assert(xs + (seq![c] + decode_utf16_lossy(rest)) =~= x + decode_utf16_lossy(rest));
    }
}

/// Text survives the trip to the shell and back: decoding the UTF-16
/// encoding of any character sequence gives the sequence again.
pub proof fn lemma_wide_round_trip(s: Seq<char>)
    ensures
        decode_utf16_lossy(encode_utf16(s)) == s,
{
    lemma_decode_encoded_then(s, seq![]);
    assert(encode_utf16(s) + seq![] =~= encode_utf16(s));
    assert(s + decode_utf16_lossy(seq![]) =~= s);
}

} // verus!
