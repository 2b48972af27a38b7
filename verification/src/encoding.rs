//! Percent-encoding of text, as the `percent-encoding` crate's
//! `utf8_percent_encode` does it: each UTF-8 byte of the text is kept as its
//! ASCII character when the encode set leaves it alone, and written as `%`
//! and two upper-case hex digits otherwise. Bytes outside ASCII are always
//! written as `%XX`.

use vstd::prelude::*;
use vstd::utf8::encode_utf8;

use crate::text::push_char;

verus! {

/// Which bytes an encoding leaves unchanged.
pub enum EncodeSet {
    /// OAuth 1.0a (RFC 5849): ASCII letters, digits, `-`, `.`, `_` and `~`.
    OAuthUnreserved,
    /// `percent_encoding::NON_ALPHANUMERIC`: ASCII letters and digits.
    Alphanumeric,
}

/// Whether `b` is an ASCII letter or digit.
pub open spec fn is_ascii_alphanumeric(b: u8) -> bool {
    (48 <= b <= 57) || (65 <= b <= 90) || (97 <= b <= 122)
}

/// Whether an encoding with `set` leaves byte `b` unchanged.
pub open spec fn kept(b: u8, set: EncodeSet) -> bool {
    match set {
        EncodeSet::OAuthUnreserved => is_ascii_alphanumeric(b) || b == 45 || b == 46 || b == 95 || b == 126,
        EncodeSet::Alphanumeric => is_ascii_alphanumeric(b),
    }
}

/// The upper-case hex digit for `d` (`0 <= d < 16`).
pub open spec fn hex_digit(d: nat) -> char {
    if d < 10 {
        crate::text::digit_char(d)
    } else if d == 10 { 'A' } else if d == 11 { 'B' } else if d == 12 { 'C' }
    else if d == 13 { 'D' } else if d == 14 { 'E' } else { 'F' }
}

/// The text that byte `b` becomes.
pub open spec fn encoded_byte(b: u8, set: EncodeSet) -> Seq<char> {
    if kept(b, set) {
        seq![b as char]
    } else {
        seq!['%', hex_digit((b / 16) as nat), hex_digit((b % 16) as nat)]
    }
}

/// The text that a byte sequence becomes.
pub open spec fn percent_encoded(bytes: Seq<u8>, set: EncodeSet) -> Seq<char>
    decreases bytes.len(),
{
    if bytes.len() == 0 {
        Seq::empty()
    } else {
        percent_encoded(bytes.drop_last(), set) + encoded_byte(bytes.last(), set)
    }
}

fn hex_char(d: u8) -> (c: char)
    requires
        d < 16,
    ensures
        c == hex_digit(d as nat),
{
    if d < 10 {
        crate::text::digit_to_char(d)
    } else if d == 10 { 'A' } else if d == 11 { 'B' } else if d == 12 { 'C' }
    else if d == 13 { 'D' } else if d == 14 { 'E' } else { 'F' }
}

fn is_kept(b: u8, set: &EncodeSet) -> (r: bool)
    ensures
        r == kept(b, *set),
{
    let alnum = (48 <= b && b <= 57) || (65 <= b && b <= 90) || (97 <= b && b <= 122);
    match set {
        EncodeSet::OAuthUnreserved => alnum || b == 45 || b == 46 || b == 95 || b == 126,
        EncodeSet::Alphanumeric => alnum,
    }
}

/// Percent-encodes the UTF-8 bytes of `value`, keeping the bytes that `set`
/// leaves unchanged.
pub fn percent_encode(value: &str, set: EncodeSet) -> (r: String)
    ensures
        r@ == percent_encoded(encode_utf8(value@), set),
{
    let bytes = value.as_bytes();
    let ghost bs = encode_utf8(value@);
    let mut out = String::new();
    let mut i: usize = 0;
    assert(bs.take(0) =~= Seq::<u8>::empty());
    while i < bytes.len()
        invariant
            bytes@ == bs,
            i <= bytes.len(),
            out@ == percent_encoded(bs.take(i as int), set),
        decreases bytes.len() - i,
    {
        let b = bytes[i];
        assert(bs.take(i as int + 1).drop_last() =~= bs.take(i as int));
        assert(bs.take(i as int + 1).last() == b);
        let ghost before = out@;
        if is_kept(b, &set) {
            push_char(&mut out, b as char);
        } else {
            push_char(&mut out, '%');
            push_char(&mut out, hex_char(b / 16));
            push_char(&mut out, hex_char(b % 16));
        }
        assert(out@ =~= before + encoded_byte(b, set));
        i = i + 1;
    }
    assert(bs.take(bytes.len() as int) =~= bs);
    out
}

/// Percent-encodes a value according to OAuth 1.0a rules (RFC 5849 §3.6):
/// only ASCII letters, digits, `-`, `.`, `_` and `~` stay as they are.
pub fn percent_encode_oauth(value: &str) -> (r: String)
    ensures
        r@ == percent_encoded(encode_utf8(value@), EncodeSet::OAuthUnreserved),
{
    percent_encode(value, EncodeSet::OAuthUnreserved)
}

/// Encodes a user-provided path segment for safe URL construction: every
/// byte but ASCII letters and digits is percent-encoded, so the segment can
/// hold no `/`, `?`, `#` or `%` of its own.
pub fn encode_path_segment(value: &str) -> (r: String)
    ensures
        r@ == percent_encoded(encode_utf8(value@), EncodeSet::Alphanumeric),
{
    percent_encode(value, EncodeSet::Alphanumeric)
}

/// Whether `c` may appear in percent-encoded text for `set`: a kept byte,
/// `%`, or an upper-case hex digit.
pub open spec fn encoded_char(c: char, set: EncodeSet) -> bool {
    ((c as u32) < 128 && kept((c as u32) as u8, set)) || c == '%' || ('0' <= c <= '9') || ('A' <= c <= 'F')
}

/// Percent-encoded text holds only kept characters, `%` and hex digits.
/// In particular an encoded path segment never holds `/`, `?`, `#` or a
/// space, so it cannot change the shape of the URL it is placed in.
pub proof fn lemma_encoded_chars(bytes: Seq<u8>, set: EncodeSet)
    ensures
        forall|i: int| 0 <= i < percent_encoded(bytes, set).len()
            ==> encoded_char(#[trigger] percent_encoded(bytes, set)[i], set),
    decreases bytes.len(),
{
    if bytes.len() > 0 {
        lemma_encoded_chars(bytes.drop_last(), set);
        let prev = percent_encoded(bytes.drop_last(), set);
        let last = encoded_byte(bytes.last(), set);
        let b = bytes.last();
        assert forall|i: int| 0 <= i < percent_encoded(bytes, set).len()
            implies encoded_char(#[trigger] percent_encoded(bytes, set)[i], set) by {
            if i < prev.len() {
                assert(percent_encoded(bytes, set)[i] == prev[i]);
            } else {
                assert(percent_encoded(bytes, set)[i] == last[i - prev.len()]);
                if kept(b, set) {
                    assert((b as char) as u32 == b as u32);
                } else {
                    let hi = (b / 16) as nat;
                    let lo = (b % 16) as nat;
                    assert(hi < 16 && lo < 16);
                    assert('0' <= hex_digit(hi) <= '9' || 'A' <= hex_digit(hi) <= 'F');
                    assert('0' <= hex_digit(lo) <= '9' || 'A' <= hex_digit(lo) <= 'F');
                }
            }
        }
    }
}


/// The number an upper-case hex digit stands for (0 for any other
/// character).
pub open spec fn hex_value(c: char) -> nat {
    if c == '0' { 0 } else if c == '1' { 1 } else if c == '2' { 2 } else if c == '3' { 3 }
    else if c == '4' { 4 } else if c == '5' { 5 } else if c == '6' { 6 } else if c == '7' { 7 }
    else if c == '8' { 8 } else if c == '9' { 9 } else if c == 'A' { 10 } else if c == 'B' { 11 }
    else if c == 'C' { 12 } else if c == 'D' { 13 } else if c == 'E' { 14 } else if c == 'F' { 15 }
    else { 0 }
}

/// Reads percent-encoded text back into bytes: `%` and two hex digits give
/// one byte, any other character gives its own code.
pub open spec fn percent_decoded(cs: Seq<char>) -> Seq<u8>
    decreases cs.len(),
{
    if cs.len() == 0 {
        Seq::empty()
    } else if cs[0] == '%' && cs.len() >= 3 {
        seq![(hex_value(cs[1]) * 16 + hex_value(cs[2])) as u8] + percent_decoded(cs.subrange(3, cs.len() as int))
    } else {
        seq![(cs[0] as u32) as u8] + percent_decoded(cs.drop_first())
    }
}

proof fn lemma_percent_encoded_concat(a: Seq<u8>, b: Seq<u8>, set: EncodeSet)
    ensures
        percent_encoded(a + b, set) == percent_encoded(a, set) + percent_encoded(b, set),
    decreases b.len(),
{
    if b.len() == 0 {
        assert(a + b =~= a);
        assert(percent_encoded(a, set) + percent_encoded(b, set) =~= percent_encoded(a, set));
    } else {
        lemma_percent_encoded_concat(a, b.drop_last(), set);
        assert((a + b).drop_last() =~= a + b.drop_last());
        assert((a + b).last() == b.last());
        assert(percent_encoded(a + b, set) =~= percent_encoded(a, set) + percent_encoded(b, set));
    }
}

proof fn lemma_decode_encoded_byte(b: u8, rest: Seq<char>, set: EncodeSet)
    ensures
        percent_decoded(encoded_byte(b, set) + rest) == seq![b] + percent_decoded(rest),
{
    let e = encoded_byte(b, set);
    let cs = e + rest;
    if kept(b, set) {
        assert((b as char) as u32 == b as u32);
        assert(cs[0] == b as char);
        assert(b as char != '%');
        assert(cs.drop_first() =~= rest);
        assert(((b as char) as u32) as u8 == b);
    } else {
        let hi = (b / 16) as nat;
        let lo = (b % 16) as nat;
        assert(hex_value(hex_digit(hi)) == hi);
        assert(hex_value(hex_digit(lo)) == lo);
        assert(cs[0] == '%' && cs[1] == hex_digit(hi) && cs[2] == hex_digit(lo));
        assert(cs.subrange(3, cs.len() as int) =~= rest);
        assert(hi * 16 + lo == b);
    }
}

/// Percent-encoding loses nothing: decoding the encoded text gives back the
/// bytes.
pub proof fn lemma_percent_decode_encoded(bytes: Seq<u8>, set: EncodeSet)
    ensures
        percent_decoded(percent_encoded(bytes, set)) == bytes,
    decreases bytes.len(),
{
    if bytes.len() > 0 {
        let first = seq![bytes[0]];
        let rest = bytes.drop_first();
        assert(bytes =~= first + rest);
        lemma_percent_encoded_concat(first, rest, set);
        assert(first.drop_last() =~= Seq::<u8>::empty());
        assert(first.last() == bytes[0]);
        assert(percent_encoded(Seq::<u8>::empty(), set) =~= Seq::<char>::empty());
        assert(percent_encoded(first, set) =~= encoded_byte(bytes[0], set));
        lemma_decode_encoded_byte(bytes[0], percent_encoded(rest, set), set);
        lemma_percent_decode_encoded(rest, set);
        assert(seq![bytes[0]] + rest =~= bytes);
    }
}

/// Different texts never encode alike: the encoding of a text determines
/// the text.
pub proof fn lemma_percent_encoding_injective(a: Seq<char>, b: Seq<char>, set: EncodeSet)
    requires
        percent_encoded(encode_utf8(a), set) == percent_encoded(encode_utf8(b), set),
    ensures
        a == b,
{
    lemma_percent_decode_encoded(encode_utf8(a), set);
    lemma_percent_decode_encoded(encode_utf8(b), set);
    vstd::utf8::encode_utf8_decode_utf8(a);
    vstd::utf8::encode_utf8_decode_utf8(b);
}

} // verus!
