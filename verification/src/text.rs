//! Text conversions between bytes and Rust strings, and decimal numerals.
use vstd::prelude::*;
use vstd::utf8::{decode_first_codepoint, decode_utf8, encode_utf8, length_of_first_scalar, pop_first_scalar, valid_first_scalar, valid_utf8};

verus! {

/// The text that std's lossy UTF-8 decoding gives for `bytes`: every maximal
/// invalid sequence becomes U+FFFD, the rest is decoded.
pub uninterp spec fn utf8_lossy_text(bytes: Seq<u8>) -> Seq<char>;

/// Calls `String::from_utf8_lossy`. The result is named by `utf8_lossy_text`;
/// std documents that valid UTF-8 comes back as it is, so then the result's
/// UTF-8 bytes are the input.
#[verifier::external_body]
pub(crate) fn utf8_lossy(bytes: &[u8]) -> (r: String)
    ensures
        r@ == utf8_lossy_text(bytes@),
        valid_utf8(bytes@) ==> encode_utf8(r@) == bytes@,
{
    String::from_utf8_lossy(bytes).into_owned()
}

/// The byte length of the valid UTF-8 encoding of one character that starts
/// `b` at `i`, or 0 when no valid encoding of a character starts there.
fn first_scalar_len(b: &[u8], i: usize) -> (r: usize)
    requires
        i < b@.len(),
    ensures
        r != 0 <==> valid_first_scalar(b@.subrange(i as int, b@.len() as int)),
        r != 0 ==> r == length_of_first_scalar(b@.subrange(i as int, b@.len() as int)),
        r <= 4,
{
    let ghost rest = b@.subrange(i as int, b@.len() as int);
    let n = b.len() - i;
    let b0 = b[i];
    assert(rest[0] == b0);
    if b0 <= 0x7f {
        1
    } else if 0xc0 <= b0 && b0 <= 0xdf {
        if n < 2 {
            return 0;
        }
        let b1 = b[i + 1];
        assert(rest[1] == b1);
        if !(0x80 <= b1 && b1 <= 0xbf) {
            return 0;
        }
        let cp: u32 = (((b0 & 0x1F) as u32) << 6) | ((b1 & 0x3f) as u32);
        assert(cp == decode_first_codepoint(rest));
        if 0x80 <= cp && !(0xD800 <= cp && cp <= 0xDFFF) {
            2
        } else {
            0
        }
    } else if 0xe0 <= b0 && b0 <= 0xef {
        if n < 3 {
            return 0;
        }
        let b1 = b[i + 1];
        let b2 = b[i + 2];
        assert(rest[1] == b1 && rest[2] == b2);
        if !(0x80 <= b1 && b1 <= 0xbf && 0x80 <= b2 && b2 <= 0xbf) {
            return 0;
        }
        let cp: u32 = (((b0 & 0x0F) as u32) << 12) | (((b1 & 0x3f) as u32) << 6) | ((b2
            & 0x3f) as u32);
        assert(cp == decode_first_codepoint(rest));
        if 0x800 <= cp && !(0xD800 <= cp && cp <= 0xDFFF) {
            3
        } else {
            0
        }
    } else if 0xf0 <= b0 && b0 <= 0xf7 {
        if n < 4 {
            return 0;
        }
        let b1 = b[i + 1];
        let b2 = b[i + 2];
        let b3 = b[i + 3];
        assert(rest[1] == b1 && rest[2] == b2 && rest[3] == b3);
        if !(0x80 <= b1 && b1 <= 0xbf && 0x80 <= b2 && b2 <= 0xbf && 0x80 <= b3 && b3 <= 0xbf) {
            return 0;
        }
        let cp: u32 = (((b0 & 0x07) as u32) << 18) | (((b1 & 0x3f) as u32) << 12) | (((b2
            & 0x3f) as u32) << 6) | ((b3 & 0x3f) as u32);
        assert(cp == decode_first_codepoint(rest));
        if 0x10000 <= cp && cp <= 0x10ffff && !(0xD800 <= cp && cp <= 0xDFFF) {
            4
        } else {
            0
        }
    } else {
        0
    }
}

/// Whether `bytes` are valid UTF-8, as `std::str::from_utf8` decides it: every
/// character is encoded by a well-formed sequence of the shortest length,
/// with no surrogate and nothing above U+10FFFF.
pub fn utf8_is_valid(bytes: &[u8]) -> (r: bool)
    ensures
        r == valid_utf8(bytes@),
{
    let len = bytes.len();
    let mut i: usize = 0;
    assert(bytes@.subrange(0, len as int) =~= bytes@);
    while i < len
        invariant
            len == bytes@.len(),
            i <= len,
            valid_utf8(bytes@) == valid_utf8(bytes@.subrange(i as int, len as int)),
        decreases len - i,
    {
        let ghost rest = bytes@.subrange(i as int, len as int);
        let w = first_scalar_len(bytes, i);
        if w == 0 {
            return false;
        }
        assert(pop_first_scalar(rest) =~= bytes@.subrange(i + w, len as int));
        i = i + w;
    }
    assert(bytes@.subrange(i as int, len as int) =~= Seq::<u8>::empty());
    true
}

/// Whether two texts hold the same characters.
pub fn text_eq(a: &str, b: &str) -> (r: bool)
    ensures
        r == (a@ == b@),
{
    let a_owned = a.to_owned();
    let b_owned = b.to_owned();
    a_owned == b_owned
}

/// The ASCII digits of `n` in base ten, most significant first, without
/// leading zeros ("0" for zero).
pub open spec fn decimal_digits(n: nat) -> Seq<u8>
    decreases n,
{
    if n < 10 {
        seq![(48 + n) as u8]
    } else {
        decimal_digits(n / 10).push((48 + n % 10) as u8)
    }
}

/// The ASCII decimal numeral of `x`, with a leading '-' when negative, as
/// Rust's `Display` writes an integer.
pub open spec fn decimal_numeral(x: int) -> Seq<u8> {
    if x < 0 {
        seq![45u8] + decimal_digits((-x) as nat)
    } else {
        decimal_digits(x as nat)
    }
}

/// Appends the decimal digits of `n` to `out`.
pub fn push_decimal_digits(out: &mut Vec<u8>, n: u64)
    ensures
        final(out)@ == old(out)@ + decimal_digits(n as nat),
    decreases n,
{
    if n >= 10 {
        push_decimal_digits(out, n / 10);
    }
    out.push(48u8 + (n % 10) as u8);
    assert(final(out)@ =~= old(out)@ + decimal_digits(n as nat));
}

/// Appends the decimal numeral of `x` to `out`.
pub fn push_decimal_i32(out: &mut Vec<u8>, x: i32)
    ensures
        final(out)@ == old(out)@ + decimal_numeral(x as int),
{
    if x < 0 {
        out.push(45u8);
        let magnitude: i64 = -(x as i64);
        push_decimal_digits(out, magnitude as u64);
        assert(final(out)@ =~= old(out)@ + decimal_numeral(x as int));
    } else {
        push_decimal_digits(out, x as u64);
    }
}

} // verus!

verus! {

/// The number that a string of ASCII digits denotes in base ten.
pub open spec fn digits_value(s: Seq<u8>) -> int
    decreases s.len(),
{
    if s.len() == 0 {
        0
    } else {
        digits_value(s.drop_last()) * 10 + (s.last() - 48)
    }
}

/// The number that a decimal numeral denotes: an optional '-' and digits.
pub open spec fn numeral_value(s: Seq<u8>) -> int {
    if s.len() > 0 && s[0] == 45u8 {
        -digits_value(s.drop_first())
    } else {
        digits_value(s)
    }
}

/// Law: the decimal digits of `n` are ASCII digits, at least one, without a
/// leading zero unless `n` is 0, and they denote `n`.
pub proof fn law_decimal_digits(n: nat)
    ensures
        decimal_digits(n).len() >= 1,
        forall|i: int| 0 <= i < decimal_digits(n).len() ==> 48 <= #[trigger] decimal_digits(n)[i] <= 57,
        decimal_digits(n).len() > 1 ==> decimal_digits(n)[0] != 48u8,
        decimal_digits(n).len() > 1 <==> n >= 10,
        digits_value(decimal_digits(n)) == n,
    decreases n,
{
    if n >= 10 {
        law_decimal_digits(n / 10);
        let d = decimal_digits(n);
        assert(d.drop_last() == decimal_digits(n / 10));
        assert(d[0] == decimal_digits(n / 10)[0]);
        assert forall|i: int| 0 <= i < d.len() implies 48 <= #[trigger] d[i] <= 57 by {
            if i < d.len() - 1 {
                assert(d[i] == decimal_digits(n / 10)[i]);
            }
        }
        if decimal_digits(n / 10).len() == 1 {
            assert(n / 10 < 10);
        }
        assert(d.last() == (48 + n % 10) as u8);
        assert(((48 + n % 10) as u8) as int == 48 + n % 10);
        assert((n / 10) * 10 + n % 10 == n);
        assert(digits_value(d) == digits_value(d.drop_last()) * 10 + (d.last() - 48));
    } else {
        let d = decimal_digits(n);
        assert(((48 + n) as u8) as int == 48 + n);
        assert(d.drop_last() =~= Seq::<u8>::empty());
        assert(digits_value(d) == digits_value(d.drop_last()) * 10 + (d.last() - 48));
    }
}

/// Law: the decimal numeral of `x` is made of ASCII digits after an optional
/// '-' (present exactly when `x` is negative) and denotes `x`.
pub proof fn law_decimal_numeral(x: int)
    ensures
        numeral_value(decimal_numeral(x)) == x,
        decimal_numeral(x).len() >= 1,
        (decimal_numeral(x)[0] == 45u8) <==> x < 0,
{
    if x < 0 {
        law_decimal_digits((-x) as nat);
        assert((seq![45u8] + decimal_digits((-x) as nat)).drop_first() == decimal_digits((-x) as nat));
    } else {
        law_decimal_digits(x as nat);
    }
}

/// Law: a text is the only text with its UTF-8 bytes. So where decoding the
/// UTF-8 bytes of a text gives back those bytes, it gives back the text.
pub proof fn law_utf8_text_is_determined(s: Seq<char>, t: Seq<char>)
    requires
        encode_utf8(t) == encode_utf8(s),
    ensures
        t == s,
{
    vstd::utf8::encode_utf8_decode_utf8(s);
    vstd::utf8::encode_utf8_decode_utf8(t);
    assert(decode_utf8(encode_utf8(t)) == decode_utf8(encode_utf8(s)));
}

} // verus!
