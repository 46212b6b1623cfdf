//! Percent-encoding of URL path parts.
//!
//! A byte that is an ASCII alphanumeric or one of the unreserved marks
//! `-`, `_`, `.`, `~` passes through unchanged; every other byte of the
//! UTF-8 form becomes `%` followed by two uppercase hexadecimal digits.

use vstd::prelude::*;
use vstd::string::*;

verus! {

/// Bytes the encoder passes through unchanged.
pub open spec fn is_kept_byte(b: u8) -> bool {
    (65 <= b && b <= 90)  // 'A'..='Z'
    || (97 <= b && b <= 122)  // 'a'..='z'
    || (48 <= b && b <= 57)  // '0'..='9'
    || b == 45 || b == 95 || b == 46 || b == 126  // '-' '_' '.' '~'
}

/// The ASCII byte of one uppercase hexadecimal digit.
pub open spec fn hex_digit_byte(d: u8) -> u8 {
    if d < 10 {
        (48 + d) as u8
    } else {
        (55 + d) as u8
    }
}

/// The encoding of a single byte.
pub open spec fn encode_byte(b: u8) -> Seq<u8> {
    if is_kept_byte(b) {
        seq![b]
    } else {
        seq![37u8, hex_digit_byte(b / 16), hex_digit_byte(b % 16)]
    }
}

/// The encoding of a byte string.
pub open spec fn encode_bytes(bs: Seq<u8>) -> Seq<u8>
    decreases bs.len(),
{
    if bs.len() == 0 {
        Seq::empty()
    } else {
        encode_bytes(bs.drop_last()) + encode_byte(bs.last())
    }
}

/// ASCII bytes read as text.
pub open spec fn ascii_chars_of(bs: Seq<u8>) -> Seq<char> {
    bs.map_values(|b: u8| b as char)
}

/// The percent-encoded form of a string's UTF-8 bytes, as text.
pub open spec fn percent_encoded(bytes: Seq<u8>) -> Seq<char> {
    ascii_chars_of(encode_bytes(bytes))
}

/// The percent-encoded form of a text, over its UTF-8 bytes.
pub open spec fn percent_encoded_text(s: Seq<char>) -> Seq<char> {
    percent_encoded(vstd::utf8::encode_utf8(s))
}

/// Relies on `String::from_utf8` of std: bytes below 128 are one-byte UTF-8
/// code points, so the call succeeds and the string's characters are exactly
/// the given bytes.
#[verifier::external_body]
fn ascii_string_from_bytes(bytes: Vec<u8>) -> (r: String)
    requires
        forall|i: int| 0 <= i < bytes@.len() ==> bytes@[i] < 128,
    ensures
        r@ == ascii_chars_of(bytes@),
{
    match String::from_utf8(bytes) {
        Ok(s) => s,
        Err(_) => String::new(),
    }
}

fn hex_digit(d: u8) -> (r: u8)
    requires
        d < 16,
    ensures
        r == hex_digit_byte(d),
{
    if d < 10 {
        48 + d
    } else {
        55 + d
    }
}

fn keep(b: u8) -> (r: bool)
    ensures
        r == is_kept_byte(b),
{
    (65 <= b && b <= 90) || (97 <= b && b <= 122) || (48 <= b && b <= 57) || b == 45 || b == 95
        || b == 46 || b == 126
}

/// Percent-encodes `s` for use as one part of a URL path.
pub fn percent_encode_str(s: &str) -> (r: String)
    ensures
        r@ == percent_encoded(s.spec_bytes()),
        r@ == percent_encoded_text(s@),
{
    let bytes = s.as_bytes_vec();
    let mut out: Vec<u8> = Vec::new();
    let mut i: usize = 0;
    while i < bytes.len()
        invariant
            bytes@ == s.spec_bytes(),
            i <= bytes@.len(),
            out@ == encode_bytes(bytes@.take(i as int)),
            forall|k: int| 0 <= k < out@.len() ==> out@[k] < 128,
        decreases bytes@.len() - i,
    {
        let b = bytes[i];
        if keep(b) {
            out.push(b);
        } else {
            out.push(37);
            out.push(hex_digit(b / 16));
            out.push(hex_digit(b % 16));
        }
        proof {
            assert(bytes@.take(i + 1).drop_last() =~= bytes@.take(i as int));
            assert(bytes@.take(i + 1).last() == bytes@[i as int]);
            assert(out@ =~= encode_bytes(bytes@.take(i + 1)));
        }
        i += 1;
    }
    proof {
        assert(bytes@.take(bytes@.len() as int) =~= bytes@);
    }
    ascii_string_from_bytes(out)
}

} // verus!
