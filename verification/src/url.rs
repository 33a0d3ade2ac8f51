//! Percent-encoding of path segments, and the joining of a URL.

use vstd::prelude::*;
use vstd::string::*;

verus! {

/// Whether a byte of a path segment is written as a percent escape: the
/// control characters, space, `"`, `#`, `<`, `>`, `?`, the backtick, `{`, `}`,
/// and every byte that is not ASCII.
pub open spec fn is_reserved(b: u8) -> bool {
    b <= 0x20 || b >= 0x7f || b == 0x22 || b == 0x23 || b == 0x3c || b == 0x3e || b == 0x3f || b
        == 0x60 || b == 0x7b || b == 0x7d
}

/// The digit of a value below 16, with capital letters from ten on.
pub open spec fn hex_digit(n: int) -> char {
    if n < 10 {
        (0x30 + n) as u8 as char
    } else {
        (0x37 + n) as u8 as char
    }
}

/// The percent escape of a byte: `%` and the byte's two hexadecimal digits.
pub open spec fn escape(b: u8) -> Seq<char> {
    seq!['%', hex_digit(b as int / 16), hex_digit(b as int % 16)]
}

/// What a byte of a segment becomes in a URL.
pub open spec fn encoded_byte(b: u8) -> Seq<char> {
    if is_reserved(b) {
        escape(b)
    } else {
        seq![b as char]
    }
}

/// What a sequence of bytes becomes in a URL.
pub open spec fn encoded_bytes(bytes: Seq<u8>) -> Seq<char>
    decreases bytes.len(),
{
    if bytes.len() == 0 {
        Seq::empty()
    } else {
        encoded_bytes(bytes.drop_last()) + encoded_byte(bytes.last())
    }
}

/// What a path segment becomes in a URL: the encoding of its bytes in UTF-8.
pub open spec fn encoded_segment(segment: Seq<char>) -> Seq<char> {
    encoded_bytes(vstd::utf8::encode_utf8(segment))
}

/// A base URL with path segments behind it, each after a `/` and encoded.
pub open spec fn joined(base: Seq<char>, segments: Seq<Seq<char>>) -> Seq<char>
    decreases segments.len(),
{
    if segments.len() == 0 {
        base
    } else {
        joined(base, segments.drop_last()) + seq!['/'] + encoded_segment(segments.last())
    }
}

/// Whether a byte of a path segment is written as a percent escape.
pub fn reserved(b: u8) -> (r: bool)
    ensures
        r == is_reserved(b),
{
    b <= 0x20 || b >= 0x7f || b == 0x22 || b == 0x23 || b == 0x3c || b == 0x3e || b == 0x3f || b
        == 0x60 || b == 0x7b || b == 0x7d
}

/// Calls `percent_encoding::percent_encode_byte`, which looks the byte up in
/// a table of all 256 escapes: `%` and two digits, capital letters for ten to
/// fifteen.
#[verifier::external_body]
fn escape_of(b: u8) -> (r: &'static str)
    ensures
        r@ == escape(b),
{
    percent_encoding::percent_encode_byte(b)
}

/// Calls `String::push`, which appends one character.
#[verifier::external_body]
pub(crate) fn push_char(text: &mut String, c: char)
    ensures
        final(text)@ == old(text)@.push(c),
{
    text.push(c)
}

/// Encodes a path segment for a URL.
pub fn encode_segment(segment: &str) -> (r: String)
    ensures
        r@ == encoded_segment(segment@),
{
    let bytes = segment.as_bytes();
    let mut out = String::new();
    let mut i: usize = 0;
    while i < bytes.len()
        invariant
            i <= bytes@.len(),
            out@ == encoded_bytes(bytes@.take(i as int)),
        decreases bytes.len() - i,
    {
        let b = bytes[i];
        proof {
            assert(bytes@.take(i + 1).drop_last() =~= bytes@.take(i as int));
        }
        if reserved(b) {
            out.append(escape_of(b));
        } else {
            push_char(&mut out, b as char);
            assert(out@ =~= encoded_bytes(bytes@.take(i as int)) + seq![b as char]);
        }
        i += 1;
    }
    proof {
        assert(bytes@.take(i as int) =~= bytes@);
    }
    out
}

} // verus!
