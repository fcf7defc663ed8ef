//! Byte-level percent-encoding.
//!
//! A string is escaped over its UTF-8 byte sequence: a byte in the chosen
//! character set passes through, every other byte becomes a `%XX` triplet
//! with two uppercase hex digits.  Multi-byte UTF-8 sequences are therefore
//! escaped byte by byte.

use vstd::prelude::*;
use vstd::utf8::encode_utf8;

verus! {

/// The two percent-encoding character sets: `U` passes only the unreserved
/// characters through; `UR` additionally passes the reserved set.
#[derive(Copy, Clone, PartialEq, Eq, Structural, Debug)]
pub enum UriTemplateEscaping {
    U,
    UR,
}

/// ASCII letters, digits, and `-` `.` `_` `~`.
pub open spec fn is_unreserved_byte(b: u8) -> bool {
    ||| 0x41 <= b <= 0x5a  // A-Z
    ||| 0x61 <= b <= 0x7a  // a-z
    ||| 0x30 <= b <= 0x39  // 0-9
    ||| b == 0x2d  // -
    ||| b == 0x2e  // .
    ||| b == 0x5f  // _
    ||| b == 0x7e  // ~
}

/// The reserved characters `: / ? # [ ] @ ! $ & ' ( ) * + , ; =`.
pub open spec fn is_reserved_byte(b: u8) -> bool {
    ||| b == 0x3a  // :
    ||| b == 0x2f  // /
    ||| b == 0x3f  // ?
    ||| b == 0x23  // #
    ||| b == 0x5b  // [
    ||| b == 0x5d  // ]
    ||| b == 0x40  // @
    ||| b == 0x21  // !
    ||| b == 0x24  // $
    ||| b == 0x26  // &
    ||| b == 0x27  // '
    ||| b == 0x28  // (
    ||| b == 0x29  // )
    ||| b == 0x2a  // *
    ||| b == 0x2b  // +
    ||| b == 0x2c  // ,
    ||| b == 0x3b  // ;
    ||| b == 0x3d  // =
}

/// Whether a byte passes through the given escaping mode unencoded.
pub open spec fn passes_unescaped(method: UriTemplateEscaping, b: u8) -> bool {
    match method {
        UriTemplateEscaping::U => is_unreserved_byte(b),
        UriTemplateEscaping::UR => is_unreserved_byte(b) || is_reserved_byte(b),
    }
}

/// The uppercase hex digit for a value below 16, as an ASCII byte.
pub open spec fn hex_digit_byte(n: int) -> u8
    recommends
        0 <= n < 16,
{
    if n < 10 {
        (0x30 + n) as u8
    } else {
        (0x41 + (n - 10)) as u8
    }
}

/// What one input byte contributes to the escaped output: itself, or `%XX`.
pub open spec fn escaped_byte(method: UriTemplateEscaping, b: u8) -> Seq<u8> {
    if passes_unescaped(method, b) {
        seq![b]
    } else {
        seq![0x25u8, hex_digit_byte(b as int / 16), hex_digit_byte(b as int % 16)]
    }
}

/// The escaped form of a whole byte sequence.
pub open spec fn escaped_bytes(method: UriTemplateEscaping, bs: Seq<u8>) -> Seq<u8>
    decreases bs.len(),
{
    if bs.len() == 0 {
        Seq::empty()
    } else {
        escaped_bytes(method, bs.drop_last()) + escaped_byte(method, bs.last())
    }
}

/// A sequence of ASCII bytes read as the characters of the same code points.
pub open spec fn chars_of_ascii_bytes(bs: Seq<u8>) -> Seq<char> {
    bs.map_values(|b: u8| b as char)
}

/// Escaping a string: its UTF-8 bytes are escaped and the resulting ASCII
/// bytes are read back as characters.
pub open spec fn spec_escape(method: UriTemplateEscaping, s: Seq<char>) -> Seq<char> {
    chars_of_ascii_bytes(escaped_bytes(method, encode_utf8(s)))
}

/// Every byte of an escaped sequence is ASCII.
pub proof fn lemma_escaped_bytes_ascii(method: UriTemplateEscaping, bs: Seq<u8>)
    ensures
        forall|i: int| 0 <= i < escaped_bytes(method, bs).len() ==> escaped_bytes(method, bs)[i] < 0x80,
    decreases bs.len(),
{
    if bs.len() > 0 {
        lemma_escaped_bytes_ascii(method, bs.drop_last());
        let head = escaped_bytes(method, bs.drop_last());
        let tail = escaped_byte(method, bs.last());
        assert(forall|i: int| 0 <= i < tail.len() ==> #[trigger] tail[i] < 0x80);
        assert(forall|i: int|
            0 <= i < escaped_bytes(method, bs).len() ==> #[trigger] escaped_bytes(method, bs)[i]
                == if i < head.len() {
                head[i]
            } else {
                tail[i - head.len()]
            });
    }
}

/// A sequence whose every byte passes unescaped is left unchanged.
pub proof fn lemma_escaped_bytes_identity(method: UriTemplateEscaping, bs: Seq<u8>)
    requires
        forall|i: int| 0 <= i < bs.len() ==> passes_unescaped(method, #[trigger] bs[i]),
    ensures
        escaped_bytes(method, bs) == bs,
    decreases bs.len(),
{
    if bs.len() == 0 {
        assert(escaped_bytes(method, bs) =~= bs);
    } else {
        lemma_escaped_bytes_identity(method, bs.drop_last());
        assert(escaped_bytes(method, bs) =~= bs);
    }
}

fn passes_unescaped_exec(method: UriTemplateEscaping, b: u8) -> (r: bool)
    ensures
        r == passes_unescaped(method, b),
{
    let unreserved = (0x41 <= b && b <= 0x5a) || (0x61 <= b && b <= 0x7a) || (0x30 <= b && b
        <= 0x39) || b == 0x2d || b == 0x2e || b == 0x5f || b == 0x7e;
    match method {
        UriTemplateEscaping::U => unreserved,
        UriTemplateEscaping::UR => {
            unreserved || b == 0x3a || b == 0x2f || b == 0x3f || b == 0x23 || b == 0x5b || b
                == 0x5d || b == 0x40 || b == 0x21 || b == 0x24 || b == 0x26 || b == 0x27 || b
                == 0x28 || b == 0x29 || b == 0x2a || b == 0x2b || b == 0x2c || b == 0x3b || b
                == 0x3d
        },
    }
}

fn hex_digit(n: u8) -> (r: u8)
    requires
        n < 16,
    ensures
        r == hex_digit_byte(n as int),
{
    if n < 10 {
        0x30 + n
    } else {
        0x41 + (n - 10)
    }
}

fn escape_bytes(method: UriTemplateEscaping, input: &[u8]) -> (out: Vec<u8>)
    ensures
        out@ == escaped_bytes(method, input@),
{
    let mut out: Vec<u8> = Vec::new();
    let mut i: usize = 0;
    while i < input.len()
        invariant
            i <= input@.len(),
            out@ == escaped_bytes(method, input@.take(i as int)),
        decreases input@.len() - i,
    {
        let b = input[i];
        if passes_unescaped_exec(method, b) {
            out.push(b);
        } else {
            out.push(0x25);
            out.push(hex_digit(b / 16));
            out.push(hex_digit(b % 16));
        }
        proof {
            assert(input@.take(i + 1).drop_last() =~= input@.take(i as int));
            assert(input@.take(i + 1).last() == input@[i as int]);
            assert(out@ =~= escaped_bytes(method, input@.take(i as int)) + escaped_byte(
                method,
                input@[i as int],
            ));
        }
        i = i + 1;
    }
    proof {
        assert(input@.take(input@.len() as int) =~= input@);
    }
    out
}

/// Relies on `String::from_utf8`: a sequence of ASCII bytes is valid UTF-8
/// and decodes to the string whose characters have exactly those code points.
#[verifier::external_body]
pub(crate) fn ascii_bytes_to_string(bytes: Vec<u8>) -> (r: String)
    requires
        forall|i: int| 0 <= i < bytes@.len() ==> bytes@[i] < 0x80,
    ensures
        r@ == chars_of_ascii_bytes(bytes@),
{
    match String::from_utf8(bytes) {
        Ok(s) => s,
        Err(_) => String::new(),
    }
}

/// Percent-encode a string per the chosen character set, byte by byte over
/// its UTF-8 encoding, with uppercase hex digits.
pub fn escape_string(method: UriTemplateEscaping, input: &str) -> (r: String)
    ensures
        r@ == spec_escape(method, input@),
{
    let bytes = input.as_bytes();
    let escaped = escape_bytes(method, bytes);
    proof {
        lemma_escaped_bytes_ascii(method, bytes@);
    }
    ascii_bytes_to_string(escaped)
}

} // verus!
