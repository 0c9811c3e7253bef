//! Hex-to-text decoding: turn a hexadecimal payload into bytes, read the
//! bytes as text, and keep the text only when it passes the printability
//! filter.

use vstd::prelude::*;
use crate::ascii::{
    all_printable_bytes, all_printable_chars, bytes_as_chars, is_printable_ascii,
    printable_byte, printable_char,
};
use vstd::utf8::{
    decode_utf8, decode_utf8_encode_utf8, encode_utf8, encode_utf8_decode_utf8,
    encode_utf8_valid_utf8, is_ascii_chars, is_ascii_chars_encode_utf8, valid_utf8,
};

verus! {

/// The character is one of the hexadecimal digits `0-9`, `a-f` or `A-F`.
pub open spec fn is_hex_digit(c: char) -> bool {
    (48 <= c as u32 && c as u32 <= 57)  // '0' ..= '9'
    || (97 <= c as u32 && c as u32 <= 102)  // 'a' ..= 'f'
    || (65 <= c as u32 && c as u32 <= 70)  // 'A' ..= 'F'
}

/// The numeric value of a hexadecimal digit.
pub open spec fn hex_digit_value(c: char) -> u8
    recommends
        is_hex_digit(c),
{
    if 48 <= c as u32 && c as u32 <= 57 {
        ((c as u32) - 48) as u8
    } else if 97 <= c as u32 && c as u32 <= 102 {
        ((c as u32) - 87) as u8
    } else {
        ((c as u32) - 55) as u8
    }
}

/// A string decodes as hexadecimal exactly when its length is even and every
/// character is a hex digit.
pub open spec fn valid_hex(s: Seq<char>) -> bool {
    s.len() % 2 == 0 && (forall|i: int| 0 <= i < s.len() ==> is_hex_digit(s[i]))
}

/// The bytes a hexadecimal string decodes to: each pair of digits gives one
/// byte, high nibble first.
pub open spec fn hex_bytes(s: Seq<char>) -> Seq<u8>
    recommends
        valid_hex(s),
    decreases s.len(),
{
    if s.len() < 2 {
        Seq::empty()
    } else {
        seq![(16 * hex_digit_value(s[0]) + hex_digit_value(s[1])) as u8] + hex_bytes(
            s.skip(2),
        )
    }
}

/// The message hidden in a hexadecimal payload, if any: the payload must
/// decode as hexadecimal and every decoded byte must be printable ASCII;
/// the message is then those bytes read as characters.  A payload that
/// fails either test yields no message.
pub open spec fn hidden_message(s: Seq<char>) -> Option<Seq<char>> {
    if valid_hex(s) && all_printable_bytes(hex_bytes(s)) {
        Some(bytes_as_chars(hex_bytes(s)))
    } else {
        None
    }
}

/// The hexadecimal digit character for a value below 16, lower case.
pub open spec fn hex_digit_char(v: u8) -> char
    recommends
        v < 16,
{
    if v < 10 {
        ((v + 48) as u8) as char
    } else {
        ((v + 87) as u8) as char
    }
}

/// The lower-case hexadecimal encoding of a byte sequence: two digit
/// characters per byte, high nibble first.
pub open spec fn hex_encoding(b: Seq<u8>) -> Seq<char>
    decreases b.len(),
{
    if b.len() == 0 {
        Seq::empty()
    } else {
        seq![hex_digit_char(b[0] / 16), hex_digit_char(b[0] % 16)] + hex_encoding(
            b.drop_first(),
        )
    }
}

proof fn lemma_hex_digit_char_value(v: u8)
    requires
        v < 16,
    ensures
        is_hex_digit(hex_digit_char(v)),
        hex_digit_value(hex_digit_char(v)) == v,
{
    if v < 10 {
        assert(((v + 48) as u8 as char) as u32 == v + 48);
    } else {
        assert(((v + 87) as u8 as char) as u32 == v + 87);
    }
}

/// Hexadecimal encoding round-trips: the encoding of any byte sequence is
/// a valid hex string and decodes back to exactly those bytes.
pub proof fn lemma_hex_round_trip(b: Seq<u8>)
    ensures
        valid_hex(hex_encoding(b)),
        hex_bytes(hex_encoding(b)) == b,
    decreases b.len(),
{
    if b.len() == 0 {
        assert(hex_bytes(hex_encoding(b)) =~= b);
    } else {
        let s = hex_encoding(b);
        let rest = hex_encoding(b.drop_first());
        lemma_hex_round_trip(b.drop_first());
        lemma_hex_digit_char_value(b[0] / 16);
        lemma_hex_digit_char_value(b[0] % 16);
        assert(s.len() == 2 + rest.len());
        assert forall|i: int| 0 <= i < s.len() implies is_hex_digit(s[i]) by {
            if i >= 2 {
                assert(s[i] == rest[i - 2]);
            }
        }
        assert(s.skip(2) =~= rest);
        assert(16 * (b[0] / 16) + b[0] % 16 == b[0]) by {
            vstd::arithmetic::div_mod::lemma_fundamental_div_mod(b[0] as int, 16);
        }
        assert(hex_bytes(s) =~= b);
    }
}

/// Text made of printable ASCII characters survives the whole pipeline:
/// hex-encode its byte codes and the scan finds exactly that text as the
/// hidden message.
pub proof fn lemma_printable_round_trip(b: Seq<u8>)
    requires
        all_printable_bytes(b),
    ensures
        hidden_message(hex_encoding(b)) == Some(bytes_as_chars(b)),
{
    lemma_hex_round_trip(b);
}

/// A hexadecimal payload holding any control byte (below 32) or the DEL
/// byte (127) hides no message: the printability filter rejects it.
pub proof fn lemma_control_byte_no_message(s: Seq<char>, i: int)
    requires
        0 <= i < hex_bytes(s).len(),
        hex_bytes(s)[i] < 32 || hex_bytes(s)[i] == 127,
    ensures
        hidden_message(s) is None,
{
    assert(!printable_byte(hex_bytes(s)[i]));
}

/// A payload of odd length, or holding any character that is not a hex
/// digit, hides no message: the decode failure is absorbed, never raised.
pub proof fn lemma_invalid_hex_no_message(s: Seq<char>)
    requires
        s.len() % 2 != 0 || exists|i: int| 0 <= i < s.len() && !is_hex_digit(s[i]),
    ensures
        hidden_message(s) is None,
{
}

/// Relies on `hex::decode`: it succeeds exactly on even-length strings of
/// hexadecimal digits (`0-9`, `a-f`, `A-F`), decoding each digit pair to one
/// byte, high nibble first, and fails on an odd length or any other
/// character.  `hex::decode` reads the string's UTF-8 bytes; on an ASCII
/// string those coincide with its characters, and a non-ASCII character
/// yields only bytes at or above 128, which fail exactly as the character
/// fails `is_hex_digit`.
#[verifier::external_body]
fn decode_hex(s: &str) -> (r: Option<Vec<u8>>)
    ensures
        r is Some <==> valid_hex(s@),
        r is Some ==> r->0@ == hex_bytes(s@),
{
    hex::decode(s).ok()
}

/// Relies on `String::from_utf8_lossy`: valid UTF-8 input decodes exactly
/// to its character sequence, and input with any invalid UTF-8 sequence has
/// that sequence replaced with U+FFFD in the result.
#[verifier::external_body]
fn bytes_to_text(b: &Vec<u8>) -> (r: String)
    ensures
        valid_utf8(b@) ==> r@ == decode_utf8(b@),
        !valid_utf8(b@) ==> exists|i: int| 0 <= i < r@.len() && r@[i] == '\u{FFFD}',
{
    String::from_utf8_lossy(b).to_string()
}

/// A sequence of ASCII bytes is valid UTF-8 and decodes to its bytes read
/// one-for-one as characters.
proof fn lemma_ascii_bytes_decode(b: Seq<u8>)
    requires
        forall|i: int| 0 <= i < b.len() ==> b[i] < 128,
    ensures
        valid_utf8(b),
        decode_utf8(b) == bytes_as_chars(b),
{
    let chars = bytes_as_chars(b);
    assert forall|i: int| 0 <= i < chars.len() implies '\0' <= #[trigger] chars[i]
        <= '\u{7f}' by {
        assert(chars[i] == b[i] as char);
        assert((b[i] as char) as u32 == b[i]);
    }
    assert(is_ascii_chars(chars));
    is_ascii_chars_encode_utf8(chars);
    assert(encode_utf8(chars) =~= b);
    encode_utf8_valid_utf8(chars);
    encode_utf8_decode_utf8(chars);
}

/// If valid UTF-8 bytes decode to characters that are all printable ASCII,
/// the bytes themselves were all printable ASCII.
proof fn lemma_printable_decode_printable_bytes(b: Seq<u8>)
    requires
        valid_utf8(b),
        all_printable_chars(decode_utf8(b)),
    ensures
        all_printable_bytes(b),
{
    let chars = decode_utf8(b);
    assert forall|i: int| 0 <= i < chars.len() implies '\0' <= #[trigger] chars[i]
        <= '\u{7f}' by {
        assert(printable_char(chars[i]));
        vstd::utf8::char_u32_cast(chars[i], chars[i] as u32);
    }
    assert(is_ascii_chars(chars));
    is_ascii_chars_encode_utf8(chars);
    decode_utf8_encode_utf8(b);
    assert forall|i: int| 0 <= i < b.len() implies printable_byte(b[i]) by {
        assert(b[i] == encode_utf8(chars)[i]);
        assert(chars[i] as u8 == b[i]);
        assert(printable_char(chars[i]));
        vstd::utf8::char_u32_cast(chars[i], chars[i] as u32);
    }
}

/// Decodes a hexadecimal payload and returns the text it hides, or `None`
/// when the payload is not valid hex or its bytes are not all printable
/// ASCII.  Decode failure is absorbed, never raised.
pub fn extract_hidden_message(hex_data: &str) -> (r: Option<String>)
    ensures
        r is Some <==> hidden_message(hex_data@) is Some,
        r is Some ==> r->0@ == hidden_message(hex_data@)->0,
{
    let data = match decode_hex(hex_data) {
        Some(data) => data,
        None => {
            return None;
        },
    };
    let message = bytes_to_text(&data);
    proof {
        if all_printable_bytes(data@) {
            lemma_ascii_bytes_decode(data@);
        } else {
            if valid_utf8(data@) {
                if all_printable_chars(message@) {
                    lemma_printable_decode_printable_bytes(data@);
                }
            } else {
                let i = choose|i: int| 0 <= i < message@.len() && message@[i] == '\u{FFFD}';
                assert(!printable_char(message@[i]));
            }
        }
    }
    if is_printable_ascii(message.as_str()) {
        Some(message)
    } else {
        None
    }
}

} // verus!
