//! The `application/x-www-form-urlencoded` syntax of a query value, as a
//! mathematical model: how a text is written into a query string, how it is
//! read back, and that reading undoes writing.

use crate::anatomy::free_of;
use vstd::prelude::*;
use vstd::utf8::*;

verus! {

/// The bytes that are written as they are: ASCII letters and digits, and
/// `*`, `-`, `.` and `_`.
pub open spec fn kept(b: u8) -> bool {
    ||| 0x30 <= b <= 0x39
    ||| 0x41 <= b <= 0x5a
    ||| 0x61 <= b <= 0x7a
    ||| b == 0x2a
    ||| b == 0x2d
    ||| b == 0x2e
    ||| b == 0x5f
}

/// The upper-case hexadecimal digit of a value below sixteen.
pub open spec fn hex_digit(n: u8) -> char {
    if n < 10 {
        ((0x30 + n) as u8) as char
    } else {
        ((0x37 + n) as u8) as char
    }
}

/// What one byte becomes: itself where it is kept, `+` for a space, and
/// otherwise `%` with its two hexadecimal digits.
pub open spec fn encode_byte(b: u8) -> Seq<char> {
    if kept(b) {
        seq![b as char]
    } else if b == 0x20 {
        seq!['+']
    } else {
        seq!['%', hex_digit(b / 16), hex_digit(b % 16)]
    }
}

/// The encodings of the bytes, one after the other.
pub open spec fn encode_bytes(bytes: Seq<u8>) -> Seq<char>
    decreases bytes.len(),
{
    if bytes.len() == 0 {
        Seq::empty()
    } else {
        encode_byte(bytes[0]) + encode_bytes(bytes.drop_first())
    }
}

/// A text as it stands in a query string: its UTF-8 bytes, encoded.
pub open spec fn form_encode(text: Seq<char>) -> Seq<char> {
    encode_bytes(encode_utf8(text))
}

/// A name and its value, joined by `=`.
pub open spec fn form_pair(pair: (Seq<char>, Seq<char>)) -> Seq<char> {
    form_encode(pair.0) + seq!['='] + form_encode(pair.1)
}

/// The pairs in their order, joined by `&`.
pub open spec fn form_pairs(pairs: Seq<(Seq<char>, Seq<char>)>) -> Seq<char>
    decreases pairs.len(),
{
    if pairs.len() == 0 {
        Seq::empty()
    } else if pairs.len() == 1 {
        form_pair(pairs[0])
    } else {
        form_pairs(pairs.drop_last()) + seq!['&'] + form_pair(pairs.last())
    }
}

/// The characters that an encoded text is made of.
pub open spec fn form_char(c: char) -> bool {
    ||| '0' <= c <= '9'
    ||| 'A' <= c <= 'Z'
    ||| 'a' <= c <= 'z'
    ||| c == '*'
    ||| c == '-'
    ||| c == '.'
    ||| c == '_'
    ||| c == '+'
    ||| c == '%'
}

/// The value of a hexadecimal digit, in either case.
pub open spec fn hex_value(c: char) -> Option<u8> {
    if '0' <= c <= '9' {
        Some((c as u8 - 0x30) as u8)
    } else if 'A' <= c <= 'F' {
        Some((c as u8 - 0x37) as u8)
    } else if 'a' <= c <= 'f' {
        Some((c as u8 - 0x57) as u8)
    } else {
        None
    }
}

/// Whether the text starts with `%` and two hexadecimal digits.
pub open spec fn starts_with_escape(s: Seq<char>) -> bool {
    &&& s.len() >= 3
    &&& s[0] == '%'
    &&& hex_value(s[1]) is Some
    &&& hex_value(s[2]) is Some
}

/// The bytes that a query value stands for: an escape is its byte, `+` is a
/// space, and any other character is its own UTF-8 bytes.
pub open spec fn decode_bytes(s: Seq<char>) -> Seq<u8>
    decreases s.len(),
{
    if s.len() == 0 {
        Seq::empty()
    } else if starts_with_escape(s) {
        seq![(hex_value(s[1])->0 * 16 + hex_value(s[2])->0) as u8] + decode_bytes(s.skip(3))
    } else if s[0] == '+' {
        seq![0x20u8] + decode_bytes(s.drop_first())
    } else {
        encode_scalar(s[0] as u32) + decode_bytes(s.drop_first())
    }
}

/// The text that a query value stands for, where its bytes are UTF-8.
pub open spec fn form_decode(s: Seq<char>) -> Option<Seq<char>> {
    if valid_utf8(decode_bytes(s)) {
        Some(decode_utf8(decode_bytes(s)))
    } else {
        None
    }
}

/// Whether every character of the text is one of `form_char`.
pub open spec fn form_text(s: Seq<char>) -> bool {
    forall|i: int| 0 <= i < s.len() ==> form_char(#[trigger] s[i])
}

/// The characters that are written as they are.
pub open spec fn plain_char(c: char) -> bool {
    ||| '0' <= c <= '9'
    ||| 'A' <= c <= 'Z'
    ||| 'a' <= c <= 'z'
    ||| c == '*'
    ||| c == '-'
    ||| c == '.'
    ||| c == '_'
}

/// Whether every character of the text is written as it is.
pub open spec fn plain_text(s: Seq<char>) -> bool {
    forall|i: int| 0 <= i < s.len() ==> plain_char(#[trigger] s[i])
}

/// A hexadecimal digit is a `form_char`, and its value is what it was written
/// for.
proof fn lemma_hex_digit(n: u8)
    requires
        n < 16,
    ensures
        hex_value(hex_digit(n)) == Some(n),
        form_char(hex_digit(n)),
{
}

/// A byte is its two hexadecimal digits.
proof fn lemma_nibbles(b: u8)
    ensures
        b / 16 < 16,
        b % 16 < 16,
        (b / 16) * 16 + b % 16 == b,
{
}

/// An ASCII character is one byte in UTF-8: its own code.
proof fn lemma_ascii_scalar(b: u8)
    requires
        b <= 0x7f,
    ensures
        encode_scalar((b as char) as u32) == seq![b],
{
    let v: u32 = (b as char) as u32;
    assert(v == b as u32);
    assert((v & 0x7f) as u8 == b) by (bit_vector)
        requires
            v == b as u32,
            b <= 0x7f,
    ;
}

/// The encoding of one byte is made of `form_char` characters.
pub proof fn lemma_encode_byte_chars(b: u8)
    ensures
        form_text(encode_byte(b)),
{
    lemma_nibbles(b);
    lemma_hex_digit(b / 16);
    lemma_hex_digit(b % 16);
}

/// An encoded text is made of `form_char` characters.
pub proof fn lemma_encode_bytes_chars(bytes: Seq<u8>)
    ensures
        form_text(encode_bytes(bytes)),
    decreases bytes.len(),
{
    if bytes.len() > 0 {
        lemma_encode_byte_chars(bytes[0]);
        lemma_encode_bytes_chars(bytes.drop_first());
    }
}

/// Reading what was written for one byte, with more text behind it, gives
/// the byte and goes on behind it.
proof fn lemma_decode_byte(b: u8, rest: Seq<char>)
    ensures
        decode_bytes(encode_byte(b) + rest) == seq![b] + decode_bytes(rest),
{
    let s = encode_byte(b) + rest;
    lemma_nibbles(b);
    lemma_hex_digit(b / 16);
    lemma_hex_digit(b % 16);
    if kept(b) {
        lemma_ascii_scalar(b);
        assert(s.drop_first() =~= rest);
    } else if b == 0x20 {
        assert(s.drop_first() =~= rest);
    } else {
        assert(s.skip(3) =~= rest);
    }
}

/// Reading undoes writing, byte for byte.
pub proof fn lemma_decode_encode_bytes(bytes: Seq<u8>)
    ensures
        decode_bytes(encode_bytes(bytes)) == bytes,
    decreases bytes.len(),
{
    if bytes.len() > 0 {
        lemma_decode_byte(bytes[0], encode_bytes(bytes.drop_first()));
        lemma_decode_encode_bytes(bytes.drop_first());
        assert(seq![bytes[0]] + bytes.drop_first() =~= bytes);
    }
}

/// Reading undoes writing: whatever the text holds, decoding its encoded
/// form gives the text back.
pub proof fn lemma_form_round_trip(text: Seq<char>)
    ensures
        form_decode(form_encode(text)) == Some(text),
{
    lemma_decode_encode_bytes(encode_utf8(text));
    encode_utf8_valid_utf8(text);
    encode_utf8_decode_utf8(text);
}

/// A text of plain characters is written as it is.
pub proof fn lemma_encode_plain(text: Seq<char>)
    requires
        plain_text(text),
    ensures
        form_encode(text) == text,
    decreases text.len(),
{
    if text.len() > 0 {
        let rest = text.drop_first();
        assert(plain_text(rest)) by {
            assert forall|i: int| 0 <= i < rest.len() implies plain_char(#[trigger] rest[i]) by {
                assert(rest[i] == text[i + 1]);
            }
        }
        lemma_encode_plain(rest);
        assert(plain_char(text[0]));
        let b: u8 = text[0] as u8;
        char_u32_cast(text[0], text[0] as u32);
        assert(b as char == text[0]);
        lemma_ascii_scalar(b);
        assert(encode_utf8(text) == seq![b] + encode_utf8(rest));
        assert((seq![b] + encode_utf8(rest)).drop_first() =~= encode_utf8(rest));
        assert(seq![text[0]] + rest =~= text);
    }
}

/// An encoded text holds none of the characters in `stops`, where none of
/// them is a `form_char`: so none of `&`, `=`, `?` and `#`, whatever the text
/// holds.
pub proof fn lemma_form_encode_avoids(text: Seq<char>, stops: Set<char>)
    requires
        forall|c: char| stops.contains(c) ==> !form_char(c),
    ensures
        free_of(form_encode(text), stops),
{
    lemma_encode_bytes_chars(encode_utf8(text));
    assert forall|i: int| 0 <= i < form_encode(text).len() implies !stops.contains(
        #[trigger] form_encode(text)[i],
    ) by {
        assert(form_char(form_encode(text)[i]));
    }
}

/// A plain text holds none of the characters in `stops`, where none of them
/// is a `plain_char`.
pub proof fn lemma_plain_avoids(text: Seq<char>, stops: Set<char>)
    requires
        plain_text(text),
        forall|c: char| stops.contains(c) ==> !plain_char(c),
    ensures
        free_of(text, stops),
{
    assert forall|i: int| 0 <= i < text.len() implies !stops.contains(#[trigger] text[i]) by {
        assert(plain_char(text[i]));
    }
}

} // verus!
