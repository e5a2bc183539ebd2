//! Percent-encoding of URL components: every byte of the UTF-8 encoding
//! that is not an unreserved character becomes `%` and two upper-case
//! hexadecimal digits.

use vstd::prelude::*;
use vstd::utf8::{encode_utf8, encode_utf8_decode_utf8, decode_utf8};
use crate::text::push_char;

verus! {

/// Whether a byte is an unreserved URL character: an ASCII letter or digit,
/// `-`, `.`, `_` or `~`.
pub open spec fn is_unreserved(byte: u8) -> bool {
    ||| 65 <= byte <= 90
    ||| 97 <= byte <= 122
    ||| 48 <= byte <= 57
    ||| byte == 45
    ||| byte == 46
    ||| byte == 95
    ||| byte == 126
}

/// The upper-case hexadecimal digit of a value below 16.
pub open spec fn hex_digit(value: u8) -> char {
    if value < 10 {
        (48 + value) as char
    } else {
        (55 + value) as char
    }
}

/// The encoding of one byte.
pub open spec fn encode_byte(byte: u8) -> Seq<char> {
    if is_unreserved(byte) {
        seq![byte as char]
    } else {
        seq!['%', hex_digit(byte / 16), hex_digit(byte % 16)]
    }
}

/// The percent-encoding of a byte sequence.
pub open spec fn percent_encoding(bytes: Seq<u8>) -> Seq<char>
    decreases bytes.len(),
{
    if bytes.len() == 0 {
        Seq::empty()
    } else {
        encode_byte(bytes[0]) + percent_encoding(bytes.drop_first())
    }
}

/// The percent-encoding of the UTF-8 encoding of a text.
pub open spec fn encoded(text: Seq<char>) -> Seq<char> {
    percent_encoding(encode_utf8(text))
}

/// The value of a hexadecimal digit.
pub open spec fn hex_value(c: char) -> int {
    if c <= '9' {
        c as int - 48
    } else {
        c as int - 55
    }
}

/// Decodes a percent-encoded text: `%` followed by two digits is one byte,
/// any other character is the byte of its code.
pub open spec fn percent_decoding(text: Seq<char>) -> Seq<u8>
    decreases text.len(),
{
    if text.len() == 0 {
        Seq::empty()
    } else if text[0] == '%' && text.len() >= 3 {
        seq![(hex_value(text[1]) * 16 + hex_value(text[2])) as u8] + percent_decoding(text.skip(3))
    } else {
        seq![text[0] as u8] + percent_decoding(text.skip(1))
    }
}

/// Encoding a byte sequence extended by one byte appends the encoding of
/// that byte.
pub proof fn lemma_percent_encoding_push(bytes: Seq<u8>, byte: u8)
    ensures
        percent_encoding(bytes.push(byte)) == percent_encoding(bytes) + encode_byte(byte),
    decreases bytes.len(),
{
    if bytes.len() == 0 {
        assert(bytes.push(byte).drop_first() =~= Seq::<u8>::empty());
        assert(percent_encoding(Seq::<u8>::empty()) =~= Seq::<char>::empty());
        assert(encode_byte(byte) + Seq::<char>::empty() =~= encode_byte(byte));
    } else {
        assert(bytes.push(byte).drop_first() =~= bytes.drop_first().push(byte));
        lemma_percent_encoding_push(bytes.drop_first(), byte);
        assert(encode_byte(bytes[0]) + (percent_encoding(bytes.drop_first()) + encode_byte(byte))
            =~= (encode_byte(bytes[0]) + percent_encoding(bytes.drop_first())) + encode_byte(byte));
    }
}

/// Percent-encoding loses nothing: decoding the encoding of a byte sequence
/// gives back the byte sequence.
pub proof fn lemma_percent_decoding_inverts_encoding(bytes: Seq<u8>)
    ensures
        percent_decoding(percent_encoding(bytes)) == bytes,
    decreases bytes.len(),
{
    if bytes.len() == 0 {
        assert(percent_encoding(bytes) =~= Seq::<char>::empty());
        assert(bytes =~= Seq::<u8>::empty());
    } else {
        let b = bytes[0];
        let rest = percent_encoding(bytes.drop_first());
        let text = percent_encoding(bytes);
        lemma_percent_decoding_inverts_encoding(bytes.drop_first());
        if is_unreserved(b) {
            assert(text =~= seq![b as char] + rest);
            assert(text.skip(1) =~= rest);
            assert(text[0] != '%');
        } else {
            assert(text =~= seq!['%', hex_digit(b / 16), hex_digit(b % 16)] + rest);
            assert(text.skip(3) =~= rest);
            assert(hex_value(hex_digit(b / 16)) == b / 16);
            assert(hex_value(hex_digit(b % 16)) == b % 16);
        }
        assert(bytes =~= seq![b] + bytes.drop_first());
    }
}

/// Percent-encoding of texts is injective: two texts with the same encoding
/// are the same text.
pub proof fn lemma_encoded_injective(a: Seq<char>, b: Seq<char>)
    requires
        encoded(a) == encoded(b),
    ensures
        a == b,
{
    lemma_percent_decoding_inverts_encoding(encode_utf8(a));
    lemma_percent_decoding_inverts_encoding(encode_utf8(b));
    encode_utf8_decode_utf8(a);
    encode_utf8_decode_utf8(b);
}

/// Returns the hexadecimal digit of a value below 16.
fn hex_char(value: u8) -> (c: char)
    requires
        value < 16,
    ensures
        c == hex_digit(value),
{
    if value < 10 {
        (48 + value) as char
    } else {
        (55 + value) as char
    }
}

/// Percent-encodes a text for use in a URL.
pub fn percent_encode(text: &str) -> (encoded_text: String)
    ensures
        encoded_text@ == encoded(text@),
{
    let bytes = text.as_bytes();
    let mut encoded_text = String::new();
    let mut i: usize = 0;
    while i < bytes.len()
        invariant
            i <= bytes@.len(),
            bytes@ == encode_utf8(text@),
            encoded_text@ == percent_encoding(bytes@.take(i as int)),
        decreases bytes.len() - i,
    {
        let byte: u8 = bytes[i];
        proof {
            lemma_percent_encoding_push(bytes@.take(i as int), byte);
            assert(bytes@.take(i as int).push(byte) =~= bytes@.take(i + 1));
        }
        if (65 <= byte && byte <= 90) || (97 <= byte && byte <= 122) || (48 <= byte && byte <= 57)
            || byte == 45 || byte == 46 || byte == 95 || byte == 126 {
            push_char(&mut encoded_text, byte as char);
            assert(encoded_text@ =~= percent_encoding(bytes@.take(i as int)) + encode_byte(byte));
        } else {
            push_char(&mut encoded_text, '%');
            push_char(&mut encoded_text, hex_char(byte / 16));
            push_char(&mut encoded_text, hex_char(byte % 16));
            assert(encoded_text@ =~= percent_encoding(bytes@.take(i as int)) + encode_byte(byte));
        }
        i = i + 1;
    }
    assert(bytes@.take(i as int) =~= bytes@);
    encoded_text
}

} // verus!
