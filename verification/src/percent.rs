//! Percent-encoding of text for use inside a URL's query, and how such text is
//! read back.

use vstd::prelude::*;
use vstd::string::*;
use vstd::utf8::*;

verus! {

/// Bytes that percent-encoding keeps as they are: ASCII letters and digits and
/// the four marks `-`, `.`, `_` and `~`.
pub open spec fn is_unreserved(byte: u8) -> bool {
    ||| 0x30 <= byte <= 0x39
    ||| 0x41 <= byte <= 0x5a
    ||| 0x61 <= byte <= 0x7a
    ||| byte == 0x2d
    ||| byte == 0x2e
    ||| byte == 0x5f
    ||| byte == 0x7e
}

/// The upper-case hexadecimal digit for `value`, which is below sixteen.
pub open spec fn hex_upper(value: int) -> char {
    if value < 10 {
        ((48 + value) as u8) as char
    } else {
        ((55 + value) as u8) as char
    }
}

/// What one byte becomes: itself when unreserved, else `%` and its two
/// upper-case hexadecimal digits.
pub open spec fn encoded_byte(byte: u8) -> Seq<char> {
    if is_unreserved(byte) {
        seq![byte as char]
    } else {
        seq!['%', hex_upper(byte as int / 16), hex_upper(byte as int % 16)]
    }
}

/// The percent-encoding of a byte string: each byte's encoding, in order.
pub open spec fn percent_encoding(bytes: Seq<u8>) -> Seq<char>
    decreases bytes.len(),
{
    if bytes.len() == 0 {
        Seq::empty()
    } else {
        encoded_byte(bytes[0]) + percent_encoding(bytes.skip(1))
    }
}

/// Calls `urlencoding::encode`, which walks the UTF-8 bytes of `text`, keeps
/// ASCII letters, digits, `-`, `.`, `_` and `~`, and replaces every other byte
/// by `%` and two upper-case hexadecimal digits. The contract states exactly
/// that, byte by byte.
#[verifier::external_body]
pub(crate) fn percent_encoded(text: &str) -> (encoded: String)
    ensures
        encoded@ == percent_encoding(text.spec_bytes()),
{
    urlencoding::encode(text).into_owned()
}

/// The value of a hexadecimal digit of either case.
pub open spec fn hex_value(digit: char) -> Option<int> {
    if '0' <= digit <= '9' {
        Some(digit as int - 48)
    } else if 'A' <= digit <= 'F' {
        Some(digit as int - 55)
    } else if 'a' <= digit <= 'f' {
        Some(digit as int - 87)
    } else {
        None
    }
}

/// Whether `text` starts with `%` and two hexadecimal digits.
pub open spec fn starts_with_escape(text: Seq<char>) -> bool {
    &&& text.len() >= 3
    &&& text[0] == '%'
    &&& hex_value(text[1]) is Some
    &&& hex_value(text[2]) is Some
}

/// The bytes that percent-encoded text stands for: an escape gives the byte it
/// names, any other character gives its own UTF-8 bytes.
pub open spec fn percent_decoding(text: Seq<char>) -> Seq<u8>
    decreases text.len(),
{
    if text.len() == 0 {
        Seq::empty()
    } else if starts_with_escape(text) {
        seq![(16 * hex_value(text[1]).unwrap() + hex_value(text[2]).unwrap()) as u8]
            + percent_decoding(text.skip(3))
    } else {
        encode_utf8(seq![text[0]]) + percent_decoding(text.skip(1))
    }
}

/// Characters that can occur in percent-encoded text.
pub open spec fn is_encoded_char(ch: char) -> bool {
    ch == '%' || (ch as u32 <= 0x7f && is_unreserved(ch as u8))
}

/// Decoding the encoding of one byte, followed by more text, gives that byte
/// followed by the decoding of the rest.
proof fn lemma_decoding_encoded_byte(byte: u8, rest: Seq<char>)
    ensures
        percent_decoding(encoded_byte(byte) + rest) == seq![byte] + percent_decoding(rest),
{
    let text = encoded_byte(byte) + rest;
    if is_unreserved(byte) {
        let ch = byte as char;
        assert(text[0] == ch);
        assert(ch != '%');
        assert(!starts_with_escape(text));
        assert(text.skip(1) =~= rest);
        let single = seq![ch];
        assert(is_ascii_chars(single));
        is_ascii_chars_encode_utf8(single);
        assert(single[0] as u8 == encode_utf8(single)[0]);
        assert(encode_utf8(single) =~= seq![byte]);
    } else {
        let high = byte as int / 16;
        let low = byte as int % 16;
        assert(text[0] == '%');
        assert(text[1] == hex_upper(high));
        assert(text[2] == hex_upper(low));
        assert(hex_value(hex_upper(high)) == Some(high));
        assert(hex_value(hex_upper(low)) == Some(low));
        assert(starts_with_escape(text));
        assert(text.skip(3) =~= rest);
        assert((16 * high + low) as u8 == byte);
    }
}

/// Percent-decoding undoes percent-encoding, for every byte string.
pub proof fn lemma_decoding_inverts_encoding(bytes: Seq<u8>)
    ensures
        percent_decoding(percent_encoding(bytes)) == bytes,
    decreases bytes.len(),
{
    if bytes.len() > 0 {
        let rest = bytes.skip(1);
        lemma_decoding_inverts_encoding(rest);
        lemma_decoding_encoded_byte(bytes[0], percent_encoding(rest));
        assert(seq![bytes[0]] + rest =~= bytes);
    } else {
        assert(bytes =~= Seq::<u8>::empty());
    }
}

/// Percent-encoded text holds nothing but unreserved characters, `%` and
/// hexadecimal digits; in particular none of `&`, `=`, `?` and `#`.
pub proof fn lemma_encoding_is_plain(bytes: Seq<u8>)
    ensures
        forall|i: int|
            0 <= i < percent_encoding(bytes).len() ==> is_encoded_char(
                #[trigger] percent_encoding(bytes)[i],
            ),
    decreases bytes.len(),
{
    if bytes.len() > 0 {
        let head = encoded_byte(bytes[0]);
        let tail = percent_encoding(bytes.skip(1));
        lemma_encoding_is_plain(bytes.skip(1));
        assert forall|i: int| 0 <= i < head.len() implies is_encoded_char(#[trigger] head[i]) by {
            let high = bytes[0] as int / 16;
            let low = bytes[0] as int % 16;
            assert(is_encoded_char(hex_upper(high)));
            assert(is_encoded_char(hex_upper(low)));
        }
        assert forall|i: int| 0 <= i < percent_encoding(bytes).len() implies is_encoded_char(
            #[trigger] percent_encoding(bytes)[i],
        ) by {
            if i < head.len() {
                assert(percent_encoding(bytes)[i] == head[i]);
            } else {
                assert(percent_encoding(bytes)[i] == tail[i - head.len()]);
            }
        }
    }
}

} // verus!
