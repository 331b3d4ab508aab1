//! Strings out of ASCII bytes.

use crate::ascii::{all_ascii, bytes_as_chars, is_ascii_byte, lemma_bytes_as_chars_ascii};
use std::string::FromUtf8Error;
use vstd::prelude::*;
use vstd::utf8::{
    encode_scalar, encode_utf8, encode_utf8_decode_utf8, encode_utf8_valid_utf8, is_ascii_chars,
    is_ascii_chars_encode_utf8, leading_byte_width_2, leading_byte_width_3, leading_byte_width_4,
    valid_utf8,
};

verus! {

/// The error of `String::from_utf8`, opaque here: nothing is read from it.
#[verifier::external_type_specification]
#[verifier::external_body]
pub struct ExFromUtf8Error(std::string::FromUtf8Error);

/// `String::from_utf8` succeeds exactly on valid UTF-8, and the string it returns is made of the
/// bytes it was given. This is taken from the standard library's documentation, not proved.
pub assume_specification[ String::from_utf8 ](vec: Vec<u8>) -> (r: Result<String, FromUtf8Error>)
    ensures
        r is Ok <==> valid_utf8(vec@),
        r matches Ok(s) ==> encode_utf8(s@) == vec@,
;

/// ASCII bytes are the UTF-8 encoding of the text they spell.
pub proof fn lemma_ascii_is_utf8(bytes: Seq<u8>)
    requires
        all_ascii(bytes),
    ensures
        encode_utf8(bytes_as_chars(bytes)) == bytes,
        valid_utf8(bytes),
{
    let text = bytes_as_chars(bytes);
    lemma_bytes_as_chars_ascii(bytes);
    is_ascii_chars_encode_utf8(text);
    assert forall|i: int| 0 <= i < bytes.len() implies encode_utf8(text)[i] == bytes[i] by {
        assert(is_ascii_byte(bytes[i]));
        assert(text[i] as u8 == bytes[i]);
    }
    assert(encode_utf8(text) =~= bytes);
    encode_utf8_valid_utf8(text);
}

/// The UTF-8 encoding of ASCII text holds ASCII bytes only, and they spell the text.
pub proof fn lemma_ascii_text_encoding(text: Seq<char>)
    requires
        is_ascii_chars(text),
    ensures
        all_ascii(encode_utf8(text)),
        bytes_as_chars(encode_utf8(text)) == text,
{
    let bytes = encode_utf8(text);
    is_ascii_chars_encode_utf8(text);
    assert forall|i: int| 0 <= i < bytes.len() implies is_ascii_byte(#[trigger] bytes[i]) by {
        assert('\0' <= text[i] <= '\u{7f}');
    }
    assert forall|i: int| 0 <= i < text.len() implies bytes_as_chars(bytes)[i] == text[i] by {
        assert('\0' <= text[i] <= '\u{7f}');
    }
}

/// A character whose code point is at most `0x7f` is an ASCII character.
proof fn lemma_small_char(c: char)
    ensures
        c as u32 <= 0x7f ==> '\0' <= c <= '\u{7f}',
{
}

/// A text whose UTF-8 encoding holds ASCII bytes only is ASCII text.
pub proof fn lemma_ascii_encoding_is_ascii_text(text: Seq<char>)
    requires
        all_ascii(encode_utf8(text)),
    ensures
        is_ascii_chars(text),
    decreases text.len(),
{
    if text.len() > 0 {
        let first = text[0] as u32;
        let rest = text.drop_first();
        let head = encode_scalar(first);
        let bytes = encode_utf8(text);
        assert(bytes == head + encode_utf8(rest));
        assert(is_ascii_byte(bytes[0]));
        assert(bytes[0] == head[0]);
        assert(first <= 0x7f) by {
            let b = head[0];
            assert(b <= 0x7f);
            assert(first > 0x7f ==> b == leading_byte_width_2(first) || b == leading_byte_width_3(
                first,
            ) || b == leading_byte_width_4(first));
            assert(0xC0u8 | ((first >> 6) & 0x1F) as u8 > 0x7f) by (bit_vector);
            assert(0xE0u8 | ((first >> 12) & 0x0F) as u8 > 0x7f) by (bit_vector);
            assert(0xF0u8 | ((first >> 18) & 0x7) as u8 > 0x7f) by (bit_vector);
        }
        assert(head.len() == 1);
        assert(encode_utf8(rest) == bytes.subrange(1, bytes.len() as int));
        assert forall|i: int| 0 <= i < encode_utf8(rest).len() implies is_ascii_byte(
            #[trigger] encode_utf8(rest)[i],
        ) by {
            assert(is_ascii_byte(bytes[i + 1]));
        }
        lemma_ascii_encoding_is_ascii_text(rest);
        let c0 = text[0];
        lemma_small_char(c0);
        assert forall|i: int| 0 <= i < text.len() implies '\0' <= #[trigger] text[i]
            <= '\u{7f}' by {
            if i > 0 {
                assert(text[i] == rest[i - 1]);
                assert('\0' <= rest[i - 1] <= '\u{7f}');
            } else {
                assert(text[i] == c0);
            }
        }
    }
}

/// Two texts with the same UTF-8 encoding are the same text.
pub proof fn lemma_encode_utf8_injective(a: Seq<char>, b: Seq<char>)
    requires
        encode_utf8(a) == encode_utf8(b),
    ensures
        a == b,
{
    encode_utf8_decode_utf8(a);
    encode_utf8_decode_utf8(b);
}

/// The string that the ASCII bytes spell.
pub fn ascii_into_string(bytes: Vec<u8>) -> (s: String)
    requires
        all_ascii(bytes@),
    ensures
        s@ == bytes_as_chars(bytes@),
{
    proof {
        lemma_ascii_is_utf8(bytes@);
    }
    let made = String::from_utf8(bytes);
    let s = made.unwrap();
    proof {
        lemma_encode_utf8_injective(s@, bytes_as_chars(bytes@));
    }
    s
}

} // verus!
