//! ASCII bytes and characters: what counts as ASCII, and how letters are lower-cased.

use vstd::prelude::*;
use vstd::utf8::is_ascii_chars;

verus! {

/// True when the byte is an ASCII code point, `0x00` to `0x7f`.
pub open spec fn is_ascii_byte(b: u8) -> bool {
    b <= 0x7f
}

/// True when every byte of the sequence is an ASCII code point.
pub open spec fn all_ascii(bytes: Seq<u8>) -> bool {
    forall|i: int| 0 <= i < bytes.len() ==> is_ascii_byte(#[trigger] bytes[i])
}

/// The byte with `A` to `Z` mapped to `a` to `z`; every other byte is itself.
pub open spec fn lower_byte(b: u8) -> u8 {
    if 0x41 <= b <= 0x5a {
        (b + 0x20) as u8
    } else {
        b
    }
}

/// The sequence with each byte lower-cased by [`lower_byte`].
pub open spec fn lower_bytes(bytes: Seq<u8>) -> Seq<u8> {
    Seq::new(bytes.len(), |i: int| lower_byte(bytes[i]))
}

/// The character with `A` to `Z` mapped to `a` to `z`; every other character is itself.
pub open spec fn lower_char(c: char) -> char {
    if 'A' <= c <= 'Z' {
        lower_byte(c as u8) as char
    } else {
        c
    }
}

/// The text with each character lower-cased by [`lower_char`].
pub open spec fn lower_chars(chars: Seq<char>) -> Seq<char> {
    Seq::new(chars.len(), |i: int| lower_char(chars[i]))
}

/// The text that a sequence of ASCII bytes spells: each byte read as the character of the same
/// code point.
pub open spec fn bytes_as_chars(bytes: Seq<u8>) -> Seq<char> {
    Seq::new(bytes.len(), |i: int| bytes[i] as char)
}

/// True when the text is ASCII and holds no upper-case letter.
pub open spec fn is_normalized(chars: Seq<char>) -> bool {
    &&& is_ascii_chars(chars)
    &&& forall|i: int| 0 <= i < chars.len() ==> !('A' <= #[trigger] chars[i] <= 'Z')
}

/// Checks that every byte of the slice is an ASCII code point.
pub fn is_ascii(bytes: &[u8]) -> (r: bool)
    ensures
        r == all_ascii(bytes@),
{
    let mut i: usize = 0;
    while i < bytes.len()
        invariant
            i <= bytes.len(),
            all_ascii(bytes@.take(i as int)),
        decreases bytes.len() - i,
    {
        if bytes[i] > 0x7f {
            return false;
        }
        i += 1;
    }
    assert(bytes@.take(i as int) == bytes@);
    true
}

/// Lower-cases one byte.
pub fn to_lower_byte(b: u8) -> (r: u8)
    ensures
        r == lower_byte(b),
{
    if 0x41 <= b && b <= 0x5a {
        b + 0x20
    } else {
        b
    }
}

/// A copy of the slice with each byte lower-cased.
pub fn to_ascii_lowercase(bytes: &[u8]) -> (r: Vec<u8>)
    ensures
        r@ == lower_bytes(bytes@),
{
    let mut out: Vec<u8> = Vec::with_capacity(bytes.len());
    let mut i: usize = 0;
    while i < bytes.len()
        invariant
            i <= bytes.len(),
            out@ == lower_bytes(bytes@.take(i as int)),
        decreases bytes.len() - i,
    {
        out.push(to_lower_byte(bytes[i]));
        i += 1;
    }
    assert(bytes@.take(i as int) == bytes@);
    out
}

/// Lower-casing keeps ASCII bytes ASCII, and the text they spell is the lower-cased text of the
/// input.
pub proof fn lemma_lower_bytes_ascii(bytes: Seq<u8>)
    requires
        all_ascii(bytes),
    ensures
        all_ascii(lower_bytes(bytes)),
        bytes_as_chars(lower_bytes(bytes)) == lower_chars(bytes_as_chars(bytes)),
{
    assert forall|i: int| 0 <= i < bytes.len() implies is_ascii_byte(
        #[trigger] lower_bytes(bytes)[i],
    ) by {
        assert(is_ascii_byte(bytes[i]));
    }
    assert forall|i: int| 0 <= i < bytes.len() implies bytes_as_chars(lower_bytes(bytes))[i]
        == lower_chars(bytes_as_chars(bytes))[i] by {
        assert(is_ascii_byte(bytes[i]));
    }
}

/// The text that ASCII bytes spell is ASCII.
pub proof fn lemma_bytes_as_chars_ascii(bytes: Seq<u8>)
    requires
        all_ascii(bytes),
    ensures
        is_ascii_chars(bytes_as_chars(bytes)),
{
    assert forall|i: int| 0 <= i < bytes.len() implies '\0' <= #[trigger] bytes_as_chars(bytes)[i]
        <= '\u{7f}' by {
        assert(is_ascii_byte(bytes[i]));
    }
}

/// Lower-cased ASCII text is normalized.
pub proof fn lemma_lower_chars_normalized(chars: Seq<char>)
    requires
        is_ascii_chars(chars),
    ensures
        is_normalized(lower_chars(chars)),
{
    assert forall|i: int| 0 <= i < chars.len() implies {
        let c = #[trigger] lower_chars(chars)[i];
        '\0' <= c <= '\u{7f}' && !('A' <= c <= 'Z')
    } by {
        assert('\0' <= chars[i] <= '\u{7f}');
    }
}

/// Lower-casing leaves normalized text as it is.
pub proof fn lemma_lower_chars_fixes_normalized(chars: Seq<char>)
    requires
        is_normalized(chars),
    ensures
        lower_chars(chars) == chars,
{
    assert forall|i: int| 0 <= i < chars.len() implies lower_chars(chars)[i] == chars[i] by {
        assert(!('A' <= chars[i] <= 'Z'));
    }
}

} // verus!
