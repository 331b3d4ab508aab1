//! The header value and the error of parsing one.

use crate::ascii::{
    all_ascii, bytes_as_chars, is_ascii, is_normalized, lemma_bytes_as_chars_ascii,
    lemma_lower_bytes_ascii, lemma_lower_chars_fixes_normalized, lemma_lower_chars_normalized,
    lower_chars, to_ascii_lowercase,
};
use crate::mime::Mime;
use crate::text::{
    ascii_into_string, lemma_ascii_encoding_is_ascii_text, lemma_ascii_text_encoding,
};
use std::str::FromStr;
use vstd::prelude::*;
use vstd::std_specs::cmp::PartialEqSpecImpl;
use vstd::std_specs::convert::FromSpecImpl;
use vstd::utf8::{encode_utf8, is_ascii_chars};

verus! {

/// A header value: text that is ASCII and holds no upper-case letter, unless it was made by
/// [`HeaderValue::from_ascii_unchecked`] or from a [`Mime`] that held other text.
#[derive(Debug, Hash)]
pub struct HeaderValue {
    inner: String,
}

/// An error returned when failing to convert into a header.
#[derive(Clone, Copy, Debug)]
pub struct ParseError {
    _private: (),
}

impl View for HeaderValue {
    type V = Seq<char>;

    /// The text of the value.
    closed spec fn view(&self) -> Seq<char> {
        self.inner@
    }
}

impl HeaderValue {
    /// The text that [`HeaderValue::from_ascii`] makes of the bytes, or `None` where it fails.
    pub open spec fn spec_from_ascii(bytes: Seq<u8>) -> Option<Seq<char>> {
        if all_ascii(bytes) {
            Some(lower_chars(bytes_as_chars(bytes)))
        } else {
            None
        }
    }

    /// The text that [`HeaderValue::from_str`] makes of the text, or `None` where it fails.
    pub open spec fn spec_from_str(chars: Seq<char>) -> Option<Seq<char>> {
        if is_ascii_chars(chars) {
            Some(lower_chars(chars))
        } else {
            None
        }
    }

    /// True when the text is ASCII and holds no upper-case letter.
    pub open spec fn is_normalized(&self) -> bool {
        is_normalized(self@)
    }

    /// Create a new `HeaderValue` from ASCII bytes, lower-casing its letters.
    ///
    /// # Error
    ///
    /// This function will error if a byte is not ASCII.
    pub fn from_ascii(bytes: &[u8]) -> (r: Result<Self, ParseError>)
        ensures
            r is Ok <==> all_ascii(bytes@),
            r matches Ok(v) ==> Some(v@) == Self::spec_from_ascii(bytes@) && v.is_normalized(),
    {
        if !is_ascii(bytes) {
            return Err(ParseError { _private: () });
        }
        let lowered = to_ascii_lowercase(bytes);
        proof {
            lemma_lower_bytes_ascii(bytes@);
            lemma_bytes_as_chars_ascii(bytes@);
            lemma_lower_chars_normalized(bytes_as_chars(bytes@));
        }
        Ok(Self { inner: ascii_into_string(lowered) })
    }

    /// Converts a vector of bytes to a `HeaderValue` without looking for bytes that are not
    /// ASCII and without lower-casing any.
    ///
    /// The caller answers for the bytes being ASCII: the rest of the library takes every value
    /// to be ASCII. Beside a [`Mime`] that holds other text, this is the only way to a value
    /// that is not normalized.
    pub fn from_ascii_unchecked(bytes: Vec<u8>) -> (r: Self)
        requires
            all_ascii(bytes@),
        ensures
            r@ == bytes_as_chars(bytes@),
            is_ascii_chars(r@),
    {
        proof {
            lemma_bytes_as_chars_ascii(bytes@);
        }
        Self { inner: ascii_into_string(bytes) }
    }

    /// Create a new `HeaderValue`.
    ///
    /// This checks it's valid ASCII, and lowercases it.
    pub fn from_str(s: &str) -> (r: Result<Self, ParseError>)
        ensures
            r is Ok <==> is_ascii_chars(s@),
            r matches Ok(v) ==> Some(v@) == Self::spec_from_str(s@) && v.is_normalized(),
    {
        if !s.is_ascii() {
            return Err(ParseError { _private: () });
        }
        let bytes = s.as_bytes();
        proof {
            lemma_ascii_text_encoding(s@);
            lemma_lower_bytes_ascii(bytes@);
            lemma_lower_chars_normalized(s@);
        }
        let lowered = to_ascii_lowercase(bytes);
        Ok(Self { inner: ascii_into_string(lowered) })
    }

    /// The text of the value.
    pub fn as_str(&self) -> (s: &str)
        ensures
            s@ == self@,
    {
        self.inner.as_str()
    }
}

impl PartialEq for HeaderValue {
    /// Two values are equal exactly when their texts are.
    fn eq(&self, other: &Self) -> (r: bool)
        ensures
            r == (self@ == other@),
    {
        self.inner == other.inner
    }
}

impl PartialEqSpecImpl for HeaderValue {
    open spec fn obeys_eq_spec() -> bool {
        true
    }

    open spec fn eq_spec(&self, other: &Self) -> bool {
        self@ == other@
    }
}

impl Eq for HeaderValue {

}

impl From<Mime> for HeaderValue {
    /// The media type's text, taken as it is: neither checked nor lower-cased.
    fn from(mime: Mime) -> (r: Self)
        ensures
            r@ == mime@,
            r.is_normalized() <==> is_normalized(mime@),
    {
        if let Some(string) = mime.static_str {
            HeaderValue { inner: string.to_owned() }
        } else {
            HeaderValue { inner: mime.string }
        }
    }
}

impl FromSpecImpl<Mime> for HeaderValue {
    /// No spec function gives the value that `from` returns: a string made of static text is
    /// known by its view only. What `from` returns is stated in its own `ensures`, over the view.
    open spec fn obeys_from_spec() -> bool {
        false
    }

    /// Left open, as `obeys_from_spec` says.
    open spec fn from_spec(mime: Mime) -> Self {
        arbitrary()
    }
}

impl FromStr for HeaderValue {
    type Err = ParseError;

    /// As [`HeaderValue::from_str`].
    fn from_str(s: &str) -> (r: Result<Self, ParseError>)
        ensures
            r is Ok <==> is_ascii_chars(s@),
            r matches Ok(v) ==> Some(v@) == Self::spec_from_str(s@) && v.is_normalized(),
    {
        HeaderValue::from_str(s)
    }
}

/// Parsing a text and parsing the bytes that encode it end alike: both fail, or both give the
/// same text.
pub proof fn lemma_from_str_agrees_with_from_ascii(text: Seq<char>)
    ensures
        HeaderValue::spec_from_str(text) == HeaderValue::spec_from_ascii(encode_utf8(text)),
{
    if is_ascii_chars(text) {
        lemma_ascii_text_encoding(text);
    } else if all_ascii(encode_utf8(text)) {
        lemma_ascii_encoding_is_ascii_text(text);
    }
}

/// Normalized text parses to itself, as text and as the bytes that encode it.
pub proof fn lemma_normalized_parses_to_itself(text: Seq<char>)
    requires
        is_normalized(text),
    ensures
        HeaderValue::spec_from_str(text) == Some(text),
        HeaderValue::spec_from_ascii(encode_utf8(text)) == Some(text),
{
    lemma_lower_chars_fixes_normalized(text);
    lemma_from_str_agrees_with_from_ascii(text);
}

/// Parsing text is idempotent: what a successful parse gives parses to itself.
pub proof fn lemma_from_str_idempotent(text: Seq<char>)
    ensures
        HeaderValue::spec_from_str(text) matches Some(out) ==> HeaderValue::spec_from_str(out)
            == Some(out),
{
    if is_ascii_chars(text) {
        lemma_lower_chars_normalized(text);
        lemma_normalized_parses_to_itself(lower_chars(text));
    }
}

/// Parsing bytes is idempotent: the bytes of what a successful parse gives parse to the same
/// text.
pub proof fn lemma_from_ascii_idempotent(bytes: Seq<u8>)
    ensures
        HeaderValue::spec_from_ascii(bytes) matches Some(out) ==> HeaderValue::spec_from_ascii(
            encode_utf8(out),
        ) == Some(out),
{
    if all_ascii(bytes) {
        lemma_bytes_as_chars_ascii(bytes);
        lemma_lower_chars_normalized(bytes_as_chars(bytes));
        lemma_normalized_parses_to_itself(lower_chars(bytes_as_chars(bytes)));
    }
}

impl PartialEq for ParseError {
    /// The error says one thing only, so any two are equal.
    fn eq(&self, other: &Self) -> (r: bool)
        ensures
            r,
    {
        true
    }
}

impl PartialEqSpecImpl for ParseError {
    open spec fn obeys_eq_spec() -> bool {
        true
    }

    open spec fn eq_spec(&self, other: &Self) -> bool {
        true
    }
}

impl Eq for ParseError {

}

impl ParseError {
    /// What went wrong, in words.
    pub fn to_string(&self) -> (s: String)
        ensures
            s@ == "Error parsing a string into a status code"@,
    {
        "Error parsing a string into a status code".to_owned()
    }
}

} // verus!
