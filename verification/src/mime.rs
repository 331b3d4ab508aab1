//! The media type that a header value can be made from.

use vstd::prelude::*;

verus! {

/// A media type, reduced to its text. The text is held either as a string known at compile
/// time or as an owned string; a media type is built lower-cased and in ASCII by whoever
/// makes it.
pub struct Mime {
    /// The text of a media type known at compile time.
    pub static_str: Option<&'static str>,
    /// The text of any other media type; not read when `static_str` is there.
    pub string: String,
}

impl View for Mime {
    type V = Seq<char>;

    /// The text of the media type.
    open spec fn view(&self) -> Seq<char> {
        match self.static_str {
            Some(s) => s@,
            None => self.string@,
        }
    }
}

} // verus!
