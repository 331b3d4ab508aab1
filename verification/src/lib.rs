//! A validated, lower-cased ASCII value of a protocol header field.

pub mod ascii;
pub mod mime;
pub mod text;
pub mod value;

pub use mime::Mime;
pub use value::{HeaderValue, ParseError};
