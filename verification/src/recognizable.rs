//! The interface recognizers share: from unstructured text to an
//! optional value of the abstract syntax.

use vstd::prelude::*;

use crate::language::date_format::DateFormat;

verus! {

/// An interface for parsing unstructured text. Implement this trait
/// for your abstract syntax when parsing.
pub trait Recognizable: Sized {
    /// Takes unstructured text, and returns an instance of the
    /// abstract syntax if a match is found.
    fn recognize(text: &str, date_format: &DateFormat) -> Option<Self>;

    /// Returns a string to describe the abstract syntax.
    fn describe() -> &'static str;
}

} // verus!
