//! Why a record could not be built from its text.

use vstd::prelude::*;

verus! {

/// A field of a record that did not read.
#[derive(Debug)]
pub enum BuildError {
    /// A date: the text, with its time of day appended, that jiff refused.
    Timestamp(String),
    /// A whole number that was malformed or out of range: the field's text.
    Number(String),
}

/// `e` reports the date text `text`.
pub open spec fn timestamp_error(e: BuildError, text: Seq<char>) -> bool {
    e matches BuildError::Timestamp(t) && t@ == text
}

/// `e` reports the number text `text`.
pub open spec fn number_error(e: BuildError, text: Seq<char>) -> bool {
    e matches BuildError::Number(t) && t@ == text
}

} // verus!
