//! What a field codec reports when wire input has the wrong shape.
use vstd::prelude::*;

verus! {

#[derive(Clone, Copy, Debug, PartialEq, Eq)]
pub enum DecodingError {
    /// The field's value is not a JSON string.
    NotAString,
    /// The text held in the string is not a JSON document.
    InvalidJson,
    /// The text is not a UUID in any accepted form.
    InvalidUuid,
}

} // verus!
