//! An optional UUID field: JSON null when absent, else as a UUID field.
use vstd::prelude::*;
use crate::error::DecodingError;
use crate::uuid_simple::{lemma_round_trip as lemma_uuid_round_trip, uuid_decoding};
use crate::uuid_text::compact_uuid_text;

verus! {

/// The wire value of an optional UUID; `None` stands for JSON null.
pub open spec fn opt_uuid_encoding(v: Option<u128>) -> Option<Seq<char>> {
    match v {
        Some(u) => Some(compact_uuid_text(u)),
        None => None,
    }
}

/// What reading an optional UUID field gives; `None` stands for JSON null.
pub open spec fn opt_uuid_decoding(w: Option<Seq<char>>) -> Result<Option<u128>, DecodingError> {
    match w {
        Some(s) => match uuid_decoding(s) {
            Ok(u) => Ok(Some(u)),
            Err(e) => Err(e),
        },
        None => Ok(None),
    }
}

pub open spec fn text_view(t: Option<&str>) -> Option<Seq<char>> {
    match t {
        Some(s) => Some(s@),
        None => None,
    }
}

pub open spec fn string_view(t: Option<String>) -> Option<Seq<char>> {
    match t {
        Some(s) => Some(s@),
        None => None,
    }
}

/// The wire value of an optional UUID: `None` (JSON null) or the compact form.
pub fn serialize(value: Option<u128>) -> (r: Option<String>)
    ensures
        string_view(r) == opt_uuid_encoding(value),
        value is None ==> r is None,
{
    match value {
        Some(u) => Some(crate::uuid_simple::serialize(u)),
        None => None,
    }
}

/// Reads an optional UUID: `None` (JSON null) gives `None`.
pub fn deserialize(text: Option<&str>) -> (r: Result<Option<u128>, DecodingError>)
    ensures
        r == opt_uuid_decoding(text_view(text)),
        text is None ==> r == Ok::<Option<u128>, DecodingError>(None),
{
    match text {
        Some(t) => match crate::uuid_simple::deserialize(t) {
            Ok(u) => Ok(Some(u)),
            Err(e) => Err(e),
        },
        None => Ok(None),
    }
}

/// Reading what `serialize` writes gives the optional UUID back; absence is
/// written as null and null is read as absence.
pub proof fn lemma_round_trip(v: Option<u128>)
    ensures
        opt_uuid_decoding(opt_uuid_encoding(v)) == Ok::<Option<u128>, DecodingError>(v),
        opt_uuid_encoding(None) is None,
        opt_uuid_decoding(None) == Ok::<Option<u128>, DecodingError>(None),
{
    if let Some(u) = v {
        lemma_uuid_round_trip(u);
    }
}

} // verus!
