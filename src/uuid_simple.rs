//! A UUID field written in the compact form and read in any UUID form.
use vstd::prelude::*;
use crate::error::DecodingError;
use crate::uuid_text::{compact_uuid_text, hyphenate, is_simple_form, lemma_compact_round_trip, lemma_hyphenated_same_uuid, parse_text, simple_text, uuid_of_text};

verus! {

/// What reading a UUID field's text gives.
pub open spec fn uuid_decoding(s: Seq<char>) -> Result<u128, DecodingError> {
    match uuid_of_text(s) {
        Some(u) => Ok(u),
        None => Err(DecodingError::InvalidUuid),
    }
}

/// The wire text of a UUID: its compact form.
pub fn serialize(value: u128) -> (r: String)
    ensures
        r@ == compact_uuid_text(value),
{
    simple_text(value)
}

/// Reads a UUID in the simple, hyphenated or URN form.
pub fn deserialize(text: &str) -> (r: Result<u128, DecodingError>)
    ensures
        r == uuid_decoding(text@),
{
    match parse_text(text) {
        Ok(u) => Ok(u),
        Err(_) => Err(DecodingError::InvalidUuid),
    }
}

/// Reading what `serialize` writes gives the UUID back.
pub proof fn lemma_round_trip(u: u128)
    ensures
        uuid_decoding(compact_uuid_text(u)) == Ok::<u128, DecodingError>(u),
{
    lemma_compact_round_trip(u);
}

/// The hyphenated and the compact form of the same digits read as the same UUID.
pub proof fn lemma_hyphenated_reads_as_compact(d: Seq<char>)
    requires
        is_simple_form(d),
    ensures
        uuid_decoding(hyphenate(d)) == uuid_decoding(d),
        uuid_decoding(d) is Ok,
{
    lemma_hyphenated_same_uuid(d);
}

} // verus!
