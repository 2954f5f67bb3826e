//! Session identifiers: 128-bit values, read and drawn by the `uuid` crate.

use uuid::Uuid;
use vstd::prelude::*;

verus! {

/// Identifies one session: the 128 bits of a UUID.
#[derive(Clone, Copy, Debug, PartialEq, Eq, Hash, Structural)]
pub struct AxumSessionID(pub u128);

/// The value that `uuid::Uuid::parse_str` reads out of `text`, or `None` where
/// it rejects the text.
pub uninterp spec fn uuid_parse(text: Seq<char>) -> Option<u128>;

/// Calls `uuid::Uuid::parse_str` and takes the 128 bits of what it accepted
/// with `Uuid::as_u128`.
///
/// Trusted: the result is that parser's answer on `text`, which depends on
/// nothing but the text.
#[verifier::external_body]
pub(crate) fn parse_uuid(text: &str) -> (parsed: Option<u128>)
    ensures
        parsed == uuid_parse(text@),
{
    match Uuid::parse_str(text) {
        Ok(id) => Some(id.as_u128()),
        Err(_) => None,
    }
}

/// Calls `uuid::Uuid::new_v4` and takes the 128 bits of the identifier drawn.
///
/// Trusted, and nothing is claimed of the value: it comes from the operating
/// system's random source. Where that source fails, `new_v4` panics.
#[verifier::external_body]
pub(crate) fn random_uuid() -> u128 {
    Uuid::new_v4().as_u128()
}

impl AxumSessionID {
    /// Reads an identifier out of text that a client presented.
    ///
    /// Returns `None` exactly where the text is no UUID in any of the forms
    /// that the `uuid` crate reads.
    pub fn parse(text: &str) -> (id: Option<AxumSessionID>)
        ensures
            id == Self::parsed(uuid_parse(text@)),
    {
        match parse_uuid(text) {
            Some(bits) => Some(AxumSessionID(bits)),
            None => None,
        }
    }

    /// The identifier that stands for the outcome of reading a UUID.
    pub open spec fn parsed(outcome: Option<u128>) -> Option<AxumSessionID> {
        match outcome {
            Some(bits) => Some(AxumSessionID(bits)),
            None => None,
        }
    }
}

} // verus!
