//! The part of `chrono` that timestamps are read with.
use crate::db::shows_only;
use vstd::prelude::*;

verus! {

/// `chrono::ParseError`.
#[verifier::external_type_specification]
#[verifier::external_body]
pub struct ExParseError(chrono::ParseError);

/// The milliseconds since the start of 1970 in UTC that an RFC 3339 timestamp stands for, or what is
/// said of a text that is none.
pub uninterp spec fn rfc3339_millis(text: Seq<char>) -> Result<i64, Seq<char>>;

/// `DateTime::parse_from_rfc3339`, with `DateTime::timestamp_millis` of what it gives: the
/// milliseconds that an RFC 3339 timestamp stands for, and an error exactly where the text is none.
/// The error shows itself as one of a few fixed texts, by what is wrong with the input.
#[verifier::external_body]
pub(crate) fn parse_rfc3339_millis(text: &str) -> (result: Result<i64, chrono::ParseError>)
    ensures
        match result {
            Ok(millis) => rfc3339_millis(text@) == Ok::<i64, Seq<char>>(millis),
            Err(error) => rfc3339_millis(text@) matches Err(message) && shows_only(
                &error,
                message,
            ),
        },
{
    let value = chrono::DateTime::parse_from_rfc3339(text)?;
    Ok(value.timestamp_millis())
}

} // verus!
