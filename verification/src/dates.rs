use vstd::prelude::*;

verus! {

/// The moment that a date and time written after RFC 3339 names, in
/// milliseconds since the Unix epoch; nothing for a text that the parser of
/// `chrono` for that format does not take.
pub uninterp spec fn rfc3339_millis(text: Seq<char>) -> Option<i64>;

/// The moment that a date and time in UTC names, in milliseconds since the
/// Unix epoch; nothing for a text that `chrono` does not read as a
/// `DateTime<Utc>`.
pub uninterp spec fn utc_millis(text: Seq<char>) -> Option<i64>;

/// Parses a date and time with `chrono::DateTime::parse_from_rfc3339` and
/// converts it with `timestamp_millis`. The result depends on the text
/// alone; it is nothing where the parser reports an error.
#[verifier::external_body]
pub(crate) fn parse_rfc3339_millis(text: &str) -> (millis: Option<i64>)
    ensures
        millis == rfc3339_millis(text@),
{
    match chrono::DateTime::parse_from_rfc3339(text) {
        Ok(moment) => Some(moment.timestamp_millis()),
        Err(_) => None,
    }
}

/// Parses a date and time with the `FromStr` of `chrono::DateTime<Utc>` and
/// converts it with `timestamp_millis`. The result depends on the text
/// alone; it is nothing where the parser reports an error.
#[verifier::external_body]
pub(crate) fn parse_utc_millis(text: &str) -> (millis: Option<i64>)
    ensures
        millis == utc_millis(text@),
{
    match text.parse::<chrono::DateTime<chrono::Utc>>() {
        Ok(moment) => Some(moment.timestamp_millis()),
        Err(_) => None,
    }
}

} // verus!
