//! Instants as whole seconds since the Unix epoch, UTC, and their stored
//! text form. Calendar arithmetic is left to `chrono`.

use vstd::prelude::*;

verus! {

/// The text that `chrono` writes for the UTC date and time `secs` seconds
/// after the epoch; `None` where `chrono` has no date for that instant.
pub uninterp spec fn timestamp_text(secs: i64) -> Option<Seq<char>>;

/// The instant, in seconds after the epoch, that `chrono` reads from a text
/// of the form `%Y-%m-%d %H:%M:%S`; `None` where it rejects the text.
pub uninterp spec fn parsed_timestamp(text: Seq<char>) -> Option<i64>;

/// `chrono::DateTime::from_timestamp` with no sub-second part, then the
/// `Display` text of the naive UTC date and time it gives. `from_timestamp`
/// returns `None` for an instant outside the dates `chrono` can hold; the
/// text is a function of the instant alone, and is known here only by name.
#[verifier::external_body]
fn format_utc(secs: i64) -> (text: Option<String>)
    ensures
        match text {
            Some(written) => timestamp_text(secs) == Some(written@),
            None => timestamp_text(secs).is_none(),
        },
{
    chrono::DateTime::from_timestamp(secs, 0).map(|at| at.naive_utc().to_string())
}

/// `chrono::NaiveDateTime::parse_from_str` with the format
/// `%Y-%m-%d %H:%M:%S`, then the seconds after the epoch of the result read
/// as UTC. A rejected text gives `None`; the outcome is a function of the
/// text alone, and is known here only by name.
#[verifier::external_body]
fn parse_utc(text: &str) -> (secs: Option<i64>)
    ensures
        secs == parsed_timestamp(text@),
{
    chrono::NaiveDateTime::parse_from_str(text, "%Y-%m-%d %H:%M:%S").ok().map(
        |at| at.and_utc().timestamp(),
    )
}

/// `chrono::Utc::now`, in whole seconds after the epoch. Nothing is claimed
/// of the instant read. `chrono` panics where the system clock stands before
/// the epoch, and nowhere else.
#[verifier::external_body]
fn utc_now() -> (secs: i64) {
    chrono::Utc::now().timestamp()
}

/// The current instant, in seconds after the epoch, as the system clock
/// tells it.
pub fn current_timestamp() -> (secs: i64) {
    utc_now()
}

/// The stored text of an instant; `None` exactly where the instant has none.
pub fn format_timestamp(secs: i64) -> (text: Option<String>)
    ensures
        match text {
            Some(written) => timestamp_text(secs) == Some(written@),
            None => timestamp_text(secs).is_none(),
        },
{
    format_utc(secs)
}

/// Reads a stored text back; `None` exactly where the text is rejected.
pub fn parse_timestamp(text: &str) -> (secs: Option<i64>)
    ensures
        secs == parsed_timestamp(text@),
{
    parse_utc(text)
}

/// The instant a stored text was read as, or `fallback` where it could not be
/// read.
pub open spec fn timestamp_or_spec(parsed: Option<i64>, fallback: i64) -> i64 {
    match parsed {
        Some(secs) => secs,
        None => fallback,
    }
}

/// Settles on the instant of a stored record: what its text was read as, or
/// `fallback` where it could not be read.
pub fn timestamp_or(parsed: Option<i64>, fallback: i64) -> (secs: i64)
    ensures
        secs == timestamp_or_spec(parsed, fallback),
{
    match parsed {
        Some(secs) => secs,
        None => fallback,
    }
}

} // verus!
