//! Reading the true time out of what a fetch from the time source brought.

use vstd::prelude::*;
use crate::cache::{TimeCache, is_clock_reading};
use crate::calendar::{CalendarTime, is_calendar_second, offset_of};

verus! {

/// The error of `chrono`'s parsers.
#[verifier::external_type_specification]
#[verifier::external_body]
pub struct ExParseError(chrono::ParseError);

/// The instant that `chrono::DateTime::parse_from_rfc2822` reads from `text`,
/// in seconds since 1 January 1970 UTC, or `None` where it rejects `text`.
pub uninterp spec fn rfc2822_unix_seconds(text: Seq<char>) -> Option<int>;

/// `chrono::DateTime::parse_from_rfc2822`, with the instant it returns taken
/// in UTC as whole seconds since 1 January 1970. The outcome depends on the
/// text alone; an instant that it accepts is a second of the calendar.
#[verifier::external_body]
fn parse_rfc2822(text: &str) -> (parsed: Result<i64, chrono::ParseError>)
    ensures
        match parsed {
            Ok(unix) => rfc2822_unix_seconds(text@) == Some(unix as int) && is_calendar_second(
                unix as int,
            ),
            Err(_) => rfc2822_unix_seconds(text@).is_none(),
        },
{
    match chrono::DateTime::parse_from_rfc2822(text) {
        Ok(instant) => Ok(instant.with_timezone(&chrono::Utc).timestamp()),
        Err(error) => Err(error),
    }
}

/// Why a fetch gave no true time.
#[derive(Clone, Copy, Debug, PartialEq, Eq, Structural)]
pub enum FetchError {
    /// The request itself failed.
    Transport,
    /// The reply carried no `Date` header.
    MissingHeader,
    /// The `Date` header is not a valid RFC 2822 date-time.
    Parse,
}

impl FetchError {
    /// A line for the log.
    pub fn message(&self) -> (text: &'static str)
        ensures
            text@ == match *self {
                FetchError::Transport => "request to the time source failed"@,
                FetchError::MissingHeader => "Missing Date header"@,
                FetchError::Parse => "Date header is not an RFC 2822 date"@,
            },
    {
        match self {
            FetchError::Transport => "request to the time source failed",
            FetchError::MissingHeader => "Missing Date header",
            FetchError::Parse => "Date header is not an RFC 2822 date",
        }
    }
}

/// What one GET to the time source brought back.
#[derive(Clone, Debug, PartialEq, Eq)]
pub enum FetchReply {
    /// No reply: the request failed.
    TransportFailed,
    /// A reply without a `Date` header.
    NoDateHeader,
    /// A reply whose `Date` header is not printable text.
    UnreadableDate,
    /// A reply with this `Date` header.
    Date(String),
}

/// The true time that a fetch's outcome stands for.
pub open spec fn true_time_of(reply: FetchReply) -> Result<int, FetchError> {
    match reply {
        FetchReply::TransportFailed => Err(FetchError::Transport),
        FetchReply::NoDateHeader => Err(FetchError::MissingHeader),
        FetchReply::UnreadableDate => Err(FetchError::Parse),
        FetchReply::Date(text) => match rfc2822_unix_seconds(text@) {
            Some(unix) => Ok(unix),
            None => Err(FetchError::Parse),
        },
    }
}

/// The outcome of parsing a date header, as a calendar time: the parsed
/// second where there is one and the calendar holds it, else a parse error.
pub fn time_from_parse(parsed: Result<i64, chrono::ParseError>) -> (r: Result<
    CalendarTime,
    FetchError,
>)
    ensures
        match parsed {
            Ok(unix) if is_calendar_second(unix as int) => r matches Ok(time) && time.unix()
                == unix,
            _ => r == Err::<CalendarTime, FetchError>(FetchError::Parse),
        },
{
    match parsed {
        Ok(unix) => match CalendarTime::from_unix_seconds(unix) {
            Some(time) => Ok(time),
            None => Err(FetchError::Parse),
        },
        Err(_) => Err(FetchError::Parse),
    }
}

/// Reads the true time from the text of a `Date` header.
pub fn parse_date_header(text: &str) -> (r: Result<CalendarTime, FetchError>)
    ensures
        match rfc2822_unix_seconds(text@) {
            Some(unix) => r matches Ok(time) && time.unix() == unix,
            None => r == Err::<CalendarTime, FetchError>(FetchError::Parse),
        },
{
    time_from_parse(parse_rfc2822(text))
}

/// Reads the true time from the outcome of a fetch. Nothing is retried here.
pub fn read_true_time(reply: &FetchReply) -> (r: Result<CalendarTime, FetchError>)
    ensures
        match true_time_of(*reply) {
            Ok(unix) => r matches Ok(time) && time.unix() == unix,
            Err(error) => r == Err::<CalendarTime, FetchError>(error),
        },
{
    match reply {
        FetchReply::TransportFailed => Err(FetchError::Transport),
        FetchReply::NoDateHeader => Err(FetchError::MissingHeader),
        FetchReply::UnreadableDate => Err(FetchError::Parse),
        FetchReply::Date(text) => parse_date_header(text.as_str()),
    }
}

/// One refresh of `cache` from the outcome of a fetch: a true time is
/// recorded as observed now; a failure is returned and leaves the cache as
/// it was.
pub fn fetch_time(cache: &mut TimeCache, reply: &FetchReply) -> (r: Result<(), FetchError>)
    ensures
        match true_time_of(*reply) {
            Ok(unix) => r is Ok && exists|local: int|
                is_clock_reading(local) && final(cache).held_offset() == #[trigger] offset_of(
                    unix,
                    local,
                ),
            Err(error) => r == Err::<(), FetchError>(error) && final(cache).held_offset() == old(
                cache,
            ).held_offset(),
        },
{
    match read_true_time(reply) {
        Ok(time) => {
            cache.update(time);
            Ok(())
        },
        Err(error) => Err(error),
    }
}

} // verus!
