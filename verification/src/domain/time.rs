//! Points in time, held as whole seconds since the Unix epoch (UTC).

use vstd::prelude::*;
use vstd::string::StringExecFns;

verus! {

/// The error that `chrono` reports for text it cannot read as a date and time.
#[verifier::external_type_specification]
#[verifier::external_body]
pub struct ExParseError(chrono::ParseError);

/// What `chrono` reads from `text` as a date and time with an offset,
/// expressed as seconds since the Unix epoch; `None` where it rejects the text.
pub uninterp spec fn utc_timestamp(text: Seq<char>) -> Option<i64>;

/// Calls `<chrono::DateTime<chrono::Utc> as FromStr>::from_str` and then
/// `DateTime::timestamp`. Nothing is proved of the parser: its answer is
/// only given the name [`utc_timestamp`], so equal text gives an equal answer.
#[verifier::external_body]
fn parse_utc_timestamp(text: &str) -> (res: Result<i64, chrono::ParseError>)
    ensures
        res.is_ok() == utc_timestamp(text@).is_some(),
        res matches Ok(secs) ==> utc_timestamp(text@) == Some(secs),
{
    match text.parse::<chrono::DateTime<chrono::Utc>>() {
        Ok(parsed) => Ok(parsed.timestamp()),
        Err(err) => Err(err),
    }
}

/// The text handed to the parser for a calendar date: the start of that day in UTC.
pub open spec fn midnight_text(date: Seq<char>) -> Seq<char> {
    date + "T00:00:00Z"@
}

/// A moment in time with one-second resolution.
#[derive(Clone, Copy, Debug, PartialEq, Eq, Structural)]
pub struct Time(i64);

impl View for Time {
    type V = int;

    closed spec fn view(&self) -> int {
        self.0 as int
    }
}

impl Time {
    /// The moment `secs` seconds after the Unix epoch.
    pub fn from_timestamp(secs: i64) -> (time: Time)
        ensures
            time@ == secs,
    {
        Time(secs)
    }

    /// Seconds since the Unix epoch.
    pub fn timestamp(&self) -> (secs: i64)
        ensures
            secs == self@,
    {
        self.0
    }

    /// Whether this moment is at or before `other`.
    pub fn at_or_before(&self, other: &Time) -> (res: bool)
        ensures
            res == (self@ <= other@),
    {
        self.0 <= other.0
    }

    /// Builds the moment from what the date parser answered for a day's midnight.
    pub fn from_parsed(parsed: Result<i64, chrono::ParseError>) -> (res: Result<Time, chrono::ParseError>)
        ensures
            match parsed {
                Ok(secs) => res matches Ok(time) && time@ == secs,
                Err(err) => res matches Err(same) && same == err,
            },
    {
        match parsed {
            Ok(secs) => Ok(Time(secs)),
            Err(err) => Err(err),
        }
    }

    /// Reads a calendar date such as `2030-01-31` as midnight UTC of that day.
    pub fn from_str(date: &str) -> (res: Result<Time, chrono::ParseError>)
        ensures
            match utc_timestamp(midnight_text(date@)) {
                Some(secs) => res matches Ok(time) && time@ == secs,
                None => res is Err,
            },
    {
        let text = date.to_owned().concat("T00:00:00Z");
        let parsed = parse_utc_timestamp(text.as_str());
        Time::from_parsed(parsed)
    }
}

impl std::str::FromStr for Time {
    type Err = chrono::ParseError;

    fn from_str(date: &str) -> (res: Result<Time, chrono::ParseError>)
        ensures
            match utc_timestamp(midnight_text(date@)) {
                Some(secs) => res matches Ok(time) && time@ == secs,
                None => res is Err,
            },
    {
        Time::from_str(date)
    }
}

} // verus!
