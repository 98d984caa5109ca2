use crate::domain::clip::ClipError;
use crate::domain::time::{midnight_text, utc_timestamp, Time};
use vstd::prelude::*;

verus! {

/// When a clip stops being available; `None` means never.
#[derive(Clone, Debug)]
pub struct Expires(Option<Time>);

impl View for Expires {
    type V = Option<int>;

    closed spec fn view(&self) -> Option<int> {
        match self.0 {
            Some(time) => Some(time@),
            None => None,
        }
    }
}

impl Expires {
    pub fn new(expires: Option<Time>) -> (res: Expires)
        ensures
            res@ == (match expires {
                Some(time) => Some(time@),
                None => None,
            }),
    {
        Expires(expires)
    }

    pub fn into_inner(self) -> (time: Option<Time>)
        ensures
            self@ == (match time {
                Some(t) => Some(t@),
                None => None,
            }),
    {
        self.0
    }

    /// A clip has expired at `now` when it has an expiry at or before `now`.
    pub open spec fn expired_at(&self, now: int) -> bool {
        self@ matches Some(at) && at <= now
    }

    /// Whether the expiry has been reached at `now`.
    pub fn is_expired(&self, now: &Time) -> (res: bool)
        ensures
            res == self.expired_at(now@),
    {
        match &self.0 {
            Some(at) => at.at_or_before(now),
            None => false,
        }
    }

    /// Turns what the date reader answered into an expiry.
    pub fn from_parsed(parsed: Result<Time, chrono::ParseError>) -> (res: Result<Expires, ClipError>)
        ensures
            match parsed {
                Ok(time) => res matches Ok(e) && e@ == Some(time@),
                Err(err) => res matches Err(ClipError::DateParse(inner)) && inner == err,
            },
    {
        match parsed {
            Ok(time) => Ok(Expires(Some(time))),
            Err(err) => Err(ClipError::DateParse(err)),
        }
    }

    /// Empty text means no expiry; any other text must be a calendar date,
    /// and stands for midnight UTC of that day.
    pub fn from_str(raw: &str) -> (res: Result<Expires, ClipError>)
        ensures
            raw@.len() == 0 ==> (res matches Ok(e) && e@ is None),
            raw@.len() > 0 ==> (match utc_timestamp(midnight_text(raw@)) {
                Some(secs) => res matches Ok(e) && e@ == Some(secs as int),
                None => res matches Err(err) && err is DateParse,
            }),
    {
        if raw.is_empty() {
            Ok(Expires(None))
        } else {
            Expires::from_parsed(Time::from_str(raw))
        }
    }
}

impl Default for Expires {
    fn default() -> (res: Expires)
        ensures
            res@ is None,
    {
        Expires(None)
    }
}

impl std::str::FromStr for Expires {
    type Err = ClipError;

    fn from_str(raw: &str) -> (res: Result<Expires, ClipError>)
        ensures
            raw@.len() == 0 ==> (res matches Ok(e) && e@ is None),
            raw@.len() > 0 ==> (match utc_timestamp(midnight_text(raw@)) {
                Some(secs) => res matches Ok(e) && e@ == Some(secs as int),
                None => res matches Err(err) && err is DateParse,
            }),
    {
        Expires::from_str(raw)
    }
}

} // verus!
