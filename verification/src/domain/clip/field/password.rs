use crate::domain::clip::ClipError;
use vstd::prelude::*;
use vstd::utf8::encode_utf8;

verus! {

/// What `str::trim` leaves of `text`: the same text without the white space
/// at its start and at its end.
pub uninterp spec fn trimmed(text: Seq<char>) -> Seq<char>;

/// Calls `str::trim`. Which characters count as white space is Unicode's
/// business, so the result is only given the name [`trimmed`].
#[verifier::external_body]
fn trim_text(text: &str) -> (res: &str)
    ensures
        res@ == trimmed(text@),
{
    text.trim()
}

/// The password that protects a clip, if it has one.
#[derive(Clone, Debug, PartialEq, PartialOrd)]
pub struct Password(Option<String>);

impl View for Password {
    type V = Option<Seq<char>>;

    closed spec fn view(&self) -> Option<Seq<char>> {
        match self.0 {
            Some(text) => Some(text@),
            None => None,
        }
    }
}

/// The shortest password, in bytes of UTF-8, that is kept.
pub const MIN_LENGTH: usize = 8;

/// What is kept of a candidate once trimmed: the candidate itself when it is
/// long enough, nothing otherwise.
pub open spec fn kept_password(candidate: Seq<char>) -> Option<Seq<char>> {
    if encode_utf8(candidate).len() >= MIN_LENGTH {
        Some(candidate)
    } else {
        None
    }
}

impl Password {
    /// Keeps a trimmed candidate of at least [`MIN_LENGTH`] bytes and
    /// discards a shorter one.
    pub fn from_trimmed(candidate: &str) -> (password: Password)
        ensures
            password@ == kept_password(candidate@),
    {
        if candidate.as_bytes().len() < MIN_LENGTH {
            Password(None)
        } else {
            Password(Some(candidate.to_owned()))
        }
    }

    /// Trims the given text and keeps it as the password if at least
    /// [`MIN_LENGTH`] bytes remain; otherwise the clip has no password.
    /// Never fails.
    pub fn new(password: Option<String>) -> (res: Result<Password, ClipError>)
        ensures
            res matches Ok(p) && p@ == (match password {
                Some(text) => kept_password(trimmed(text@)),
                None => None,
            }),
    {
        match password {
            Some(text) => Ok(Password::from_trimmed(trim_text(text.as_str()))),
            None => Ok(Password(None)),
        }
    }

    pub fn into_inner(self) -> (text: Option<String>)
        ensures
            self@ == (match text {
                Some(t) => Some(t@),
                None => None,
            }),
    {
        self.0
    }

    pub fn has_password(&self) -> (res: bool)
        ensures
            res == (self@ is Some),
    {
        self.0.is_some()
    }

    /// Reads a password typed as text, by the rule of [`Password::new`].
    pub fn from_str(s: &str) -> (res: Result<Password, ClipError>)
        ensures
            res matches Ok(p) && p@ == kept_password(trimmed(s@)),
    {
        Password::new(Some(s.to_owned()))
    }
}

impl Default for Password {
    fn default() -> (res: Password)
        ensures
            res@ is None,
    {
        Password(None)
    }
}

impl std::str::FromStr for Password {
    type Err = ClipError;

    fn from_str(s: &str) -> (res: Result<Password, ClipError>)
        ensures
            res matches Ok(p) && p@ == kept_password(trimmed(s@)),
    {
        Password::from_str(s)
    }
}

} // verus!
