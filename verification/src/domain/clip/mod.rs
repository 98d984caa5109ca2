//! The clip record and the errors raised while building one.

use vstd::prelude::*;

pub mod field;

verus! {

/// The error that `uuid` reports for text that is no identifier.
#[verifier::external_type_specification]
#[verifier::external_body]
pub struct ExUuidError(uuid::Error);

/// Why a clip, or one of its fields, could not be built or found.
#[derive(Debug)]
pub enum ClipError {
    NotFound,
    AlreadyExists,
    Expired,
    InvalidPassword(String),
    InvalidTitle(String),
    EmptyContent,
    InvalidDate(String),
    DateParse(chrono::ParseError),
    Id(uuid::Error),
    Hits(std::num::TryFromIntError),
}

/// Everything stored about one posted clip.
///
/// Each field is a type of its own that can only be built from valid data,
/// so a `Clip` that exists is valid.
#[derive(Debug, Clone)]
pub struct Clip {
    pub shortcode: field::ShortCode,
    pub content: field::Content,
    pub title: Option<String>,
    pub posted: field::Posted,
    pub expires: field::Expires,
    pub password: field::Password,
    pub hits: u64,
}

} // verus!
