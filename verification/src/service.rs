//! What the service layer reports when a request cannot be served.

use crate::data::StoreError;
use crate::domain::clip::ClipError;
use vstd::prelude::*;

verus! {

/// Why the service could not carry out a request.
#[derive(Debug)]
pub enum ServiceError {
    /// A field of the clip was not valid.
    Clip(ClipError),
    /// The store refused the operation.
    Data(StoreError),
    /// No such clip.
    NotFound,
    /// The clip is protected and the password was missing or wrong.
    PermissionError(String),
}

} // verus!
