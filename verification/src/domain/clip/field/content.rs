use crate::domain::clip::ClipError;
use vstd::prelude::*;

verus! {

/// The text of a clip; never empty.
#[derive(Debug, Clone)]
pub struct Content(String);

impl View for Content {
    type V = Seq<char>;

    closed spec fn view(&self) -> Seq<char> {
        self.0@
    }
}

impl Content {
    /// Whether the value holds what every `Content` built by [`Content::new`] holds.
    pub open spec fn wf(&self) -> bool {
        self@.len() > 0
    }

    /// Accepts any non-empty text; empty text is `ClipError::EmptyContent`.
    pub fn new(content: &str) -> (res: Result<Content, ClipError>)
        ensures
            content@.len() > 0 ==> (res matches Ok(c) && c@ == content@ && c.wf()),
            content@.len() == 0 ==> res is Err,
            res matches Err(err) ==> err is EmptyContent,
    {
        if content.is_empty() {
            return Err(ClipError::EmptyContent);
        }
        Ok(Content(content.to_owned()))
    }

    pub fn into_inner(self) -> (text: String)
        ensures
            text@ == self@,
    {
        self.0
    }

    pub fn as_str(&self) -> (text: &str)
        ensures
            text@ == self@,
    {
        self.0.as_str()
    }
}

} // verus!
