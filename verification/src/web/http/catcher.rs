//! What is answered where no route gave an answer.

use vstd::prelude::*;

verus! {

/// The answer for one status, or for every status that has no answer of
/// its own where `status` is `None`.
#[derive(Debug)]
pub struct Catcher {
    pub status: Option<u16>,
    pub body: &'static str,
}

/// The body that answers a failed request with the given status.
pub open spec fn body_for(status: u16) -> Seq<char> {
    if status == 404 {
        "404"@
    } else if status == 500 {
        "internal server error"@
    } else {
        "something went wrong..."@
    }
}

pub fn not_found() -> (body: &'static str)
    ensures
        body@ == body_for(404),
{
    "404"
}

pub fn internal_error() -> (body: &'static str)
    ensures
        body@ == body_for(500),
{
    "internal server error"
}

pub fn default() -> (body: &'static str)
    ensures
        body@ == "something went wrong..."@,
{
    "something went wrong..."
}

/// The body that answers a failed request with the given status.
pub fn catch(status: u16) -> (body: &'static str)
    ensures
        body@ == body_for(status),
{
    if status == 404 {
        not_found()
    } else if status == 500 {
        internal_error()
    } else {
        default()
    }
}

/// The site's catchers: for 404, for every other status, and for 500.
pub fn catchers() -> (table: Vec<Catcher>)
    ensures
        table@.len() == 3,
        table@[0].status == Some(404u16) && table@[0].body@ == body_for(404),
        table@[1].status == None::<u16> && table@[1].body@ == "something went wrong..."@,
        table@[2].status == Some(500u16) && table@[2].body@ == body_for(500),
{
    let mut table: Vec<Catcher> = Vec::new();
    table.push(Catcher { status: Some(404), body: not_found() });
    table.push(Catcher { status: None, body: default() });
    table.push(Catcher { status: Some(500), body: internal_error() });
    table
}

} // verus!
