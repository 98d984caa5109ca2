use crate::domain::time::Time;
use vstd::prelude::*;

verus! {

/// When a clip was posted.
#[derive(Clone, Debug)]
pub struct Posted(Time);

impl View for Posted {
    type V = int;

    closed spec fn view(&self) -> int {
        self.0@
    }
}

impl Posted {
    pub fn new(time: Time) -> (posted: Posted)
        ensures
            posted@ == time@,
    {
        Posted(time)
    }

    pub fn into_inner(self) -> (time: Time)
        ensures
            time@ == self@,
    {
        self.0
    }
}

} // verus!
