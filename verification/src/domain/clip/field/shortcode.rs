use vstd::prelude::*;

verus! {

/// The short identifier under which a clip is stored and counted.
#[derive(Debug, Clone)]
pub struct ShortCode(String);

impl View for ShortCode {
    type V = Seq<char>;

    closed spec fn view(&self) -> Seq<char> {
        self.0@
    }
}

impl ShortCode {
    pub fn new(code: &str) -> (shortcode: ShortCode)
        ensures
            shortcode@ == code@,
    {
        ShortCode(code.to_owned())
    }

    pub fn as_str(&self) -> (text: &str)
        ensures
            text@ == self@,
    {
        self.0.as_str()
    }

    pub fn into_inner(self) -> (text: String)
        ensures
            text@ == self@,
    {
        self.0
    }

    /// Whether both codes spell the same identifier.
    pub fn same_as(&self, other: &ShortCode) -> (res: bool)
        ensures
            res == (self@ == other@),
    {
        self.0 == other.0
    }

    /// A second, independent copy of the code.
    pub fn duplicate(&self) -> (copy: ShortCode)
        ensures
            copy@ == self@,
            copy == *self,
    {
        ShortCode(self.0.clone())
    }
}

} // verus!
