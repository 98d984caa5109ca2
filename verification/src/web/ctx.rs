//! What each page hands to the template renderer.

use crate::domain::clip::field::ShortCode;
use crate::domain::clip::Clip;
use vstd::prelude::*;

verus! {

/// What the renderer needs to know of a page.
pub trait PageContext {
    fn title(&self) -> &str;

    fn template_path(&self) -> &str;

    fn parent(&self) -> &str;
}

/// The home page.
#[derive(Debug)]
pub struct Home {}

impl Default for Home {
    fn default() -> Home {
        Home {  }
    }
}

impl PageContext for Home {
    fn title(&self) -> (text: &str)
        ensures
            text@ == "Clipboard sharing"@,
    {
        "Clipboard sharing"
    }

    fn template_path(&self) -> (text: &str)
        ensures
            text@ == "home"@,
    {
        "home"
    }

    fn parent(&self) -> (text: &str)
        ensures
            text@ == "base"@,
    {
        "base"
    }
}

/// The page that shows a clip.
#[derive(Debug)]
pub struct ViewClip {
    pub clip: Clip,
}

impl ViewClip {
    pub fn new(clip: Clip) -> (page: ViewClip)
        ensures
            page.clip == clip,
    {
        ViewClip { clip }
    }
}

impl PageContext for ViewClip {
    fn template_path(&self) -> (text: &str)
        ensures
            text@ == "clip"@,
    {
        "clip"
    }

    fn title(&self) -> (text: &str)
        ensures
            text@ == "View Clip"@,
    {
        "View Clip"
    }

    fn parent(&self) -> (text: &str)
        ensures
            text@ == "base"@,
    {
        "base"
    }
}

/// The page that asks for a clip's password.
#[derive(Debug)]
pub struct PasswordRequired {
    shortcode: ShortCode,
}

impl PasswordRequired {
    pub closed spec fn shortcode(&self) -> Seq<char> {
        self.shortcode@
    }

    pub fn new(shortcode: ShortCode) -> (page: PasswordRequired)
        ensures
            page.shortcode() == shortcode@,
    {
        PasswordRequired { shortcode }
    }
}

impl PageContext for PasswordRequired {
    fn title(&self) -> (text: &str)
        ensures
            text@ == "Password Required"@,
    {
        "Password Required"
    }

    fn template_path(&self) -> (text: &str)
        ensures
            text@ == "clip_need_password"@,
    {
        "clip_need_password"
    }

    fn parent(&self) -> (text: &str)
        ensures
            text@ == "base"@,
    {
        "base"
    }
}

} // verus!
