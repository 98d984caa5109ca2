//! What the request layer shares with the background tasks and the pages.

use vstd::prelude::*;

pub mod ctx;
pub mod hitcounter;
pub mod http;

pub use hitcounter::HitCounter;

verus! {

/// The name of the cookie that carries a clip's password.
pub const PASSWORD_COOKIE: &'static str = "password";

/// The error that `handlebars` reports when a template cannot be rendered.
#[verifier::external_type_specification]
#[verifier::external_body]
pub struct ExRenderError(handlebars::RenderError);

/// The error that `serde_json` reports when a value cannot be serialised.
#[verifier::external_type_specification]
#[verifier::external_body]
pub struct ExJsonError(serde_json::Error);

/// Why a page could not be shown, each with the text for the reader.
#[derive(Debug)]
pub enum PageError {
    Serialization(String),
    Render(String),
    NotFound(String),
    Internal(String),
}

/// Formats the error with its `Display` impl in `handlebars`. Nothing is
/// claimed of the text.
#[verifier::external_body]
fn render_error_text(err: &handlebars::RenderError) -> (text: String) {
    format!("{}", err)
}

/// Formats the error with its `Display` impl in `serde_json`. Nothing is
/// claimed of the text.
#[verifier::external_body]
fn json_error_text(err: &serde_json::Error) -> (text: String) {
    format!("{}", err)
}

impl PageError {
    /// A template that failed to render is a `Render` error; its message is
    /// what `handlebars` prints for the error, kept as `rendering_failed` says.
    pub fn from_render_error(err: handlebars::RenderError) -> (res: PageError)
        ensures
            res is Render,
    {
        PageError::rendering_failed(render_error_text(&err))
    }

    /// A value that failed to serialise is a `Serialization` error; its message
    /// is what `serde_json` prints for it, kept as `serialization_failed` says.
    pub fn from_json_error(err: serde_json::Error) -> (res: PageError)
        ensures
            res is Serialization,
    {
        PageError::serialization_failed(json_error_text(&err))
    }

    /// The page error for a template that failed to render, given the
    /// renderer's message: a `Render` error with exactly that message.
    pub fn rendering_failed(message: String) -> (res: PageError)
        ensures
            res == PageError::Render(message),
    {
        PageError::Render(message)
    }

    /// The page error for a value that failed to serialise, given the
    /// serialiser's message: a `Serialization` error with exactly that message.
    pub fn serialization_failed(message: String) -> (res: PageError)
        ensures
            res == PageError::Serialization(message),
    {
        PageError::Serialization(message)
    }

    /// The HTTP status with which the error is answered.
    pub fn status(&self) -> (code: u16)
        ensures
            code == (match self {
                PageError::NotFound(_) => 404u16,
                _ => 500u16,
            }),
    {
        match self {
            PageError::NotFound(_) => 404,
            _ => 500,
        }
    }
}

} // verus!
