//! What each route answers, decided from what the form held and what the
//! service reported. The request layer does the asking and the rendering.

use crate::domain::clip::field::{Password, ShortCode};
use crate::domain::clip::Clip;
use crate::service::ServiceError;
use crate::web::ctx::{PasswordRequired, ViewClip};
use crate::web::PageError;
use vstd::prelude::*;

pub mod catcher;

verus! {

pub const STATUS_OK: u16 = 200;

pub const STATUS_BAD_REQUEST: u16 = 400;

pub const STATUS_UNAUTHORIZED: u16 = 401;

pub const STATUS_INTERNAL_SERVER_ERROR: u16 = 500;

/// The page to render.
#[derive(Debug)]
pub enum Page {
    Home,
    ViewClip(ViewClip),
    PasswordRequired(PasswordRequired),
}

/// What a route answers.
#[derive(Debug)]
pub enum Reply {
    /// Send the reader on to the page of the clip with this short code.
    SeeClip(ShortCode),
    /// Render `page` with `errors` shown on it, answer with `status`, and
    /// where `cookie` holds a password, remember it in the password cookie.
    Render { status: u16, page: Page, errors: Vec<String>, cookie: Option<String> },
}

/// `reply` renders `page` with `status`, shows exactly the message `text`,
/// and sets no cookie.
pub open spec fn renders_with_message(reply: Reply, status: u16, page: Page, text: Seq<char>) -> bool {
    reply matches Reply::Render { status: s, page: p, errors, cookie } && s == status && p == page
        && errors@.len() == 1 && errors@[0]@ == text && cookie is None
}

/// `reply` renders `page` with `status`, with no message and no cookie.
pub open spec fn renders_plain(reply: Reply, status: u16, page: Page) -> bool {
    reply matches Reply::Render { status: s, page: p, errors, cookie } && s == status && p == page
        && errors@.len() == 0 && cookie is None
}

fn one_message(text: &str) -> (errors: Vec<String>)
    ensures
        errors@.len() == 1,
        errors@[0]@ == text@,
{
    let mut errors: Vec<String> = Vec::new();
    errors.push(text.to_owned());
    errors
}

/// The text shown for one error of a submitted form: the validation's own
/// message where it has one, a general message otherwise.
pub fn form_error_text<'a>(validation: Option<&'a str>) -> (text: &'a str)
    ensures
        text@ == (match validation {
            Some(msg) => msg@,
            None => "An error occurred, please try again"@,
        }),
{
    match validation {
        Some(msg) => msg,
        None => "An error occurred, please try again",
    }
}

/// The answer to a new clip whose form was not valid: the home page again,
/// with the form's errors, as a bad request.
pub fn invalid_form_reply(errors: Vec<String>) -> (reply: Reply)
    ensures
        reply == (Reply::Render {
            status: STATUS_BAD_REQUEST,
            page: Page::Home,
            errors,
            cookie: None,
        }),
{
    Reply::Render { status: STATUS_BAD_REQUEST, page: Page::Home, errors, cookie: None }
}

/// The answer to a new clip once the service was asked to store it: on to
/// the clip's page, or the home page again with a server error.
pub fn new_clip_reply(stored: Result<Clip, ServiceError>) -> (reply: Reply)
    ensures
        match stored {
            Ok(clip) => reply == Reply::SeeClip(clip.shortcode),
            Err(_) => renders_with_message(
                reply,
                STATUS_INTERNAL_SERVER_ERROR,
                Page::Home,
                "A server error occurred. Please try again"@,
            ),
        },
{
    match stored {
        Ok(clip) => Reply::SeeClip(clip.shortcode),
        Err(_) => Reply::Render {
            status: STATUS_INTERNAL_SERVER_ERROR,
            page: Page::Home,
            errors: one_message("A server error occurred. Please try again"),
            cookie: None,
        },
    }
}

/// The answer to a request for the clip `shortcode`, from what the service
/// found: the clip; the request for its password, as unauthorized; or an error.
pub fn get_clip_reply(shortcode: ShortCode, found: Result<Clip, ServiceError>) -> (res: Result<
    Reply,
    PageError,
>)
    ensures
        match found {
            Ok(clip) => res matches Ok(reply) && renders_plain(
                reply,
                STATUS_OK,
                Page::ViewClip(ViewClip { clip }),
            ),
            Err(ServiceError::PermissionError(_)) => res matches Ok(reply) && (reply matches Reply::Render {
                status,
                page: Page::PasswordRequired(asked),
                errors,
                cookie,
            } && status == STATUS_UNAUTHORIZED && asked.shortcode() == shortcode@ && errors@.len()
                == 0 && cookie is None),
            Err(ServiceError::NotFound) => res matches Err(PageError::NotFound(text)) && text@
                == "Clip not found"@,
            Err(_) => res matches Err(PageError::Internal(text)) && text@
                == "Failed to get clip. Server error"@,
        },
{
    match found {
        Ok(clip) => Ok(
            Reply::Render {
                status: STATUS_OK,
                page: Page::ViewClip(ViewClip::new(clip)),
                errors: Vec::new(),
                cookie: None,
            },
        ),
        Err(ServiceError::PermissionError(_)) => Ok(
            Reply::Render {
                status: STATUS_UNAUTHORIZED,
                page: Page::PasswordRequired(PasswordRequired::new(shortcode)),
                errors: Vec::new(),
                cookie: None,
            },
        ),
        Err(ServiceError::NotFound) => Err(PageError::NotFound("Clip not found".to_owned())),
        Err(_) => Err(PageError::Internal("Failed to get clip. Server error".to_owned())),
    }
}

/// The answer to a password form that held no password: the request for the
/// password again.
pub fn missing_password_reply(shortcode: ShortCode) -> (reply: Reply)
    ensures
        reply matches Reply::Render { status, page: Page::PasswordRequired(asked), errors, cookie }
            && status == STATUS_OK && asked.shortcode() == shortcode@ && errors@.len() == 1
            && errors@[0]@ == "A password is required to view this clip."@ && cookie is None,
{
    Reply::Render {
        status: STATUS_OK,
        page: Page::PasswordRequired(PasswordRequired::new(shortcode)),
        errors: one_message("A password is required to view this clip."),
        cookie: None,
    }
}

/// The text kept in the password cookie: the password, or nothing where
/// there is none.
pub open spec fn cookie_text(password: Password) -> Seq<char> {
    match password@ {
        Some(text) => text,
        None => Seq::empty(),
    }
}

/// The answer to a submitted password, from what the service found with it:
/// the clip, with the password kept in the cookie; the request for the
/// password again, with the service's reason; or an error.
pub fn submit_password_reply(
    shortcode: ShortCode,
    password: Password,
    found: Result<Clip, ServiceError>,
) -> (res: Result<Reply, PageError>)
    ensures
        match found {
            Ok(clip) => res matches Ok(reply) && (reply matches Reply::Render {
                status,
                page,
                errors,
                cookie,
            } && status == STATUS_OK && page == Page::ViewClip(ViewClip { clip }) && errors@.len()
                == 0 && (cookie matches Some(text) && text@ == cookie_text(password))),
            Err(ServiceError::PermissionError(reason)) => res matches Ok(reply) && (reply matches Reply::Render {
                status,
                page: Page::PasswordRequired(asked),
                errors,
                cookie,
            } && status == STATUS_OK && asked.shortcode() == shortcode@ && errors@.len() == 1
                && errors@[0] == reason && cookie is None),
            Err(ServiceError::NotFound) => res matches Err(PageError::NotFound(text)) && text@
                == "Clip not found"@,
            Err(_) => res matches Err(PageError::Internal(text)) && text@ == "server error"@,
        },
{
    match found {
        Ok(clip) => {
            let kept = match password.into_inner() {
                Some(text) => text,
                None => String::new(),
            };
            Ok(
                Reply::Render {
                    status: STATUS_OK,
                    page: Page::ViewClip(ViewClip::new(clip)),
                    errors: Vec::new(),
                    cookie: Some(kept),
                },
            )
        },
        Err(ServiceError::PermissionError(reason)) => {
            let mut errors: Vec<String> = Vec::new();
            errors.push(reason);
            Ok(
                Reply::Render {
                    status: STATUS_OK,
                    page: Page::PasswordRequired(PasswordRequired::new(shortcode)),
                    errors,
                    cookie: None,
                },
            )
        },
        Err(ServiceError::NotFound) => Err(PageError::NotFound("Clip not found".to_owned())),
        Err(_) => Err(PageError::Internal("server error".to_owned())),
    }
}

/// How a route is asked for.
#[derive(Debug, Clone, Copy, PartialEq, Eq, Structural)]
pub enum Method {
    Get,
    Post,
}

/// One route of the site: how it is asked for and under which path.
#[derive(Debug)]
pub struct Route {
    pub method: Method,
    pub path: &'static str,
}

/// The site's routes, in the order in which they are mounted: the home
/// page, the page of a clip, the form for a new clip, and the form for a
/// clip's password.
pub fn routes() -> (table: Vec<Route>)
    ensures
        table@.len() == 4,
        table@[0].method == Method::Get && table@[0].path@ == "/"@,
        table@[1].method == Method::Get && table@[1].path@ == "/clip/<shortcode>"@,
        table@[2].method == Method::Post && table@[2].path@ == "/"@,
        table@[3].method == Method::Post && table@[3].path@ == "/clip/<shortcode>"@,
{
    let mut table: Vec<Route> = Vec::new();
    table.push(Route { method: Method::Get, path: "/" });
    table.push(Route { method: Method::Get, path: "/clip/<shortcode>" });
    table.push(Route { method: Method::Post, path: "/" });
    table.push(Route { method: Method::Post, path: "/clip/<shortcode>" });
    table
}

} // verus!
