use zingat::data::StoreError;
use zingat::domain::clip::field::{Content, Expires, Password, Posted};
use zingat::web::http::catcher::{catch, catchers, internal_error, not_found};
use zingat::web::http::{
    form_error_text, get_clip_reply, invalid_form_reply, missing_password_reply, new_clip_reply,
    routes, submit_password_reply, Method, Page, Reply,
};
use zingat::web::PageError;
use zingat::{Clip, ClipError, ServiceError, ShortCode, Time};

fn clip(code: &str) -> Clip {
    Clip {
        shortcode: ShortCode::new(code),
        content: Content::new("text").unwrap(),
        title: Some("a title".to_string()),
        posted: Posted::new(Time::from_timestamp(1)),
        expires: Expires::new(None),
        password: Password::default(),
        hits: 3,
    }
}

#[test]
fn stored_clip_redirects_to_its_page() {
    match new_clip_reply(Ok(clip("abc123"))) {
        Reply::SeeClip(code) => assert_eq!(code.as_str(), "abc123"),
        other => panic!("unexpected {:?}", other),
    }
}

#[test]
fn failure_to_store_shows_the_home_page_with_a_server_error() {
    match new_clip_reply(Err(ServiceError::Data(StoreError::AlreadyExists))) {
        Reply::Render { status, page, errors, cookie } => {
            assert_eq!(status, 500);
            assert!(matches!(page, Page::Home));
            assert_eq!(errors, vec!["A server error occurred. Please try again".to_string()]);
            assert_eq!(cookie, None);
        }
        other => panic!("unexpected {:?}", other),
    }
}

#[test]
fn invalid_form_is_a_bad_request() {
    let shown = vec![
        form_error_text(Some("content must not be empty")).to_string(),
        form_error_text(None).to_string(),
    ];
    assert_eq!(shown[1], "An error occurred, please try again");
    match invalid_form_reply(shown) {
        Reply::Render { status, page, errors, cookie } => {
            assert_eq!(status, 400);
            assert!(matches!(page, Page::Home));
            assert_eq!(errors.len(), 2);
            assert_eq!(errors[0], "content must not be empty");
            assert_eq!(cookie, None);
        }
        other => panic!("unexpected {:?}", other),
    }
}

#[test]
fn found_clip_is_shown() {
    match get_clip_reply(ShortCode::new("abc123"), Ok(clip("abc123"))).unwrap() {
        Reply::Render { status, page: Page::ViewClip(view), errors, cookie } => {
            assert_eq!(status, 200);
            assert_eq!(view.clip.hits, 3);
            assert!(errors.is_empty());
            assert_eq!(cookie, None);
        }
        other => panic!("unexpected {:?}", other),
    }
}

#[test]
fn protected_clip_asks_for_the_password() {
    let found = Err(ServiceError::PermissionError("Invalid password".to_string()));
    match get_clip_reply(ShortCode::new("abc123"), found).unwrap() {
        Reply::Render { status, page: Page::PasswordRequired(_), errors, cookie } => {
            assert_eq!(status, 401);
            assert!(errors.is_empty());
            assert_eq!(cookie, None);
        }
        other => panic!("unexpected {:?}", other),
    }
}

#[test]
fn unknown_clip_is_not_found() {
    match get_clip_reply(ShortCode::new("abc123"), Err(ServiceError::NotFound)) {
        Err(PageError::NotFound(text)) => assert_eq!(text, "Clip not found"),
        other => panic!("unexpected {:?}", other),
    }
    match submit_password_reply(
        ShortCode::new("abc123"),
        Password::default(),
        Err(ServiceError::NotFound),
    ) {
        Err(PageError::NotFound(text)) => assert_eq!(text, "Clip not found"),
        other => panic!("unexpected {:?}", other),
    }
}

#[test]
fn other_failures_are_internal_errors() {
    match get_clip_reply(ShortCode::new("abc123"), Err(ServiceError::Clip(ClipError::Expired))) {
        Err(PageError::Internal(text)) => assert_eq!(text, "Failed to get clip. Server error"),
        other => panic!("unexpected {:?}", other),
    }
    match submit_password_reply(
        ShortCode::new("abc123"),
        Password::default(),
        Err(ServiceError::Data(StoreError::NotFound)),
    ) {
        Err(PageError::Internal(text)) => assert_eq!(text, "server error"),
        other => panic!("unexpected {:?}", other),
    }
}

#[test]
fn form_without_password_asks_again() {
    match missing_password_reply(ShortCode::new("abc123")) {
        Reply::Render { status, page: Page::PasswordRequired(_), errors, cookie } => {
            assert_eq!(status, 200);
            assert_eq!(errors, vec!["A password is required to view this clip.".to_string()]);
            assert_eq!(cookie, None);
        }
        other => panic!("unexpected {:?}", other),
    }
}

#[test]
fn right_password_shows_the_clip_and_sets_the_cookie() {
    let password = Password::new(Some("open sesame".to_string())).unwrap();
    match submit_password_reply(ShortCode::new("abc123"), password, Ok(clip("abc123"))).unwrap() {
        Reply::Render { status, page: Page::ViewClip(view), errors, cookie } => {
            assert_eq!(status, 200);
            assert_eq!(view.clip.shortcode.as_str(), "abc123");
            assert!(errors.is_empty());
            assert_eq!(cookie, Some("open sesame".to_string()));
        }
        other => panic!("unexpected {:?}", other),
    }
}

#[test]
fn absent_password_sets_an_empty_cookie() {
    match submit_password_reply(ShortCode::new("abc123"), Password::default(), Ok(clip("abc123")))
        .unwrap()
    {
        Reply::Render { cookie, .. } => assert_eq!(cookie, Some(String::new())),
        other => panic!("unexpected {:?}", other),
    }
}

#[test]
fn wrong_password_asks_again_with_the_reason() {
    let found = Err(ServiceError::PermissionError("Invalid password".to_string()));
    let password = Password::new(Some("not the one".to_string())).unwrap();
    match submit_password_reply(ShortCode::new("abc123"), password, found).unwrap() {
        Reply::Render { status, page: Page::PasswordRequired(_), errors, cookie } => {
            assert_eq!(status, 200);
            assert_eq!(errors, vec!["Invalid password".to_string()]);
            assert_eq!(cookie, None);
        }
        other => panic!("unexpected {:?}", other),
    }
}

#[test]
fn route_table_lists_the_four_routes() {
    let table = routes();
    let listed: Vec<(Method, &str)> = table.iter().map(|r| (r.method, r.path)).collect();
    assert_eq!(
        listed,
        vec![
            (Method::Get, "/"),
            (Method::Get, "/clip/<shortcode>"),
            (Method::Post, "/"),
            (Method::Post, "/clip/<shortcode>"),
        ]
    );
}

#[test]
fn catchers_answer_by_status() {
    assert_eq!(not_found(), "404");
    assert_eq!(internal_error(), "internal server error");
    assert_eq!(zingat::web::http::catcher::default(), "something went wrong...");
    assert_eq!(catch(404), "404");
    assert_eq!(catch(500), "internal server error");
    assert_eq!(catch(403), "something went wrong...");
    let table = catchers();
    assert_eq!(table.len(), 3);
    assert_eq!((table[0].status, table[0].body), (Some(404), "404"));
    assert_eq!((table[1].status, table[1].body), (None, "something went wrong..."));
    assert_eq!((table[2].status, table[2].body), (Some(500), "internal server error"));
}
