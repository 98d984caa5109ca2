use zingat::domain::clip::field::{Content, Expires, Password, Posted};
use zingat::web::ctx::{Home, PageContext, PasswordRequired, ViewClip};
use zingat::web::{PageError, PASSWORD_COOKIE};
use zingat::{Clip, ShortCode, Time};

#[test]
fn home_page_context() {
    let home = Home::default();
    assert_eq!(home.title(), "Clipboard sharing");
    assert_eq!(home.template_path(), "home");
    assert_eq!(home.parent(), "base");
}

#[test]
fn view_clip_page_context() {
    let clip = Clip {
        shortcode: ShortCode::new("abc123"),
        content: Content::new("text").unwrap(),
        title: None,
        posted: Posted::new(Time::from_timestamp(1)),
        expires: Expires::new(None),
        password: Password::default(),
        hits: 0,
    };
    let page = ViewClip::new(clip);
    assert_eq!(page.clip.shortcode.as_str(), "abc123");
    assert_eq!(page.title(), "View Clip");
    assert_eq!(page.template_path(), "clip");
    assert_eq!(page.parent(), "base");
}

#[test]
fn password_required_page_context() {
    let page = PasswordRequired::new(ShortCode::new("abc123"));
    assert_eq!(page.title(), "Password Required");
    assert_eq!(page.template_path(), "clip_need_password");
    assert_eq!(page.parent(), "base");
}

#[test]
fn password_cookie_name() {
    assert_eq!(PASSWORD_COOKIE, "password");
}

#[test]
fn render_error_becomes_page_error() {
    let err = handlebars::RenderError::new("template went missing");
    let expected = format!("{}", err);
    assert_eq!(expected, "template went missing");
    match PageError::from_render_error(err) {
        PageError::Render(text) => assert_eq!(text, expected),
        other => panic!("unexpected {:?}", other),
    }
}

#[test]
fn render_error_with_a_position_names_it() {
    let mut err = handlebars::RenderError::new("no such helper");
    err.template_name = Some("clip".to_string());
    err.line_no = Some(3);
    err.column_no = Some(7);
    match PageError::from_render_error(err) {
        PageError::Render(text) => {
            assert_eq!(text, "Error rendering \"clip\" line 3, col 7: no such helper")
        }
        other => panic!("unexpected {:?}", other),
    }
}

#[test]
fn page_error_keeps_the_message_it_is_given() {
    match PageError::rendering_failed("missing partial".to_string()) {
        PageError::Render(text) => assert_eq!(text, "missing partial"),
        other => panic!("unexpected {:?}", other),
    }
    match PageError::serialization_failed("key must be a string".to_string()) {
        PageError::Serialization(text) => assert_eq!(text, "key must be a string"),
        other => panic!("unexpected {:?}", other),
    }
}

#[test]
fn json_error_becomes_page_error() {
    let err = serde_json::from_str::<serde_json::Value>("{").unwrap_err();
    let expected = format!("{}", err);
    match PageError::from_json_error(err) {
        PageError::Serialization(text) => assert_eq!(text, expected),
        other => panic!("unexpected {:?}", other),
    }
}

#[test]
fn page_error_status() {
    assert_eq!(PageError::NotFound("Clip not found".to_string()).status(), 404);
    assert_eq!(PageError::Internal("server error".to_string()).status(), 500);
    assert_eq!(PageError::Render(String::new()).status(), 500);
    assert_eq!(PageError::Serialization(String::new()).status(), 500);
}
