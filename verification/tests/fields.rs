use zingat::domain::clip::field::{Content, Expires, Password, Posted};
use zingat::domain::clip::field::password::MIN_LENGTH;
use zingat::{ClipError, ShortCode, Time};

#[test]
fn content_keeps_non_empty_text() {
    let content = Content::new("hello").unwrap();
    assert_eq!(content.as_str(), "hello");
    assert_eq!(content.into_inner(), "hello".to_string());
}

#[test]
fn content_keeps_white_space_as_it_is() {
    let content = Content::new("  ").unwrap();
    assert_eq!(content.as_str(), "  ");
}

#[test]
fn content_rejects_empty_text() {
    assert!(matches!(Content::new(""), Err(ClipError::EmptyContent)));
}

#[test]
fn password_is_trimmed() {
    let password = Password::new(Some("  correct horse  ".to_string())).unwrap();
    assert!(password.has_password());
    assert_eq!(password.into_inner(), Some("correct horse".to_string()));
}

#[test]
fn password_of_minimum_length_is_kept() {
    assert_eq!(MIN_LENGTH, 8);
    let password = Password::new(Some("12345678".to_string())).unwrap();
    assert_eq!(password.into_inner(), Some("12345678".to_string()));
}

#[test]
fn short_password_is_discarded() {
    let password = Password::new(Some("1234567".to_string())).unwrap();
    assert!(!password.has_password());
    assert_eq!(password.into_inner(), None);
}

#[test]
fn password_short_after_trimming_is_discarded() {
    let password = Password::new(Some("   1234567   ".to_string())).unwrap();
    assert!(!password.has_password());
}

#[test]
fn blank_password_is_discarded() {
    let password = Password::new(Some("            ".to_string())).unwrap();
    assert!(!password.has_password());
    let password = Password::new(Some(String::new())).unwrap();
    assert!(!password.has_password());
}

#[test]
fn password_length_counts_bytes() {
    // Four characters of two bytes each.
    let password = Password::new(Some("\u{e9}\u{e9}\u{e9}\u{e9}".to_string())).unwrap();
    assert!(password.has_password());
}

#[test]
fn absent_password_is_none() {
    let password = Password::new(None).unwrap();
    assert!(!password.has_password());
    assert!(!Password::default().has_password());
}

#[test]
fn password_from_text() {
    let password = Password::from_str(" hunter2hunter2 ").unwrap();
    assert_eq!(password.into_inner(), Some("hunter2hunter2".to_string()));
    assert_eq!(Password::from_trimmed("short").into_inner(), None);
}

#[test]
fn password_equality_is_by_text() {
    let a = Password::new(Some("longenough".to_string())).unwrap();
    let b = Password::new(Some(" longenough ".to_string())).unwrap();
    assert!(a == b);
    assert!(a != Password::default());
}

#[test]
fn expires_without_text_is_never() {
    let expires = Expires::from_str("").unwrap();
    assert!(expires.into_inner().is_none());
    assert!(Expires::default().into_inner().is_none());
}

#[test]
fn expires_reads_a_date_as_midnight_utc() {
    let expires = Expires::from_str("2015-05-15").unwrap();
    assert_eq!(expires.into_inner().unwrap().timestamp(), 1431648000);
}

#[test]
fn expires_reads_the_epoch() {
    let expires = Expires::from_str("1970-01-01").unwrap();
    assert_eq!(expires.into_inner().unwrap().timestamp(), 0);
}

#[test]
fn expires_rejects_what_is_no_date() {
    assert!(matches!(Expires::from_str("tomorrow"), Err(ClipError::DateParse(_))));
    assert!(matches!(Expires::from_str("2015-13-45"), Err(ClipError::DateParse(_))));
}

#[test]
fn time_rejects_what_is_no_date() {
    assert!(Time::from_str("15/05/2015").is_err());
    assert!(Time::from_str("2015-05-15").is_ok());
}

#[test]
fn expires_is_reached_at_its_own_moment() {
    let expires = Expires::new(Some(Time::from_timestamp(100)));
    assert!(expires.is_expired(&Time::from_timestamp(101)));
    assert!(expires.is_expired(&Time::from_timestamp(100)));
    assert!(!expires.is_expired(&Time::from_timestamp(99)));
    assert!(!Expires::new(None).is_expired(&Time::from_timestamp(i64::MAX)));
}

#[test]
fn time_orders_by_timestamp() {
    let early = Time::from_timestamp(-5);
    let late = Time::from_timestamp(7);
    assert!(early.at_or_before(&late));
    assert!(early.at_or_before(&early));
    assert!(!late.at_or_before(&early));
    assert_eq!(late.timestamp(), 7);
}

#[test]
fn posted_hands_back_its_time() {
    let posted = Posted::new(Time::from_timestamp(42));
    assert_eq!(posted.into_inner().timestamp(), 42);
}

#[test]
fn shortcode_compares_by_text() {
    let a = ShortCode::new("abc123");
    let b = ShortCode::new("abc123");
    let c = ShortCode::new("xyz789");
    assert!(a.same_as(&b));
    assert!(!a.same_as(&c));
    assert_eq!(a.duplicate().as_str(), "abc123");
    assert_eq!(c.into_inner(), "xyz789".to_string());
}

#[test]
fn fields_parse_from_text() {
    let expires: Expires = "2015-05-15".parse().unwrap();
    assert_eq!(expires.into_inner().unwrap().timestamp(), 1431648000);
    let password: Password = "  a long password ".parse().unwrap();
    assert_eq!(password.into_inner(), Some("a long password".to_string()));
    let time: Time = "1970-01-02".parse().unwrap();
    assert_eq!(time.timestamp(), 86_400);
    assert!("yesterday".parse::<Time>().is_err());
}
