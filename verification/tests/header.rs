use leptos_axum::header::accept;
use leptos_axum::header::bytes_equal;
use leptos_axum::header::content_type;
use leptos_axum::header::is_text;
use leptos_axum::header::location;
use leptos_axum::header::referer;
use leptos_axum::header::FieldName;
use leptos_axum::header::FieldValue;
use leptos_axum::header::InvalidFieldName;
use leptos_axum::header::InvalidFieldValue;
use leptos_axum::header::MAX_HEADER_NAME_LEN;

#[test]
fn name_is_normalized_to_lower_case() {
    let name = FieldName::from_str("Content-Type").unwrap();
    assert_eq!(name.as_bytes(), b"content-type");
    let name = FieldName::from_bytes(b"X-REQUEST-ID").unwrap();
    assert_eq!(name.as_bytes(), b"x-request-id");
}

#[test]
fn name_agrees_with_the_http_crate() {
    for text in ["Accept", "x-a_b.c", "a!#$%&'*+-.^_`|~z", "quote\"d", "0"] {
        let ours = FieldName::from_str(text).unwrap();
        let theirs = http::HeaderName::from_bytes(text.as_bytes()).unwrap();
        assert_eq!(ours.as_bytes(), theirs.as_str().as_bytes());
    }
}

#[test]
fn every_byte_is_judged_as_the_http_crate_judges_it() {
    for b in 0u8..=255 {
        let ours = FieldName::from_bytes(&[b]);
        let theirs = http::HeaderName::from_bytes(&[b]);
        assert_eq!(ours.is_ok(), theirs.is_ok(), "name byte {b}");
        if let (Ok(ours), Ok(theirs)) = (ours, theirs) {
            assert_eq!(ours.as_bytes(), theirs.as_str().as_bytes());
        }
        let ours = FieldValue::from_bytes(&[b]);
        let theirs = http::HeaderValue::from_bytes(&[b]);
        assert_eq!(ours.is_ok(), theirs.is_ok(), "value byte {b}");
        let theirs_text = http::HeaderValue::from_bytes(&[b]).map(|v| v.to_str().is_ok());
        if let Ok(readable) = theirs_text {
            assert_eq!(is_text(&[b]), readable, "text byte {b}");
        }
    }
}

#[test]
fn name_with_a_forbidden_byte_is_refused() {
    assert_eq!(FieldName::from_str("a b").unwrap_err(), InvalidFieldName {});
    assert!(FieldName::from_str("a(b").is_err());
    assert!(FieldName::from_str("a:b").is_err());
    assert!(FieldName::from_str("a/b").is_err());
    assert!(FieldName::from_str("caf\u{e9}").is_err());
    assert!(FieldName::from_bytes(b"a\0").is_err());
}

#[test]
fn empty_name_is_refused() {
    assert!(FieldName::from_str("").is_err());
    assert!(FieldName::from_bytes(b"").is_err());
}

#[test]
fn name_length_is_bounded() {
    let longest = vec![b'a'; MAX_HEADER_NAME_LEN];
    assert_eq!(MAX_HEADER_NAME_LEN, 65535);
    assert!(FieldName::from_bytes(&longest).is_ok());
    assert!(http::HeaderName::from_bytes(&longest).is_ok());
    let too_long = vec![b'a'; MAX_HEADER_NAME_LEN + 1];
    assert!(FieldName::from_bytes(&too_long).is_err());
    assert!(http::HeaderName::from_bytes(&too_long).is_err());
}

#[test]
fn static_name_is_taken_as_written() {
    let name = FieldName::from_static("x-custom");
    assert_eq!(name.as_bytes(), b"x-custom");
}

#[test]
fn known_names() {
    assert_eq!(accept().as_bytes(), b"accept");
    assert_eq!(referer().as_bytes(), b"referer");
    assert_eq!(location().as_bytes(), b"location");
    assert_eq!(content_type().as_bytes(), b"content-type");
    assert_eq!(accept().as_bytes(), http::header::ACCEPT.as_str().as_bytes());
    assert_eq!(referer().as_bytes(), http::header::REFERER.as_str().as_bytes());
    assert_eq!(location().as_bytes(), http::header::LOCATION.as_str().as_bytes());
    assert_eq!(content_type().as_bytes(), http::header::CONTENT_TYPE.as_str().as_bytes());
}

#[test]
fn names_compare_by_their_bytes() {
    let a = FieldName::from_str("Accept").unwrap();
    assert!(a.same(&accept()));
    assert!(!a.same(&referer()));
    assert!(a.clone().same(&a));
}

#[test]
fn value_keeps_its_bytes() {
    let value = FieldValue::from_str("text/html; charset=utf-8").unwrap();
    assert_eq!(value.as_bytes(), b"text/html; charset=utf-8");
    assert!(value.is_text());
    assert!(value.equals_text("text/html; charset=utf-8"));
    assert!(!value.equals_text("text/html"));
    assert_eq!(value.clone().as_bytes(), value.as_bytes());
    let empty = FieldValue::from_bytes(b"").unwrap();
    assert_eq!(empty.as_bytes(), b"");
    assert!(empty.is_text());
}

#[test]
fn value_with_a_control_character_is_refused() {
    assert_eq!(FieldValue::from_str("a\nb").unwrap_err(), InvalidFieldValue {});
    assert!(FieldValue::from_bytes(b"a\rb").is_err());
    assert!(FieldValue::from_bytes(&[0x7f]).is_err());
    assert!(FieldValue::from_bytes(&[0]).is_err());
    assert!(FieldValue::from_bytes(&[31]).is_err());
}

#[test]
fn value_may_hold_a_tab_and_high_bytes() {
    let value = FieldValue::from_bytes(b"a\tb").unwrap();
    assert!(value.is_text());
    let value = FieldValue::from_bytes(&[b'a', 0xe9, 0xff]).unwrap();
    assert_eq!(value.as_bytes(), &[b'a', 0xe9, 0xff]);
    assert!(!value.is_text());
    let value = FieldValue::from_str("caf\u{e9}").unwrap();
    assert_eq!(value.as_bytes(), "caf\u{e9}".as_bytes());
    assert!(!value.is_text());
}

#[test]
fn static_value_is_taken_as_written() {
    assert_eq!(FieldValue::from_static("no-cache").as_bytes(), b"no-cache");
}

#[test]
fn text_is_printable_ascii_space_or_tab() {
    assert!(is_text(b"/foo?bar=1 2\t3~"));
    assert!(is_text(b""));
    assert!(!is_text(&[0x7f]));
    assert!(!is_text(&[0x80]));
    assert!(!is_text(b"a\n"));
}

#[test]
fn bytes_equal_compares_length_and_content() {
    assert!(bytes_equal(b"abc", b"abc"));
    assert!(bytes_equal(b"", b""));
    assert!(!bytes_equal(b"abc", b"abd"));
    assert!(!bytes_equal(b"abc", b"ab"));
    assert!(!bytes_equal(b"", b"a"));
}
