use clipshare::data::ClipStore;
use clipshare::domain::clip::field::{Expiry, Password, ShortCode};
use clipshare::domain::clip::Field;
use clipshare::service::action::{get_clip, new_clip, store_under, validate, MAX_ATTEMPTS};
use clipshare::service::ask::{GetClip, NewClip};
use clipshare::service::views::ViewCounter;
use clipshare::ServiceError;

fn request(content: &str, password: &str, expires_at: Option<Expiry>) -> NewClip {
    NewClip {
        content: content.to_owned(),
        title: String::new(),
        password: password.to_owned(),
        expires_at,
    }
}

fn read(code: &ShortCode, password: &str) -> GetClip {
    GetClip { short_code: code.clone(), password: Password::new(password.to_owned()).unwrap() }
}

fn codes(list: &[&str]) -> Vec<ShortCode> {
    list.iter().map(|code| ShortCode::from(*code)).collect()
}

#[test]
fn new_clip_stores_what_was_submitted() {
    let mut store = ClipStore::new();
    let made = new_clip(
        NewClip {
            content: "content".to_owned(),
            title: "a title".to_owned(),
            password: "123".to_owned(),
            expires_at: Some(Expiry::After(60)),
        },
        &mut store,
        1_000,
    )
    .unwrap();
    assert_eq!(made.short_code.as_str().len(), 10);
    assert_eq!(made.content.as_str(), "content");
    assert_eq!(made.title.clone().into_inner(), Some("a title".to_owned()));
    assert_eq!(made.password.clone().into_inner(), Some("123".to_owned()));
    assert_eq!(made.posted_at, 1_000);
    assert_eq!(made.expires_at.into_inner(), Some(1_060));
    assert_eq!(made.hits, 0);
    let stored = store.get(&made.short_code).unwrap();
    assert_eq!(stored.content.as_str(), "content");
    assert_eq!(stored.posted_at, 1_000);
    assert_eq!(store.len(), 1);
}

#[test]
fn new_clip_codes_are_unique() {
    let mut store = ClipStore::new();
    let mut seen: Vec<ShortCode> = Vec::new();
    for i in 0..300 {
        let made = new_clip(request("content", "", None), &mut store, i).unwrap();
        assert!(!seen.contains(&made.short_code));
        seen.push(made.short_code);
    }
    assert_eq!(store.len(), 300);
}

#[test]
fn new_clip_rejects_empty_content() {
    let mut store = ClipStore::new();
    for content in ["", "   ", "\n\t"] {
        match new_clip(request(content, "123", None), &mut store, 0) {
            Err(ServiceError::Invalid(field, message)) => {
                assert_eq!(field, Field::Content);
                assert_eq!(message, "must not be empty");
            }
            other => panic!("{:?}", other),
        }
    }
    assert_eq!(store.len(), 0);
}

#[test]
fn new_clip_needs_neither_title_nor_password() {
    let mut store = ClipStore::new();
    let made = new_clip(request("content", "", None), &mut store, 0).unwrap();
    assert_eq!(made.title.into_inner(), None);
    assert_eq!(made.password.into_inner(), None);
    assert_eq!(made.expires_at.into_inner(), None);
}

#[test]
fn new_clip_rejects_expiration_in_the_past() {
    let mut store = ClipStore::new();
    for at in [999, 1_000, 0, i64::MIN] {
        match new_clip(request("content", "", Some(Expiry::At(at))), &mut store, 1_000) {
            Err(ServiceError::Invalid(field, message)) => {
                assert_eq!(field, Field::ExpiresAt);
                assert_eq!(message, "must lie in the future");
            }
            other => panic!("{:?}", other),
        }
    }
    match new_clip(request("content", "", Some(Expiry::After(1))), &mut store, i64::MAX) {
        Err(ServiceError::Invalid(field, message)) => {
            assert_eq!(field, Field::ExpiresAt);
            assert_eq!(message, "lies too far in the future");
        }
        other => panic!("{:?}", other),
    }
    assert_eq!(store.len(), 0);
}

#[test]
fn blank_content_is_reported_before_a_late_expiration() {
    match validate(request(" ", "", Some(Expiry::At(1))), 1_000) {
        Err(ServiceError::Invalid(field, _)) => assert_eq!(field, Field::Content),
        other => panic!("{:?}", other),
    }
}

#[test]
fn future_expiration_round_trips() {
    let mut store = ClipStore::new();
    let mut views = ViewCounter::new();
    let made = new_clip(request("content", "", Some(Expiry::At(5_000))), &mut store, 1_000).unwrap();
    assert_eq!(made.expires_at.into_inner(), Some(5_000));
    let found = get_clip(GetClip::from(made.short_code.clone()), &store, &mut views, 4_999).unwrap();
    assert_eq!(found.expires_at.into_inner(), Some(5_000));
    assert!(matches!(
        get_clip(GetClip::from(made.short_code.clone()), &store, &mut views, 5_000),
        Err(ServiceError::NotFound)
    ));
    assert!(matches!(
        get_clip(GetClip::from(made.short_code), &store, &mut views, 5_001),
        Err(ServiceError::NotFound)
    ));
}

#[test]
fn password_123_guards_the_clip() {
    let mut store = ClipStore::new();
    let mut views = ViewCounter::new();
    let made = new_clip(request("content", "123", None), &mut store, 0).unwrap();
    match get_clip(GetClip::from(made.short_code.clone()), &store, &mut views, 1) {
        Err(ServiceError::PermissionError(hint)) => {
            assert_eq!(hint, "Invalid password");
            assert!(!hint.contains("123"));
        }
        other => panic!("{:?}", other),
    }
    assert!(matches!(
        get_clip(read(&made.short_code, "abc"), &store, &mut views, 1),
        Err(ServiceError::PermissionError(_))
    ));
    assert!(matches!(
        get_clip(read(&made.short_code, ""), &store, &mut views, 1),
        Err(ServiceError::PermissionError(_))
    ));
    assert_eq!(views.pending(), 0);
    let found = get_clip(read(&made.short_code, "123"), &store, &mut views, 1).unwrap();
    assert_eq!(found.short_code, made.short_code);
    assert_eq!(found.content.as_str(), "content");
    assert_eq!(views.pending(), 1);
}

#[test]
fn open_clip_is_read_with_any_password() {
    let mut store = ClipStore::new();
    let mut views = ViewCounter::new();
    let made = new_clip(request("content", "", None), &mut store, 0).unwrap();
    assert!(get_clip(GetClip::from(made.short_code.clone()), &store, &mut views, 1).is_ok());
    assert!(get_clip(read(&made.short_code, "abc"), &store, &mut views, 1).is_ok());
}

#[test]
fn unknown_code_is_not_found() {
    let store = ClipStore::new();
    let mut views = ViewCounter::new();
    assert!(matches!(
        get_clip(GetClip::from(ShortCode::from("asasdasdasdasd")), &store, &mut views, 0),
        Err(ServiceError::NotFound)
    ));
    assert_eq!(views.pending(), 0);
}

#[test]
fn expired_clip_is_not_found_even_with_its_password() {
    let mut store = ClipStore::new();
    let mut views = ViewCounter::new();
    let made = new_clip(request("content", "123", Some(Expiry::After(10))), &mut store, 0).unwrap();
    assert!(get_clip(read(&made.short_code, "123"), &store, &mut views, 9).is_ok());
    assert!(matches!(
        get_clip(read(&made.short_code, "123"), &store, &mut views, 10),
        Err(ServiceError::NotFound)
    ));
    assert!(matches!(
        get_clip(read(&made.short_code, "abc"), &store, &mut views, 10),
        Err(ServiceError::NotFound)
    ));
    assert_eq!(store.len(), 1);
}

#[test]
fn content_round_trips_byte_for_byte() {
    let texts = [
        "plain",
        "line one\nline two\r\n\ttabbed\n",
        "  padded  ",
        "punctuation: !\"#$%&'()*+,-./:;<=>?@[\\]^_`{|}~",
        "<script>alert('x')</script> &amp;",
        "unicode: \u{00E9}\u{4E2D}\u{6587} \u{1F600} \u{0000} \u{FEFF}",
    ];
    let mut store = ClipStore::new();
    let mut views = ViewCounter::new();
    for text in texts {
        let made = new_clip(request(text, "", None), &mut store, 0).unwrap();
        let found = get_clip(GetClip::from(made.short_code), &store, &mut views, 1).unwrap();
        assert_eq!(found.content.as_str().as_bytes(), text.as_bytes());
    }
}

#[test]
fn collision_is_retried_with_the_next_code() {
    let mut store = ClipStore::new();
    let first = validate(request("first", "", None), 0).unwrap();
    let made = store_under(first, &codes(&["aaa"]), &mut store).unwrap();
    assert_eq!(made.short_code, ShortCode::from("aaa"));
    let second = validate(request("second", "", None), 0).unwrap();
    let made = store_under(second, &codes(&["aaa", "aaa", "bbb", "ccc"]), &mut store).unwrap();
    assert_eq!(made.short_code, ShortCode::from("bbb"));
    assert_eq!(made.content.as_str(), "second");
    assert_eq!(store.len(), 2);
    assert_eq!(store.get(&ShortCode::from("aaa")).unwrap().content.as_str(), "first");
    assert_eq!(store.get(&ShortCode::from("bbb")).unwrap().content.as_str(), "second");
}

#[test]
fn retries_are_bounded() {
    assert_eq!(MAX_ATTEMPTS, 5);
    let mut store = ClipStore::new();
    let first = validate(request("first", "", None), 0).unwrap();
    store_under(first, &codes(&["aaa"]), &mut store).unwrap();
    let second = validate(request("second", "", None), 0).unwrap();
    assert!(matches!(
        store_under(second, &codes(&["aaa", "aaa", "aaa", "aaa", "aaa", "bbb"]), &mut store),
        Err(ServiceError::Internal)
    ));
    let third = validate(request("third", "", None), 0).unwrap();
    assert!(matches!(
        store_under(third, &codes(&["aaa", "aaa", "aaa", "aaa", "bbb"]), &mut store),
        Ok(_)
    ));
    let fourth = validate(request("fourth", "", None), 0).unwrap();
    assert!(matches!(store_under(fourth, &codes(&[]), &mut store), Err(ServiceError::Internal)));
    assert_eq!(store.len(), 2);
}

#[test]
fn validation_error_becomes_service_error() {
    let error = clipshare::domain::clip::ValidationError {
        field: Field::ExpiresAt,
        reason: clipshare::domain::clip::Reason::NotInFuture,
    };
    match ServiceError::from(error) {
        ServiceError::Invalid(field, message) => {
            assert_eq!(field, Field::ExpiresAt);
            assert_eq!(message, "must lie in the future");
        }
        other => panic!("{:?}", other),
    }
}

#[test]
fn new_clip_succeeds_while_no_generated_code_is_taken() {
    for i in 0..50 {
        let mut store = ClipStore::new();
        assert!(new_clip(request("content", "", None), &mut store, i).is_ok());
        let mut store = ClipStore::new();
        let taken = validate(request("taken", "", None), 0).unwrap();
        store_under(taken, &codes(&["not generated"]), &mut store).unwrap();
        assert!(new_clip(request("content", "", None), &mut store, i).is_ok());
        assert_eq!(store.len(), 2);
    }
}
