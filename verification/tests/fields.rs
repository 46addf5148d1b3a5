use clipshare::domain::clip::field::short_code::CODE_LENGTH;
use clipshare::domain::clip::field::{Content, ExpiresAt, Expiry, Password, ShortCode, Title};
use clipshare::domain::clip::{Field, Reason, ValidationError};
use clipshare::domain::text::{constant_time_eq, is_blank_str, is_white_space_char};
use std::str::FromStr;

#[test]
fn generated_code_has_ten_symbols_of_the_alphabet() {
    let alphabet = ['a', 'b', 'c', 'd', '1', '2', '3', '4'];
    for _ in 0..200 {
        let code = ShortCode::new();
        assert_eq!(code.as_str().chars().count(), 10);
        assert_eq!(CODE_LENGTH, 10);
        assert!(code.as_str().chars().all(|c| alphabet.contains(&c)));
    }
}

#[test]
fn code_holds_the_symbols_in_their_order() {
    let alphabet = ['a', 'b', 'c', 'd', '1', '2', '3', '4'];
    let picks = [0, 1, 2, 3, 4, 5, 6, 7, 0, 1];
    let drawn: Vec<char> = picks.iter().map(|pick: &usize| alphabet[*pick]).collect();
    assert_eq!(ShortCode::from_symbols(&drawn).as_str(), "abcd1234ab");
    assert_eq!(ShortCode::from_symbols(&[]).as_str(), "");
    assert_eq!(ShortCode::from_symbols(&['x', '\u{1F600}', 'y']).as_str(), "x\u{1F600}y");
}

#[test]
fn generated_codes_vary() {
    let first = ShortCode::new();
    let mut differs = false;
    for _ in 0..50 {
        if ShortCode::new() != first {
            differs = true;
        }
    }
    assert!(differs);
}

#[test]
fn default_code_is_generated() {
    let code = ShortCode::default();
    assert_eq!(code.as_str().len(), 10);
}

#[test]
fn code_accepts_any_string() {
    let code = ShortCode::from("asasdasdasdasd");
    assert_eq!(code.as_str(), "asasdasdasdasd");
    let odd = ShortCode::from("not in the alphabet / \u{1F600}");
    assert_eq!(odd.as_str(), "not in the alphabet / \u{1F600}");
    let empty = ShortCode::from("");
    assert_eq!(empty.as_str(), "");
    let parsed = ShortCode::from_str("xyz").unwrap();
    assert_eq!(parsed.into_inner(), "xyz".to_owned());
}

#[test]
fn code_equality_is_by_exact_value() {
    assert_eq!(ShortCode::from("abc"), ShortCode::from("abc"));
    assert_ne!(ShortCode::from("abc"), ShortCode::from("abd"));
    assert_ne!(ShortCode::from("abc"), ShortCode::from("ABC"));
    assert_ne!(ShortCode::from("abc"), ShortCode::from("abc "));
    let code = ShortCode::from("abc");
    assert_eq!(code.clone(), code);
    assert_eq!(String::from(code), "abc".to_owned());
}

#[test]
fn white_space_is_what_std_calls_white_space() {
    let mut c = 0u32;
    while c <= 0x10FFFF {
        if let Some(ch) = char::from_u32(c) {
            assert_eq!(is_white_space_char(ch), ch.is_whitespace(), "U+{:04X}", c);
        }
        c += 1;
    }
}

#[test]
fn blank_text_is_text_that_trims_to_nothing() {
    for text in ["", " ", "\n", "\t \r\n", "\u{00A0}", "\u{2003}\u{3000}", " \u{0085} "] {
        assert!(is_blank_str(text));
        assert!(text.trim().is_empty());
    }
    for text in ["a", " a ", "\n.\n", "\u{200B}", "0", "\u{FEFF}"] {
        assert!(!is_blank_str(text));
        assert!(!text.trim().is_empty());
    }
}

#[test]
fn constant_time_eq_is_equality() {
    assert!(constant_time_eq("", ""));
    assert!(constant_time_eq("123", "123"));
    assert!(!constant_time_eq("123", "abc"));
    assert!(!constant_time_eq("123", "124"));
    assert!(!constant_time_eq("123", "023"));
    assert!(!constant_time_eq("123", "1234"));
    assert!(!constant_time_eq("1234", "123"));
    assert!(!constant_time_eq("", "a"));
    assert!(constant_time_eq("p\u{00E4}ss \u{1F512}", "p\u{00E4}ss \u{1F512}"));
    assert!(!constant_time_eq("p\u{00E4}ss", "pass"));
}

#[test]
fn content_rejects_blank_text() {
    let empty = ValidationError { field: Field::Content, reason: Reason::Empty };
    assert_eq!(Content::new("").unwrap_err(), empty);
    assert_eq!(Content::new("   ").unwrap_err(), empty);
    assert_eq!(Content::new("\n\t\r\n").unwrap_err(), empty);
    assert_eq!(Content::new("\u{3000}").unwrap_err(), empty);
}

#[test]
fn content_keeps_text_unchanged() {
    let content = Content::new("content").unwrap();
    assert_eq!(content.as_str(), "content");
    let padded = Content::new("  two\n lines \n").unwrap();
    assert_eq!(padded.as_str(), "  two\n lines \n");
    assert_eq!(padded.clone().into_inner(), "  two\n lines \n".to_owned());
    let markup = Content::new("<b>&amp;</b>").unwrap();
    assert_eq!(markup.as_str(), "<b>&amp;</b>");
}

#[test]
fn title_always_succeeds() {
    assert_eq!(Title::new("".to_owned()).unwrap().into_inner(), None);
    assert_eq!(Title::new("t".to_owned()).unwrap().into_inner(), Some("t".to_owned()));
    assert_eq!(Title::new(" ".to_owned()).unwrap().into_inner(), Some(" ".to_owned()));
    assert_eq!(Title::default().into_inner(), None);
    let title = Title::new("a title".to_owned()).unwrap();
    assert_eq!(title.clone().into_inner(), Some("a title".to_owned()));
}

#[test]
fn password_always_succeeds() {
    let none = Password::new("".to_owned()).unwrap();
    assert!(!none.has_password());
    assert_eq!(none.into_inner(), None);
    let some = Password::new("123".to_owned()).unwrap();
    assert!(some.has_password());
    assert_eq!(some.clone().into_inner(), Some("123".to_owned()));
    let weak = Password::new(" ".to_owned()).unwrap();
    assert!(weak.has_password());
    assert!(!Password::default().has_password());
}

#[test]
fn password_admits_exact_match_only() {
    let stored = Password::new("123".to_owned()).unwrap();
    assert!(stored.admits(&Password::new("123".to_owned()).unwrap()));
    assert!(!stored.admits(&Password::new("abc".to_owned()).unwrap()));
    assert!(!stored.admits(&Password::new("1234".to_owned()).unwrap()));
    assert!(!stored.admits(&Password::new("12".to_owned()).unwrap()));
    assert!(!stored.admits(&Password::default()));
    let open = Password::default();
    assert!(open.admits(&Password::default()));
    assert!(open.admits(&Password::new("anything".to_owned()).unwrap()));
}

#[test]
fn expiration_absent_means_never() {
    let never = ExpiresAt::resolve(None, 1_000).unwrap();
    assert_eq!(never.into_inner(), None);
    assert!(!never.is_expired(i64::MAX));
    assert_eq!(ExpiresAt::default(), never);
}

#[test]
fn expiration_must_lie_in_the_future() {
    let late = ValidationError { field: Field::ExpiresAt, reason: Reason::NotInFuture };
    assert_eq!(ExpiresAt::resolve(Some(Expiry::At(999)), 1_000).unwrap_err(), late);
    assert_eq!(ExpiresAt::resolve(Some(Expiry::At(1_000)), 1_000).unwrap_err(), late);
    assert_eq!(ExpiresAt::resolve(Some(Expiry::At(i64::MIN)), 0).unwrap_err(), late);
    assert_eq!(ExpiresAt::resolve(Some(Expiry::After(0)), 1_000).unwrap_err(), late);
    assert_eq!(
        ExpiresAt::resolve(Some(Expiry::At(1_001)), 1_000).unwrap().into_inner(),
        Some(1_001)
    );
    assert_eq!(
        ExpiresAt::resolve(Some(Expiry::At(i64::MAX)), 1_000).unwrap().into_inner(),
        Some(i64::MAX)
    );
}

#[test]
fn expiration_span_counts_from_now() {
    assert_eq!(
        ExpiresAt::resolve(Some(Expiry::After(60)), 1_000).unwrap().into_inner(),
        Some(1_060)
    );
    assert_eq!(
        ExpiresAt::resolve(Some(Expiry::After(1)), -5).unwrap().into_inner(),
        Some(-4)
    );
    assert_eq!(
        ExpiresAt::resolve(Some(Expiry::After(u64::MAX)), i64::MIN).unwrap().into_inner(),
        Some(i64::MAX)
    );
    let far = ValidationError { field: Field::ExpiresAt, reason: Reason::OutOfRange };
    assert_eq!(ExpiresAt::resolve(Some(Expiry::After(1)), i64::MAX).unwrap_err(), far);
    assert_eq!(ExpiresAt::resolve(Some(Expiry::After(u64::MAX)), 0).unwrap_err(), far);
}

#[test]
fn expired_means_at_or_before_now() {
    let at = ExpiresAt::new(Some(500));
    assert!(!at.is_expired(499));
    assert!(at.is_expired(500));
    assert!(at.is_expired(501));
    assert!(!ExpiresAt::new(None).is_expired(501));
}

#[test]
fn reasons_have_messages() {
    assert_eq!(Reason::Empty.message(), "must not be empty");
    assert_eq!(Reason::NotInFuture.message(), "must lie in the future");
    assert_eq!(Reason::OutOfRange.message(), "lies too far in the future");
}
