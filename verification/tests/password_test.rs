use chess_server::text::trim;
use chess_server::domain::password::{
    validate_password, validate_username, PasswordError, UsernameError, MAX_PASSWORD_CHARS,
    MAX_USERNAME_CHARS, MIN_PASSWORD_CHARS,
};

#[test]
fn a_long_passphrase_is_accepted() {
    assert_eq!(
        validate_password("紫陽花と傘と月曜日の帰り道", "alice"),
        Ok(())
    );
    assert_eq!(
        validate_password("my cat sleeps on the keyboard", "alice"),
        Ok(())
    );
}

#[test]
fn symbols_and_digits_are_not_required() {
    assert_eq!(validate_password("abcdefghijkl", "alice"), Ok(()));
}

#[test]
fn short_password_is_rejected() {
    assert_eq!(
        validate_password("short1234", "alice"),
        Err(PasswordError::TooShort)
    );
}

#[test]
fn length_is_counted_in_chars_not_bytes() {
    assert_eq!(
        validate_password("正しい馬の電池", "alice"),
        Err(PasswordError::TooShort)
    );
    assert_eq!(
        validate_password("正しい馬の電池と青い空色", "alice"),
        Ok(())
    );
}

#[test]
fn overly_long_password_is_rejected() {
    let huge = "a".repeat(MAX_PASSWORD_CHARS + 1);
    assert_eq!(
        validate_password(&huge, "alice"),
        Err(PasswordError::TooLong)
    );
}

#[test]
fn common_passwords_are_rejected() {
    assert_eq!(
        validate_password("password1234", "alice"),
        Err(PasswordError::TooCommon)
    );
    assert_eq!(
        validate_password("123456789012", "alice"),
        Err(PasswordError::TooCommon)
    );
}

#[test]
fn common_password_check_is_case_insensitive() {
    assert_eq!(
        validate_password("PassWord1234", "alice"),
        Err(PasswordError::TooCommon)
    );
}

#[test]
fn password_containing_the_username_is_rejected() {
    assert_eq!(
        validate_password("aliceisgreat123", "alice"),
        Err(PasswordError::ContainsUsername)
    );
    assert_eq!(
        validate_password("myALICEpassphrase", "Alice"),
        Err(PasswordError::ContainsUsername)
    );
}

#[test]
fn length_is_checked_before_the_blocklist() {
    assert_eq!(
        validate_password("password", "alice"),
        Err(PasswordError::TooShort)
    );
}

#[test]
fn error_messages_explain_what_to_do() {
    let msg = PasswordError::TooShort.detail();
    assert!(msg.contains(&MIN_PASSWORD_CHARS.to_string()));
}

#[test]
fn empty_username_is_rejected() {
    assert_eq!(validate_username("   "), Err(UsernameError::Empty));
}

#[test]
fn overly_long_username_is_rejected() {
    let long = "a".repeat(MAX_USERNAME_CHARS + 1);
    assert_eq!(validate_username(&long), Err(UsernameError::TooLong));
}

#[test]
fn normal_username_is_accepted() {
    assert_eq!(validate_username("alice"), Ok(()));
    assert_eq!(validate_username("石田ひとみ"), Ok(()));
}

#[test]
fn username_is_trimmed_before_the_length_check() {
    let padded = format!("  {}  ", "a".repeat(MAX_USERNAME_CHARS));
    assert_eq!(validate_username(&padded), Ok(()));
}

#[test]
fn username_is_trimmed_before_the_containment_check() {
    assert_eq!(
        validate_password("carefulbob-phrase", "  Bob "),
        Err(PasswordError::ContainsUsername)
    );
}

#[test]
fn blank_username_never_counts_as_contained() {
    assert_eq!(validate_password("a perfectly fine phrase", "   "), Ok(()));
}

#[test]
fn password_of_exactly_the_limits_is_accepted() {
    assert_eq!(validate_password(&"xy".repeat(6), "alice"), Ok(()));
    assert_eq!(validate_password(&"b".repeat(MAX_PASSWORD_CHARS), "alice"), Ok(()));
}

#[test]
fn every_error_has_its_message() {
    assert!(PasswordError::TooLong.detail().contains("128"));
    assert!(PasswordError::TooCommon.detail().contains("推測"));
    assert!(PasswordError::ContainsUsername.detail().contains("ユーザー名"));
    assert_eq!(UsernameError::Empty.detail(), "ユーザー名を入力してください");
    assert!(UsernameError::TooLong.detail().contains("32"));
}

#[test]
fn trim_agrees_with_the_standard_library() {
    for s in ["", "   ", "abc", "  abc", "abc  ", "\u{3000} a b\u{2003}\n", "\t\u{85}x\u{200B}", " \u{1680}y \u{a0}"] {
        assert_eq!(trim(s), s.trim(), "{s:?}");
    }
}
