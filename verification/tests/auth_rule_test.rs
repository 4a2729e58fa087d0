use chess_server::auth::{
    check_login, check_password, check_registration, extract_bearer, hash_new_password,
    token_expiration, username_taken,
};
use chess_server::errors::AppError;
use chess_server::models::{RegisterRequest, UserRow};
use chess_server::time::Timestamp;

fn status(e: AppError) -> u16 {
    e.problem_details().status
}

#[test]
fn a_stored_hash_lets_the_same_password_in() {
    let hash = hash_new_password("correct horse battery").unwrap();
    assert!(hash.starts_with("$argon2"));
    assert!(check_password("correct horse battery", &hash).is_ok());
}

#[test]
fn a_wrong_password_is_unauthorized() {
    let hash = hash_new_password("correct horse battery").unwrap();
    let e = check_password("wrong horse battery", &hash).unwrap_err();
    assert_eq!(e.public_detail(), "ユーザー名またはパスワードが違います");
    assert_eq!(status(e), 401);
}

#[test]
fn two_hashes_of_one_password_use_different_salts() {
    let a = hash_new_password("correct horse battery").unwrap();
    let b = hash_new_password("correct horse battery").unwrap();
    assert_ne!(a, b);
}

#[test]
fn an_unreadable_stored_hash_is_an_internal_error() {
    assert!(matches!(check_password("whatever", "not-a-phc-string"), Err(AppError::Internal(_))));
}

#[test]
fn login_of_an_unknown_user_is_unauthorized() {
    let e = check_login(None, "whatever").unwrap_err();
    assert_eq!(e.public_detail(), "ユーザー名またはパスワードが違います");
}

#[test]
fn login_answers_the_user_id() {
    let row = UserRow { id: 99, password_hash: hash_new_password("a long enough phrase").unwrap() };
    assert_eq!(check_login(Some(&row), "a long enough phrase").unwrap(), 99);
    assert!(check_login(Some(&row), "another phrase!!").is_err());
}

#[test]
fn registration_checks_name_then_password() {
    let bad_name = RegisterRequest { username: "  ".to_string(), password: "short".to_string() };
    assert_eq!(check_registration(&bad_name).unwrap_err().public_detail(), "ユーザー名を入力してください");
    let short = RegisterRequest { username: "alice".to_string(), password: "short".to_string() };
    let e = check_registration(&short).unwrap_err();
    assert!(e.public_detail().contains("12"));
    assert_eq!(status(e), 400);
    let ok = RegisterRequest { username: "alice".to_string(), password: "my cat sleeps on the keyboard".to_string() };
    assert!(check_registration(&ok).is_ok());
    assert_eq!(status(username_taken()), 409);
}

#[test]
fn bearer_header_is_read() {
    assert_eq!(extract_bearer(Some("Bearer abc.def.ghi")).unwrap(), "abc.def.ghi");
    assert_eq!(extract_bearer(Some("Bearer ")).unwrap(), "");
}

#[test]
fn missing_bearer_header_is_refused() {
    let e = extract_bearer(None).unwrap_err();
    assert_eq!(e.public_detail(), "認証トークンがありません");
    assert_eq!(status(e), 401);
}

#[test]
fn malformed_bearer_header_is_refused() {
    for h in ["abc.def.ghi", "bearer abc", "Bearer", "Basic dXNlcg=="] {
        let e = extract_bearer(Some(h)).unwrap_err();
        assert_eq!(status(e), 401, "{h}");
    }
}

#[test]
fn token_expires_a_day_later() {
    assert_eq!(token_expiration(Timestamp { secs: 1_700_000_000, nanos: 5 }), 1_700_086_400);
}
