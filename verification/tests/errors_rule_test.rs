use chess_server::errors::{with_cause, AppError};
use chess_server::internal::{constant_time_eq, verify_sweep_token};
use chess_server::rating::{lock_order, rating_target, rating_update, ratings_for, RatingRow};
use chess_server::domain::elo::Score;

#[test]
fn bad_request_becomes_problem_details() {
    let p = AppError::BadRequest("詳細".to_string()).problem_details();
    assert_eq!(p.type_uri, "/problems/bad-request");
    assert_eq!(p.title, "Bad request");
    assert_eq!(p.status, 400);
    assert_eq!(p.detail, "詳細");
}

#[test]
fn every_kind_has_its_status_and_type() {
    let cases = [
        (AppError::Unauthorized("a".into()), 401, "/problems/unauthorized", "Unauthorized"),
        (AppError::Forbidden("a".into()), 403, "/problems/forbidden", "Forbidden"),
        (AppError::NotFound("a".into()), 404, "/problems/not-found", "Not found"),
        (AppError::Conflict("a".into()), 409, "/problems/conflict", "Conflict"),
        (AppError::Internal("a".into()), 500, "/problems/internal", "Internal server error"),
    ];
    for (e, status, type_uri, title) in cases {
        let p = e.problem_details();
        assert_eq!((p.status, p.type_uri.as_str(), p.title.as_str()), (status, type_uri, title));
    }
}

#[test]
fn internal_errors_do_not_leak_their_text() {
    let p = AppError::Internal("DBエラー: password=secret".to_string()).problem_details();
    assert_eq!(p.detail, "サーバー内部でエラーが発生しました");
}

#[test]
fn causes_are_appended() {
    assert_eq!(with_cause("a: ", "b"), "a: b");
}

#[test]
fn constant_time_comparison_is_equality() {
    assert!(constant_time_eq(b"secret", b"secret"));
    assert!(!constant_time_eq(b"secret", b"secreT"));
    assert!(!constant_time_eq(b"secret", b"secret2"));
    assert!(constant_time_eq(b"", b""));
    assert!(!constant_time_eq(b"sec", b"secret"));
    assert!(!constant_time_eq(b"secret\0", b"secret"));
    assert!(!constant_time_eq(b"", b"secret"));
    assert!(!constant_time_eq(b"secret", b""));
}

#[test]
fn sweep_requires_the_configured_token() {
    assert!(verify_sweep_token(Some("tok"), "tok").is_ok());
    assert_eq!(verify_sweep_token(None, "tok").unwrap_err().problem_details().status, 401);
    assert_eq!(verify_sweep_token(Some("other"), "tok").unwrap_err().problem_details().status, 401);
    assert_eq!(verify_sweep_token(Some(""), "").unwrap_err().problem_details().status, 500);
}

fn rating_row(black: Option<u128>, result: Option<&str>, delta: Option<i32>) -> RatingRow {
    RatingRow {
        white_user_id: 1,
        black_user_id: black,
        result: result.map(|r| r.to_string()),
        white_rating_delta: delta,
    }
}

#[test]
fn ratings_move_only_for_finished_games_with_two_players() {
    let t = rating_target(Some(&rating_row(Some(2), Some("black_win"), None))).unwrap();
    assert_eq!((t.white_user_id, t.black_user_id, t.score), (1, 2, Score::Loss));
    assert!(rating_target(Some(&rating_row(Some(2), Some("black_win"), Some(-16)))).is_none());
    assert!(rating_target(Some(&rating_row(None, Some("black_win"), None))).is_none());
    assert!(rating_target(Some(&rating_row(Some(2), None, None))).is_none());
    assert!(rating_target(Some(&rating_row(Some(2), Some("aborted"), None))).is_none());
    assert!(rating_target(None).is_none());
}

#[test]
fn rating_changes_are_zero_sum() {
    let t = rating_target(Some(&rating_row(Some(2), Some("white_win"), None))).unwrap();
    let u = rating_update(&t, 16);
    assert_eq!((u.white_delta, u.black_delta), (16, -16));
    assert_eq!(1500 + u.white_delta + 1500 + u.black_delta, 3000);
}

#[test]
fn ratings_are_read_with_defaults() {
    assert_eq!(ratings_for(&vec![(2, 1900), (1, 1400)], 1, 2), (1400, 1900));
    assert_eq!(ratings_for(&vec![(2, 1900)], 1, 2), (1500, 1900));
    assert_eq!(ratings_for(&vec![], 1, 2), (1500, 1500));
    assert_eq!(ratings_for(&vec![(9, 2000)], 1, 2), (1500, 1500));
}

#[test]
fn locks_are_taken_in_id_order() {
    assert_eq!(lock_order(5, 3), (3, 5));
    assert_eq!(lock_order(3, 5), (3, 5));
}
