use chess_server::color::Color;
use chess_server::domain::elo::{score_from_result, Score};
use chess_server::domain::history::{outcome_for, Outcome};
use chess_server::history::{history_item, history_items, HistoryQuery, HistoryRow};
use chess_server::ranking::RankingQuery;
use chess_server::time::Timestamp;

/// White's score as points: 1 for a win, 0.5 for a draw, 0 for a loss.
fn points(s: Score) -> f64 {
    f64::from(s.half_points()) / 2.0
}

#[test]
fn white_win_is_a_win_for_white() {
    assert_eq!(
        outcome_for(Some("white_win"), Color::White),
        Some(Outcome::Win)
    );
}

#[test]
fn white_win_is_a_loss_for_black() {
    assert_eq!(
        outcome_for(Some("white_win"), Color::Black),
        Some(Outcome::Loss)
    );
}

#[test]
fn black_win_is_a_win_for_black() {
    assert_eq!(
        outcome_for(Some("black_win"), Color::Black),
        Some(Outcome::Win)
    );
}

#[test]
fn black_win_is_a_loss_for_white() {
    assert_eq!(
        outcome_for(Some("black_win"), Color::White),
        Some(Outcome::Loss)
    );
}

#[test]
fn draw_is_a_draw_for_both_colors() {
    assert_eq!(outcome_for(Some("draw"), Color::White), Some(Outcome::Draw));
    assert_eq!(outcome_for(Some("draw"), Color::Black), Some(Outcome::Draw));
}

#[test]
fn missing_result_has_no_outcome() {
    assert_eq!(outcome_for(None, Color::White), None);
}

#[test]
fn unknown_result_has_no_outcome() {
    assert_eq!(outcome_for(Some("aborted"), Color::White), None);
}

#[test]
fn outcome_texts() {
    assert_eq!(Outcome::Win.as_str(), "win");
    assert_eq!(Outcome::Loss.as_str(), "loss");
    assert_eq!(Outcome::Draw.as_str(), "draw");
}

#[test]
fn score_conversion() {
    assert_eq!(score_from_result("white_win").map(points), Some(1.0));
    assert_eq!(score_from_result("black_win").map(points), Some(0.0));
    assert_eq!(score_from_result("draw").map(points), Some(0.5));
    assert_eq!(score_from_result("aborted").map(points), None);
}

#[test]
fn history_paging_defaults_and_bounds() {
    assert_eq!(HistoryQuery { limit: None, offset: None }.page().unwrap(), (20, 0));
    assert_eq!(HistoryQuery { limit: Some(2), offset: Some(2) }.page().unwrap(), (2, 2));
    assert_eq!(HistoryQuery { limit: Some(100), offset: Some(0) }.page().unwrap(), (100, 0));
    assert!(HistoryQuery { limit: Some(0), offset: None }.page().is_err());
    assert!(HistoryQuery { limit: Some(1000), offset: None }.page().is_err());
    assert!(HistoryQuery { limit: None, offset: Some(-1) }.page().is_err());
}

#[test]
fn history_limit_is_checked_before_offset() {
    let e = HistoryQuery { limit: Some(0), offset: Some(-1) }.page().unwrap_err();
    assert_eq!(e.public_detail(), "limit は 1〜100 の範囲で指定してください");
}

#[test]
fn ranking_limit_defaults_and_bounds() {
    assert_eq!(RankingQuery { limit: None }.limit().unwrap(), 50);
    assert_eq!(RankingQuery { limit: Some(1) }.limit().unwrap(), 1);
    assert!(RankingQuery { limit: Some(0) }.limit().is_err());
    assert!(RankingQuery { limit: Some(500) }.limit().is_err());
}

fn row(id: u128, my_color: &str, result: Option<&str>) -> HistoryRow {
    HistoryRow {
        id,
        my_color: my_color.to_string(),
        opponent_username: Some("bob".to_string()),
        result: result.map(|r| r.to_string()),
        end_reason: Some("checkmate".to_string()),
        move_count: 4,
        finished_at: Timestamp { secs: 1_700_000_000, nanos: 0 },
    }
}

#[test]
fn outcome_is_relative_to_the_viewer_in_history() {
    let black = history_item(row(1, "black", Some("black_win")));
    assert_eq!(black.outcome.as_deref(), Some("win"));
    let white = history_item(row(1, "white", Some("black_win")));
    assert_eq!(white.outcome.as_deref(), Some("loss"));
    assert_eq!(white.end_reason.as_deref(), Some("checkmate"));
    assert_eq!(white.move_count, 4);
    let cancelled = history_item(row(1, "white", None));
    assert_eq!(cancelled.outcome, None);
}

#[test]
fn history_items_keep_their_order() {
    let items = history_items(vec![
        row(3, "white", Some("draw")),
        row(2, "black", Some("white_win")),
        row(1, "white", Some("white_win")),
    ]);
    let ids: Vec<u128> = items.iter().map(|i| i.game_id).collect();
    assert_eq!(ids, vec![3, 2, 1]);
    assert_eq!(items[0].outcome.as_deref(), Some("draw"));
    assert_eq!(items[1].outcome.as_deref(), Some("loss"));
    assert_eq!(items[2].outcome.as_deref(), Some("win"));
}

#[test]
fn history_items_carry_the_opponent_reason_and_time() {
    let items = history_items(vec![row(7, "white", Some("draw"))]);
    assert_eq!(items[0].opponent_username.as_deref(), Some("bob"));
    assert_eq!(items[0].end_reason.as_deref(), Some("checkmate"));
    assert_eq!(items[0].finished_at.secs, 1_700_000_000);
    assert_eq!(items[0].finished_at.nanos, 0);
}
