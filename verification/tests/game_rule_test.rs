use chess_server::board::{parse_uci, Position};
use chess_server::color::Color;
use chess_server::domain::outcome::{determine_outcome, winner_after_resign};
use chess_server::errors::AppError;
use chess_server::game::{
    check_claimant, check_finished_now, check_join, check_seat_taken, check_still_in_progress,
    game_details, move_events, new_game, plan_move, plan_resign, position_from_fen,
    position_to_fen,
};
use chess_server::models::{GameDetailRow, GameRow};
use chess_server::state::GameEvent;

const START: &str = "rnbqkbnr/pppppppp/8/8/8/8/PPPPPPPP/RNBQKBNR w KQkq - 0 1";
const WHITE: u128 = 1;
const BLACK: u128 = 2;
const STRANGER: u128 = 3;

fn play_moves(ucis: &[&str]) -> Position {
    let mut position = Position::initial();
    for uci in ucis {
        let parsed = parse_uci(uci).unwrap();
        let mv = parsed.to_move(&position).unwrap();
        position = position.play(&mv).unwrap();
    }
    position
}

fn detail(status: &str, fen: &str) -> GameDetailRow {
    GameDetailRow {
        white_user_id: WHITE,
        black_user_id: Some(BLACK),
        status: status.to_string(),
        result: None,
        fen: fen.to_string(),
    }
}

fn row(black: Option<u128>, status: &str) -> GameRow {
    GameRow { white_user_id: WHITE, black_user_id: black, status: status.to_string() }
}

fn refusal(e: AppError) -> (u16, String) {
    let p = e.problem_details();
    (p.status, p.detail)
}

#[test]
fn winner_after_resign_white_gives_black_win() {
    assert_eq!(winner_after_resign(Color::White), "black_win");
}

#[test]
fn winner_after_resign_black_gives_white_win() {
    assert_eq!(winner_after_resign(Color::Black), "white_win");
}

#[test]
fn determine_outcome_fools_mate_is_black_win_by_checkmate() {
    let position = play_moves(&["f2f3", "e7e5", "g2g4", "d8h4"]);
    assert_eq!(determine_outcome(&position), ("black_win", "checkmate"));
}

#[test]
fn determine_outcome_scholars_mate_is_white_win_by_checkmate() {
    let position = play_moves(&["e2e4", "e7e5", "f1c4", "b8c6", "d1h5", "g8f6", "h5f7"]);
    assert_eq!(determine_outcome(&position), ("white_win", "checkmate"));
}

#[test]
fn determine_outcome_stalemate_is_draw() {
    let position = position_from_fen("7k/5K2/6Q1/8/8/8/8/8 b - - 0 1").unwrap();
    assert_eq!(determine_outcome(&position), ("draw", "stalemate"));
}

#[test]
fn determine_outcome_insufficient_material_is_draw() {
    let position = position_from_fen("4k3/8/8/8/8/8/8/4K3 w - - 0 1").unwrap();
    assert_eq!(
        determine_outcome(&position),
        ("draw", "insufficient_material")
    );
}

#[test]
fn new_game_starts_from_the_standard_position() {
    let (position, fen) = new_game();
    assert_eq!(fen, START);
    assert_eq!(position_to_fen(&position), START);
    assert_eq!(position.turn(), Color::White);
    assert!(!position.is_check());
    assert!(!position.is_game_over());
}

#[test]
fn broken_stored_fen_is_an_internal_error() {
    assert!(matches!(position_from_fen("not a fen"), Err(AppError::Internal(_))));
    // Syntactically a FEN, but both kings missing.
    assert!(matches!(position_from_fen("8/8/8/8/8/8/8/8 w - - 0 1"), Err(AppError::Internal(_))));
}

#[test]
fn a_move_is_played_from_the_stored_fen() {
    let plan = plan_move(WHITE, Some(&detail("in_progress", START)), None, "e2e4").unwrap();
    assert_eq!(plan.fen_after, "rnbqkbnr/pppppppp/8/8/4P3/8/PPPP1PPP/RNBQKBNR b KQkq - 0 1");
    assert!(!plan.is_check);
    assert!(!plan.is_game_over);
    assert!(plan.outcome.is_none());
    assert_eq!(plan.position.turn(), Color::Black);
}

#[test]
fn cached_position_takes_precedence_over_the_stored_fen() {
    let cached = play_moves(&["e2e4"]);
    let plan = plan_move(BLACK, Some(&detail("in_progress", START)), Some(&cached), "e7e5").unwrap();
    assert_eq!(plan.fen_after, "rnbqkbnr/pppp1ppp/8/4p3/4P3/8/PPPP1PPP/RNBQKBNR w KQkq - 0 2");
}

#[test]
fn fools_mate_through_move_requests_records_black_win() {
    let mut position = Position::initial();
    let movers = [(WHITE, "f2f3"), (BLACK, "e7e5"), (WHITE, "g2g4"), (BLACK, "d8h4")];
    let mut last = None;
    for (user, uci) in movers {
        let plan = plan_move(user, Some(&detail("in_progress", START)), Some(&position), uci).unwrap();
        let events = move_events(&plan, uci);
        position = plan.position;
        last = Some((plan.is_check, plan.is_game_over, plan.outcome, events));
    }
    let (is_check, is_game_over, outcome, events) = last.unwrap();
    assert!(is_check);
    assert!(is_game_over);
    assert_eq!(outcome, Some(("black_win", "checkmate")));
    assert_eq!(events.len(), 2);
    assert!(matches!(&events[0], GameEvent::Move { uci, is_game_over: true, .. } if uci == "d8h4"));
    assert!(matches!(&events[1], GameEvent::GameOver { result, end_reason }
        if result == "black_win" && end_reason == "checkmate"));
}

#[test]
fn move_refusals_follow_the_checks_in_order() {
    let g = detail("in_progress", START);
    assert_eq!(refusal(plan_move(WHITE, None, None, "e2e4").err().unwrap()),
        (404, "対局が見つかりません".to_string()));
    assert_eq!(refusal(plan_move(STRANGER, Some(&g), None, "e2e4").err().unwrap()),
        (403, "この対局の参加者ではありません".to_string()));
    assert_eq!(refusal(plan_move(WHITE, Some(&detail("finished", START)), None, "e2e4").err().unwrap()),
        (404, "対局が見つかりません".to_string()));
    assert_eq!(refusal(plan_move(WHITE, Some(&detail("waiting", START)), None, "e2e4").err().unwrap()),
        (409, "対戦相手がまだ参加していません".to_string()));
    assert_eq!(refusal(plan_move(WHITE, Some(&g), None, "zz99").err().unwrap()),
        (400, "指し手の形式が不正です: invalid uci".to_string()));
    assert_eq!(refusal(plan_move(BLACK, Some(&g), None, "e7e5").err().unwrap()),
        (403, "あなたの手番ではありません".to_string()));
    assert_eq!(refusal(plan_move(WHITE, Some(&g), None, "e2e5").err().unwrap()),
        (400, "不正な指し手です: illegal uci".to_string()));
    assert_eq!(refusal(plan_move(WHITE, Some(&detail("in_progress", "garbage")), None, "e2e4").err().unwrap()),
        (500, "サーバー内部でエラーが発生しました".to_string()));
}

#[test]
fn black_to_move_without_a_black_player_is_a_conflict() {
    let g = GameDetailRow {
        white_user_id: WHITE,
        black_user_id: None,
        status: "in_progress".to_string(),
        result: None,
        fen: "rnbqkbnr/pppppppp/8/8/4P3/8/PPPP1PPP/RNBQKBNR b KQkq - 0 1".to_string(),
    };
    assert_eq!(refusal(plan_move(WHITE, Some(&g), None, "e7e5").err().unwrap()),
        (409, "対戦相手がまだ参加していません".to_string()));
}

#[test]
fn joining_rules() {
    assert!(check_join(BLACK, Some(&row(None, "waiting"))).is_ok());
    assert_eq!(refusal(check_join(WHITE, Some(&row(None, "waiting"))).err().unwrap()),
        (400, "自分が作成した対局には参加できません".to_string()));
    assert_eq!(refusal(check_join(STRANGER, Some(&row(Some(BLACK), "in_progress"))).err().unwrap()),
        (409, "この対局には既に対戦相手がいます".to_string()));
    assert_eq!(refusal(check_join(BLACK, None).err().unwrap()).0, 404);
    assert!(check_seat_taken(1).is_ok());
    assert_eq!(refusal(check_seat_taken(0).err().unwrap()).0, 409);
}

#[test]
fn resignation_rules() {
    assert_eq!(plan_resign(WHITE, Some(&row(Some(BLACK), "in_progress"))).unwrap(), "black_win");
    assert_eq!(plan_resign(BLACK, Some(&row(Some(BLACK), "in_progress"))).unwrap(), "white_win");
    assert_eq!(refusal(plan_resign(WHITE, Some(&row(Some(BLACK), "finished"))).err().unwrap()),
        (409, "この対局は既に終了しています".to_string()));
    assert_eq!(refusal(plan_resign(WHITE, Some(&row(None, "waiting"))).err().unwrap()),
        (409, "対戦相手がまだ参加していません".to_string()));
    assert_eq!(refusal(plan_resign(STRANGER, Some(&row(Some(BLACK), "in_progress"))).err().unwrap()).0, 403);
    assert_eq!(refusal(plan_resign(WHITE, None).err().unwrap()).0, 404);
}

#[test]
fn recording_checks() {
    assert!(check_still_in_progress("in_progress").is_ok());
    assert_eq!(refusal(check_still_in_progress("finished").err().unwrap()).0, 409);
    assert!(check_finished_now(1).is_ok());
    assert_eq!(refusal(check_finished_now(0).err().unwrap()).1, "この対局は既に終了しています");
    assert!(check_claimant(true).is_ok());
    assert_eq!(refusal(check_claimant(false).err().unwrap()).0, 403);
}

#[test]
fn finished_game_details_come_from_the_stored_fen() {
    let mut g = detail("finished", "rnb1kbnr/pppp1ppp/8/4p3/6Pq/5P2/PPPPP2P/RNBQKBNR w KQkq - 1 3");
    g.result = Some("black_win".to_string());
    let d = game_details(42, Some(&g), None).unwrap();
    assert_eq!(d.game_id, 42);
    assert_eq!(d.status, "finished");
    assert_eq!(d.result.as_deref(), Some("black_win"));
    assert!(d.is_check);
    assert!(d.is_game_over);
    assert_eq!(refusal(game_details(42, None, None).err().unwrap()).0, 404);
}

#[test]
fn cached_game_details_use_the_cached_position() {
    let cached = play_moves(&["e2e4"]);
    let d = game_details(7, Some(&detail("in_progress", START)), Some(&cached)).unwrap();
    assert_eq!(d.fen, "rnbqkbnr/pppppppp/8/8/4P3/8/PPPP1PPP/RNBQKBNR b KQkq - 0 1");
    assert!(!d.is_game_over);
}

#[test]
fn move_after_resignation_is_not_found() {
    // A resigned game's position has left the cache.
    let g = detail("finished", "rnbqkbnr/pppppppp/8/8/4P3/8/PPPP1PPP/RNBQKBNR b KQkq - 0 1");
    assert_eq!(refusal(plan_move(WHITE, Some(&g), None, "e2e4").err().unwrap()),
        (404, "対局が見つかりません".to_string()));
    assert_eq!(refusal(plan_move(BLACK, Some(&g), None, "e7e5").err().unwrap()),
        (404, "対局が見つかりません".to_string()));
}

#[test]
fn move_after_checkmate_is_an_illegal_move() {
    // After fool's mate the mated position is still held; no move is legal.
    let mated = play_moves(&["f2f3", "e7e5", "g2g4", "d8h4"]);
    let g = detail("finished", START);
    assert_eq!(refusal(plan_move(WHITE, Some(&g), Some(&mated), "e2e4").err().unwrap()),
        (400, "不正な指し手です: illegal uci".to_string()));
    // The winner is not to move.
    assert_eq!(refusal(plan_move(BLACK, Some(&g), Some(&mated), "e8e7").err().unwrap()),
        (403, "あなたの手番ではありません".to_string()));
    // Malformed text is still a malformed move.
    assert_eq!(refusal(plan_move(WHITE, Some(&g), Some(&mated), "zz99").err().unwrap()),
        (400, "指し手の形式が不正です: invalid uci".to_string()));
}

#[test]
fn a_legal_move_on_a_finished_game_is_a_conflict() {
    let held = Position::initial();
    let g = detail("finished", START);
    assert_eq!(refusal(plan_move(WHITE, Some(&g), Some(&held), "e2e4").err().unwrap()),
        (409, "この対局は既に終了しています".to_string()));
}
