//! Decisions behind the game endpoints: creating, joining, viewing,
//! resigning and moving. Each takes the stored rows as plain values and
//! answers what the endpoint returns; reading and writing the rows, the
//! in-memory position cache and the broadcast happen around these calls.
use vstd::prelude::*;
use crate::board::{
    fen_after_move, fen_is_check, fen_is_checkmate, fen_is_insufficient_material,
    fen_is_stalemate, fen_side_to_move, fen_text_parses, fen_text_position, parse_fen,
    parse_uci, start_fen, uci_move_legal, uci_text_parses, ParsedUci, Position,
};
use crate::color::Color;
use crate::domain::outcome::{determine_outcome, outcome_of_fen, win_result, winner_after_resign};
use crate::domain::player::{expected_player, role_of, spec_expected_player, spec_role_of, Role};
use crate::errors::{refusal, refused, refused_as, with_cause, AppError, ErrorKind, Refusal};
use crate::models::{GameDetailResponse, GameDetailRow, GameRow};
use crate::state::{game_over_event, GameEvent};
use crate::text::text_eq;

verus! {

/// Text for a game that does not exist.
pub open spec fn game_not_found_text() -> Seq<char> {
    "対局が見つかりません"@
}

/// Text for a user who does not play in the game.
pub open spec fn not_participant_text() -> Seq<char> {
    "この対局の参加者ではありません"@
}

/// Text for a game that has already ended.
pub open spec fn already_finished_text() -> Seq<char> {
    "この対局は既に終了しています"@
}

/// Text for a game that still waits for its second player.
pub open spec fn no_opponent_text() -> Seq<char> {
    "対戦相手がまだ参加していません"@
}

/// The refusal for acting on a game that is not in progress: finished games
/// say so, any other status means the opponent has not joined.
pub open spec fn not_in_progress_refusal(status: Seq<char>) -> Refusal {
    if status == "finished"@ {
        refusal(ErrorKind::Conflict, already_finished_text())
    } else {
        refusal(ErrorKind::Conflict, no_opponent_text())
    }
}

fn not_found() -> (e: AppError)
    ensures
        refused_as(e, refusal(ErrorKind::NotFound, game_not_found_text())),
{
    AppError::NotFound("対局が見つかりません".to_owned())
}

fn not_participant() -> (e: AppError)
    ensures
        refused_as(e, refusal(ErrorKind::Forbidden, not_participant_text())),
{
    AppError::Forbidden("この対局の参加者ではありません".to_owned())
}

fn not_in_progress(status: &str) -> (e: AppError)
    ensures
        refused_as(e, not_in_progress_refusal(status@)),
{
    if text_eq(status, "finished") {
        AppError::Conflict("この対局は既に終了しています".to_owned())
    } else {
        AppError::Conflict("対戦相手がまだ参加していません".to_owned())
    }
}

/// The position set up from a stored FEN text, written back as FEN; `None`
/// when the text is not a FEN or not a legal position.
pub open spec fn stored_position(fen: Seq<char>) -> Option<Seq<char>> {
    if fen_text_parses(fen) {
        fen_text_position(fen)
    } else {
        None
    }
}

/// Sets up the position stored as `fen`. A broken FEN is the database's
/// fault, not the client's, so it is an internal error.
pub fn position_from_fen(fen: &str) -> (r: Result<Position, AppError>)
    ensures
        r is Ok <==> stored_position(fen@) is Some,
        r matches Ok(p) ==> stored_position(fen@) == Some(p@),
        r matches Err(e) ==> e.spec_kind() == ErrorKind::Internal,
{
    match parse_fen(fen) {
        Err(e) => Err(AppError::Internal(with_cause("保存されたFENの解析に失敗しました: ", e.as_str()))),
        Ok(parsed) => match parsed.into_position() {
            Ok(p) => Ok(p),
            Err(e) => Err(AppError::Internal(with_cause("保存されたFENが不正な局面です: ", e.as_str()))),
        },
    }
}

/// The FEN text of a position.
pub fn position_to_fen(position: &Position) -> (s: String)
    ensures
        s@ == position@,
{
    position.to_fen()
}

/// A new game: the starting position and its FEN text.
pub fn new_game() -> (r: (Position, String))
    ensures
        r.0@ == start_fen(),
        r.1@ == start_fen(),
{
    let position = Position::initial();
    let fen = position_to_fen(&position);
    (position, fen)
}

/// What joining a game owes: the game must exist, must not be the joiner's
/// own, and its black seat must be free.
pub open spec fn join_decision(user_id: u128, game: Option<&GameRow>) -> Result<(), Refusal> {
    match game {
        None => Err(refusal(ErrorKind::NotFound, game_not_found_text())),
        Some(g) => if g.white_user_id == user_id {
            Err(refusal(ErrorKind::BadRequest, "自分が作成した対局には参加できません"@))
        } else if g.black_user_id is Some {
            Err(refusal(ErrorKind::Conflict, "この対局には既に対戦相手がいます"@))
        } else {
            Ok(())
        },
    }
}

/// Decides whether `user_id` may take the black seat of `game`.
pub fn check_join(user_id: u128, game: Option<&GameRow>) -> (r: Result<(), AppError>)
    ensures
        match join_decision(user_id, game) {
            Ok(()) => r is Ok,
            Err(d) => refused(r, d),
        },
{
    let g = match game {
        None => return Err(not_found()),
        Some(g) => g,
    };
    if g.white_user_id == user_id {
        return Err(AppError::BadRequest("自分が作成した対局には参加できません".to_owned()));
    }
    if g.black_user_id.is_some() {
        return Err(AppError::Conflict("この対局には既に対戦相手がいます".to_owned()));
    }
    Ok(())
}

/// The answer when the conditional seat update touched `rows_affected` rows:
/// none means someone else took the seat first.
pub fn check_seat_taken(rows_affected: u64) -> (r: Result<(), AppError>)
    ensures
        rows_affected > 0 ==> r is Ok,
        rows_affected == 0 ==> refused(r, refusal(ErrorKind::Conflict, "この対局には既に対戦相手がいます"@),
        ),
{
    if rows_affected == 0 {
        Err(AppError::Conflict("この対局には既に対戦相手がいます".to_owned()))
    } else {
        Ok(())
    }
}

/// The answer when the conditional update that ends a game touched
/// `rows_affected` rows: none means the game had already ended.
pub fn check_finished_now(rows_affected: u64) -> (r: Result<(), AppError>)
    ensures
        rows_affected > 0 ==> r is Ok,
        rows_affected == 0 ==> refused(r, refusal(ErrorKind::Conflict, already_finished_text()),
        ),
{
    if rows_affected == 0 {
        Err(AppError::Conflict("この対局は既に終了しています".to_owned()))
    } else {
        Ok(())
    }
}

/// The answer when the status read under lock before recording a move is
/// `status`: only a game in progress takes the move.
pub fn check_still_in_progress(status: &str) -> (r: Result<(), AppError>)
    ensures
        status@ == "in_progress"@ ==> r is Ok,
        status@ != "in_progress"@ ==> refused(r, refusal(ErrorKind::Conflict, already_finished_text()),
        ),
{
    if text_eq(status, "in_progress") {
        Ok(())
    } else {
        Err(AppError::Conflict("この対局は既に終了しています".to_owned()))
    }
}

/// What resigning owes: the resigner must play in the game and the game
/// must be in progress; the other side wins.
pub open spec fn resign_decision(user_id: u128, game: Option<&GameRow>) -> Result<Seq<char>, Refusal> {
    match game {
        None => Err(refusal(ErrorKind::NotFound, game_not_found_text())),
        Some(g) => match spec_role_of(user_id, g.white_user_id, g.black_user_id).spec_color() {
            None => Err(refusal(ErrorKind::Forbidden, not_participant_text())),
            Some(c) => if g.status@ != "in_progress"@ {
                Err(not_in_progress_refusal(g.status@))
            } else {
                Ok(win_result(c.opponent()))
            },
        },
    }
}

/// Decides a resignation by `user_id`, answering the result to store.
pub fn plan_resign(user_id: u128, game: Option<&GameRow>) -> (r: Result<&'static str, AppError>)
    ensures
        match resign_decision(user_id, game) {
            Ok(w) => r matches Ok(s) && s@ == w,
            Err(d) => refused(r, d),
        },
{
    let g = match game {
        None => return Err(not_found()),
        Some(g) => g,
    };
    let role = role_of(user_id, g.white_user_id, g.black_user_id);
    let color = match role.color() {
        None => return Err(not_participant()),
        Some(c) => c,
    };
    if !text_eq(g.status.as_str(), "in_progress") {
        return Err(not_in_progress(g.status.as_str()));
    }
    Ok(winner_after_resign(color))
}

/// What the board says of a move by `user_id` on the position `base`: the
/// FEN text reached, or the refusal of a move when the game has no second
/// player, when it is not the mover's turn, or when the move is illegal.
pub open spec fn board_decision(user_id: u128, g: &GameDetailRow, base: Seq<char>, uci: Seq<char>) -> Result<Seq<char>, Refusal> {
    match spec_expected_player(fen_side_to_move(base), g.white_user_id, g.black_user_id) {
        None => Err(refusal(ErrorKind::Conflict, no_opponent_text())),
        Some(p) => if p != user_id {
            Err(refusal(ErrorKind::Forbidden, "あなたの手番ではありません"@))
        } else if !uci_move_legal(base, uci) {
            Err(refusal(ErrorKind::BadRequest, "不正な指し手です: "@ + "illegal uci"@))
        } else {
            Ok(fen_after_move(base, uci))
        },
    }
}

/// What a move request owes, up to playing the move: the FEN text reached,
/// or the refusal. The position moved from is the cached one when there is
/// one, else the stored FEN set up afresh.
///
/// A finished game is seen through the cached position alone: once the
/// position has left the cache (a resigned or abandoned game) the game is
/// not found for moving; while it is still held (a game ended on the board)
/// the board answers, so a move after checkmate is refused as illegal, and a
/// move the board would still allow is refused because the game is over.
pub open spec fn move_decision(
    user_id: u128,
    game: Option<&GameDetailRow>,
    cached: Option<Seq<char>>,
    uci: Seq<char>,
) -> Result<Seq<char>, Refusal> {
    match game {
        None => Err(refusal(ErrorKind::NotFound, game_not_found_text())),
        Some(g) => if spec_role_of(user_id, g.white_user_id, g.black_user_id) == Role::NotParticipant {
            Err(refusal(ErrorKind::Forbidden, not_participant_text()))
        } else if g.status@ == "finished"@ {
            match cached {
                None => Err(refusal(ErrorKind::NotFound, game_not_found_text())),
                Some(b) => if !uci_text_parses(uci) {
                    Err(refusal(ErrorKind::BadRequest, "指し手の形式が不正です: "@ + "invalid uci"@))
                } else {
                    match board_decision(user_id, g, b, uci) {
                        Ok(_) => Err(refusal(ErrorKind::Conflict, already_finished_text())),
                        Err(d) => Err(d),
                    }
                },
            }
        } else if g.status@ != "in_progress"@ {
            Err(not_in_progress_refusal(g.status@))
        } else if !uci_text_parses(uci) {
            Err(refusal(ErrorKind::BadRequest, "指し手の形式が不正です: "@ + "invalid uci"@))
        } else {
            let base = match cached {
                Some(c) => Some(c),
                None => stored_position(g.fen@),
            };
            match base {
                None => Err((ErrorKind::Internal, None)),
                Some(b) => board_decision(user_id, g, b, uci),
            }
        },
    }
}

/// A move that was accepted: the new position and what the answer and the
/// broadcast report about it.
pub struct MovePlan {
    pub position: Position,
    pub fen_after: String,
    pub is_check: bool,
    pub is_game_over: bool,
    /// Result and end reason to store when the move ended the game.
    pub outcome: Option<(&'static str, &'static str)>,
}

/// Whether a game is over in the position with this FEN text.
pub open spec fn fen_is_game_over(fen: Seq<char>) -> bool {
    fen_is_checkmate(fen) || fen_is_stalemate(fen) || fen_is_insufficient_material(fen)
}

impl MovePlan {
    /// The plan describes the position with FEN text `after`.
    pub open spec fn describes(&self, after: Seq<char>) -> bool {
        &&& self.position@ == after
        &&& self.fen_after@ == after
        &&& self.is_check == fen_is_check(after)
        &&& self.is_game_over == fen_is_game_over(after)
        &&& match self.outcome {
            Some(o) => self.is_game_over && (o.0@, o.1@) == outcome_of_fen(after),
            None => !self.is_game_over,
        }
    }
}

fn play_checked(user_id: u128, g: &GameDetailRow, base: &Position, uci: &ParsedUci) -> (r: Result<MovePlan, AppError>)
    ensures
        match board_decision(user_id, g, base@, uci@) {
            Ok(after) => r matches Ok(plan) && plan.describes(after),
            Err(d) => refused(r, d),
        },
{
    let expected = match expected_player(base.turn(), g.white_user_id, g.black_user_id) {
        None => return Err(AppError::Conflict("対戦相手がまだ参加していません".to_owned())),
        Some(p) => p,
    };
    if user_id != expected {
        return Err(AppError::Forbidden("あなたの手番ではありません".to_owned()));
    }
    let mv = match uci.to_move(base) {
        Err(e) => return Err(AppError::BadRequest(with_cause("不正な指し手です: ", e.as_str()))),
        Ok(mv) => mv,
    };
    match base.play(&mv) {
        Ok(new_position) => {
            let fen_after = position_to_fen(&new_position);
            let is_check = new_position.is_check();
            let is_game_over = new_position.is_game_over();
            let outcome = if is_game_over {
                Some(determine_outcome(&new_position))
            } else {
                None
            };
            Ok(MovePlan { position: new_position, fen_after, is_check, is_game_over, outcome })
        },
        Err(e) => Err(AppError::BadRequest(with_cause("指し手を適用できません: ", e.as_str()))),
    }
}

/// Decides a move request by `user_id` on `game`: the mover must play in
/// the game, the game must be in progress, the text must be a UCI move, it
/// must be the mover's turn and the move must be legal. The position moved
/// from is `cached` when the server holds one, else the game's stored FEN.
/// A finished game is judged by its cached position only (see
/// `move_decision`).
pub fn plan_move(
    user_id: u128,
    game: Option<&GameDetailRow>,
    cached: Option<&Position>,
    uci: &str,
) -> (r: Result<MovePlan, AppError>)
    ensures
        match move_decision(
            user_id,
            game,
            match cached {
                Some(p) => Some(p@),
                None => None,
            },
            uci@,
        ) {
            Ok(after) => r matches Ok(plan) && plan.describes(after),
            Err(d) => refused(r, d),
        },
{
    let g = match game {
        None => return Err(not_found()),
        Some(g) => g,
    };
    let role = role_of(user_id, g.white_user_id, g.black_user_id);
    if !role.is_participant() {
        return Err(not_participant());
    }
    if text_eq(g.status.as_str(), "finished") {
        let held = match cached {
            None => return Err(not_found()),
            Some(p) => p,
        };
        let parsed = match parse_uci(uci) {
            Err(e) => return Err(AppError::BadRequest(with_cause("指し手の形式が不正です: ", e.as_str()))),
            Ok(u) => u,
        };
        return match play_checked(user_id, g, held, &parsed) {
            Ok(_) => Err(AppError::Conflict("この対局は既に終了しています".to_owned())),
            Err(e) => Err(e),
        };
    }
    if !text_eq(g.status.as_str(), "in_progress") {
        return Err(not_in_progress(g.status.as_str()));
    }
    let parsed = match parse_uci(uci) {
        Err(e) => return Err(AppError::BadRequest(with_cause("指し手の形式が不正です: ", e.as_str()))),
        Ok(u) => u,
    };
    match cached {
        Some(p) => play_checked(user_id, g, p, &parsed),
        None => {
            let loaded = position_from_fen(g.fen.as_str());
            match loaded {
                Err(e) => Err(e),
                Ok(p) => play_checked(user_id, g, &p, &parsed),
            }
        },
    }
}

/// What viewing a game owes: the stored row, and the board of the cached
/// position or else of the stored FEN.
pub fn game_details(
    game_id: u128,
    game: Option<&GameDetailRow>,
    cached: Option<&Position>,
) -> (r: Result<GameDetailResponse, AppError>)
    ensures
        game is None ==> refused(r, refusal(ErrorKind::NotFound, game_not_found_text()),
        ),
        game matches Some(g) ==> {
            let base = match cached {
                Some(p) => Some(p@),
                None => stored_position(g.fen@),
            };
            match base {
                None => r matches Err(e) && e.spec_kind() == ErrorKind::Internal,
                Some(b) => r matches Ok(d) && {
                    &&& d.game_id == game_id
                    &&& d.white_user_id == g.white_user_id
                    &&& d.black_user_id == g.black_user_id
                    &&& d.status@ == g.status@
                    &&& d.result == g.result
                    &&& d.fen@ == b
                    &&& d.is_check == fen_is_check(b)
                    &&& d.is_game_over == fen_is_game_over(b)
                },
            }
        },
{
    let g = match game {
        None => return Err(not_found()),
        Some(g) => g,
    };
    match cached {
        Some(p) => Ok(details_of(game_id, g, p)),
        None => match position_from_fen(g.fen.as_str()) {
            Err(e) => Err(e),
            Ok(p) => Ok(details_of(game_id, g, &p)),
        },
    }
}

fn details_of(game_id: u128, g: &GameDetailRow, position: &Position) -> (d: GameDetailResponse)
    ensures
        d.game_id == game_id,
        d.white_user_id == g.white_user_id,
        d.black_user_id == g.black_user_id,
        d.status@ == g.status@,
        d.result == g.result,
        d.fen@ == position@,
        d.is_check == fen_is_check(position@),
        d.is_game_over == fen_is_game_over(position@),
{
    GameDetailResponse {
        game_id,
        white_user_id: g.white_user_id,
        black_user_id: g.black_user_id,
        status: g.status.clone(),
        result: g.result.clone(),
        fen: position_to_fen(position),
        is_check: position.is_check(),
        is_game_over: position.is_game_over(),
    }
}

/// The answer when a claim of abandonment comes from someone who is (or is
/// not) a player of the game: only players may ask for the check.
pub fn check_claimant(is_participant: bool) -> (r: Result<(), AppError>)
    ensures
        is_participant ==> r is Ok,
        !is_participant ==> refused(r, refusal(ErrorKind::Forbidden, not_participant_text()),
        ),
{
    if is_participant {
        Ok(())
    } else {
        Err(not_participant())
    }
}

/// The events a played move broadcasts: the move itself, then, when it ended
/// the game, the end of the game.
pub fn move_events(plan: &MovePlan, uci: &str) -> (evs: Vec<GameEvent>)
    ensures
        evs@.len() == if plan.outcome is Some { 2int } else { 1int },
        evs@[0] matches GameEvent::Move { fen, uci: u, is_check, is_game_over } && fen@
            == plan.fen_after@ && u@ == uci@ && is_check == plan.is_check && is_game_over
            == plan.is_game_over,
        plan.outcome matches Some(o) ==> (evs@[1] matches GameEvent::GameOver { result, end_reason }
            && result@ == o.0@ && end_reason@ == o.1@),
{
    let mut evs: Vec<GameEvent> = Vec::new();
    evs.push(
        GameEvent::Move {
            fen: plan.fen_after.clone(),
            uci: uci.to_owned(),
            is_check: plan.is_check,
            is_game_over: plan.is_game_over,
        },
    );
    match plan.outcome {
        Some((result, end_reason)) => {
            evs.push(game_over_event(result, end_reason));
        },
        None => {},
    }
    evs
}

} // verus!
