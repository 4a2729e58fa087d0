//! How a game ends on the board or by resignation.
use vstd::prelude::*;
use crate::board::{
    fen_is_checkmate, fen_is_insufficient_material, fen_is_stalemate, fen_side_to_move, Position,
};
use crate::color::Color;

verus! {

/// The stored result that names `c` the winner.
pub open spec fn win_result(c: Color) -> Seq<char> {
    match c {
        Color::White => "white_win"@,
        Color::Black => "black_win"@,
    }
}

/// The result and end reason for a finished position with this FEN text:
/// checkmate is won by the side that is not to move; stalemate and
/// insufficient material are draws; anything else is a draw for another
/// reason.
pub open spec fn outcome_of_fen(fen: Seq<char>) -> (Seq<char>, Seq<char>) {
    if fen_is_checkmate(fen) {
        (win_result(fen_side_to_move(fen).opponent()), "checkmate"@)
    } else if fen_is_stalemate(fen) {
        ("draw"@, "stalemate"@)
    } else if fen_is_insufficient_material(fen) {
        ("draw"@, "insufficient_material"@)
    } else {
        ("draw"@, "other"@)
    }
}

/// The result when the player of `resigning_color` resigns: the other side
/// wins.
pub fn winner_after_resign(resigning_color: Color) -> (r: &'static str)
    ensures
        r@ == win_result(resigning_color.opponent()),
{
    match resigning_color {
        Color::White => "black_win",
        Color::Black => "white_win",
    }
}

/// The stored result and end reason for a position in which the game is
/// over.
pub fn determine_outcome(position: &Position) -> (r: (&'static str, &'static str))
    ensures
        (r.0@, r.1@) == outcome_of_fen(position@),
{
    if position.is_checkmate() {
        let winner = match position.turn() {
            Color::White => "black_win",
            Color::Black => "white_win",
        };
        (winner, "checkmate")
    } else if position.is_stalemate() {
        ("draw", "stalemate")
    } else if position.is_insufficient_material() {
        ("draw", "insufficient_material")
    } else {
        ("draw", "other")
    }
}

} // verus!
