//! Request bodies, stored rows and response bodies, as plain values. User
//! and game identifiers are the 128-bit values of their UUIDs.
use vstd::prelude::*;

verus! {

/// Body of a registration request.
pub struct RegisterRequest {
    pub username: String,
    pub password: String,
}

/// Body of a login request.
pub struct LoginRequest {
    pub username: String,
    pub password: String,
}

/// Answer to a successful registration or login.
pub struct AuthResponse {
    pub user_id: u128,
    pub token: String,
}

/// A user's stored credentials.
pub struct UserRow {
    pub id: u128,
    pub password_hash: String,
}

/// A user's public profile.
pub struct UserPublicResponse {
    pub id: u128,
    pub username: String,
}

/// The players and status of a stored game.
pub struct GameRow {
    pub white_user_id: u128,
    pub black_user_id: Option<u128>,
    pub status: String,
}

/// Body of a move request: the move in UCI notation (`e2e4`, promotion
/// `e7e8q`).
pub struct MoveRequest {
    pub uci: String,
}

/// Answer to creating a game.
pub struct GameCreatedResponse {
    pub game_id: u128,
    pub fen: String,
}

/// The board after a move.
pub struct GameStateResponse {
    pub game_id: u128,
    pub fen: String,
    pub is_check: bool,
    pub is_game_over: bool,
}

/// Players, status, result and latest stored FEN of a game.
pub struct GameDetailRow {
    pub white_user_id: u128,
    pub black_user_id: Option<u128>,
    pub status: String,
    pub result: Option<String>,
    pub fen: String,
}

/// Answer to a request for a game's details.
pub struct GameDetailResponse {
    pub game_id: u128,
    pub white_user_id: u128,
    pub black_user_id: Option<u128>,
    pub status: String,
    pub result: Option<String>,
    pub fen: String,
    pub is_check: bool,
    pub is_game_over: bool,
}

/// Filter of the game listing: only games in this status, or all.
pub struct ListGamesQuery {
    pub status: Option<String>,
}

/// One move of a game's record.
pub struct MoveRow {
    pub move_number: i32,
    pub uci: String,
    pub fen_after: String,
}

/// Answer to a claim that the opponent has abandoned the game.
pub struct ClaimResponse {
    /// Whether the claim ended the game; `false` while the grace period runs.
    pub finished: bool,
}

/// Answer to a logout: how many games it ended.
pub struct LogoutResponse {
    pub forfeited: usize,
}

/// Answer to a sweep: how many games it ended.
pub struct SweepResponse {
    pub finished: usize,
}

} // verus!
