//! Events pushed to the players watching a game.
use vstd::prelude::*;

verus! {

/// An event broadcast to the clients subscribed to a game.
pub enum GameEvent {
    /// A move was played.
    Move { fen: String, uci: String, is_check: bool, is_game_over: bool },
    /// The game ended.
    GameOver { result: String, end_reason: String },
    /// The second player took the black seat.
    OpponentJoined { user_id: u128 },
    /// A player's last connection closed; the game is decided against them
    /// after `remaining_seconds` unless they come back. Seconds rather than a
    /// time of day, so that clock differences between client and server do
    /// not shift the countdown.
    PlayerDisconnected { user_id: u128, remaining_seconds: i64 },
    /// A player who had been disconnected came back.
    PlayerReconnected { user_id: u128 },
}

/// The event announcing the end of a game.
pub fn game_over_event(result: &str, end_reason: &str) -> (ev: GameEvent)
    ensures
        ev matches GameEvent::GameOver { result: r, end_reason: e } && r@ == result@ && e@
            == end_reason@,
{
    GameEvent::GameOver { result: result.to_owned(), end_reason: end_reason.to_owned() }
}

} // verus!
