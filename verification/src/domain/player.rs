//! Who a user is in a game, and whose move it is.
use vstd::prelude::*;
use crate::color::Color;

verus! {

/// A user's place in a game.
#[derive(Clone, Copy, Debug, PartialEq, Eq, Structural)]
pub enum Role {
    White,
    Black,
    NotParticipant,
}

impl Role {
    /// The colour a participant plays.
    pub open spec fn spec_color(self) -> Option<Color> {
        match self {
            Role::White => Some(Color::White),
            Role::Black => Some(Color::Black),
            Role::NotParticipant => None,
        }
    }

    /// The colour this role plays, or `None` for someone who does not play.
    pub fn color(&self) -> (c: Option<Color>)
        ensures
            c == self.spec_color(),
    {
        match self {
            Role::White => Some(Color::White),
            Role::Black => Some(Color::Black),
            Role::NotParticipant => None,
        }
    }

    /// Whether this role plays in the game.
    pub fn is_participant(&self) -> (b: bool)
        ensures
            b == (*self != Role::NotParticipant),
    {
        !matches!(self, Role::NotParticipant)
    }
}

/// The role of `user_id` in a game with these players. White is checked
/// first; an empty black seat matches nobody.
pub open spec fn spec_role_of(user_id: u128, white_user_id: u128, black_user_id: Option<u128>) -> Role {
    if user_id == white_user_id {
        Role::White
    } else if black_user_id == Some(user_id) {
        Role::Black
    } else {
        Role::NotParticipant
    }
}

/// The role of `user_id` in a game whose players are `white_user_id` and
/// (once someone joined) `black_user_id`.
pub fn role_of(user_id: u128, white_user_id: u128, black_user_id: Option<u128>) -> (r: Role)
    ensures
        r == spec_role_of(user_id, white_user_id, black_user_id),
{
    if user_id == white_user_id {
        Role::White
    } else if black_user_id == Some(user_id) {
        Role::Black
    } else {
        Role::NotParticipant
    }
}

/// The player whose turn it is.
pub open spec fn spec_expected_player(turn: Color, white_user_id: u128, black_user_id: Option<u128>) -> Option<u128> {
    match turn {
        Color::White => Some(white_user_id),
        Color::Black => black_user_id,
    }
}

/// The user who is to move; `None` when black is to move but nobody has
/// taken the black seat yet.
pub fn expected_player(turn: Color, white_user_id: u128, black_user_id: Option<u128>) -> (r: Option<u128>)
    ensures
        r == spec_expected_player(turn, white_user_id, black_user_id),
{
    match turn {
        Color::White => Some(white_user_id),
        Color::Black => black_user_id,
    }
}

} // verus!
