//! A finished game seen from one player's side.
use vstd::prelude::*;
use crate::color::Color;
use crate::text::text_eq;

verus! {

/// How a game went for one player.
#[derive(Debug, Clone, Copy, PartialEq, Eq, Structural)]
pub enum Outcome {
    Win,
    Loss,
    Draw,
}

/// The text for an outcome.
pub open spec fn outcome_text(o: Outcome) -> Seq<char> {
    match o {
        Outcome::Win => "win"@,
        Outcome::Loss => "loss"@,
        Outcome::Draw => "draw"@,
    }
}

impl Outcome {
    /// `"win"`, `"loss"` or `"draw"`.
    pub fn as_str(self) -> (s: &'static str)
        ensures
            s@ == outcome_text(self),
    {
        match self {
            Outcome::Win => "win",
            Outcome::Loss => "loss",
            Outcome::Draw => "draw",
        }
    }
}

/// The outcome for the player of `my_color`, given the stored board-side
/// result. Unknown or missing results have no outcome.
pub open spec fn spec_outcome_for(result: Option<Seq<char>>, my_color: Color) -> Option<Outcome> {
    match result {
        None => None,
        Some(r) => if r == "draw"@ {
            Some(Outcome::Draw)
        } else if r == "white_win"@ {
            if my_color == Color::White { Some(Outcome::Win) } else { Some(Outcome::Loss) }
        } else if r == "black_win"@ {
            if my_color == Color::Black { Some(Outcome::Win) } else { Some(Outcome::Loss) }
        } else {
            None
        },
    }
}

/// The view of an optional text.
pub open spec fn opt_text(s: Option<&str>) -> Option<Seq<char>> {
    match s {
        Some(t) => Some(t@),
        None => None,
    }
}

/// Turns the stored result (`"white_win"`, `"black_win"`, `"draw"`) into the
/// outcome for the player of `my_color`. A missing result (game not over) and
/// a value this code does not know both give `None`, so one odd row cannot
/// break a whole listing.
pub fn outcome_for(result: Option<&str>, my_color: Color) -> (o: Option<Outcome>)
    ensures
        o == spec_outcome_for(opt_text(result), my_color),
{
    let r = match result {
        Some(r) => r,
        None => return None,
    };
    if text_eq(r, "draw") {
        Some(Outcome::Draw)
    } else if text_eq(r, "white_win") {
        match my_color {
            Color::White => Some(Outcome::Win),
            Color::Black => Some(Outcome::Loss),
        }
    } else if text_eq(r, "black_win") {
        match my_color {
            Color::Black => Some(Outcome::Win),
            Color::White => Some(Outcome::Loss),
        }
    } else {
        None
    }
}

} // verus!
