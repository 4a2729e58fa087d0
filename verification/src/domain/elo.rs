//! Game results as rating scores.
//!
//! The expected score and the size of a rating change use real-number
//! arithmetic, which is computed outside this crate; this module decides
//! which score a stored result stands for.
use vstd::prelude::*;
use crate::text::text_eq;

verus! {

/// White's score in a finished game: a win counts 1, a draw one half, a loss 0.
#[derive(Debug, Clone, Copy, PartialEq, Eq, Structural)]
pub enum Score {
    Win,
    Draw,
    Loss,
}

/// The score that a stored result stands for, from white's side.
pub open spec fn spec_score_from_result(result: Seq<char>) -> Option<Score> {
    if result == "white_win"@ {
        Some(Score::Win)
    } else if result == "black_win"@ {
        Some(Score::Loss)
    } else if result == "draw"@ {
        Some(Score::Draw)
    } else {
        None
    }
}

/// White's score for a stored result. An unknown value gives `None` rather
/// than a failure, so one odd row cannot stop the end-of-game handling.
pub fn score_from_result(result: &str) -> (s: Option<Score>)
    ensures
        s == spec_score_from_result(result@),
{
    if text_eq(result, "white_win") {
        Some(Score::Win)
    } else if text_eq(result, "black_win") {
        Some(Score::Loss)
    } else if text_eq(result, "draw") {
        Some(Score::Draw)
    } else {
        None
    }
}

impl Score {
    /// The score in half points: 2 for a win, 1 for a draw, 0 for a loss.
    pub open spec fn spec_half_points(self) -> int {
        match self {
            Score::Win => 2,
            Score::Draw => 1,
            Score::Loss => 0,
        }
    }

    /// The score in half points.
    pub fn half_points(self) -> (h: u8)
        ensures
            h == self.spec_half_points(),
    {
        match self {
            Score::Win => 2,
            Score::Draw => 1,
            Score::Loss => 0,
        }
    }
}

} // verus!
