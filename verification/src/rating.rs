//! Which games move ratings, and by how much each side moves.
//!
//! The size of the change comes from the Elo formula over real numbers,
//! computed outside this crate. Only white's change is computed; black's is
//! its negation, so the two always sum to zero. Computing both sides and
//! rounding each could let the total drift by one point per game.
use vstd::prelude::*;
use crate::domain::elo::{score_from_result, spec_score_from_result, Score};

verus! {

/// The rating of a user who has not played yet.
pub const DEFAULT_RATING: i32 = 1500;

/// The stored facts about a game that decide whether ratings move.
pub struct RatingRow {
    pub white_user_id: u128,
    pub black_user_id: Option<u128>,
    pub result: Option<String>,
    pub white_rating_delta: Option<i32>,
}

/// A game whose ratings are to move: the two players and white's score.
#[derive(Debug, Clone, Copy, PartialEq, Eq)]
pub struct RatingTarget {
    pub white_user_id: u128,
    pub black_user_id: u128,
    pub score: Score,
}

/// Which game, if any, has ratings to apply. Nothing happens for a missing
/// game, a game whose change was already recorded (applying is idempotent),
/// a game without a black player, and a game with no or an unknown result.
pub open spec fn spec_rating_target(row: Option<&RatingRow>) -> Option<RatingTarget> {
    match row {
        None => None,
        Some(r) => if r.white_rating_delta is Some {
            None
        } else {
            match r.black_user_id {
                None => None,
                Some(b) => match r.result {
                    None => None,
                    Some(res) => match spec_score_from_result(res@) {
                        None => None,
                        Some(score) => Some(RatingTarget { white_user_id: r.white_user_id, black_user_id: b, score }),
                    },
                },
            }
        },
    }
}

/// Decides whether the finished game in `row` still has ratings to apply.
pub fn rating_target(row: Option<&RatingRow>) -> (t: Option<RatingTarget>)
    ensures
        t == spec_rating_target(row),
{
    let r = match row {
        None => return None,
        Some(r) => r,
    };
    if r.white_rating_delta.is_some() {
        return None;
    }
    let b = match r.black_user_id {
        None => return None,
        Some(b) => b,
    };
    let res = match &r.result {
        None => return None,
        Some(res) => res,
    };
    match score_from_result(res.as_str()) {
        None => None,
        Some(score) => Some(RatingTarget { white_user_id: r.white_user_id, black_user_id: b, score }),
    }
}

/// The two user ids in ascending order: the order in which their rows are
/// locked, so that two games between the same players cannot deadlock.
pub fn lock_order(a: u128, b: u128) -> (r: (u128, u128))
    ensures
        r.0 <= r.1,
        (r.0 == a && r.1 == b) || (r.0 == b && r.1 == a),
{
    if a < b {
        (a, b)
    } else {
        (b, a)
    }
}

/// The ratings read for white and black from `(id, rating)` rows: a row
/// with white's id sets white's rating, one with black's id (and not white's)
/// sets black's; later rows win; a user without a row has the default.
pub open spec fn spec_ratings_for(rows: Seq<(u128, i32)>, white: u128, black: u128) -> (i32, i32)
    decreases rows.len(),
{
    if rows.len() == 0 {
        (DEFAULT_RATING, DEFAULT_RATING)
    } else {
        let prev = spec_ratings_for(rows.drop_last(), white, black);
        let (id, rating) = rows.last();
        if id == white {
            (rating, prev.1)
        } else if id == black {
            (prev.0, rating)
        } else {
            prev
        }
    }
}

/// Picks white's and black's current ratings out of the rows read.
pub fn ratings_for(rows: &Vec<(u128, i32)>, white: u128, black: u128) -> (r: (i32, i32))
    ensures
        r == spec_ratings_for(rows@, white, black),
{
    let mut white_rating = DEFAULT_RATING;
    let mut black_rating = DEFAULT_RATING;
    let mut i: usize = 0;
    while i < rows.len()
        invariant
            i <= rows@.len(),
            (white_rating, black_rating) == spec_ratings_for(rows@.subrange(0, i as int), white, black),
        decreases rows@.len() - i,
    {
        let (id, rating) = rows[i];
        assert(rows@.subrange(0, i + 1).drop_last() =~= rows@.subrange(0, i as int));
        if id == white {
            white_rating = rating;
        } else if id == black {
            black_rating = rating;
        }
        i = i + 1;
    }
    assert(rows@.subrange(0, rows@.len() as int) =~= rows@);
    (white_rating, black_rating)
}

/// The rating changes of one game.
#[derive(Debug, Clone, Copy, PartialEq, Eq)]
pub struct RatingUpdate {
    pub white_user_id: u128,
    pub black_user_id: u128,
    pub white_delta: i32,
    pub black_delta: i32,
}

/// The changes to apply for `target` when white's change is `white_delta`:
/// black moves by the same amount the other way, so the sum of all ratings
/// never changes.
pub fn rating_update(target: &RatingTarget, white_delta: i32) -> (u: RatingUpdate)
    requires
        white_delta > i32::MIN,
    ensures
        u.white_user_id == target.white_user_id,
        u.black_user_id == target.black_user_id,
        u.white_delta == white_delta,
        u.black_delta == -white_delta,
        u.white_delta + u.black_delta == 0,
{
    RatingUpdate {
        white_user_id: target.white_user_id,
        black_user_id: target.black_user_id,
        white_delta,
        black_delta: -white_delta,
    }
}

} // verus!
