//! Whether a game should end because a player stayed away too long.
//!
//! The rule is kept apart from when it is consulted (on connect, on a claim,
//! on a periodic sweep); it takes the current time as an argument.
use vstd::prelude::*;
use crate::time::{Timestamp, elapsed_nanos, nanos_between};

verus! {

/// Seconds a disconnected player has to come back before the game is decided.
pub const GRACE_SECONDS: i64 = 60;

/// How a game ends by absence: the stored result and the stored end reason.
#[derive(Debug, PartialEq, Eq)]
pub struct Abandonment {
    /// Value for the game's result column.
    pub result: &'static str,
    /// Value for the game's end-reason column.
    pub end_reason: &'static str,
}

/// The grace period has run out for a player who left at `at`.
pub open spec fn grace_expired(at: Option<Timestamp>, now: Timestamp) -> bool {
    match at {
        Some(t) => nanos_between(now, t) >= GRACE_SECONDS * 1_000_000_000,
        None => false,
    }
}

/// The verdict for given disconnection times: both gone is a draw, one gone
/// loses, nobody gone (or still within grace) means the game goes on.
pub open spec fn abandonment_verdict(
    white_disconnected_at: Option<Timestamp>,
    black_disconnected_at: Option<Timestamp>,
    now: Timestamp,
) -> Option<Abandonment> {
    let w = grace_expired(white_disconnected_at, now);
    let b = grace_expired(black_disconnected_at, now);
    if w && b {
        Some(Abandonment { result: "draw", end_reason: "abandonment" })
    } else if w {
        Some(Abandonment { result: "black_win", end_reason: "disconnection" })
    } else if b {
        Some(Abandonment { result: "white_win", end_reason: "disconnection" })
    } else {
        None
    }
}

/// Well-formedness of an optional instant.
pub open spec fn opt_wf(t: Option<Timestamp>) -> bool {
    match t {
        Some(t) => t.wf(),
        None => true,
    }
}

fn expired(at: Option<Timestamp>, now: Timestamp) -> (r: bool)
    requires
        opt_wf(at),
        now.wf(),
    ensures
        r == grace_expired(at, now),
{
    match at {
        Some(t) => elapsed_nanos(now, t) >= (GRACE_SECONDS as i128) * 1_000_000_000,
        None => false,
    }
}

/// Decides from both players' disconnection times whether the game ends by
/// absence. `None` means the game goes on: both are connected, or the absent
/// side is still within the grace period. Exactly at the end of the grace
/// period counts as expired.
///
/// When both have been gone past the grace period the game is a draw: naming
/// an absent player the winner would reward whoever dropped second.
pub fn decide(
    white_disconnected_at: Option<Timestamp>,
    black_disconnected_at: Option<Timestamp>,
    now: Timestamp,
) -> (r: Option<Abandonment>)
    requires
        opt_wf(white_disconnected_at),
        opt_wf(black_disconnected_at),
        now.wf(),
    ensures
        r == abandonment_verdict(white_disconnected_at, black_disconnected_at, now),
{
    let w = expired(white_disconnected_at, now);
    let b = expired(black_disconnected_at, now);
    if w && b {
        Some(Abandonment { result: "draw", end_reason: "abandonment" })
    } else if w {
        Some(Abandonment { result: "black_win", end_reason: "disconnection" })
    } else if b {
        Some(Abandonment { result: "white_win", end_reason: "disconnection" })
    } else {
        None
    }
}

} // verus!
