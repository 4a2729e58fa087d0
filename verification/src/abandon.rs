//! Presence of players and the end of games whose players went away.
//!
//! A player may have several tabs open on one game, so connections are
//! counted: only the first connection clears a recorded disconnection, and
//! only closing the last one records it.
use std::collections::HashMap;
use vstd::prelude::*;
use crate::domain::abandon::{abandonment_verdict, decide, opt_wf, Abandonment, GRACE_SECONDS};
use crate::state::GameEvent;
use crate::time::{elapsed_whole_seconds, whole_seconds_between, Timestamp};

verus! {

broadcast use vstd::std_specs::hash::group_hash_axioms;

/// Identifies the connections of one user to one game: (game id, user id).
pub type ConnectionKey = (u128, u128);

/// Every recorded pair has at least one connection.
pub open spec fn counts_valid(m: Map<ConnectionKey, nat>) -> bool {
    forall|k: ConnectionKey| m.contains_key(k) ==> #[trigger] m[k] >= 1
}

/// The counts after one more connection of pair `k`.
pub open spec fn after_connect(m: Map<ConnectionKey, nat>, k: ConnectionKey) -> Map<ConnectionKey, nat> {
    if m.contains_key(k) {
        m.insert(k, m[k] + 1)
    } else {
        m.insert(k, 1)
    }
}

/// The counts after one connection of pair `k` closed: the pair disappears
/// with its last connection; a pair with no connection is left alone.
pub open spec fn after_disconnect(m: Map<ConnectionKey, nat>, k: ConnectionKey) -> Map<ConnectionKey, nat> {
    if !m.contains_key(k) {
        m
    } else if m[k] <= 1 {
        m.remove(k)
    } else {
        m.insert(k, (m[k] - 1) as nat)
    }
}

/// How many open connections each (game, user) pair has: per game, per
/// user, the count. Pairs without an open connection are absent.
pub struct ConnectionCounts {
    games: HashMap<u128, HashMap<u128, usize>>,
}

impl ConnectionCounts {
    /// The counts as a map from (game, user) to the number of connections.
    pub closed spec fn view(&self) -> Map<ConnectionKey, nat> {
        Map::new(
            |k: ConnectionKey| self.games@.contains_key(k.0) && self.games@[k.0]@.contains_key(k.1),
            |k: ConnectionKey| self.games@[k.0]@[k.1] as nat,
        )
    }

    /// Every recorded pair has at least one connection.
    pub closed spec fn wf(&self) -> bool {
        forall|g: u128, u: u128|
            self.games@.contains_key(g) && #[trigger] self.games@[g]@.contains_key(u)
                ==> self.games@[g]@[u] >= 1
    }

    /// No connections at all.
    pub fn new() -> (c: ConnectionCounts)
        ensures
            c.wf(),
            counts_valid(c.view()),
            c.view() == Map::<ConnectionKey, nat>::empty(),
    {
        let c = ConnectionCounts { games: HashMap::new() };
        assert(c.view() =~= Map::<ConnectionKey, nat>::empty());
        c
    }

    /// The number of open connections of `user_id` to `game_id`.
    pub fn count(&self, game_id: u128, user_id: u128) -> (n: usize)
        requires
            self.wf(),
        ensures
            self.view().contains_key((game_id, user_id)) ==> n == self.view()[(game_id, user_id)],
            !self.view().contains_key((game_id, user_id)) ==> n == 0,
    {
        match self.games.get(&game_id) {
            None => 0,
            Some(inner) => match inner.get(&user_id) {
                Some(c) => *c,
                None => 0,
            },
        }
    }

    /// Records one more connection of `user_id` to `game_id`, answering
    /// whether it is the only one now.
    pub fn connect(&mut self, game_id: u128, user_id: u128) -> (is_first: bool)
        requires
            old(self).wf(),
            old(self).view().contains_key((game_id, user_id)) ==> old(self).view()[(game_id, user_id)] < usize::MAX,
        ensures
            final(self).wf(),
            counts_valid(final(self).view()),
            is_first == !old(self).view().contains_key((game_id, user_id)),
            final(self).view() == after_connect(old(self).view(), (game_id, user_id)),
    {
        let ghost before = self.view();
        let ghost old_games = self.games@;
        let k: ConnectionKey = (game_id, user_id);
        let mut inner = match self.games.remove(&game_id) {
            Some(m) => m,
            None => HashMap::new(),
        };
        let ghost old_inner = inner@;
        assert(old_games.contains_key(game_id) ==> old_inner == old_games[game_id]@);
        assert(!old_games.contains_key(game_id) ==> old_inner == Map::<u128, usize>::empty());
        let found: Option<usize> = match inner.get(&user_id) {
            Some(c) => Some(*c),
            None => None,
        };
        let (next, is_first): (usize, bool) = match found {
            Some(c) => (c + 1, false),
            None => (1, true),
        };
        inner.insert(user_id, next);
        self.games.insert(game_id, inner);
        proof {
            assert(self.games@ == old_games.remove(game_id).insert(game_id, inner));
            assert(inner@ == old_inner.insert(user_id, next));
            let target = after_connect(before, k);
            assert forall|q: ConnectionKey| #[trigger] self.view().contains_key(q) == target.contains_key(q) by {}
            assert forall|q: ConnectionKey| #[trigger] self.view().contains_key(q) implies self.view()[q] == target[q] by {}
            assert(self.view() =~= target);
        }
        is_first
    }

    /// Records that one connection of `user_id` to `game_id` closed,
    /// answering whether it was the last one. A pair with no recorded
    /// connection is left alone.
    pub fn disconnect(&mut self, game_id: u128, user_id: u128) -> (is_last: bool)
        requires
            old(self).wf(),
        ensures
            final(self).wf(),
            counts_valid(final(self).view()),
            is_last == (old(self).view().contains_key((game_id, user_id))
                && old(self).view()[(game_id, user_id)] == 1),
            final(self).view() == after_disconnect(old(self).view(), (game_id, user_id)),
    {
        let ghost before = self.view();
        let ghost old_games = self.games@;
        let k: ConnectionKey = (game_id, user_id);
        let mut inner = match self.games.remove(&game_id) {
            Some(m) => m,
            None => {
                proof {
                    assert(self.games@ =~= old_games);
                    assert(self.view() =~= before);
                }
                return false;
            },
        };
        let ghost old_inner = inner@;
        assert(old_inner == old_games[game_id]@);
        let found: Option<usize> = match inner.get(&user_id) {
            Some(c) => Some(*c),
            None => None,
        };
        let is_last = match found {
            None => {
                self.games.insert(game_id, inner);
                proof {
                    assert(self.games@ =~= old_games);
                    assert(self.view() =~= before);
                }
                false
            },
            Some(c) => if c > 1 {
                inner.insert(user_id, c - 1);
                self.games.insert(game_id, inner);
                proof {
                    assert(self.games@ == old_games.remove(game_id).insert(game_id, inner));
                    assert(inner@ == old_inner.insert(user_id, (c - 1) as usize));
                    let target = after_disconnect(before, k);
                    assert forall|q: ConnectionKey| #[trigger] self.view().contains_key(q) == target.contains_key(q) by {}
                    assert forall|q: ConnectionKey| #[trigger] self.view().contains_key(q) implies self.view()[q] == target[q] by {}
                    assert(self.view() =~= target);
                }
                false
            } else {
                inner.remove(&user_id);
                let ghost left = inner@;
                assert(left == old_inner.remove(user_id));
                if !inner.is_empty() {
                    self.games.insert(game_id, inner);
                    assert(self.games@ == old_games.remove(game_id).insert(game_id, inner));
                } else {
                    assert(self.games@ == old_games.remove(game_id));
                }
                proof {
                    let target = after_disconnect(before, k);
                    assert forall|q: ConnectionKey| #[trigger] self.view().contains_key(q) == target.contains_key(q) by {
                        if q.0 == game_id && q.1 != user_id && old_inner.contains_key(q.1) {
                            assert(left.contains_key(q.1));
                        }
                    }
                    assert forall|q: ConnectionKey| #[trigger] self.view().contains_key(q) implies self.view()[q] == target[q] by {}
                    assert(self.view() =~= target);
                }
                true
            },
        };
        is_last
    }
}

/// The announcement that a player came back: made only when the player had
/// been recorded as disconnected, so that a first connection does not put a
/// stray event in front of the events its own subscriber is waiting for.
pub fn reconnect_event(user_id: u128, was_disconnected: bool) -> (ev: Option<GameEvent>)
    ensures
        was_disconnected ==> ev == Some(GameEvent::PlayerReconnected { user_id }),
        !was_disconnected ==> ev is None,
{
    if was_disconnected {
        Some(GameEvent::PlayerReconnected { user_id })
    } else {
        None
    }
}

/// The announcement that a player's last connection closed, with the full
/// grace period left.
pub fn disconnect_event(user_id: u128) -> (ev: GameEvent)
    ensures
        ev == (GameEvent::PlayerDisconnected { user_id, remaining_seconds: GRACE_SECONDS }),
{
    GameEvent::PlayerDisconnected { user_id, remaining_seconds: GRACE_SECONDS }
}

/// The stored facts about an in-progress game that decide abandonment.
pub struct AbandonRow {
    pub white_disconnected_at: Option<Timestamp>,
    pub black_disconnected_at: Option<Timestamp>,
    pub black_user_id: Option<u128>,
}

/// Well-formed instants in an abandonment row.
pub open spec fn abandon_row_wf(row: Option<&AbandonRow>) -> bool {
    row matches Some(r) ==> opt_wf(r.white_disconnected_at) && opt_wf(r.black_disconnected_at)
}

/// How an in-progress game ends by absence, if it does. A game that is not
/// in progress (`None`) or still waits for its black player is never ended
/// this way: without an opponent a win means nothing.
pub open spec fn spec_abandonment_of(row: Option<&AbandonRow>, now: Timestamp) -> Option<Abandonment> {
    match row {
        None => None,
        Some(r) => if r.black_user_id is None {
            None
        } else {
            abandonment_verdict(r.white_disconnected_at, r.black_disconnected_at, now)
        },
    }
}

/// Decides whether the in-progress game whose row is `row` (`None` when no
/// game is in progress under that id) ends by absence at `now`.
pub fn abandonment_of(row: Option<&AbandonRow>, now: Timestamp) -> (r: Option<Abandonment>)
    requires
        abandon_row_wf(row),
        now.wf(),
    ensures
        r == spec_abandonment_of(row, now),
{
    match row {
        None => None,
        Some(r) => if r.black_user_id.is_none() {
            None
        } else {
            decide(r.white_disconnected_at, r.black_disconnected_at, now)
        },
    }
}

/// The result and end reason when `user_id` logs out of an active game.
/// Without an opponent the game is cancelled with no result; otherwise the
/// one who left loses.
pub open spec fn spec_forfeit(user_id: u128, white_user_id: u128, black_user_id: Option<u128>) -> (Option<Seq<char>>, Seq<char>) {
    match black_user_id {
        None => (None, "cancelled"@),
        Some(_) => if user_id == white_user_id {
            (Some("black_win"@), "logout"@)
        } else {
            (Some("white_win"@), "logout"@)
        },
    }
}

/// Decides how a logout ends one of the user's active games.
pub fn forfeit_outcome(user_id: u128, white_user_id: u128, black_user_id: Option<u128>) -> (r: (Option<&'static str>, &'static str))
    ensures
        (match r.0 {
            Some(s) => Some(s@),
            None => None,
        }, r.1@) == spec_forfeit(user_id, white_user_id, black_user_id),
{
    match black_user_id {
        None => (None, "cancelled"),
        Some(_) => if user_id == white_user_id {
            (Some("black_win"), "logout")
        } else {
            (Some("white_win"), "logout")
        },
    }
}

/// The stored facts about an in-progress game that tell a viewer how long
/// the opponent has left.
pub struct GraceRow {
    pub white_user_id: u128,
    pub black_user_id: Option<u128>,
    pub white_disconnected_at: Option<Timestamp>,
    pub black_disconnected_at: Option<Timestamp>,
}

/// Well-formed instants in a grace row.
pub open spec fn grace_row_wf(row: Option<&GraceRow>) -> bool {
    row matches Some(r) ==> opt_wf(r.white_disconnected_at) && opt_wf(r.black_disconnected_at)
}

/// The opponent of `viewer_id` and the whole seconds that opponent has left
/// to come back, when the opponent is away and still within the grace
/// period. Seconds rather than a time of day, so that the client's clock does
/// not matter.
pub open spec fn spec_grace_remaining(row: Option<&GraceRow>, viewer_id: u128, now: Timestamp) -> Option<(u128, int)> {
    match row {
        None => None,
        Some(r) => match r.black_user_id {
            None => None,
            Some(black_id) => {
                let pair = if viewer_id == r.white_user_id {
                    Some((black_id, r.black_disconnected_at))
                } else if viewer_id == black_id {
                    Some((r.white_user_id, r.white_disconnected_at))
                } else {
                    None
                };
                match pair {
                    None => None,
                    Some((opponent, at)) => match at {
                        None => None,
                        Some(t) => {
                            let remaining = GRACE_SECONDS - whole_seconds_between(now, t);
                            if remaining <= 0 {
                                None
                            } else {
                                Some((opponent, remaining))
                            }
                        },
                    },
                }
            },
        },
    }
}

/// Tells `viewer_id` how many seconds the opponent has left, if the opponent
/// is disconnected and still within the grace period.
pub fn grace_remaining(row: Option<&GraceRow>, viewer_id: u128, now: Timestamp) -> (r: Option<(u128, i64)>)
    requires
        grace_row_wf(row),
        now.wf(),
    ensures
        match spec_grace_remaining(row, viewer_id, now) {
            None => r is None,
            Some((o, s)) => r == Some((o, s as i64)),
        },
{
    let row = match row {
        None => return None,
        Some(r) => r,
    };
    let black_id = match row.black_user_id {
        None => return None,
        Some(b) => b,
    };
    let (opponent_id, disconnected_at) = if viewer_id == row.white_user_id {
        (black_id, row.black_disconnected_at)
    } else if viewer_id == black_id {
        (row.white_user_id, row.white_disconnected_at)
    } else {
        return None;
    };
    let at = match disconnected_at {
        None => return None,
        Some(t) => t,
    };
    let elapsed = elapsed_whole_seconds(now, at);
    let remaining = GRACE_SECONDS - elapsed;
    if remaining <= 0 {
        return None;
    }
    Some((opponent_id, remaining))
}

} // verus!
