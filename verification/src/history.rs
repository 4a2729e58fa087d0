//! The list of a player's finished games.
use vstd::prelude::*;
use crate::color::Color;
use crate::domain::history::{opt_text, outcome_for, outcome_text, spec_outcome_for};
use crate::errors::{refusal, refused, AppError, ErrorKind, Refusal};
use crate::text::text_eq;
use crate::time::Timestamp;

verus! {

/// Paging of the history list.
pub struct HistoryQuery {
    /// How many games to return (20 when absent, at most 100).
    pub limit: Option<i64>,
    /// How many games to skip (0 when absent).
    pub offset: Option<i64>,
}

/// What the paging owes: `(limit, offset)`, or the refusal of a limit
/// outside 1..=100 (a cap, so that one request cannot pull every row) or a
/// negative offset.
pub open spec fn paging_decision(limit: Option<i64>, offset: Option<i64>) -> Result<(i64, i64), Refusal> {
    let l = match limit {
        Some(l) => l,
        None => 20,
    };
    let o = match offset {
        Some(o) => o,
        None => 0,
    };
    if !(1 <= l <= 100) {
        Err(refusal(ErrorKind::BadRequest, "limit は 1〜100 の範囲で指定してください"@))
    } else if o < 0 {
        Err(refusal(ErrorKind::BadRequest, "offset は 0 以上で指定してください"@))
    } else {
        Ok((l, o))
    }
}

impl HistoryQuery {
    /// The limit and offset to query with.
    pub fn page(&self) -> (r: Result<(i64, i64), AppError>)
        ensures
            match paging_decision(self.limit, self.offset) {
                Ok(p) => r == Ok::<(i64, i64), AppError>(p),
                Err(d) => refused(r, d),
            },
    {
        let limit = match self.limit {
            Some(l) => l,
            None => 20,
        };
        let offset = match self.offset {
            Some(o) => o,
            None => 0,
        };
        if !(1 <= limit && limit <= 100) {
            return Err(AppError::BadRequest("limit は 1〜100 の範囲で指定してください".to_owned()));
        }
        if offset < 0 {
            return Err(AppError::BadRequest("offset は 0 以上で指定してください".to_owned()));
        }
        Ok((limit, offset))
    }
}

/// A finished game as read for one player: their colour as `"white"` or
/// `"black"`, the opponent's name (absent when nobody joined), the stored
/// result and end reason, the number of moves and when it ended.
pub struct HistoryRow {
    pub id: u128,
    pub my_color: String,
    pub opponent_username: Option<String>,
    pub result: Option<String>,
    pub end_reason: Option<String>,
    pub move_count: i64,
    pub finished_at: Timestamp,
}

/// One entry of the history list.
pub struct GameHistoryItem {
    pub game_id: u128,
    /// `"white"` or `"black"`.
    pub my_color: String,
    pub opponent_username: Option<String>,
    /// The board-side result: `"white_win"`, `"black_win"` or `"draw"`.
    pub result: Option<String>,
    /// The player's own outcome: `"win"`, `"loss"` or `"draw"`, or absent
    /// when the result says nothing about it.
    pub outcome: Option<String>,
    pub end_reason: Option<String>,
    pub move_count: i64,
    pub finished_at: Timestamp,
}

/// The colour a history row names: anything but `"white"` is black.
pub open spec fn row_color(my_color: Seq<char>) -> Color {
    if my_color == "white"@ {
        Color::White
    } else {
        Color::Black
    }
}

/// The view of an optional string.
pub open spec fn opt_string(s: Option<String>) -> Option<Seq<char>> {
    match s {
        Some(t) => Some(t@),
        None => None,
    }
}

/// Builds a history entry, adding the player's own outcome.
pub fn history_item(row: HistoryRow) -> (item: GameHistoryItem)
    ensures
        item.game_id == row.id,
        item.my_color == row.my_color,
        item.opponent_username == row.opponent_username,
        item.result == row.result,
        item.end_reason == row.end_reason,
        item.move_count == row.move_count,
        item.finished_at == row.finished_at,
        opt_string(item.outcome) == match spec_outcome_for(opt_string(row.result), row_color(row.my_color@)) {
            Some(o) => Some(outcome_text(o)),
            None => None,
        },
{
    let color = if text_eq(row.my_color.as_str(), "white") {
        Color::White
    } else {
        Color::Black
    };
    let o = match &row.result {
        Some(r) => outcome_for(Some(r.as_str()), color),
        None => outcome_for(None, color),
    };
    let outcome = match o {
        Some(o) => Some(o.as_str().to_owned()),
        None => None,
    };
    GameHistoryItem {
        game_id: row.id,
        my_color: row.my_color,
        opponent_username: row.opponent_username,
        result: row.result,
        outcome,
        end_reason: row.end_reason,
        move_count: row.move_count,
        finished_at: row.finished_at,
    }
}

/// Builds the history list from the rows read, in their order.
pub fn history_items(rows: Vec<HistoryRow>) -> (items: Vec<GameHistoryItem>)
    ensures
        items@.len() == rows@.len(),
        forall|i: int|
            0 <= i < rows@.len() ==> {
                let row = #[trigger] rows@[i];
                let item = items@[i];
                &&& item.game_id == row.id
                &&& item.my_color == row.my_color
                &&& item.result == row.result
                &&& item.move_count == row.move_count
                &&& item.opponent_username == row.opponent_username
                &&& item.end_reason == row.end_reason
                &&& item.finished_at == row.finished_at
                &&& opt_string(item.outcome) == match spec_outcome_for(
                    opt_string(row.result),
                    row_color(row.my_color@),
                ) {
                    Some(o) => Some(outcome_text(o)),
                    None => None,
                }
            },
{
    let ghost all_rows = rows@;
    let mut rows = rows;
    let mut items: Vec<GameHistoryItem> = Vec::new();
    let n = rows.len();
    while rows.len() > 0
        invariant
            n == all_rows.len(),
            rows@.len() + items@.len() == n,
            rows@ =~= all_rows.subrange(items@.len() as int, n as int),
            forall|i: int|
                0 <= i < items@.len() ==> {
                    let row = #[trigger] all_rows[i];
                    let item = items@[i];
                    &&& item.game_id == row.id
                    &&& item.my_color == row.my_color
                    &&& item.result == row.result
                    &&& item.move_count == row.move_count
                    &&& item.opponent_username == row.opponent_username
                    &&& item.end_reason == row.end_reason
                    &&& item.finished_at == row.finished_at
                    &&& opt_string(item.outcome) == match spec_outcome_for(
                        opt_string(row.result),
                        row_color(row.my_color@),
                    ) {
                        Some(o) => Some(outcome_text(o)),
                        None => None,
                    }
                },
        decreases rows@.len(),
    {
        let k = items.len();
        let row = rows.remove(0);
        assert(row == all_rows[k as int]);
        items.push(history_item(row));
    }
    items
}

} // verus!
