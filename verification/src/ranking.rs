//! The rating table.
use vstd::prelude::*;
use crate::errors::{refusal, refused, AppError, ErrorKind, Refusal};

verus! {

/// Size of the rating table.
pub struct RankingQuery {
    /// How many entries to return (50 when absent, at most 100).
    pub limit: Option<i64>,
}

/// What the table size owes: the limit, or the refusal of one outside
/// 1..=100.
pub open spec fn ranking_limit_decision(limit: Option<i64>) -> Result<i64, Refusal> {
    let l = match limit {
        Some(l) => l,
        None => 50,
    };
    if 1 <= l <= 100 {
        Ok(l)
    } else {
        Err(refusal(ErrorKind::BadRequest, "limit は 1〜100 の範囲で指定してください"@))
    }
}

impl RankingQuery {
    /// The number of entries to query.
    pub fn limit(&self) -> (r: Result<i64, AppError>)
        ensures
            match ranking_limit_decision(self.limit) {
                Ok(l) => r == Ok::<i64, AppError>(l),
                Err(d) => refused(r, d),
            },
    {
        let limit = match self.limit {
            Some(l) => l,
            None => 50,
        };
        if 1 <= limit && limit <= 100 {
            Ok(limit)
        } else {
            Err(AppError::BadRequest("limit は 1〜100 の範囲で指定してください".to_owned()))
        }
    }
}

} // verus!
