//! Properties of the library as a whole: what holds across calls and for
//! every input, stated over the specifications the functions' contracts use.
use vstd::prelude::*;
use crate::abandon::{after_connect, after_disconnect, counts_valid, spec_abandonment_of, spec_forfeit, spec_grace_remaining, AbandonRow, ConnectionKey, GraceRow};
use crate::auth::{argon2_verifies, bad_login_text, bearer_decision, bearer_prefix, password_check_decision, phc_parses};
use crate::board::{fen_after_move, fen_is_checkmate, fen_is_insufficient_material, fen_is_stalemate, fen_side_to_move, uci_move_legal, uci_text_parses};
use crate::color::Color;
use crate::domain::abandon::{abandonment_verdict, grace_expired, GRACE_SECONDS};
use crate::domain::elo::{spec_score_from_result, Score};
use crate::domain::history::{spec_outcome_for, Outcome};
use crate::domain::outcome::{outcome_of_fen, win_result};
use crate::domain::password::{password_verdict, MAX_PASSWORD_CHARS, MIN_PASSWORD_CHARS};
use crate::domain::player::{spec_expected_player, spec_role_of, Role};
use crate::errors::{refusal, AppError, ErrorKind, Refusal};
use crate::game::{already_finished_text, fen_is_game_over, game_not_found_text, join_decision, move_decision, not_participant_text, resign_decision, stored_position};
use crate::models::{GameDetailRow, GameRow};
use crate::rating::{spec_rating_target, spec_ratings_for, RatingRow, RatingTarget, RatingUpdate, DEFAULT_RATING};
use crate::token::{jwt_payload_sub, uuid_hyphenated, uuid_parsed};
use crate::time::{nanos_between, whole_seconds_between, Timestamp};

verus! {

/// Opening a connection and closing it again leaves every count as it was.
pub proof fn law_connect_then_disconnect(m: Map<ConnectionKey, nat>, k: ConnectionKey)
    requires
        counts_valid(m),
    ensures
        after_disconnect(after_connect(m, k), k) == m,
{
    if m.contains_key(k) {
        assert(after_disconnect(after_connect(m, k), k) =~= m);
    } else {
        assert(after_disconnect(after_connect(m, k), k) =~= m);
    }
}

/// With two tabs open on a game, closing one is not the last disconnection:
/// the player still counts as present.
pub proof fn law_closing_one_of_two_tabs(m: Map<ConnectionKey, nat>, k: ConnectionKey)
    requires
        counts_valid(m),
    ensures
        ({
            let two = after_connect(after_connect(m, k), k);
            &&& two.contains_key(k) && two[k] >= 2
            &&& after_disconnect(two, k).contains_key(k)
        }),
{
}

/// Abandonment only grows with time: once the absence decides a game, it
/// still decides it at any later moment.
pub proof fn law_abandonment_persists(
    white_at: Option<Timestamp>,
    black_at: Option<Timestamp>,
    now: Timestamp,
    later: Timestamp,
)
    requires
        now.total_nanos() <= later.total_nanos(),
        abandonment_verdict(white_at, black_at, now) is Some,
    ensures
        abandonment_verdict(white_at, black_at, later) is Some,
{
}

/// The countdown a viewer is shown runs exactly while the opponent's absence
/// does not yet decide the game, and always shows between 1 and 60 seconds.
pub proof fn law_countdown_matches_the_verdict(t: Timestamp, now: Timestamp)
    requires
        t.wf(),
        now.wf(),
        t.total_nanos() <= now.total_nanos(),
    ensures
        (GRACE_SECONDS - whole_seconds_between(now, t) > 0) <==> !grace_expired(Some(t), now),
        GRACE_SECONDS - whole_seconds_between(now, t) <= GRACE_SECONDS,
{
    let d = nanos_between(now, t);
    assert(d >= 0);
    assert(whole_seconds_between(now, t) == d / 1_000_000_000);
    assert((d / 1_000_000_000 < 60) <==> (d < 60 * 1_000_000_000)) by (nonlinear_arith)
        requires
            d >= 0,
    ;
    assert(d / 1_000_000_000 >= 0) by (nonlinear_arith)
        requires
            d >= 0,
    ;
}

/// A move that ends the game always has a real end reason: checkmate,
/// stalemate or insufficient material, never the fallback.
pub proof fn law_game_over_has_an_end_reason(fen: Seq<char>)
    requires
        fen_is_game_over(fen),
    ensures
        outcome_of_fen(fen).1 != "other"@,
{
    reveal_strlit("other");
    reveal_strlit("checkmate");
    reveal_strlit("stalemate");
    reveal_strlit("insufficient_material");
    assert("other"@.len() == 5);
    if fen_is_checkmate(fen) {
        assert("checkmate"@.len() == 9);
    } else if crate::board::fen_is_stalemate(fen) {
        assert("stalemate"@.len() == 9);
    } else {
        assert("insufficient_material"@.len() == 21);
    }
}

/// Checkmate is won by the side that delivered it, the one not to move.
pub proof fn law_checkmate_winner(fen: Seq<char>)
    requires
        fen_is_checkmate(fen),
    ensures
        outcome_of_fen(fen).0 == win_result(fen_side_to_move(fen).opponent()),
        outcome_of_fen(fen).0 != win_result(fen_side_to_move(fen)),
{
    reveal_strlit("white_win");
    reveal_strlit("black_win");
    assert("white_win"@[0] == 'w');
    assert("black_win"@[0] == 'b');
}

/// Whoever resigns loses: the result names the other side, never the
/// resigner.
pub proof fn law_resigner_loses(c: Color)
    ensures
        win_result(c.opponent()) != win_result(c),
{
    reveal_strlit("white_win");
    reveal_strlit("black_win");
    assert("white_win"@[0] == 'w');
    assert("black_win"@[0] == 'b');
}

/// A password stored at registration always logs the same password in.
pub proof fn law_registered_password_logs_in(password: Seq<char>, stored: Seq<char>)
    requires
        phc_parses(stored),
        argon2_verifies(password, stored),
    ensures
        password_check_decision(password, stored) == Ok::<(), crate::errors::Refusal>(()),
{
}

/// Every accepted password has between 12 and 128 characters.
pub proof fn law_accepted_password_length(password: Seq<char>, username: Seq<char>)
    requires
        password_verdict(password, username) is Ok,
    ensures
        MIN_PASSWORD_CHARS <= password.len() <= MAX_PASSWORD_CHARS,
{
}

/// A game's ratings move at most once: once a change is recorded, applying
/// again does nothing.
pub proof fn law_rating_applied_once(row: RatingRow)
    requires
        row.white_rating_delta is Some,
    ensures
        spec_rating_target(Some(&row)) is None,
{
}

/// A game nobody joined never moves ratings, and logging out of one cancels
/// it without a result.
pub proof fn law_unjoined_game_moves_no_rating(row: RatingRow, user_id: u128)
    requires
        row.black_user_id is None,
    ensures
        spec_rating_target(Some(&row)) is None,
        spec_forfeit(user_id, row.white_user_id, None).0 is None,
{
}

/// Applying a game's rating changes keeps the sum of the two ratings.
pub proof fn law_ratings_sum_preserved(white_rating: int, black_rating: int, u: RatingUpdate)
    requires
        u.white_delta + u.black_delta == 0,
    ensures
        (white_rating + u.white_delta) + (black_rating + u.black_delta) == white_rating
            + black_rating,
{
}

/// The history and the ratings agree on who won: a stored result counts as
/// a win for white in the history exactly when it scores white a win, a
/// loss exactly when it scores white a loss, and likewise for black.
pub proof fn law_history_agrees_with_scores(result: Seq<char>)
    ensures
        (spec_outcome_for(Some(result), Color::White) == Some(Outcome::Win)) <==> (
        spec_score_from_result(result) == Some(Score::Win)),
        (spec_outcome_for(Some(result), Color::White) == Some(Outcome::Loss)) <==> (
        spec_score_from_result(result) == Some(Score::Loss)),
        (spec_outcome_for(Some(result), Color::Black) == Some(Outcome::Win)) <==> (
        spec_score_from_result(result) == Some(Score::Loss)),
        (spec_outcome_for(Some(result), Color::Black) == Some(Outcome::Loss)) <==> (
        spec_score_from_result(result) == Some(Score::Win)),
        (spec_outcome_for(Some(result), Color::White) == Some(Outcome::Draw)) <==> (
        spec_score_from_result(result) == Some(Score::Draw)),
{
    reveal_strlit("white_win");
    reveal_strlit("black_win");
    reveal_strlit("draw");
    assert("white_win"@[0] == 'w');
    assert("black_win"@[0] == 'b');
    assert("draw"@[0] == 'd');
}

/// A token sent as `Bearer <token>` is read back unchanged.
pub proof fn law_bearer_round_trip(token: Seq<char>)
    ensures
        bearer_decision(Some(bearer_prefix() + token)) == Ok::<Seq<char>, Refusal>(token),
{
    reveal_strlit("Bearer ");
    assert((bearer_prefix() + token).subrange(0, 7) =~= bearer_prefix());
    assert((bearer_prefix() + token).subrange(7, (bearer_prefix() + token).len() as int) =~= token);
}

/// An internal error never shows its own text: whatever went wrong, the
/// client sees the same sentence.
pub proof fn law_internal_errors_hide_their_text(a: String, b: String)
    ensures
        AppError::Internal(a).spec_public_detail() == AppError::Internal(b).spec_public_detail(),
{
}

/// Only the player to move, with a legal move, gets a move accepted.
pub proof fn law_only_the_player_to_move_moves(
    user_id: u128,
    game: GameDetailRow,
    position: Seq<char>,
    uci: Seq<char>,
)
    requires
        move_decision(user_id, Some(&game), Some(position), uci) is Ok,
    ensures
        spec_role_of(user_id, game.white_user_id, game.black_user_id) != Role::NotParticipant,
        game.status@ == "in_progress"@,
        spec_expected_player(fen_side_to_move(position), game.white_user_id, game.black_user_id)
            == Some(user_id),
        uci_move_legal(position, uci),
{
}

/// A finished game never takes a move. Once its position has left the
/// server's cache, as it does on resignation, the game is not found for
/// moving; while the position is held, a move the board would allow is
/// refused because the game is over, and any other move is refused by the
/// board itself (after checkmate, as an illegal move).
pub proof fn law_finished_game_takes_no_move(
    user_id: u128,
    game: GameDetailRow,
    cached: Option<Seq<char>>,
    uci: Seq<char>,
)
    requires
        game.status@ == "finished"@,
        spec_role_of(user_id, game.white_user_id, game.black_user_id) != Role::NotParticipant,
    ensures
        move_decision(user_id, Some(&game), cached, uci) is Err,
        cached is None ==> move_decision(user_id, Some(&game), cached, uci) == Err::<Seq<char>, _>(
            refusal(ErrorKind::NotFound, game_not_found_text()),
        ),
        cached matches Some(b) ==> (uci_move_legal(b, uci) && spec_expected_player(
            fen_side_to_move(b),
            game.white_user_id,
            game.black_user_id,
        ) == Some(user_id) && uci_text_parses(uci)) ==> move_decision(
            user_id,
            Some(&game),
            cached,
            uci,
        ) == Err::<Seq<char>, _>(refusal(ErrorKind::Conflict, already_finished_text())),
        cached matches Some(b) ==> (!uci_move_legal(b, uci) && spec_expected_player(
            fen_side_to_move(b),
            game.white_user_id,
            game.black_user_id,
        ) == Some(user_id) && uci_text_parses(uci)) ==> move_decision(
            user_id,
            Some(&game),
            cached,
            uci,
        ) == Err::<Seq<char>, _>(
            refusal(ErrorKind::BadRequest, "不正な指し手です: "@ + "illegal uci"@),
        ),
{
}

/// A failed login does not tell whether the user exists: a wrong password
/// against a readable stored hash is refused with exactly the refusal that
/// `check_login` gives for an unknown user.
pub proof fn law_login_refusal_does_not_tell_which(password: Seq<char>, stored: Seq<char>)
    requires
        phc_parses(stored),
        !argon2_verifies(password, stored),
    ensures
        password_check_decision(password, stored) == Err::<(), _>(
            refusal(ErrorKind::Unauthorized, bad_login_text()),
        ),
{
}

/// A game that is no longer in progress is never ended by absence again:
/// once it is finished its row is no longer read as in progress, and no
/// abandonment is decided for it, at any time.
pub proof fn law_finished_game_is_not_abandoned_again(now: Timestamp)
    ensures
        spec_abandonment_of(None::<&AbandonRow>, now) is None,
{
}

/// A token names the user it was issued for: when `issue_token` made `token`
/// for `user` (its payload's subject is the user's id text, which reads back
/// as that id) and `verify_token` accepts it with `answer` (the id read from
/// the payload's subject), the answer is that user.
pub proof fn law_issued_token_names_its_user(user: u128, token: Seq<char>, answer: u128)
    requires
        jwt_payload_sub(token) == Some(uuid_hyphenated(user)),
        uuid_parsed(uuid_hyphenated(user)) == Some(user),
        jwt_payload_sub(token) matches Some(s) && uuid_parsed(s) == Some(answer),
    ensures
        answer == user,
{
}

/// Every legal move by the player to move in a game in progress is
/// accepted, whatever its text's length (a promotion such as `e7e8q` as much
/// as `e2e4`), and leads to the position that move reaches. The position
/// moved from is the cached one, else the stored FEN set up afresh.
pub proof fn law_legal_moves_are_accepted(
    user_id: u128,
    game: GameDetailRow,
    cached: Option<Seq<char>>,
    uci: Seq<char>,
    base: Seq<char>,
)
    requires
        spec_role_of(user_id, game.white_user_id, game.black_user_id) != Role::NotParticipant,
        game.status@ == "in_progress"@,
        uci_text_parses(uci),
        match cached {
            Some(c) => c == base,
            None => stored_position(game.fen@) == Some(base),
        },
        spec_expected_player(fen_side_to_move(base), game.white_user_id, game.black_user_id) == Some(user_id),
        uci_move_legal(base, uci),
    ensures
        move_decision(user_id, Some(&game), cached, uci) == Ok::<Seq<char>, Refusal>(fen_after_move(base, uci)),
{
    assert(game.status@ != "finished"@) by {
        reveal_strlit("finished");
        reveal_strlit("in_progress");
        assert(game.status@[0] != "finished"@[0]);
    }
}

/// A stalemate is a draw whichever side is stalemated, and so is a position
/// with too little material to mate; neither is ever a win.
pub proof fn law_stalemate_and_bare_material_are_draws(fen: Seq<char>)
    requires
        !fen_is_checkmate(fen),
        fen_is_stalemate(fen) || fen_is_insufficient_material(fen),
    ensures
        outcome_of_fen(fen).0 == "draw"@,
        fen_is_stalemate(fen) ==> outcome_of_fen(fen).1 == "stalemate"@,
        !fen_is_stalemate(fen) ==> outcome_of_fen(fen).1 == "insufficient_material"@,
        outcome_of_fen(fen).0 != "white_win"@,
        outcome_of_fen(fen).0 != "black_win"@,
{
    reveal_strlit("draw");
    reveal_strlit("white_win");
    reveal_strlit("black_win");
    assert("draw"@[0] != "white_win"@[0]);
    assert("draw"@[0] != "black_win"@[0]);
}

/// The countdown is the same for both seats: whichever player views the game,
/// while the other one has been away for fewer than the grace seconds the
/// viewer is told that opponent's id and the seconds left (the grace period
/// less the whole seconds since the opponent left).
pub proof fn law_countdown_for_either_seat(row: GraceRow, viewer: u128, t: Timestamp, now: Timestamp)
    requires
        row.black_user_id is Some,
        row.black_user_id != Some(row.white_user_id),
        viewer == row.white_user_id || row.black_user_id == Some(viewer),
        ({
            let away = if viewer == row.white_user_id { row.black_disconnected_at } else { row.white_disconnected_at };
            away == Some(t)
        }),
        GRACE_SECONDS - whole_seconds_between(now, t) > 0,
    ensures
        spec_grace_remaining(Some(&row), viewer, now) == Some((
            if viewer == row.white_user_id { row.black_user_id.unwrap() } else { row.white_user_id },
            GRACE_SECONDS - whole_seconds_between(now, t),
        )),
{
}

/// A finished game between two players moves ratings with white's score as
/// its result says: a white win scores white a win, a black win a loss and a
/// draw a draw.
pub proof fn law_rating_score_follows_the_result(row: RatingRow, black: u128)
    requires
        row.white_rating_delta is None,
        row.black_user_id == Some(black),
        row.result is Some,
    ensures
        row.result.unwrap()@ == "white_win"@ ==> spec_rating_target(Some(&row)) == Some(
            RatingTarget { white_user_id: row.white_user_id, black_user_id: black, score: Score::Win },
        ),
        row.result.unwrap()@ == "black_win"@ ==> spec_rating_target(Some(&row)) == Some(
            RatingTarget { white_user_id: row.white_user_id, black_user_id: black, score: Score::Loss },
        ),
        row.result.unwrap()@ == "draw"@ ==> spec_rating_target(Some(&row)) == Some(
            RatingTarget { white_user_id: row.white_user_id, black_user_id: black, score: Score::Draw },
        ),
{
    reveal_strlit("draw");
    reveal_strlit("white_win");
    reveal_strlit("black_win");
    assert("draw"@[0] != "white_win"@[0]);
    assert("draw"@[0] != "black_win"@[0]);
    assert("white_win"@[0] != "black_win"@[0]);
}

/// Anyone but the creator may take the free black seat of a game; the only
/// one refused as joining their own game is its creator.
pub proof fn law_anyone_else_may_join(user_id: u128, game: GameRow)
    ensures
        game.white_user_id != user_id && game.black_user_id is None ==> join_decision(user_id, Some(&game))
            is Ok,
        join_decision(user_id, Some(&game)) == Err::<(), _>(
            refusal(ErrorKind::BadRequest, "自分が作成した対局には参加できません"@),
        ) <==> game.white_user_id == user_id,
{
    reveal_strlit("自分が作成した対局には参加できません");
    reveal_strlit("この対局には既に対戦相手がいます");
    assert("自分が作成した対局には参加できません"@[0] != "この対局には既に対戦相手がいます"@[0]);
}

/// Resigning a game in progress ends it as a win for the other seat: white
/// resigning gives `black_win`, black resigning gives `white_win`.
pub proof fn law_resignation_names_the_other_seat(user_id: u128, game: GameRow)
    requires
        game.status@ == "in_progress"@,
    ensures
        user_id == game.white_user_id ==> resign_decision(user_id, Some(&game)) == Ok::<Seq<char>, Refusal>(
            "black_win"@,
        ),
        user_id != game.white_user_id && game.black_user_id == Some(user_id) ==> resign_decision(
            user_id,
            Some(&game),
        ) == Ok::<Seq<char>, Refusal>("white_win"@),
        user_id != game.white_user_id && game.black_user_id != Some(user_id) ==> resign_decision(
            user_id,
            Some(&game),
        ) == Err::<Seq<char>, Refusal>(refusal(ErrorKind::Forbidden, not_participant_text())),
{
}

/// Logging out of a game with two players loses it for the one who left and
/// wins it for the other, with the end reason `logout`.
pub proof fn law_logout_loses_for_the_leaver(user_id: u128, white: u128, black: u128)
    requires
        white != black,
        user_id == white || user_id == black,
    ensures
        spec_forfeit(user_id, white, Some(black)) == (
            Some(if user_id == white { "black_win"@ } else { "white_win"@ }),
            "logout"@,
        ),
{
}

/// Absence decides a game only once the grace period has run out, and then
/// against the absent side: one player gone too long loses, both gone too
/// long is a draw, and otherwise the game goes on.
pub proof fn law_the_absent_player_loses(white_at: Option<Timestamp>, black_at: Option<Timestamp>, now: Timestamp)
    ensures
        ({
            let w = match white_at {
                Some(t) => nanos_between(now, t) >= GRACE_SECONDS * 1_000_000_000,
                None => false,
            };
            let b = match black_at {
                Some(t) => nanos_between(now, t) >= GRACE_SECONDS * 1_000_000_000,
                None => false,
            };
            let v = abandonment_verdict(white_at, black_at, now);
            &&& (!w && !b) ==> v is None
            &&& (w && !b) ==> (v matches Some(a) && a.result@ == "black_win"@ && a.end_reason@ == "disconnection"@)
            &&& (!w && b) ==> (v matches Some(a) && a.result@ == "white_win"@ && a.end_reason@ == "disconnection"@)
            &&& (w && b) ==> (v matches Some(a) && a.result@ == "draw"@ && a.end_reason@ == "abandonment"@)
        }),
{
}

/// The player to move is the one sitting on the side to move: white's player
/// when white is to move, black's (if anyone took the seat) when black is.
pub proof fn law_the_side_to_move_plays(white: u128, black: Option<u128>)
    ensures
        spec_expected_player(Color::White, white, black) == Some(white),
        spec_expected_player(Color::Black, white, black) == black,
{
}

/// Reading the two players' ratings from rows with distinct ids: a player
/// with a row has that row's rating, a player without one has the default.
pub proof fn law_ratings_are_read_from_the_rows(rows: Seq<(u128, i32)>, white: u128, black: u128)
    requires
        white != black,
        forall|i: int, j: int| 0 <= i < j < rows.len() ==> #[trigger] rows[i].0 != #[trigger] rows[j].0,
    ensures
        forall|i: int| 0 <= i < rows.len() && #[trigger] rows[i].0 == white ==> spec_ratings_for(rows, white, black).0 == rows[i].1,
        forall|i: int| 0 <= i < rows.len() && #[trigger] rows[i].0 == black ==> spec_ratings_for(rows, white, black).1 == rows[i].1,
        (forall|i: int| 0 <= i < rows.len() ==> #[trigger] rows[i].0 != white) ==> spec_ratings_for(rows, white, black).0 == DEFAULT_RATING,
        (forall|i: int| 0 <= i < rows.len() ==> #[trigger] rows[i].0 != black) ==> spec_ratings_for(rows, white, black).1 == DEFAULT_RATING,
    decreases rows.len(),
{
    if rows.len() > 0 {
        let init = rows.drop_last();
        assert forall|i: int, j: int| 0 <= i < j < init.len() implies #[trigger] init[i].0 != #[trigger] init[j].0 by {
            assert(init[i] == rows[i] && init[j] == rows[j]);
        }
        law_ratings_are_read_from_the_rows(init, white, black);
        let n = rows.len() - 1;
        assert forall|i: int| 0 <= i < rows.len() && #[trigger] rows[i].0 == white implies spec_ratings_for(rows, white, black).0 == rows[i].1 by {
            if i < n {
                assert(init[i] == rows[i]);
                assert(rows[i].0 != rows[n].0);
            }
        }
        assert forall|i: int| 0 <= i < rows.len() && #[trigger] rows[i].0 == black implies spec_ratings_for(rows, white, black).1 == rows[i].1 by {
            if i < n {
                assert(init[i] == rows[i]);
                assert(rows[i].0 != rows[n].0);
            }
        }
        if forall|i: int| 0 <= i < rows.len() ==> #[trigger] rows[i].0 != white {
            assert forall|i: int| 0 <= i < init.len() implies #[trigger] init[i].0 != white by {
                assert(init[i] == rows[i]);
            }
            assert(rows[n].0 != white);
        }
        if forall|i: int| 0 <= i < rows.len() ==> #[trigger] rows[i].0 != black {
            assert forall|i: int| 0 <= i < init.len() implies #[trigger] init[i].0 != black by {
                assert(init[i] == rows[i]);
            }
            assert(rows[n].0 != black);
        }
    }
}

} // verus!
