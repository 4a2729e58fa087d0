use chess_server::abandon::{
    abandonment_of, disconnect_event, forfeit_outcome, grace_remaining, reconnect_event,
    AbandonRow, ConnectionCounts, GraceRow,
};
use chess_server::domain::abandon::{decide, GRACE_SECONDS};
use chess_server::state::GameEvent;
use chess_server::time::Timestamp;

fn now() -> Timestamp {
    Timestamp { secs: 1_725_029_869, nanos: 250_000_000 }
}

fn ago(seconds: i64) -> Option<Timestamp> {
    let n = now();
    Some(Timestamp { secs: n.secs - seconds, nanos: n.nanos })
}

#[test]
fn both_connected_is_not_abandoned() {
    assert_eq!(decide(None, None, now()), None);
}

#[test]
fn within_grace_is_not_abandoned() {
    assert_eq!(decide(ago(59), None, now()), None);
}

#[test]
fn white_gone_past_grace_gives_black_the_win() {
    let d = decide(ago(61), None, now()).unwrap();
    assert_eq!(d.result, "black_win");
    assert_eq!(d.end_reason, "disconnection");
}

#[test]
fn black_gone_past_grace_gives_white_the_win() {
    let d = decide(None, ago(61), now()).unwrap();
    assert_eq!(d.result, "white_win");
}

#[test]
fn exactly_at_the_grace_boundary_counts_as_expired() {
    assert!(decide(ago(GRACE_SECONDS), None, now()).is_some());
}

#[test]
fn both_gone_is_a_draw() {
    let d = decide(ago(120), ago(90), now()).unwrap();
    assert_eq!(
        d.result, "draw",
        "その場にいない側を勝者にすると、先に落ちたほうが負けるレースになる"
    );
    assert_eq!(d.end_reason, "abandonment");
}

#[test]
fn one_expired_one_within_grace_is_decided_by_the_expired_one() {
    let d = decide(ago(5), ago(120), now()).unwrap();
    assert_eq!(d.result, "white_win");
}

#[test]
fn one_nanosecond_short_of_the_grace_period_is_not_expired() {
    let n = now();
    let at = Timestamp { secs: n.secs - GRACE_SECONDS, nanos: n.nanos + 1 };
    assert_eq!(decide(Some(at), None, n), None);
}

#[test]
fn unjoined_game_is_never_abandoned() {
    let row = AbandonRow {
        white_disconnected_at: ago(300),
        black_disconnected_at: None,
        black_user_id: None,
    };
    assert_eq!(abandonment_of(Some(&row), now()), None);
}

#[test]
fn game_not_in_progress_is_never_abandoned() {
    assert_eq!(abandonment_of(None, now()), None);
}

#[test]
fn joined_game_past_grace_is_abandoned() {
    let row = AbandonRow {
        white_disconnected_at: ago(61),
        black_disconnected_at: None,
        black_user_id: Some(2),
    };
    let a = abandonment_of(Some(&row), now()).unwrap();
    assert_eq!((a.result, a.end_reason), ("black_win", "disconnection"));
}

#[test]
fn logout_by_white_gives_black_the_win() {
    assert_eq!(forfeit_outcome(1, 1, Some(2)), (Some("black_win"), "logout"));
}

#[test]
fn logout_by_black_gives_white_the_win() {
    assert_eq!(forfeit_outcome(2, 1, Some(2)), (Some("white_win"), "logout"));
}

#[test]
fn logout_without_opponent_cancels() {
    assert_eq!(forfeit_outcome(1, 1, None), (None, "cancelled"));
}

fn grace_row(black_at: Option<Timestamp>) -> GraceRow {
    GraceRow {
        white_user_id: 1,
        black_user_id: Some(2),
        white_disconnected_at: None,
        black_disconnected_at: black_at,
    }
}

#[test]
fn opponent_countdown_shows_the_seconds_left() {
    let row = grace_row(ago(20));
    assert_eq!(grace_remaining(Some(&row), 1, now()), Some((2, 40)));
    // Seen from the absent player, the opponent is connected.
    assert_eq!(grace_remaining(Some(&row), 2, now()), None);
}

#[test]
fn countdown_drops_fractions_of_a_second() {
    let n = now();
    let at = Timestamp { secs: n.secs - 20, nanos: n.nanos + 500_000_000 };
    // 19.5 seconds elapsed counts as 19.
    assert_eq!(grace_remaining(Some(&grace_row(Some(at))), 1, n), Some((2, 41)));
}

#[test]
fn expired_countdown_is_not_shown() {
    assert_eq!(grace_remaining(Some(&grace_row(ago(60))), 1, now()), None);
    assert_eq!(grace_remaining(Some(&grace_row(ago(59))), 1, now()), Some((2, 1)));
}

#[test]
fn stranger_sees_no_countdown() {
    assert_eq!(grace_remaining(Some(&grace_row(ago(10))), 3, now()), None);
}

#[test]
fn connection_counting_follows_tabs() {
    let mut c = ConnectionCounts::new();
    assert!(c.connect(10, 1));
    assert!(!c.connect(10, 1));
    assert!(c.connect(10, 2));
    assert!(c.connect(11, 1));
    assert!(!c.disconnect(10, 1), "タブを1枚閉じただけで切断扱いになった");
    assert!(c.disconnect(10, 1));
    assert!(!c.disconnect(10, 1));
    assert!(c.connect(10, 1));
    assert!(c.disconnect(10, 2));
    assert!(c.disconnect(11, 1));
}

#[test]
fn reconnect_is_announced_only_after_a_disconnection() {
    assert!(matches!(
        reconnect_event(7, true),
        Some(GameEvent::PlayerReconnected { user_id: 7 })
    ));
    assert!(reconnect_event(7, false).is_none());
}

#[test]
fn disconnect_announces_the_full_grace_period() {
    assert!(matches!(
        disconnect_event(7),
        GameEvent::PlayerDisconnected { user_id: 7, remaining_seconds: 60 }
    ));
}
