use unai::types::{Platform, SessionId};
use unai::typing::{TypingStep, TypingTracker, TYPING_REFRESH_MS};

fn telegram(chat: i64) -> SessionId {
    SessionId(Platform::Telegram, chat)
}

#[test]
fn a_new_tracker_is_idle() {
    let mut t = TypingTracker::new();
    assert_eq!(t.next_deadline(), None);
    assert_eq!(t.on_timer(1_000), TypingStep::Idle);
    assert_eq!(t.pending_for(5), 0);
}

#[test]
fn a_request_shows_the_indicator_at_once_and_refreshes_it() {
    let mut t = TypingTracker::new();
    t.on_request(5, 100);
    assert_eq!(t.pending_for(5), 1);
    assert_eq!(t.next_deadline(), Some(100));
    assert_eq!(t.on_timer(99), TypingStep::Idle);
    assert_eq!(t.on_timer(100), TypingStep::Typing(5));
    assert_eq!(t.next_deadline(), Some(100 + TYPING_REFRESH_MS));
    assert_eq!(t.on_timer(100), TypingStep::Idle);
    assert_eq!(t.on_timer(4_100), TypingStep::Typing(5));
    assert_eq!(t.next_deadline(), Some(8_100));
}

#[test]
fn the_indicator_stops_once_every_answer_is_sent() {
    let mut t = TypingTracker::new();
    t.on_request(5, 0);
    t.on_request(5, 10);
    assert_eq!(t.pending_for(5), 2);
    assert_eq!(t.on_timer(10), TypingStep::Typing(5));
    assert_eq!(t.on_answer(telegram(5)), Some(5));
    assert_eq!(t.pending_for(5), 1);
    assert_eq!(t.on_timer(4_010), TypingStep::Typing(5));
    assert_eq!(t.on_answer(telegram(5)), Some(5));
    assert_eq!(t.pending_for(5), 0);
    assert_eq!(t.on_timer(8_010), TypingStep::Dropped);
    assert_eq!(t.next_deadline(), None);
    assert_eq!(t.on_timer(9_000), TypingStep::Idle);
}

#[test]
fn an_answer_undoes_a_request() {
    let mut t = TypingTracker::new();
    t.on_request(1, 0);
    t.on_request(2, 0);
    t.on_request(1, 0);
    let before = (t.pending_for(1), t.pending_for(2));
    t.on_request(2, 5);
    assert_eq!(t.on_answer(telegram(2)), Some(2));
    assert_eq!((t.pending_for(1), t.pending_for(2)), before);
}

#[test]
fn answers_for_other_platforms_change_nothing() {
    let mut t = TypingTracker::new();
    t.on_request(3, 0);
    assert_eq!(t.on_answer(SessionId(Platform::Local, 3)), None);
    assert_eq!(t.pending_for(3), 1);
    assert_eq!(t.next_deadline(), Some(0));
}

#[test]
fn an_answer_for_a_chat_without_requests_is_still_delivered() {
    let mut t = TypingTracker::new();
    assert_eq!(t.on_answer(telegram(9)), Some(9));
    assert_eq!(t.pending_for(9), 0);
    assert_eq!(t.next_deadline(), None);
}

#[test]
fn a_new_request_goes_before_scheduled_refreshes() {
    let mut t = TypingTracker::new();
    t.on_request(1, 0);
    assert_eq!(t.on_timer(0), TypingStep::Typing(1));
    t.on_request(2, 50);
    assert_eq!(t.next_deadline(), Some(50));
    assert_eq!(t.on_timer(60), TypingStep::Typing(2));
    assert_eq!(t.next_deadline(), Some(4_000));
}

#[test]
fn a_run_shows_the_indicator_only_while_an_answer_is_owed() {
    let mut t = TypingTracker::new();
    let mut owed = 0;
    let mut shown = Vec::new();
    // Two requests, the indicator refreshed, two answers, then the schedule drains.
    t.on_request(7, 0);
    owed += 1;
    t.on_request(7, 1);
    owed += 1;
    for now in [0u64, 4_000, 8_000] {
        if let TypingStep::Typing(c) = t.on_timer(now) {
            assert!(owed >= 1);
            shown.push((c, now));
            assert_eq!(t.pending_for(c), owed);
        }
    }
    assert_eq!(shown, vec![(7, 0), (7, 4_000), (7, 8_000)]);
    assert_eq!(t.next_deadline(), Some(12_000));
    t.on_answer(telegram(7));
    owed -= 1;
    assert_eq!(t.pending_for(7), owed);
    assert_eq!(t.on_timer(12_000), TypingStep::Typing(7));
    t.on_answer(telegram(7));
    assert_eq!(t.pending_for(7), 0);
    assert_eq!(t.on_timer(16_000), TypingStep::Dropped);
    assert_eq!(t.on_timer(20_000), TypingStep::Idle);
}
