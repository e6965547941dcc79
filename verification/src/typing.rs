//! The "typing…" indicator of the Telegram bot.
//!
//! While the assistant works on an answer for a chat, the bot shows Telegram's
//! typing indicator there and refreshes it on a fixed period, until every
//! pending answer for that chat has been sent. The tracker below holds the
//! decisions; the caller supplies the clock (milliseconds on a monotonic clock)
//! and performs the actions it returns.
use std::collections::HashMap;
use std::collections::VecDeque;
use vstd::prelude::*;

use crate::types::{Platform, SessionId};

verus! {

/// How long one typing indicator lasts before it is refreshed, in milliseconds.
pub const TYPING_REFRESH_MS: u64 = 4000;

/// What the timer asks the caller to do next.
#[derive(Debug, PartialEq, Eq, Structural)]
pub enum TypingStep {
    /// No deadline has passed: wait for the next one.
    Idle,
    /// A deadline passed for a chat that no longer waits for an answer: it was
    /// dropped from the schedule; look at the next one.
    Dropped,
    /// Show the typing indicator in this chat; it was rescheduled one refresh
    /// period later.
    Typing(i64),
}

/// Pending answers per chat, and the schedule of typing indicators.
pub struct TypingTracker {
    counts: HashMap<i64, usize>,
    queue: VecDeque<(i64, u64)>,
}

/// The pending counts after one more answer was requested for `chat`.
pub open spec fn requested(pending: Map<i64, usize>, chat: i64) -> Map<i64, usize> {
    if pending.contains_key(chat) {
        pending.insert(chat, (pending[chat] + 1) as usize)
    } else {
        pending.insert(chat, 1)
    }
}

/// The pending counts after one answer was delivered to `chat`: the count drops
/// by one and the chat leaves the map when it reaches zero.
pub open spec fn answered(pending: Map<i64, usize>, chat: i64) -> Map<i64, usize> {
    if pending.contains_key(chat) {
        if pending[chat] <= 1 {
            pending.remove(chat)
        } else {
            pending.insert(chat, (pending[chat] - 1) as usize)
        }
    } else {
        pending
    }
}

/// The schedule after an answer was requested for `chat` at time `now`: a chat
/// that waited for nothing gets an immediate indicator at the front.
pub open spec fn scheduled_on_request(
    pending: Map<i64, usize>,
    schedule: Seq<(i64, u64)>,
    chat: i64,
    now: u64,
) -> Seq<(i64, u64)> {
    if pending.contains_key(chat) {
        schedule
    } else {
        seq![(chat, now)] + schedule
    }
}

/// Whether the first scheduled indicator is due at time `now`.
pub open spec fn front_due(schedule: Seq<(i64, u64)>, now: u64) -> bool {
    schedule.len() > 0 && schedule[0].1 <= now
}

/// Some scheduled indicator is for `chat`.
pub open spec fn scheduled(schedule: Seq<(i64, u64)>, chat: i64) -> bool {
    exists|i: int| 0 <= i < schedule.len() && #[trigger] schedule[i].0 == chat
}

/// The pending counts and the schedule after an answer was requested for
/// `chat` at time `now`.
pub open spec fn request_step(
    pending: Map<i64, usize>,
    schedule: Seq<(i64, u64)>,
    pending_after: Map<i64, usize>,
    schedule_after: Seq<(i64, u64)>,
    chat: i64,
    now: u64,
) -> bool {
    &&& pending_after == requested(pending, chat)
    &&& schedule_after == scheduled_on_request(pending, schedule, chat, now)
}

/// The pending counts and the schedule after an answer was delivered to
/// `session`: only a Telegram session owes one answer less.
pub open spec fn answer_step(
    pending: Map<i64, usize>,
    schedule: Seq<(i64, u64)>,
    pending_after: Map<i64, usize>,
    schedule_after: Seq<(i64, u64)>,
    session: SessionId,
) -> bool {
    &&& schedule_after == schedule
    &&& pending_after == if session.0 == Platform::Telegram {
        answered(pending, session.1)
    } else {
        pending
    }
}

/// What the timer does at time `now`: nothing before the first deadline;
/// otherwise the first indicator leaves the front and, if its chat still
/// waits for an answer, is shown and rescheduled one refresh period after
/// `now`, else dropped.
pub open spec fn timer_step(
    pending: Map<i64, usize>,
    schedule: Seq<(i64, u64)>,
    pending_after: Map<i64, usize>,
    schedule_after: Seq<(i64, u64)>,
    now: u64,
    step: TypingStep,
) -> bool {
    &&& pending_after == pending
    &&& if !front_due(schedule, now) {
        step == TypingStep::Idle && schedule_after == schedule
    } else if pending.contains_key(schedule[0].0) {
        &&& step == TypingStep::Typing(schedule[0].0)
        &&& schedule_after == schedule.drop_first().push(
            (schedule[0].0, (now + TYPING_REFRESH_MS) as u64),
        )
    } else {
        step == TypingStep::Dropped && schedule_after == schedule.drop_first()
    }
}

/// Chats that wait for an answer keep an indicator when the schedule changes
/// by dropping at most its first entry, shifting the rest by `shift` places
/// and adding entries: every chat still waiting either had an entry that
/// survives, or has one of the added entries.
proof fn lemma_pending_stay_scheduled(
    pending: Map<i64, usize>,
    schedule: Seq<(i64, u64)>,
    pending_after: Map<i64, usize>,
    schedule_after: Seq<(i64, u64)>,
    dropped: int,
    shift: int,
)
    requires
        0 <= dropped <= 1,
        dropped <= schedule.len(),
        0 <= shift,
        forall|c: i64| #[trigger] pending.contains_key(c) ==> scheduled(schedule, c),
        forall|i: int|
            dropped <= i < schedule.len() ==> 0 <= i - dropped + shift < schedule_after.len()
                && schedule_after[i - dropped + shift] == #[trigger] schedule[i],
        forall|c: i64| #[trigger]
            pending_after.contains_key(c) ==> scheduled(schedule_after, c) || (pending.contains_key(
                c,
            ) && (dropped == 1 ==> schedule[0].0 != c)),
    ensures
        forall|c: i64| #[trigger] pending_after.contains_key(c) ==> scheduled(schedule_after, c),
{
    assert forall|c: i64| #[trigger] pending_after.contains_key(c) implies scheduled(
        schedule_after,
        c,
    ) by {
        if !scheduled(schedule_after, c) {
            assert(pending.contains_key(c));
            let i = choose|i: int| 0 <= i < schedule.len() && #[trigger] schedule[i].0 == c;
            assert(schedule_after[i - dropped + shift] == schedule[i]);
        }
    }
}

impl TypingTracker {
    /// The number of answers still owed to each chat.
    pub closed spec fn pending(&self) -> Map<i64, usize> {
        self.counts@
    }

    /// The scheduled indicators, in the order in which they are considered:
    /// the chat and the deadline.
    pub closed spec fn schedule(&self) -> Seq<(i64, u64)> {
        self.queue@
    }

    /// The tracker's invariant: every chat in the map waits for at least one
    /// answer, and every such chat has an indicator in the schedule.
    pub open spec fn wf(&self) -> bool {
        &&& forall|c: i64| #[trigger] self.pending().contains_key(c) ==> self.pending()[c] >= 1
        &&& forall|c: i64| #[trigger]
            self.pending().contains_key(c) ==> scheduled(self.schedule(), c)
    }

    /// A tracker with nothing pending and nothing scheduled.
    pub fn new() -> (res: Self)
        ensures
            res.wf(),
            res.pending() == Map::<i64, usize>::empty(),
            res.schedule() == Seq::<(i64, u64)>::empty(),
    {
        TypingTracker { counts: HashMap::new(), queue: VecDeque::new() }
    }

    /// The number of answers still owed to `chat`.
    pub fn pending_for(&self, chat: i64) -> (res: usize)
        ensures
            res == (if self.pending().contains_key(chat) { self.pending()[chat] } else { 0 }),
    {
        match self.counts.get(&chat) {
            Some(count) => *count,
            None => 0,
        }
    }

    /// The deadline of the first scheduled indicator, if any.
    pub fn next_deadline(&self) -> (res: Option<u64>)
        ensures
            res == (if self.schedule().len() > 0 {
                Some(self.schedule()[0].1)
            } else {
                None::<u64>
            }),
    {
        if self.queue.len() > 0 {
            Some(self.queue[0].1)
        } else {
            None
        }
    }

    /// An answer was requested for `chat` at time `now`: one more answer is
    /// owed, and a chat that waited for nothing gets an immediate indicator.
    pub fn on_request(&mut self, chat: i64, now: u64)
        requires
            old(self).wf(),
            old(self).pending().contains_key(chat) ==> old(self).pending()[chat] < usize::MAX,
        ensures
            final(self).wf(),
            request_step(
                old(self).pending(),
                old(self).schedule(),
                final(self).pending(),
                final(self).schedule(),
                chat,
                now,
            ),
    {
        match self.counts.get(&chat) {
            Some(count) => {
                let next = *count + 1;
                self.counts.insert(chat, next);
                proof {
                    lemma_pending_stay_scheduled(
                        old(self).pending(),
                        old(self).schedule(),
                        self.pending(),
                        self.schedule(),
                        0,
                        0,
                    );
                }
            },
            None => {
                self.counts.insert(chat, 1);
                self.queue.push_front((chat, now));
                proof {
                    assert(self.schedule()[0].0 == chat);
                    lemma_pending_stay_scheduled(
                        old(self).pending(),
                        old(self).schedule(),
                        self.pending(),
                        self.schedule(),
                        0,
                        1,
                    );
                }
            },
        }
    }

    /// An answer from the assistant is about to be delivered to `session`.
    /// Telegram sessions give the chat to send it to, and owe one answer less;
    /// any other platform is not the bot's to serve and changes nothing.
    pub fn on_answer(&mut self, session: SessionId) -> (res: Option<i64>)
        requires
            old(self).wf(),
        ensures
            final(self).wf(),
            answer_step(
                old(self).pending(),
                old(self).schedule(),
                final(self).pending(),
                final(self).schedule(),
                session,
            ),
            res == if session.0 == Platform::Telegram {
                Some(session.1)
            } else {
                None::<i64>
            },
    {
        match session.0 {
            Platform::Telegram => {},
            _ => {
                return None;
            },
        }
        let chat = session.1;
        match self.counts.remove(&chat) {
            Some(count) => {
                if count > 1 {
                    self.counts.insert(chat, count - 1);
                }
                assert(self.pending() =~= answered(old(self).pending(), chat));
            },
            None => {
                assert(self.pending() =~= old(self).pending());
            },
        }
        proof {
            lemma_pending_stay_scheduled(
                old(self).pending(),
                old(self).schedule(),
                self.pending(),
                self.schedule(),
                0,
                0,
            );
            assert forall|c: i64| #[trigger] self.pending().contains_key(c) implies self.pending()[c]
                >= 1 by {
                assert(old(self).pending().contains_key(c));
            }
        }
        Some(chat)
    }

    /// The timer fired at time `now`: looks at the first scheduled indicator.
    /// When it is due it leaves the front; if its chat still waits for an
    /// answer the indicator is shown and rescheduled one refresh period after
    /// `now`, otherwise it is dropped.
    pub fn on_timer(&mut self, now: u64) -> (res: TypingStep)
        requires
            old(self).wf(),
            now <= u64::MAX - TYPING_REFRESH_MS,
        ensures
            final(self).wf(),
            timer_step(
                old(self).pending(),
                old(self).schedule(),
                final(self).pending(),
                final(self).schedule(),
                now,
                res,
            ),
    {
        if self.queue.len() == 0 {
            return TypingStep::Idle;
        }
        let (chat, deadline) = self.queue[0];
        if deadline > now {
            return TypingStep::Idle;
        }
        assert(chat == old(self).schedule()[0].0);
        let _ = self.queue.pop_front();
        assert(self.queue@ =~= old(self).schedule().drop_first());
        assert(self.pending() == old(self).pending());
        if self.counts.contains_key(&chat) {
            self.queue.push_back((chat, now + TYPING_REFRESH_MS));
            proof {
                assert(self.schedule()[self.schedule().len() - 1].0 == chat);
                lemma_pending_stay_scheduled(
                    old(self).pending(),
                    old(self).schedule(),
                    self.pending(),
                    self.schedule(),
                    1,
                    0,
                );
            }
            TypingStep::Typing(chat)
        } else {
            proof {
                lemma_pending_stay_scheduled(
                    old(self).pending(),
                    old(self).schedule(),
                    self.pending(),
                    self.schedule(),
                    1,
                    0,
                );
            }
            TypingStep::Dropped
        }
    }
}

/// Delivering an answer undoes requesting it: a request followed by an answer
/// for the same chat leaves every chat's pending count as it was.
pub proof fn law_answer_undoes_request(pending: Map<i64, usize>, chat: i64)
    requires
        forall|c: i64| #[trigger] pending.contains_key(c) ==> pending[c] >= 1,
        pending.contains_key(chat) ==> pending[chat] < usize::MAX,
    ensures
        answered(requested(pending, chat), chat) == pending,
{
    if pending.contains_key(chat) {
        assert(answered(requested(pending, chat), chat) =~= pending);
    } else {
        assert(answered(requested(pending, chat), chat) =~= pending);
    }
}

/// Answers are counted per chat: requesting or delivering an answer for one
/// chat leaves the counts of every other chat as they were.
pub proof fn law_chats_are_counted_apart(pending: Map<i64, usize>, chat: i64, other: i64)
    requires
        other != chat,
    ensures
        requested(pending, chat).contains_key(other) == pending.contains_key(other),
        answered(pending, chat).contains_key(other) == pending.contains_key(other),
        pending.contains_key(other) ==> requested(pending, chat)[other] == pending[other]
            && answered(pending, chat)[other] == pending[other],
{
}

/// An event the typing tracker reacts to.
#[derive(Clone, Copy, Debug, PartialEq, Eq, Structural)]
pub enum TypingEvent {
    /// An answer was requested for a chat, at a time.
    Request(i64, u64),
    /// An answer is delivered to a session.
    Answer(SessionId),
    /// The timer fired, at a time.
    Timer(u64),
}

/// One step of the tracker: what `on_request`, `on_answer` or `on_timer`
/// does for the event (the step the timer reports; `Idle` for the others).
pub open spec fn typing_step(
    before: TypingTracker,
    after: TypingTracker,
    event: TypingEvent,
    step: TypingStep,
) -> bool {
    match event {
        TypingEvent::Request(chat, now) => {
            &&& step == TypingStep::Idle
            &&& before.pending().contains_key(chat) ==> before.pending()[chat] < usize::MAX
            &&& request_step(
                before.pending(),
                before.schedule(),
                after.pending(),
                after.schedule(),
                chat,
                now,
            )
        },
        TypingEvent::Answer(session) => {
            &&& step == TypingStep::Idle
            &&& answer_step(
                before.pending(),
                before.schedule(),
                after.pending(),
                after.schedule(),
                session,
            )
        },
        TypingEvent::Timer(now) => timer_step(
            before.pending(),
            before.schedule(),
            after.pending(),
            after.schedule(),
            now,
            step,
        ),
    }
}

/// The number of answers a map says are owed to `chat`.
pub open spec fn count_of(pending: Map<i64, usize>, chat: i64) -> nat {
    if pending.contains_key(chat) {
        pending[chat] as nat
    } else {
        0
    }
}

/// The answers owed to `chat` after a run of events, starting from `start`:
/// each request for the chat adds one, each answer delivered to its Telegram
/// session settles one, if any is owed.
pub open spec fn owed(start: nat, events: Seq<TypingEvent>, chat: i64) -> nat
    decreases events.len(),
{
    if events.len() == 0 {
        start
    } else {
        let before = owed(start, events.drop_last(), chat);
        match events.last() {
            TypingEvent::Request(c, _) => if c == chat {
                before + 1
            } else {
                before
            },
            TypingEvent::Answer(session) => if session == SessionId(Platform::Telegram, chat)
                && before > 0 {
                (before - 1) as nat
            } else {
                before
            },
            TypingEvent::Timer(_) => before,
        }
    }
}

proof fn lemma_count_tracks_owed(
    states: Seq<TypingTracker>,
    events: Seq<TypingEvent>,
    steps: Seq<TypingStep>,
    chat: i64,
    i: int,
)
    requires
        states.len() == events.len() + 1,
        steps.len() == events.len(),
        forall|j: int| 0 <= j < states.len() ==> #[trigger] states[j].wf(),
        forall|j: int|
            0 <= j < events.len() ==> typing_step(states[j], states[j + 1], events[j], #[trigger] steps[j]),
        0 <= i < states.len(),
    ensures
        count_of(states[i].pending(), chat) == owed(
            count_of(states[0].pending(), chat),
            events.take(i),
            chat,
        ),
    decreases i,
{
    let start = count_of(states[0].pending(), chat);
    if i == 0 {
        assert(events.take(0) =~= Seq::<TypingEvent>::empty());
    } else {
        let j = i - 1;
        lemma_count_tracks_owed(states, events, steps, chat, j);
        assert(events.take(i).drop_last() =~= events.take(j));
        assert(events.take(i).last() == events[j]);
        assert(typing_step(states[j], states[i], events[j], steps[j]));
        assert(states[j].wf());
        let p = states[j].pending();
        match events[j] {
            TypingEvent::Request(c, _) => {
                if c == chat {
                    assert(count_of(states[i].pending(), chat) == count_of(p, chat) + 1);
                } else {
                    assert(count_of(states[i].pending(), chat) == count_of(p, chat));
                }
            },
            TypingEvent::Answer(session) => {
                if session == SessionId(Platform::Telegram, chat) {
                    if p.contains_key(chat) {
                        assert(p[chat] >= 1);
                    }
                } else if session.0 == Platform::Telegram {
                    assert(session.1 != chat);
                    assert(count_of(states[i].pending(), chat) == count_of(p, chat));
                }
            },
            TypingEvent::Timer(_) => {},
        }
    }
}

/// Over any run of the tracker, for any chat:
/// - the count it keeps is the number of answers owed to the chat;
/// - the typing indicator is shown in the chat only while an answer is owed;
/// - a request for a chat that was owed nothing schedules an indicator at once;
/// - a due indicator whose chat is owed an answer is shown and scheduled again
///   one refresh period later, and one whose chat is owed nothing is dropped
///   without being shown.
pub proof fn law_typing_run(
    states: Seq<TypingTracker>,
    events: Seq<TypingEvent>,
    steps: Seq<TypingStep>,
    chat: i64,
)
    requires
        states.len() == events.len() + 1,
        steps.len() == events.len(),
        forall|j: int| 0 <= j < states.len() ==> #[trigger] states[j].wf(),
        forall|j: int|
            0 <= j < events.len() ==> typing_step(states[j], states[j + 1], events[j], #[trigger] steps[j]),
    ensures
        forall|i: int|
            0 <= i < states.len() ==> count_of(#[trigger] states[i].pending(), chat) == owed(
                count_of(states[0].pending(), chat),
                events.take(i),
                chat,
            ),
        forall|i: int|
            0 <= i < events.len() && #[trigger] steps[i] == TypingStep::Typing(chat) ==> owed(
                count_of(states[0].pending(), chat),
                events.take(i),
                chat,
            ) >= 1,
        forall|i: int|
            0 <= i < events.len() && #[trigger] events[i] is Request && events[i]->Request_0 == chat
                && owed(count_of(states[0].pending(), chat), events.take(i), chat) == 0
                ==> states[i + 1].schedule()[0] == (chat, events[i]->Request_1),
        forall|i: int|
            0 <= i < events.len() && #[trigger] events[i] is Timer && front_due(
                states[i].schedule(),
                events[i]->Timer_0,
            ) && states[i].schedule()[0].0 == chat ==> if owed(
                count_of(states[0].pending(), chat),
                events.take(i),
                chat,
            ) >= 1 {
                steps[i] == TypingStep::Typing(chat) && states[i + 1].schedule().last() == (
                    chat,
                    (events[i]->Timer_0 + TYPING_REFRESH_MS) as u64,
                )
            } else {
                steps[i] == TypingStep::Dropped
            },
{
    let start = count_of(states[0].pending(), chat);
    assert forall|i: int| 0 <= i < states.len() implies count_of(
        #[trigger] states[i].pending(),
        chat,
    ) == owed(start, events.take(i), chat) by {
        lemma_count_tracks_owed(states, events, steps, chat, i);
    }
    assert forall|i: int| 0 <= i < events.len() && #[trigger] steps[i] == TypingStep::Typing(chat) implies owed(
        start,
        events.take(i),
        chat,
    ) >= 1 by {
        lemma_count_tracks_owed(states, events, steps, chat, i);
        assert(typing_step(states[i], states[i + 1], events[i], steps[i]));
        assert(states[i].wf());
        assert(states[i].pending().contains_key(chat));
    }
    assert forall|i: int|
        0 <= i < events.len() && #[trigger] events[i] is Request && events[i]->Request_0 == chat
            && owed(start, events.take(i), chat) == 0 implies states[i + 1].schedule()[0] == (
        chat,
        events[i]->Request_1,
    ) by {
        lemma_count_tracks_owed(states, events, steps, chat, i);
        assert(typing_step(states[i], states[i + 1], events[i], steps[i]));
        assert(!states[i].pending().contains_key(chat) || states[i].pending()[chat] == 0);
        assert(states[i].wf());
    }
    assert forall|i: int|
        0 <= i < events.len() && #[trigger] events[i] is Timer && front_due(
            states[i].schedule(),
            events[i]->Timer_0,
        ) && states[i].schedule()[0].0 == chat implies if owed(start, events.take(i), chat) >= 1 {
        steps[i] == TypingStep::Typing(chat) && states[i + 1].schedule().last() == (
            chat,
            (events[i]->Timer_0 + TYPING_REFRESH_MS) as u64,
        )
    } else {
        steps[i] == TypingStep::Dropped
    } by {
        lemma_count_tracks_owed(states, events, steps, chat, i);
        assert(typing_step(states[i], states[i + 1], events[i], steps[i]));
        assert(states[i].wf());
    }
}

} // verus!
