//! The assistant's decisions: what it remembers of each conversation, what it
//! sends to the chat-completion service, and what it answers.
use std::collections::HashMap;
use vstd::prelude::*;

use crate::text::push_char;
use crate::types::{AssistantMessage, AssistantMessageView, Content, Platform, SessionId, UserMessage};

verus! {

/// The longest name the chat-completion service accepts for a participant.
pub const MAX_NAME_LEN: usize = 64;

/// The characters the chat-completion service accepts in a participant's
/// name: ASCII letters and digits, `_` and `-`.
pub open spec fn is_name_char(c: char) -> bool {
    ||| 'a' <= c <= 'z'
    ||| 'A' <= c <= 'Z'
    ||| '0' <= c <= '9'
    ||| c == '_'
    ||| c == '-'
}

/// A character of a name, with `_` in place of one the service does not accept.
pub open spec fn sanitized_char(c: char) -> char {
    if is_name_char(c) {
        c
    } else {
        '_'
    }
}

/// A name the service accepts: the first `MAX_NAME_LEN` characters, each
/// sanitized.
pub open spec fn sanitized_name(name: Seq<char>) -> Seq<char> {
    let kept = if name.len() <= MAX_NAME_LEN {
        name
    } else {
        name.take(MAX_NAME_LEN as int)
    };
    kept.map_values(|c: char| sanitized_char(c))
}

fn name_char(c: char) -> (res: bool)
    ensures
        res == is_name_char(c),
{
    ('a' <= c && c <= 'z') || ('A' <= c && c <= 'Z') || ('0' <= c && c <= '9') || c == '_' || c
        == '-'
}

/// Turns a participant's id into a name the chat-completion service accepts:
/// unaccepted characters become `_` and the name is cut at `MAX_NAME_LEN`
/// characters.
pub fn sanitize_openai_name(name: &str) -> (res: String)
    ensures
        res@ == sanitized_name(name@),
{
    let mut out = String::new();
    let mut taken: usize = 0;
    for c in it: name.chars()
        invariant
            it.seq() == name@,
            taken == it.index(),
            taken <= MAX_NAME_LEN,
            out@ == name@.take(taken as int).map_values(|c: char| sanitized_char(c)),
    {
        if taken == MAX_NAME_LEN {
            assert(name@.len() > MAX_NAME_LEN);
            return out;
        }
        let replacement = if name_char(c) {
            c
        } else {
            '_'
        };
        push_char(&mut out, replacement);
        proof {
            assert(name@.take(taken + 1) =~= name@.take(taken as int).push(c));
            assert(out@ =~= name@.take(taken + 1).map_values(|c: char| sanitized_char(c)));
        }
        taken = taken + 1;
    }
    assert(name@.take(taken as int) =~= name@);
    out
}

/// A sanitized name is one the service accepts: at most `MAX_NAME_LEN`
/// characters, each an ASCII letter or digit, `_` or `-`.
pub proof fn law_sanitized_name_is_acceptable(name: Seq<char>)
    ensures
        sanitized_name(name).len() <= MAX_NAME_LEN,
        forall|i: int|
            0 <= i < sanitized_name(name).len() ==> is_name_char(#[trigger] sanitized_name(name)[i]),
{
}

/// A name the service already accepts is left as it is.
pub proof fn law_sanitize_keeps_acceptable_name(name: Seq<char>)
    requires
        name.len() <= MAX_NAME_LEN,
        forall|i: int| 0 <= i < name.len() ==> is_name_char(#[trigger] name[i]),
    ensures
        sanitized_name(name) == name,
{
    assert(sanitized_name(name) =~= name);
}

/// Sanitizing a sanitized name changes nothing.
pub proof fn law_sanitize_is_idempotent(name: Seq<char>)
    ensures
        sanitized_name(sanitized_name(name)) == sanitized_name(name),
{
    law_sanitized_name_is_acceptable(name);
    law_sanitize_keeps_acceptable_name(sanitized_name(name));
}

/// One entry of a conversation's history.
#[derive(Debug)]
pub enum Message {
    Assistant(AssistantMessage),
    User(UserMessage),
}

/// Who speaks in a turn of a chat-completion request.
#[derive(Clone, Copy, Debug, PartialEq, Eq, Structural)]
pub enum ChatRole {
    System,
    User,
    Assistant,
}

/// One turn of a chat-completion request.
#[derive(Debug)]
pub struct ChatTurn {
    pub role: ChatRole,
    pub content: String,
    /// The participant's name, for user turns.
    pub name: Option<String>,
}

/// A chat-completion request: the model to ask and the conversation so far.
#[derive(Debug)]
pub struct ChatRequest {
    pub model: String,
    pub turns: Vec<ChatTurn>,
}

/// What a turn is, as text.
pub struct ChatTurnView {
    pub role: ChatRole,
    pub content: Seq<char>,
    pub name: Option<Seq<char>>,
}

/// What a request is, as text.
pub struct ChatRequestView {
    pub model: Seq<char>,
    pub turns: Seq<ChatTurnView>,
}

impl View for ChatTurn {
    type V = ChatTurnView;

    open spec fn view(&self) -> ChatTurnView {
        ChatTurnView {
            role: self.role,
            content: self.content@,
            name: match self.name {
                Some(n) => Some(n@),
                None => None,
            },
        }
    }
}

impl View for ChatRequest {
    type V = ChatRequestView;

    open spec fn view(&self) -> ChatRequestView {
        ChatRequestView { model: self.model@, turns: self.turns@.map_values(|t: ChatTurn| t@) }
    }
}

/// Why the service's answer gives no reply.
#[derive(Clone, Copy, Debug, PartialEq, Eq, Structural)]
pub enum ReplyError {
    /// The answer holds no choice.
    EmptyChoices,
    /// The first choice holds no content.
    EmptyContent,
}

/// The system turn that carries the prompt.
pub open spec fn prompt_turn(prompt: Seq<char>) -> ChatTurnView {
    ChatTurnView { role: ChatRole::System, content: prompt, name: None }
}

/// The turn of a user's message, named after the user's sanitized id.
pub open spec fn user_turn(message: UserMessage) -> ChatTurnView {
    ChatTurnView {
        role: ChatRole::User,
        content: message.content.text(),
        name: Some(sanitized_name(message.user.id@)),
    }
}

/// The turn of a history entry.
pub open spec fn history_turn(entry: Message) -> ChatTurnView {
    match entry {
        Message::Assistant(reply) => ChatTurnView {
            role: ChatRole::Assistant,
            content: reply.content.text(),
            name: None,
        },
        Message::User(message) => user_turn(message),
    }
}

/// The turns sent for a user's message: the prompt, the history, then the
/// message itself.
pub open spec fn request_turns(
    prompt: Seq<char>,
    history: Seq<Message>,
    message: UserMessage,
) -> Seq<ChatTurnView> {
    seq![prompt_turn(prompt)] + history.map_values(|e: Message| history_turn(e)) + seq![
        user_turn(message),
    ]
}

/// The reply that the service's answer gives to a user's message: the content
/// of the first choice, in the message's session.
pub open spec fn spec_reply(
    message: UserMessage,
    choices: Seq<Option<String>>,
) -> Result<AssistantMessageView, ReplyError> {
    if choices.len() == 0 {
        Err(ReplyError::EmptyChoices)
    } else {
        match choices[0] {
            Some(text) => Ok(AssistantMessageView { session: message.session, text: text@ }),
            None => Err(ReplyError::EmptyContent),
        }
    }
}

/// The system turn that carries the prompt.
pub fn convert_prompt(prompt: &str) -> (res: ChatTurn)
    ensures
        res@ == prompt_turn(prompt@),
{
    ChatTurn { role: ChatRole::System, content: prompt.to_owned(), name: None }
}

/// The turn of a user's message, named after the user's sanitized id.
pub fn convert_user_message(message: &UserMessage) -> (res: ChatTurn)
    ensures
        res@ == user_turn(*message),
{
    ChatTurn {
        role: ChatRole::User,
        content: message.content.as_text().clone(),
        name: Some(sanitize_openai_name(message.user.id.as_str())),
    }
}

/// The turn of a history entry.
pub fn convert_message(entry: &Message) -> (res: ChatTurn)
    ensures
        res@ == history_turn(*entry),
{
    match entry {
        Message::Assistant(reply) => ChatTurn {
            role: ChatRole::Assistant,
            content: reply.content.as_text().clone(),
            name: None,
        },
        Message::User(message) => convert_user_message(message),
    }
}

/// The reply that the service's answer gives to a user's message. `choices`
/// holds the content of each choice of the answer, in order: the reply is the
/// first one, in the message's session.
pub fn reply_from_choices(message: &UserMessage, choices: &Vec<Option<String>>) -> (res: Result<
    AssistantMessage,
    ReplyError,
>)
    ensures
        match res {
            Ok(reply) => spec_reply(*message, choices@) == Ok::<AssistantMessageView, ReplyError>(
                reply@,
            ),
            Err(e) => spec_reply(*message, choices@) == Err::<AssistantMessageView, ReplyError>(e),
        },
{
    if choices.len() == 0 {
        return Err(ReplyError::EmptyChoices);
    }
    match &choices[0] {
        Some(text) => Ok(
            AssistantMessage { session: message.session, content: Content::Text(text.clone()) },
        ),
        None => Err(ReplyError::EmptyContent),
    }
}

/// The assistant: where the chat-completion service is, which model to ask,
/// and the prompt that opens every conversation.
#[derive(Debug)]
pub struct Assistant {
    api_base: String,
    api_key: String,
    model: String,
    prompt: String,
}

impl Assistant {
    pub closed spec fn spec_api_base(&self) -> Seq<char> {
        self.api_base@
    }

    pub closed spec fn spec_api_key(&self) -> Seq<char> {
        self.api_key@
    }

    pub closed spec fn spec_model(&self) -> Seq<char> {
        self.model@
    }

    pub closed spec fn spec_prompt(&self) -> Seq<char> {
        self.prompt@
    }

    /// An assistant served at `api_base`, authenticated by `api_key`, asking
    /// `model`, with `prompt` opening every conversation.
    pub fn new(api_base: &str, api_key: &str, model: &str, prompt: &str) -> (res: Self)
        ensures
            res.spec_api_base() == api_base@,
            res.spec_api_key() == api_key@,
            res.spec_model() == model@,
            res.spec_prompt() == prompt@,
    {
        Assistant {
            api_base: api_base.to_owned(),
            api_key: api_key.to_owned(),
            model: model.to_owned(),
            prompt: prompt.to_owned(),
        }
    }

    /// The base URL of the chat-completion service.
    pub fn api_base(&self) -> (res: &str)
        ensures
            res@ == self.spec_api_base(),
    {
        self.api_base.as_str()
    }

    /// The key that authenticates the assistant to the service.
    pub fn api_key(&self) -> (res: &str)
        ensures
            res@ == self.spec_api_key(),
    {
        self.api_key.as_str()
    }

    /// The chat-completion request for a user's message, after `history`: the
    /// assistant's model, and the prompt, the history and the message as turns.
    pub fn to_chat_request(&self, history: &[Message], message: &UserMessage) -> (res: ChatRequest)
        ensures
            res@.model == self.spec_model(),
            res@.turns == request_turns(self.spec_prompt(), history@, *message),
    {
        let mut turns: Vec<ChatTurn> = Vec::new();
        turns.push(convert_prompt(self.prompt.as_str()));
        let ghost head = seq![prompt_turn(self.prompt@)];
        let mut i: usize = 0;
        while i < history.len()
            invariant
                i <= history@.len(),
                head == seq![prompt_turn(self.prompt@)],
                turns@.map_values(|t: ChatTurn| t@) == head + history@.take(i as int).map_values(
                    |e: Message| history_turn(e),
                ),
            decreases history@.len() - i,
        {
            let turn = convert_message(&history[i]);
            let ghost before = turns@;
            let ghost added = turn@;
            turns.push(turn);
            proof {
                assert(turns@.map_values(|t: ChatTurn| t@) =~= before.map_values(|t: ChatTurn| t@).push(
                    added,
                ));
                assert(history@.take(i + 1) =~= history@.take(i as int).push(history@[i as int]));
                assert(history@.take(i + 1).map_values(|e: Message| history_turn(e))
                    =~= history@.take(i as int).map_values(|e: Message| history_turn(e)).push(
                    history_turn(history@[i as int]),
                ));
                assert(turns@.map_values(|t: ChatTurn| t@) =~= head + history@.take(
                    i + 1,
                ).map_values(|e: Message| history_turn(e)));
            }
            i = i + 1;
        }
        let last = convert_user_message(message);
        let ghost before = turns@;
        let ghost added = last@;
        turns.push(last);
        proof {
            assert(turns@.map_values(|t: ChatTurn| t@) =~= before.map_values(|t: ChatTurn| t@).push(
                added,
            ));
            assert(history@.take(history@.len() as int) =~= history@);
            assert(turns@.map_values(|t: ChatTurn| t@) =~= request_turns(
                self.prompt@,
                history@,
                *message,
            ));
        }
        ChatRequest { model: self.model.clone(), turns }
    }
}

/// The entries kept for a chat in one platform's map, empty when there are none.
pub open spec fn entries_at(map: Map<i64, Vec<Message>>, id: i64) -> Seq<Message> {
    if map.contains_key(id) {
        map[id]@
    } else {
        Seq::empty()
    }
}

/// Appends an entry to the history kept for `id`.
fn push_entry(map: &mut HashMap<i64, Vec<Message>>, id: i64, entry: Message)
    ensures
        final(map)@.contains_key(id),
        entries_at(final(map)@, id) == entries_at(old(map)@, id).push(entry),
        forall|k: i64| k != id ==> #[trigger] final(map)@.contains_key(k) == old(map)@.contains_key(k),
        forall|k: i64| k != id && old(map)@.contains_key(k) ==> #[trigger] final(map)@[k] == old(map)@[k],
{
    let mut entries = match map.remove(&id) {
        Some(entries) => entries,
        None => Vec::new(),
    };
    entries.push(entry);
    map.insert(id, entries);
}

/// How the assistant dealt with a user's message.
#[derive(Debug)]
pub enum Outcome {
    /// The message asked for no answer.
    NotAsked,
    /// The service answered with this reply.
    Answered(AssistantMessage),
    /// Asking the service for an answer failed.
    Failed,
}

/// What a conversation's history gains from a message and its outcome.
pub open spec fn outcome_entries(message: UserMessage, outcome: Outcome) -> Seq<Message> {
    match outcome {
        Outcome::NotAsked => seq![Message::User(message)],
        Outcome::Answered(reply) => seq![Message::User(message), Message::Assistant(reply)],
        Outcome::Failed => Seq::empty(),
    }
}

/// The history of every conversation the assistant takes part in.
#[derive(Debug)]
pub struct Conversations {
    local: HashMap<i64, Vec<Message>>,
    telegram: HashMap<i64, Vec<Message>>,
}

impl Conversations {
    /// The history of a conversation, oldest entry first.
    pub closed spec fn history(&self, session: SessionId) -> Seq<Message> {
        match session.0 {
            Platform::Local => entries_at(self.local@, session.1),
            Platform::Telegram => entries_at(self.telegram@, session.1),
        }
    }

    /// No conversation has a history yet.
    pub fn new() -> (res: Self)
        ensures
            forall|s: SessionId| #[trigger] res.history(s) == Seq::<Message>::empty(),
    {
        Conversations { local: HashMap::new(), telegram: HashMap::new() }
    }

    /// Appends an entry to a conversation's history.
    fn push(&mut self, session: SessionId, entry: Message)
        ensures
            final(self).history(session) == old(self).history(session).push(entry),
            forall|s: SessionId| s != session ==> #[trigger] final(self).history(s) == old(
                self,
            ).history(s),
    {
        match session.0 {
            Platform::Local => push_entry(&mut self.local, session.1, entry),
            Platform::Telegram => push_entry(&mut self.telegram, session.1, entry),
        }
        assert forall|s: SessionId| s != session implies #[trigger] self.history(s) == old(
            self,
        ).history(s) by {
            if s.0 == session.0 {
                assert(s.1 != session.1);
            }
        }
    }

    /// Remembers a message that asks for no answer: it becomes context for
    /// later answers in its conversation.
    pub fn remember(&mut self, message: UserMessage)
        ensures
            final(self).history(message.session) == old(self).history(message.session).push(
                Message::User(message),
            ),
            forall|s: SessionId| s != message.session ==> #[trigger] final(self).history(s) == old(
                self,
            ).history(s),
    {
        let session = message.session;
        self.push(session, Message::User(message));
    }

    /// Remembers a message and the assistant's reply to it, in this order, in
    /// the message's conversation.
    pub fn record_exchange(&mut self, message: UserMessage, reply: AssistantMessage)
        ensures
            final(self).history(message.session) == old(self).history(message.session).push(
                Message::User(message),
            ).push(Message::Assistant(reply)),
            forall|s: SessionId| s != message.session ==> #[trigger] final(self).history(s) == old(
                self,
            ).history(s),
    {
        let session = message.session;
        self.push(session, Message::User(message));
        self.push(session, Message::Assistant(reply));
    }

    /// Records how the assistant dealt with a user's message: a message that
    /// asked for no answer is remembered, an answered one is remembered with
    /// its reply, and one whose answer failed leaves no trace.
    pub fn settle(&mut self, message: UserMessage, outcome: Outcome)
        ensures
            settle_step(*old(self), *final(self), message, outcome),
    {
        let ghost entries = outcome_entries(message, outcome);
        let ghost session = message.session;
        match outcome {
            Outcome::NotAsked => self.remember(message),
            Outcome::Answered(reply) => self.record_exchange(message, reply),
            Outcome::Failed => {},
        }
        assert(self.history(session) =~= old(self).history(session) + entries);
    }

    /// The chat-completion request for a user's message in its conversation:
    /// the prompt, the conversation's history, then the message.
    pub fn request_for(&self, assistant: &Assistant, message: &UserMessage) -> (res: ChatRequest)
        ensures
            res@.model == assistant.spec_model(),
            res@.turns == request_turns(
                assistant.spec_prompt(),
                self.history(message.session),
                *message,
            ),
    {
        let map = match message.session.0 {
            Platform::Local => &self.local,
            Platform::Telegram => &self.telegram,
        };
        match map.get(&message.session.1) {
            Some(entries) => assistant.to_chat_request(entries.as_slice(), message),
            None => {
                let empty: Vec<Message> = Vec::new();
                assistant.to_chat_request(empty.as_slice(), message)
            },
        }
    }
}

/// A conversation continues where it left off: after an exchange, the next
/// request repeats the previous one, followed by the assistant's reply and
/// the new message.
pub proof fn law_next_request_extends_previous(
    prompt: Seq<char>,
    history: Seq<Message>,
    message: UserMessage,
    reply: AssistantMessage,
    next: UserMessage,
)
    ensures
        request_turns(
            prompt,
            history.push(Message::User(message)).push(Message::Assistant(reply)),
            next,
        ) == request_turns(prompt, history, message) + seq![
            history_turn(Message::Assistant(reply)),
            user_turn(next),
        ],
{
    let f = |e: Message| history_turn(e);
    let longer = history.push(Message::User(message)).push(Message::Assistant(reply));
    assert(longer.map_values(f) =~= history.map_values(f).push(user_turn(message)).push(
        history_turn(Message::Assistant(reply)),
    ));
    assert(request_turns(prompt, longer, next) =~= request_turns(prompt, history, message) + seq![
        history_turn(Message::Assistant(reply)),
        user_turn(next),
    ]);
}

/// A message that asked for no answer is context for the next request of its
/// conversation: it comes right before the new message.
pub proof fn law_remembered_message_is_context(
    prompt: Seq<char>,
    history: Seq<Message>,
    message: UserMessage,
    next: UserMessage,
)
    ensures
        request_turns(prompt, history.push(Message::User(message)), next) == request_turns(
            prompt,
            history,
            message,
        ) + seq![user_turn(next)],
{
    let f = |e: Message| history_turn(e);
    assert(history.push(Message::User(message)).map_values(f) =~= history.map_values(f).push(
        user_turn(message),
    ));
    assert(request_turns(prompt, history.push(Message::User(message)), next) =~= request_turns(
        prompt,
        history,
        message,
    ) + seq![user_turn(next)]);
}

/// The conversations after a message was settled: its conversation gains the
/// entries of the outcome, every other conversation stays as it was.
pub open spec fn settle_step(
    before: Conversations,
    after: Conversations,
    message: UserMessage,
    outcome: Outcome,
) -> bool {
    &&& after.history(message.session) == before.history(message.session) + outcome_entries(
        message,
        outcome,
    )
    &&& forall|s: SessionId| s != message.session ==> #[trigger] after.history(s) == before.history(
        s,
    )
}

/// What a run of settled messages adds to the history of `session`: the
/// entries of each of its messages' outcomes, in order.
pub open spec fn session_log(steps: Seq<(UserMessage, Outcome)>, session: SessionId) -> Seq<Message>
    decreases steps.len(),
{
    if steps.len() == 0 {
        Seq::empty()
    } else {
        let (message, outcome) = steps.last();
        session_log(steps.drop_last(), session) + if message.session == session {
            outcome_entries(message, outcome)
        } else {
            Seq::empty()
        }
    }
}

proof fn lemma_history_after_steps(
    states: Seq<Conversations>,
    steps: Seq<(UserMessage, Outcome)>,
    session: SessionId,
    i: int,
)
    requires
        states.len() == steps.len() + 1,
        forall|j: int|
            0 <= j < steps.len() ==> settle_step(
                #[trigger] states[j],
                states[j + 1],
                steps[j].0,
                steps[j].1,
            ),
        0 <= i < states.len(),
    ensures
        states[i].history(session) == states[0].history(session) + session_log(
            steps.take(i),
            session,
        ),
    decreases i,
{
    if i == 0 {
        assert(steps.take(0) =~= Seq::<(UserMessage, Outcome)>::empty());
        assert(states[0].history(session) + Seq::<Message>::empty() =~= states[0].history(session));
    } else {
        let j = i - 1;
        lemma_history_after_steps(states, steps, session, j);
        assert(steps.take(i).drop_last() =~= steps.take(j));
        assert(steps.take(i).last() == steps[j]);
        assert(settle_step(states[j], states[i], steps[j].0, steps[j].1));
        if steps[j].0.session == session {
            assert(states[i].history(session) =~= states[0].history(session) + session_log(
                steps.take(i),
                session,
            ));
        } else {
            assert(states[i].history(session) =~= states[0].history(session) + session_log(
                steps.take(i),
                session,
            ));
        }
    }
}

/// Over a run of messages settled one after the other, a conversation's
/// history is what it was plus, in order, the entries of its own messages'
/// outcomes: the message alone when it asked for no answer, the message and
/// the reply when it was answered, nothing when answering failed. The next
/// request of the conversation is built on that history.
pub proof fn law_history_over_requests(
    states: Seq<Conversations>,
    steps: Seq<(UserMessage, Outcome)>,
    session: SessionId,
    prompt: Seq<char>,
    next: UserMessage,
)
    requires
        states.len() == steps.len() + 1,
        forall|j: int|
            0 <= j < steps.len() ==> settle_step(
                #[trigger] states[j],
                states[j + 1],
                steps[j].0,
                steps[j].1,
            ),
    ensures
        states.last().history(session) == states[0].history(session) + session_log(steps, session),
        request_turns(prompt, states.last().history(session), next) == request_turns(
            prompt,
            states[0].history(session) + session_log(steps, session),
            next,
        ),
{
    lemma_history_after_steps(states, steps, session, steps.len() as int);
    assert(steps.take(steps.len() as int) =~= steps);
}

/// A request holds, in order: the prompt as a system turn, one turn per
/// history entry (a user's message under the user's sanitized id, a reply of
/// the assistant unnamed), and the new message under its user's sanitized id.
pub proof fn law_request_layout(prompt: Seq<char>, history: Seq<Message>, message: UserMessage)
    ensures
        request_turns(prompt, history, message).len() == history.len() + 2,
        request_turns(prompt, history, message)[0].role == ChatRole::System,
        request_turns(prompt, history, message)[0].content == prompt,
        request_turns(prompt, history, message)[0].name is None,
        forall|i: int|
            0 <= i < history.len() ==> match #[trigger] history[i] {
                Message::User(m) => request_turns(prompt, history, message)[i + 1].role
                    == ChatRole::User && request_turns(prompt, history, message)[i + 1].content
                    == m.content.text() && request_turns(prompt, history, message)[i + 1].name
                    == Some(sanitized_name(m.user.id@)),
                Message::Assistant(r) => request_turns(prompt, history, message)[i + 1].role
                    == ChatRole::Assistant && request_turns(prompt, history, message)[i + 1].content
                    == r.content.text() && request_turns(prompt, history, message)[i + 1].name
                    is None,
            },
        request_turns(prompt, history, message)[history.len() as int + 1].role == ChatRole::User,
        request_turns(prompt, history, message)[history.len() as int + 1].content == message.content.text(),
        request_turns(prompt, history, message)[history.len() as int + 1].name == Some(
            sanitized_name(message.user.id@),
        ),
{
    let turns = request_turns(prompt, history, message);
    assert forall|i: int| 0 <= i < history.len() implies turns[i + 1] == history_turn(
        #[trigger] history[i],
    ) by {
        assert(turns[i + 1] == history.map_values(|e: Message| history_turn(e))[i]);
    }
}

/// The reply is the content of the first choice, in the message's session;
/// no choice at all, or a first choice without content, is an error.
pub proof fn law_reply_is_first_choice(message: UserMessage, choices: Seq<Option<String>>)
    ensures
        choices.len() == 0 ==> spec_reply(message, choices) == Err::<
            AssistantMessageView,
            ReplyError,
        >(ReplyError::EmptyChoices),
        choices.len() > 0 && choices[0] is None ==> spec_reply(message, choices) == Err::<
            AssistantMessageView,
            ReplyError,
        >(ReplyError::EmptyContent),
        choices.len() > 0 && choices[0] is Some ==> spec_reply(message, choices) == Ok::<
            AssistantMessageView,
            ReplyError,
        >(AssistantMessageView { session: message.session, text: choices[0]->0@ }),
{
}

} // verus!
