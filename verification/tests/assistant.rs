use unai::ai::{
    convert_message, convert_prompt, convert_user_message, reply_from_choices,
    sanitize_openai_name, Assistant, ChatRole, Conversations, Message, Outcome, ReplyError,
};
use unai::types::{AssistantMessage, Content, Platform, SessionId, User, UserMessage};

fn user_message(session: SessionId, id: &str, text: &str, should_reply: bool) -> UserMessage {
    UserMessage {
        session,
        user: User {
            id: id.to_string(),
            username: String::new(),
            first_name: String::new(),
            last_name: String::new(),
        },
        content: Content::Text(text.to_string()),
        should_reply,
    }
}

fn reply(session: SessionId, text: &str) -> AssistantMessage {
    AssistantMessage { session, content: Content::Text(text.to_string()) }
}

fn assistant() -> Assistant {
    Assistant::new("https://example.invalid/v1", "SECRET-REDACTED", "some-model", "Be kind.")
}

#[test]
fn sanitize_keeps_acceptable_names() {
    assert_eq!(sanitize_openai_name("user_123"), "user_123");
    assert_eq!(sanitize_openai_name("chat_-100"), "chat_-100");
    assert_eq!(sanitize_openai_name(""), "");
}

#[test]
fn sanitize_replaces_other_characters() {
    assert_eq!(sanitize_openai_name("a b.c"), "a_b_c");
    assert_eq!(sanitize_openai_name("héllo"), "h_llo");
    assert_eq!(sanitize_openai_name("\u{1F600}x"), "_x");
}

#[test]
fn sanitize_cuts_long_names() {
    let long = "x".repeat(100);
    assert_eq!(sanitize_openai_name(&long), "x".repeat(64));
    let exact = "y".repeat(64);
    assert_eq!(sanitize_openai_name(&exact), exact);
    let wide = "é".repeat(70);
    assert_eq!(sanitize_openai_name(&wide), "_".repeat(64));
}

#[test]
fn sanitize_is_idempotent() {
    for name in ["user 1", "é!é", "", "ok-name", &"z*".repeat(50)] {
        let once = sanitize_openai_name(name);
        assert_eq!(sanitize_openai_name(&once), once);
    }
}

#[test]
fn turns_of_each_kind() {
    let p = convert_prompt("Be kind.");
    assert_eq!(p.role, ChatRole::System);
    assert_eq!(p.content, "Be kind.");
    assert_eq!(p.name, None);
    let m = user_message(SessionId(Platform::Local, 0), "user 7", "hi", true);
    let u = convert_user_message(&m);
    assert_eq!(u.role, ChatRole::User);
    assert_eq!(u.content, "hi");
    assert_eq!(u.name.as_deref(), Some("user_7"));
    let a = convert_message(&Message::Assistant(reply(SessionId(Platform::Local, 0), "hello")));
    assert_eq!(a.role, ChatRole::Assistant);
    assert_eq!(a.content, "hello");
    assert_eq!(a.name, None);
    let again = convert_message(&Message::User(m));
    assert_eq!(again.name.as_deref(), Some("user_7"));
}

#[test]
fn first_request_holds_the_prompt_and_the_message() {
    let conversations = Conversations::new();
    let m = user_message(SessionId(Platform::Telegram, 5), "user_1", "hello", true);
    let request = conversations.request_for(&assistant(), &m);
    assert_eq!(request.model, "some-model");
    assert_eq!(request.turns.len(), 2);
    assert_eq!(request.turns[0].role, ChatRole::System);
    assert_eq!(request.turns[0].content, "Be kind.");
    assert_eq!(request.turns[1].role, ChatRole::User);
    assert_eq!(request.turns[1].content, "hello");
}

#[test]
fn conversation_continues_where_it_left_off() {
    let session = SessionId(Platform::Telegram, 5);
    let mut conversations = Conversations::new();
    let first = user_message(session, "user_1", "hello", true);
    let previous = conversations.request_for(&assistant(), &first);
    conversations.record_exchange(first, reply(session, "hi there"));
    let next = user_message(session, "user_2", "how are you?", true);
    let request = conversations.request_for(&assistant(), &next);
    assert_eq!(request.turns.len(), previous.turns.len() + 2);
    for (a, b) in previous.turns.iter().zip(request.turns.iter()) {
        assert_eq!(a.role, b.role);
        assert_eq!(a.content, b.content);
        assert_eq!(a.name, b.name);
    }
    assert_eq!(request.turns[2].role, ChatRole::Assistant);
    assert_eq!(request.turns[2].content, "hi there");
    assert_eq!(request.turns[3].content, "how are you?");
    assert_eq!(request.turns[3].name.as_deref(), Some("user_2"));
}

#[test]
fn remembered_messages_are_context() {
    let session = SessionId(Platform::Telegram, -3);
    let mut conversations = Conversations::new();
    conversations.remember(user_message(session, "user_9", "side remark", false));
    let m = user_message(session, "user_1", "question", true);
    let request = conversations.request_for(&assistant(), &m);
    assert_eq!(request.turns.len(), 3);
    assert_eq!(request.turns[1].content, "side remark");
    assert_eq!(request.turns[1].name.as_deref(), Some("user_9"));
    assert_eq!(request.turns[2].content, "question");
}

#[test]
fn conversations_are_kept_apart() {
    let mut conversations = Conversations::new();
    let a = SessionId(Platform::Telegram, 1);
    let b = SessionId(Platform::Telegram, 2);
    let local = SessionId(Platform::Local, 1);
    conversations.record_exchange(user_message(a, "user_1", "in a", true), reply(a, "answer a"));
    for session in [b, local] {
        let m = user_message(session, "user_1", "elsewhere", true);
        let request = conversations.request_for(&assistant(), &m);
        assert_eq!(request.turns.len(), 2);
    }
}

#[test]
fn reply_is_the_first_choice() {
    let m = user_message(SessionId(Platform::Telegram, 8), "user_1", "q", true);
    let choices = vec![Some("first".to_string()), Some("second".to_string())];
    let r = reply_from_choices(&m, &choices).expect("a reply");
    assert_eq!(r.session, SessionId(Platform::Telegram, 8));
    let Content::Text(text) = &r.content;
    assert_eq!(text, "first");
}

#[test]
fn reply_errors() {
    let m = user_message(SessionId(Platform::Local, 0), "", "q", true);
    assert_eq!(reply_from_choices(&m, &vec![]).unwrap_err(), ReplyError::EmptyChoices);
    assert_eq!(
        reply_from_choices(&m, &vec![None, Some("later".to_string())]).unwrap_err(),
        ReplyError::EmptyContent
    );
}

#[test]
fn assistant_keeps_its_settings() {
    let a = assistant();
    assert_eq!(a.api_base(), "https://example.invalid/v1");
    assert_eq!(a.api_key(), "SECRET-REDACTED");
}

#[test]
fn sanitized_names_are_acceptable() {
    for name in ["a b", "é", "!!!", &"long*".repeat(30), "user_1"] {
        let out = sanitize_openai_name(name);
        assert!(out.chars().count() <= 64);
        assert!(out.chars().all(|c| c.is_ascii_alphanumeric() || c == '_' || c == '-'));
    }
}

#[test]
fn history_over_a_run_of_requests() {
    let s = SessionId(Platform::Telegram, 11);
    let other = SessionId(Platform::Telegram, 12);
    let mut conversations = Conversations::new();
    conversations.settle(user_message(s, "user_1", "aside", false), Outcome::NotAsked);
    conversations.settle(user_message(s, "user_1", "lost", true), Outcome::Failed);
    conversations.settle(user_message(other, "user_2", "elsewhere", true), Outcome::NotAsked);
    conversations.settle(user_message(s, "user_1", "question", true), Outcome::Answered(reply(s, "answer")));
    let next = user_message(s, "user_1", "next", true);
    let request = conversations.request_for(&assistant(), &next);
    let contents: Vec<&str> = request.turns.iter().map(|t| t.content.as_str()).collect();
    assert_eq!(contents, vec!["Be kind.", "aside", "question", "answer", "next"]);
    let roles: Vec<ChatRole> = request.turns.iter().map(|t| t.role).collect();
    assert_eq!(
        roles,
        vec![ChatRole::System, ChatRole::User, ChatRole::User, ChatRole::Assistant, ChatRole::User]
    );
}
