use unai::telegram::{
    ascii_to_lowercase, eq_ignore_ascii_case, get_user, next_offset, BotIdentity, ChatInfo,
    ChatKind, EntityKind, IncomingMessage, IncomingUpdate, SenderInfo, TextEntity, UpdateContent,
};
use unai::types::{Content, Platform, SessionId};

fn chat(id: i64, kind: ChatKind) -> ChatInfo {
    ChatInfo { id, kind, username: None, first_name: None, last_name: None }
}

fn message(kind: ChatKind, text: Option<&str>, entities: Option<Vec<TextEntity>>) -> IncomingMessage {
    IncomingMessage {
        chat: chat(-100, kind),
        from: Some(SenderInfo {
            id: 42,
            username: Some("alice".to_string()),
            first_name: "Alice".to_string(),
            last_name: None,
        }),
        sender_chat: None,
        reply_to_sender: None,
        text: text.map(|t| t.to_string()),
        entities,
    }
}

fn mention(offset: u16, length: u16) -> TextEntity {
    TextEntity { kind: EntityKind::Mention, offset, length }
}

fn bot() -> BotIdentity {
    BotIdentity::new(7, "MyBot".to_string())
}

#[test]
fn lowercase_maps_only_ascii_capitals() {
    assert_eq!(ascii_to_lowercase('A' as u16), 'a' as u16);
    assert_eq!(ascii_to_lowercase('Z' as u16), 'z' as u16);
    assert_eq!(ascii_to_lowercase('z' as u16), 'z' as u16);
    assert_eq!(ascii_to_lowercase('@' as u16), '@' as u16);
    assert_eq!(ascii_to_lowercase('[' as u16), '[' as u16);
    assert_eq!(ascii_to_lowercase(0x00C9), 0x00C9);
}

#[test]
fn lowercase_twice_is_lowercase_once() {
    for v in [0u16, 64, 65, 77, 90, 91, 97, 122, 0xD800, 0xFFFF] {
        assert_eq!(ascii_to_lowercase(ascii_to_lowercase(v)), ascii_to_lowercase(v));
    }
}

#[test]
fn case_insensitive_comparison() {
    let a: Vec<u16> = "@MyBot".encode_utf16().collect();
    let b: Vec<u16> = "@mybot".encode_utf16().collect();
    let c: Vec<u16> = "@mybo".encode_utf16().collect();
    let d: Vec<u16> = "@mybou".encode_utf16().collect();
    assert!(eq_ignore_ascii_case(&a, &b));
    assert!(eq_ignore_ascii_case(&b, &a));
    assert!(eq_ignore_ascii_case(&a, &a));
    assert!(!eq_ignore_ascii_case(&a, &c));
    assert!(!eq_ignore_ascii_case(&a, &d));
    assert!(eq_ignore_ascii_case(&[], &[]));
}

#[test]
fn user_of_a_message_from_a_user() {
    let m = message(ChatKind::Private, Some("hi"), None);
    let u = get_user(&m);
    assert_eq!(u.id, "user_42");
    assert_eq!(u.username, "alice");
    assert_eq!(u.first_name, "Alice");
    assert_eq!(u.last_name, "");
}

#[test]
fn user_of_a_message_on_behalf_of_a_chat() {
    let mut m = message(ChatKind::Supergroup, Some("hi"), None);
    m.from = None;
    m.sender_chat = Some(ChatInfo {
        id: -1001234,
        kind: ChatKind::Channel,
        username: Some("news".to_string()),
        first_name: None,
        last_name: Some("Feed".to_string()),
    });
    let u = get_user(&m);
    assert_eq!(u.id, "chat_-1001234");
    assert_eq!(u.username, "news");
    assert_eq!(u.first_name, "");
    assert_eq!(u.last_name, "Feed");
}

#[test]
fn user_of_a_message_falls_back_to_its_chat() {
    let mut m = message(ChatKind::Private, Some("hi"), None);
    m.from = None;
    m.chat.first_name = Some("Bob".to_string());
    let u = get_user(&m);
    assert_eq!(u.id, "chat_-100");
    assert_eq!(u.first_name, "Bob");
    assert_eq!(u.username, "");
}

#[test]
fn mention_of_the_bot_in_any_case() {
    let m = message(ChatKind::Group, Some("hi @mybot there"), Some(vec![mention(3, 6)]));
    assert!(bot().is_bot_mentioned(&m));
    let m = message(ChatKind::Group, Some("hi @MYBOT"), Some(vec![mention(3, 6)]));
    assert!(bot().is_bot_mentioned(&m));
}

#[test]
fn mention_of_someone_else() {
    let m = message(ChatKind::Group, Some("hi @otherbot"), Some(vec![mention(3, 9)]));
    assert!(!bot().is_bot_mentioned(&m));
    let m = message(ChatKind::Group, Some("hi @mybots"), Some(vec![mention(3, 7)]));
    assert!(!bot().is_bot_mentioned(&m));
}

#[test]
fn mention_needs_a_mention_entity_inside_the_text() {
    let other = TextEntity { kind: EntityKind::Other, offset: 3, length: 6 };
    let m = message(ChatKind::Group, Some("hi @mybot"), Some(vec![other]));
    assert!(!bot().is_bot_mentioned(&m));
    let m = message(ChatKind::Group, Some("hi @mybot"), Some(vec![mention(4, 6)]));
    assert!(!bot().is_bot_mentioned(&m));
    let m = message(ChatKind::Group, Some("hi @mybot"), None);
    assert!(!bot().is_bot_mentioned(&m));
    let m = message(ChatKind::Group, None, Some(vec![mention(3, 6)]));
    assert!(!bot().is_bot_mentioned(&m));
}

#[test]
fn mention_offsets_count_utf16_units() {
    // The emoji takes two UTF-16 code units.
    let m = message(ChatKind::Group, Some("\u{1F600} @mybot"), Some(vec![mention(3, 6)]));
    assert!(bot().is_bot_mentioned(&m));
    let m = message(ChatKind::Group, Some("\u{1F600} @mybot"), Some(vec![mention(2, 6)]));
    assert!(!bot().is_bot_mentioned(&m));
}

#[test]
fn reply_to_the_bot() {
    let mut m = message(ChatKind::Group, Some("yes"), None);
    assert!(!bot().is_reply_to_bot(&m));
    m.reply_to_sender = Some(Some(7));
    assert!(bot().is_reply_to_bot(&m));
    m.reply_to_sender = Some(Some(8));
    assert!(!bot().is_reply_to_bot(&m));
    m.reply_to_sender = Some(None);
    assert!(!bot().is_reply_to_bot(&m));
}

#[test]
fn private_chats_are_always_answered() {
    let m = message(ChatKind::Private, Some("hello"), None);
    assert!(bot().should_reply(&m));
}

#[test]
fn channels_are_never_answered() {
    let m = message(ChatKind::Channel, Some("hi @mybot"), Some(vec![mention(3, 6)]));
    assert!(!bot().should_reply(&m));
}

#[test]
fn groups_are_answered_when_the_bot_is_addressed() {
    let m = message(ChatKind::Group, Some("hello"), None);
    assert!(!bot().should_reply(&m));
    let m = message(ChatKind::Supergroup, Some("hi @MyBot"), Some(vec![mention(3, 6)]));
    assert!(bot().should_reply(&m));
    let mut m = message(ChatKind::Group, Some("hello"), None);
    m.reply_to_sender = Some(Some(7));
    assert!(bot().should_reply(&m));
}

#[test]
fn text_messages_reach_the_assistant() {
    let update = IncomingUpdate {
        update_id: 10,
        content: UpdateContent::Message(message(ChatKind::Private, Some("hello"), None)),
    };
    let m = bot().receive(&update).expect("a text message");
    assert_eq!(m.session, SessionId(Platform::Telegram, -100));
    assert_eq!(m.user.id, "user_42");
    let Content::Text(text) = &m.content;
    assert_eq!(text, "hello");
    assert!(m.should_reply);
}

#[test]
fn group_chatter_is_kept_without_an_answer() {
    let update = IncomingUpdate {
        update_id: 11,
        content: UpdateContent::Message(message(ChatKind::Group, Some("just talking"), None)),
    };
    let m = bot().receive(&update).expect("a text message");
    assert!(!m.should_reply);
}

#[test]
fn other_updates_do_not_reach_the_assistant() {
    let update = IncomingUpdate { update_id: 12, content: UpdateContent::Other };
    assert!(bot().receive(&update).is_none());
    let update = IncomingUpdate {
        update_id: 13,
        content: UpdateContent::Message(message(ChatKind::Private, None, None)),
    };
    assert!(bot().receive(&update).is_none());
}

#[test]
fn offset_moves_past_the_handled_update() {
    assert_eq!(next_offset(0), 1);
    assert_eq!(next_offset(41), 42);
    assert_eq!(next_offset(u32::MAX), u32::MAX as i64 + 1);
}

#[test]
fn channel_posts_reach_the_assistant_without_asking_for_an_answer() {
    let update = IncomingUpdate {
        update_id: 14,
        content: UpdateContent::Message(message(
            ChatKind::Channel,
            Some("hi @mybot"),
            Some(vec![mention(3, 6)]),
        )),
    };
    let m = bot().receive(&update).expect("a text message");
    assert_eq!(m.session, SessionId(Platform::Telegram, -100));
    assert!(!m.should_reply);
}
