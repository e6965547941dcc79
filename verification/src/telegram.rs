//! The Telegram bot's decisions: which incoming messages reach the assistant,
//! on behalf of whom, and whether the bot was addressed.
//!
//! A Telegram message is held here as the plain values the decisions read;
//! the network client converts the messages it fetches into these types.
use vstd::prelude::*;

use crate::text::{
    lemma_utf16_injective, lemma_utf16_of_char_shape, utf16_of_char,
    decimal, i64_to_decimal, lemma_utf16_prefix_at, u64_to_decimal, utf16_encode, utf16_units,
};
use crate::types::{
    Content, Platform, SessionId, User, UserMessage, UserMessageView, UserView,
};

verus! {

/// The kind of a Telegram chat.
#[derive(Clone, Copy, Debug, PartialEq, Eq, Structural)]
pub enum ChatKind {
    Private,
    Group,
    Supergroup,
    Channel,
}

/// A Telegram chat.
#[derive(Debug)]
pub struct ChatInfo {
    pub id: i64,
    pub kind: ChatKind,
    pub username: Option<String>,
    pub first_name: Option<String>,
    pub last_name: Option<String>,
}

/// The Telegram user who sent a message.
#[derive(Debug)]
pub struct SenderInfo {
    pub id: u64,
    pub username: Option<String>,
    pub first_name: String,
    pub last_name: Option<String>,
}

/// The kind of a marked-up span of a message's text.
#[derive(Clone, Copy, Debug, PartialEq, Eq, Structural)]
pub enum EntityKind {
    /// An `@username` mention.
    Mention,
    /// Any other kind of span.
    Other,
}

/// A marked-up span of a message's text, located in UTF-16 code units.
#[derive(Clone, Copy, Debug, PartialEq, Eq, Structural)]
pub struct TextEntity {
    pub kind: EntityKind,
    pub offset: u16,
    pub length: u16,
}

/// An incoming Telegram message.
#[derive(Debug)]
pub struct IncomingMessage {
    pub chat: ChatInfo,
    /// The user who sent it, when a user did.
    pub from: Option<SenderInfo>,
    /// The chat on whose behalf it was sent, when one did.
    pub sender_chat: Option<ChatInfo>,
    /// When the message replies to another one: the id of the user who sent
    /// that other message, if a user did.
    pub reply_to_sender: Option<Option<u64>>,
    pub text: Option<String>,
    pub entities: Option<Vec<TextEntity>>,
}

/// What an update from Telegram carries.
#[derive(Debug)]
pub enum UpdateContent {
    Message(IncomingMessage),
    /// Anything else than a message: the bot does not handle it.
    Other,
}

/// One update from Telegram.
#[derive(Debug)]
pub struct IncomingUpdate {
    pub update_id: u32,
    pub content: UpdateContent,
}

/// Who the bot is on Telegram.
#[derive(Debug)]
pub struct BotIdentity {
    pub user_id: u64,
    pub username: String,
}

/// ASCII lower-casing of one UTF-16 code unit: `A`..=`Z` map to `a`..=`z`,
/// every other unit is left unchanged.
pub open spec fn lower_unit(value: u16) -> u16 {
    if 65 <= value <= 90 {
        (value + 32) as u16
    } else {
        value
    }
}

/// Two runs of UTF-16 code units are equal up to ASCII case.
pub open spec fn ascii_case_eq(lhs: Seq<u16>, rhs: Seq<u16>) -> bool {
    &&& lhs.len() == rhs.len()
    &&& forall|i: int| 0 <= i < lhs.len() ==> lower_unit(#[trigger] lhs[i]) == lower_unit(rhs[i])
}

/// The UTF-16 code units of the mention `@username`.
pub open spec fn mention_target(username: Seq<char>) -> Seq<u16> {
    utf16_encode(seq!['@'] + username)
}

/// The entity is a mention whose span lies inside `units` and reads `target`
/// up to ASCII case.
pub open spec fn entity_mentions(units: Seq<u16>, entity: TextEntity, target: Seq<u16>) -> bool {
    &&& entity.kind == EntityKind::Mention
    &&& entity.offset + entity.length <= units.len()
    &&& ascii_case_eq(
        units.subrange(entity.offset as int, entity.offset + entity.length),
        target,
    )
}

/// The message's text mentions the user `username` in one of its entities.
pub open spec fn mentions_user(message: IncomingMessage, username: Seq<char>) -> bool {
    &&& message.text is Some
    &&& message.entities is Some
    &&& exists|i: int|
        0 <= i < message.entities->0@.len() && #[trigger] entity_mentions(
            utf16_encode(message.text->0@),
            message.entities->0@[i],
            mention_target(username),
        )
}

/// The text of an optional field, empty when the field is absent.
pub open spec fn text_or_empty(field: Option<String>) -> Seq<char> {
    match field {
        Some(s) => s@,
        None => Seq::empty(),
    }
}

/// The author of a message, as the assistant sees it: the sending user when
/// there is one (id `user_<id>`), otherwise the chat the message was sent on
/// behalf of, or else the chat it was sent in (id `chat_<id>`).
pub open spec fn author_of(message: IncomingMessage) -> UserView {
    match message.from {
        Some(user) => UserView {
            id: seq!['u', 's', 'e', 'r', '_'] + decimal(user.id as int),
            username: text_or_empty(user.username),
            first_name: user.first_name@,
            last_name: text_or_empty(user.last_name),
        },
        None => {
            let chat = match message.sender_chat {
                Some(c) => c,
                None => message.chat,
            };
            UserView {
                id: seq!['c', 'h', 'a', 't', '_'] + decimal(chat.id as int),
                username: text_or_empty(chat.username),
                first_name: text_or_empty(chat.first_name),
                last_name: text_or_empty(chat.last_name),
            }
        },
    }
}

/// Lower-casing twice is lower-casing once.
pub proof fn law_lowercase_is_idempotent(value: u16)
    ensures
        lower_unit(lower_unit(value)) == lower_unit(value),
{
}

/// Equality up to ASCII case is an equivalence: reflexive, symmetric and
/// transitive.
pub proof fn law_ascii_case_eq_is_equivalence(a: Seq<u16>, b: Seq<u16>, c: Seq<u16>)
    ensures
        ascii_case_eq(a, a),
        ascii_case_eq(a, b) ==> ascii_case_eq(b, a),
        ascii_case_eq(a, b) && ascii_case_eq(b, c) ==> ascii_case_eq(a, c),
{
    if ascii_case_eq(a, b) && ascii_case_eq(b, c) {
        assert forall|i: int| 0 <= i < a.len() implies lower_unit(#[trigger] a[i]) == lower_unit(c[i]) by {
            assert(lower_unit(b[i]) == lower_unit(c[i]));
        }
    }
    if ascii_case_eq(a, b) {
        assert forall|i: int| 0 <= i < b.len() implies lower_unit(#[trigger] b[i]) == lower_unit(a[i]) by {
            assert(lower_unit(a[i]) == lower_unit(b[i]));
        }
    }
}

/// A mention is recognised whatever the ASCII case of the name: an entity
/// that mentions one spelling mentions every spelling equal to it up to case.
pub proof fn law_mentions_ignore_ascii_case(
    units: Seq<u16>,
    entity: TextEntity,
    target: Seq<u16>,
    other: Seq<u16>,
)
    requires
        ascii_case_eq(target, other),
    ensures
        entity_mentions(units, entity, target) == entity_mentions(units, entity, other),
{
    let span = units.subrange(entity.offset as int, entity.offset + entity.length);
    law_ascii_case_eq_is_equivalence(span, target, other);
    law_ascii_case_eq_is_equivalence(target, other, span);
    law_ascii_case_eq_is_equivalence(span, other, target);
}

/// ASCII lower-casing of one character: `A`..=`Z` map to `a`..=`z`, every
/// other character is left unchanged.
pub open spec fn lower_char(c: char) -> char {
    if 'A' <= c <= 'Z' {
        ((c as u32) + 32) as char
    } else {
        c
    }
}

/// Two texts are equal up to ASCII case, character by character: what
/// `str::eq_ignore_ascii_case` tells (their ASCII lower-casings are equal).
pub open spec fn str_ascii_case_eq(a: Seq<char>, b: Seq<char>) -> bool {
    &&& a.len() == b.len()
    &&& forall|i: int| 0 <= i < a.len() ==> lower_char(#[trigger] a[i]) == lower_char(b[i])
}

/// The ASCII lower-casing of each code unit.
pub open spec fn lower_units(units: Seq<u16>) -> Seq<u16> {
    units.map_values(|u: u16| lower_unit(u))
}

/// The ASCII lower-casing of each character.
pub open spec fn lower_chars(text: Seq<char>) -> Seq<char> {
    text.map_values(|c: char| lower_char(c))
}

proof fn lemma_lower_units_of_char(c: char)
    ensures
        lower_units(utf16_of_char(c)) == utf16_of_char(lower_char(c)),
{
    lemma_utf16_of_char_shape(c);
    lemma_utf16_of_char_shape(lower_char(c));
    assert(lower_units(utf16_of_char(c)) =~= utf16_of_char(lower_char(c)));
}

/// Lower-casing the code units of a text gives the code units of the
/// lower-cased text.
proof fn lemma_lower_utf16(text: Seq<char>)
    ensures
        lower_units(utf16_encode(text)) == utf16_encode(lower_chars(text)),
    decreases text.len(),
{
    if text.len() > 0 {
        lemma_lower_utf16(text.drop_last());
        lemma_lower_units_of_char(text.last());
        assert(lower_chars(text).drop_last() =~= lower_chars(text.drop_last()));
        assert(lower_units(utf16_encode(text)) =~= lower_units(utf16_encode(text.drop_last()))
            + lower_units(utf16_of_char(text.last())));
    } else {
        assert(lower_units(utf16_encode(text)) =~= utf16_encode(lower_chars(text)));
    }
}

/// Comparing the UTF-16 code units of two texts up to ASCII case tells the
/// same as comparing the texts with `str::eq_ignore_ascii_case`.
pub proof fn law_utf16_comparison_agrees_with_str(a: Seq<char>, b: Seq<char>)
    ensures
        ascii_case_eq(utf16_encode(a), utf16_encode(b)) == str_ascii_case_eq(a, b),
{
    let ua = utf16_encode(a);
    let ub = utf16_encode(b);
    lemma_lower_utf16(a);
    lemma_lower_utf16(b);
    assert(ascii_case_eq(ua, ub) == (lower_units(ua) == lower_units(ub))) by {
        if ascii_case_eq(ua, ub) {
            assert(lower_units(ua) =~= lower_units(ub));
        }
        if lower_units(ua) == lower_units(ub) {
            assert forall|i: int| 0 <= i < ua.len() implies lower_unit(#[trigger] ua[i]) == lower_unit(
                ub[i],
            ) by {
                assert(lower_units(ua)[i] == lower_units(ub)[i]);
            }
        }
    }
    if lower_units(ua) == lower_units(ub) {
        lemma_utf16_injective(lower_chars(a), lower_chars(b));
        assert forall|i: int| 0 <= i < a.len() implies lower_char(#[trigger] a[i]) == lower_char(
            b[i],
        ) by {
            assert(lower_chars(a)[i] == lower_chars(b)[i]);
        }
    }
    if str_ascii_case_eq(a, b) {
        assert(lower_chars(a) =~= lower_chars(b));
    }
}

/// Lower-cases one UTF-16 code unit if it is an ASCII capital letter.
pub fn ascii_to_lowercase(value: u16) -> (res: u16)
    ensures
        res == lower_unit(value),
{
    if 65 <= value && value <= 90 {
        value + 32
    } else {
        value
    }
}

/// Compares two runs of UTF-16 code units, ignoring ASCII case.
pub fn eq_ignore_ascii_case(lhs: &[u16], rhs: &[u16]) -> (res: bool)
    ensures
        res == ascii_case_eq(lhs@, rhs@),
{
    if lhs.len() != rhs.len() {
        return false;
    }
    let mut i: usize = 0;
    while i < lhs.len()
        invariant
            lhs@.len() == rhs@.len(),
            i <= lhs@.len(),
            forall|j: int| 0 <= j < i ==> lower_unit(#[trigger] lhs@[j]) == lower_unit(rhs@[j]),
        decreases lhs@.len() - i,
    {
        if ascii_to_lowercase(lhs[i]) != ascii_to_lowercase(rhs[i]) {
            return false;
        }
        i = i + 1;
    }
    true
}

/// A copy of an optional text, empty when absent.
fn string_or_empty(field: &Option<String>) -> (res: String)
    ensures
        res@ == text_or_empty(*field),
{
    match field {
        Some(s) => s.clone(),
        None => String::new(),
    }
}

/// The user a Telegram message comes from: the sending user when there is one,
/// otherwise the chat it was sent on behalf of, or else the chat it was sent in.
pub fn get_user(message: &IncomingMessage) -> (res: User)
    ensures
        res@ == author_of(*message),
{
    match &message.from {
        Some(user) => {
            let mut id = String::new();
            id.append("user_");
            let number = u64_to_decimal(user.id);
            id.append(number.as_str());
            proof {
                reveal_strlit("user_");
                assert(id@ =~= seq!['u', 's', 'e', 'r', '_'] + decimal(user.id as int));
            }
            User {
                id,
                username: string_or_empty(&user.username),
                first_name: user.first_name.clone(),
                last_name: string_or_empty(&user.last_name),
            }
        },
        None => {
            let chat = match &message.sender_chat {
                Some(c) => c,
                None => &message.chat,
            };
            let mut id = String::new();
            id.append("chat_");
            let number = i64_to_decimal(chat.id);
            id.append(number.as_str());
            proof {
                reveal_strlit("chat_");
                assert(id@ =~= seq!['c', 'h', 'a', 't', '_'] + decimal(chat.id as int));
            }
            User {
                id,
                username: string_or_empty(&chat.username),
                first_name: string_or_empty(&chat.first_name),
                last_name: string_or_empty(&chat.last_name),
            }
        },
    }
}

/// The offset to ask Telegram for after having handled an update: the next
/// update's id.
pub fn next_offset(update_id: u32) -> (res: i64)
    ensures
        res == update_id + 1,
{
    update_id as i64 + 1
}

impl BotIdentity {
    /// The identity of a bot with the given user id and username.
    pub fn new(user_id: u64, username: String) -> (res: Self)
        ensures
            res.user_id == user_id,
            res.username == username,
    {
        BotIdentity { user_id, username }
    }

    /// Whether the bot should answer `message`: always in a private chat,
    /// never in a channel, and in a group only when the message replies to
    /// the bot or mentions it.
    pub open spec fn spec_should_reply(self, message: IncomingMessage) -> bool {
        match message.chat.kind {
            ChatKind::Private => true,
            ChatKind::Group | ChatKind::Supergroup => message.reply_to_sender == Some(
                Some(self.user_id),
            ) || mentions_user(message, self.username@),
            ChatKind::Channel => false,
        }
    }

    /// The message a Telegram update hands to the assistant: text messages
    /// only, in the session of their chat, from their author, asking for an
    /// answer when the bot was addressed.
    pub open spec fn spec_receive(self, update: IncomingUpdate) -> Option<UserMessageView> {
        match update.content {
            UpdateContent::Message(message) => match message.text {
                Some(text) => Some(
                    UserMessageView {
                        session: SessionId(Platform::Telegram, message.chat.id),
                        user: author_of(message),
                        text: text@,
                        should_reply: self.spec_should_reply(message),
                    },
                ),
                None => None,
            },
            UpdateContent::Other => None,
        }
    }

    /// Whether `message` replies to a message that the bot sent.
    pub fn is_reply_to_bot(&self, message: &IncomingMessage) -> (res: bool)
        ensures
            res == (message.reply_to_sender == Some(Some(self.user_id))),
    {
        match message.reply_to_sender {
            Some(Some(id)) => id == self.user_id,
            _ => false,
        }
    }

    /// The UTF-16 code units of `@username` for the bot.
    fn mention_units(&self) -> (res: Vec<u16>)
        ensures
            res@ == mention_target(self.username@),
    {
        let mut target: Vec<u16> = Vec::new();
        target.push(64);
        let mut name = utf16_units(self.username.as_str());
        target.append(&mut name);
        proof {
            lemma_utf16_prefix_at(self.username@);
        }
        target
    }

    /// Whether `message` mentions the bot by its username, ignoring ASCII case.
    pub fn is_bot_mentioned(&self, message: &IncomingMessage) -> (res: bool)
        ensures
            res == mentions_user(*message, self.username@),
    {
        let (text, entities) = match (&message.text, &message.entities) {
            (Some(text), Some(entities)) => (text, entities),
            _ => {
                return false;
            },
        };
        let units = utf16_units(text.as_str());
        let target = self.mention_units();
        let ghost target_view = mention_target(self.username@);
        let mut i: usize = 0;
        while i < entities.len()
            invariant
                i <= entities@.len(),
                units@ == utf16_encode(text@),
                target@ == target_view,
                target_view == mention_target(self.username@),
                message.text == Some(*text),
                message.entities == Some(*entities),
                forall|j: int|
                    0 <= j < i ==> !#[trigger] entity_mentions(units@, entities@[j], target_view),
            decreases entities@.len() - i,
        {
            let entity = entities[i];
            match entity.kind {
                EntityKind::Mention => {
                    let start = entity.offset as usize;
                    let end = start + entity.length as usize;
                    if end <= units.len() {
                        let span = &units.as_slice()[start..end];
                        if eq_ignore_ascii_case(span, target.as_slice()) {
                            assert(entity_mentions(
                                utf16_encode(message.text->0@),
                                message.entities->0@[i as int],
                                mention_target(self.username@),
                            ));
                            return true;
                        }
                    }
                },
                EntityKind::Other => {},
            }
            i = i + 1;
        }
        false
    }

    /// Whether the bot should answer `message`: always in a private chat,
    /// never in a channel, and in a group only when the message replies to
    /// the bot or mentions it.
    pub fn should_reply(&self, message: &IncomingMessage) -> (res: bool)
        ensures
            res == self.spec_should_reply(*message),
    {
        match message.chat.kind {
            ChatKind::Private => true,
            ChatKind::Group | ChatKind::Supergroup => {
                self.is_reply_to_bot(message) || self.is_bot_mentioned(message)
            },
            ChatKind::Channel => false,
        }
    }

    /// The message that a Telegram update hands to the assistant, if any: only
    /// updates that carry a text message do.
    pub fn receive(&self, update: &IncomingUpdate) -> (res: Option<UserMessage>)
        ensures
            match res {
                Some(m) => self.spec_receive(*update) == Some(m@),
                None => self.spec_receive(*update) is None,
            },
    {
        match &update.content {
            UpdateContent::Message(message) => match &message.text {
                Some(text) => {
                    let should_reply = self.should_reply(message);
                    Some(
                        UserMessage {
                            session: SessionId(Platform::Telegram, message.chat.id),
                            user: get_user(message),
                            content: Content::Text(text.clone()),
                            should_reply,
                        },
                    )
                },
                None => None,
            },
            UpdateContent::Other => None,
        }
    }
}

/// Every text message reaches the assistant, in the session of its chat; in
/// a private chat it always asks for an answer, in a channel never.
pub proof fn law_text_messages_reach_the_assistant(bot: BotIdentity, update: IncomingUpdate)
    requires
        update.content matches UpdateContent::Message(m) && m.text is Some,
    ensures
        bot.spec_receive(update) is Some,
        bot.spec_receive(update)->0.session == SessionId(
            Platform::Telegram,
            update.content->Message_0.chat.id,
        ),
        update.content->Message_0.chat.kind == ChatKind::Private ==> bot.spec_receive(
            update,
        )->0.should_reply,
        update.content->Message_0.chat.kind == ChatKind::Channel ==> !bot.spec_receive(
            update,
        )->0.should_reply,
        bot.spec_receive(update)->0.text == update.content->Message_0.text->0@,
        bot.spec_receive(update)->0.user == author_of(update.content->Message_0),
        bot.spec_receive(update)->0.should_reply == bot.spec_should_reply(
            update.content->Message_0,
        ),
{
}

/// Updates that carry no text message do not reach the assistant.
pub proof fn law_other_updates_are_ignored(bot: BotIdentity, update: IncomingUpdate)
    requires
        update.content is Other || update.content->Message_0.text is None,
    ensures
        bot.spec_receive(update) is None,
{
}

/// A mention anywhere counts: whenever some entity of the message, at any
/// index, is a mention whose UTF-16 span lies inside the text and reads
/// `@username` up to ASCII case, the message mentions `username`.
pub proof fn law_any_mention_entity_counts(message: IncomingMessage, username: Seq<char>, i: int)
    requires
        message.text is Some,
        message.entities is Some,
        0 <= i < message.entities->0@.len(),
        message.entities->0@[i].kind == EntityKind::Mention,
        message.entities->0@[i].offset + message.entities->0@[i].length <= utf16_encode(
            message.text->0@,
        ).len(),
        ascii_case_eq(
            utf16_encode(message.text->0@).subrange(
                message.entities->0@[i].offset as int,
                message.entities->0@[i].offset + message.entities->0@[i].length,
            ),
            utf16_encode(seq!['@'] + username),
        ),
    ensures
        mentions_user(message, username),
{
    assert(entity_mentions(
        utf16_encode(message.text->0@),
        message.entities->0@[i],
        mention_target(username),
    ));
}

/// A message mentions `username` only through such an entity: some entity is
/// a mention whose UTF-16 span lies inside the text and reads `@username` up
/// to ASCII case.
pub proof fn law_mention_needs_a_matching_entity(message: IncomingMessage, username: Seq<char>)
    requires
        mentions_user(message, username),
    ensures
        message.text is Some,
        message.entities is Some,
        exists|i: int|
            0 <= i < message.entities->0@.len() && (#[trigger] message.entities->0@[i]).kind
                == EntityKind::Mention && message.entities->0@[i].offset
                + message.entities->0@[i].length <= utf16_encode(message.text->0@).len()
                && ascii_case_eq(
                utf16_encode(message.text->0@).subrange(
                    message.entities->0@[i].offset as int,
                    message.entities->0@[i].offset + message.entities->0@[i].length,
                ),
                utf16_encode(seq!['@'] + username),
            ),
{
}

/// Adding entities after the existing ones never turns a mention into a
/// non-mention.
pub proof fn law_more_entities_keep_a_mention(
    message: IncomingMessage,
    longer: IncomingMessage,
    username: Seq<char>,
)
    requires
        mentions_user(message, username),
        longer.text == message.text,
        longer.entities is Some,
        message.entities->0@.len() <= longer.entities->0@.len(),
        forall|i: int|
            0 <= i < message.entities->0@.len() ==> #[trigger] longer.entities->0@[i]
                == message.entities->0@[i],
    ensures
        mentions_user(longer, username),
{
    let i = choose|i: int|
        0 <= i < message.entities->0@.len() && #[trigger] entity_mentions(
            utf16_encode(message.text->0@),
            message.entities->0@[i],
            mention_target(username),
        );
    assert(longer.entities->0@[i] == message.entities->0@[i]);
}

/// The bot always answers in a private chat and never in a channel.
pub proof fn law_private_answered_channel_not(bot: BotIdentity, message: IncomingMessage)
    ensures
        message.chat.kind == ChatKind::Private ==> bot.spec_should_reply(message),
        message.chat.kind == ChatKind::Channel ==> !bot.spec_should_reply(message),
{
}

/// Groups and supergroups are treated alike: two messages that differ only in
/// that one is in a group and the other in a supergroup get the same decision.
pub proof fn law_group_kinds_alike(
    bot: BotIdentity,
    in_group: IncomingMessage,
    in_supergroup: IncomingMessage,
)
    requires
        in_group.chat.kind == ChatKind::Group,
        in_supergroup.chat.kind == ChatKind::Supergroup,
        in_group.reply_to_sender == in_supergroup.reply_to_sender,
        in_group.text == in_supergroup.text,
        in_group.entities == in_supergroup.entities,
    ensures
        bot.spec_should_reply(in_group) == bot.spec_should_reply(in_supergroup),
{
}

/// In a group or a supergroup, a reply to a message of the bot gets an answer.
pub proof fn law_reply_to_bot_is_answered(bot: BotIdentity, message: IncomingMessage)
    requires
        message.chat.kind == ChatKind::Group || message.chat.kind == ChatKind::Supergroup,
        message.reply_to_sender == Some(Some(bot.user_id)),
    ensures
        bot.spec_should_reply(message),
{
}

/// In a group or a supergroup, a message that mentions the bot, through any
/// of its entities, gets an answer.
pub proof fn law_mention_of_bot_is_answered(bot: BotIdentity, message: IncomingMessage, i: int)
    requires
        message.chat.kind == ChatKind::Group || message.chat.kind == ChatKind::Supergroup,
        message.text is Some,
        message.entities is Some,
        0 <= i < message.entities->0@.len(),
        message.entities->0@[i].kind == EntityKind::Mention,
        message.entities->0@[i].offset + message.entities->0@[i].length <= utf16_encode(
            message.text->0@,
        ).len(),
        ascii_case_eq(
            utf16_encode(message.text->0@).subrange(
                message.entities->0@[i].offset as int,
                message.entities->0@[i].offset + message.entities->0@[i].length,
            ),
            utf16_encode(seq!['@'] + bot.username@),
        ),
    ensures
        bot.spec_should_reply(message),
{
    law_any_mention_entity_counts(message, bot.username@, i);
}

/// In a group or a supergroup, a message that neither replies to the bot nor
/// mentions it through any entity gets no answer.
pub proof fn law_unaddressed_group_message_is_not_answered(
    bot: BotIdentity,
    message: IncomingMessage,
)
    requires
        message.chat.kind == ChatKind::Group || message.chat.kind == ChatKind::Supergroup,
        message.reply_to_sender != Some(Some(bot.user_id)),
        message.text is Some && message.entities is Some ==> forall|i: int|
            0 <= i < message.entities->0@.len() ==> !((#[trigger] message.entities->0@[i]).kind
                == EntityKind::Mention && message.entities->0@[i].offset
                + message.entities->0@[i].length <= utf16_encode(message.text->0@).len()
                && ascii_case_eq(
                utf16_encode(message.text->0@).subrange(
                    message.entities->0@[i].offset as int,
                    message.entities->0@[i].offset + message.entities->0@[i].length,
                ),
                utf16_encode(seq!['@'] + bot.username@),
            )),
    ensures
        !bot.spec_should_reply(message),
{
    if mentions_user(message, bot.username@) {
        law_mention_needs_a_matching_entity(message, bot.username@);
    }
}

/// The author of a message sent by a user is that user: id `user_<id>`, and
/// each name copied from the user's matching field (empty when absent).
pub proof fn law_author_of_user_message(message: IncomingMessage)
    requires
        message.from is Some,
    ensures
        author_of(message).id == seq!['u', 's', 'e', 'r', '_'] + decimal(message.from->0.id as int),
        author_of(message).first_name == message.from->0.first_name@,
        author_of(message).username == match message.from->0.username {
            Some(name) => name@,
            None => Seq::<char>::empty(),
        },
        author_of(message).last_name == match message.from->0.last_name {
            Some(name) => name@,
            None => Seq::<char>::empty(),
        },
{
}

/// The author of a message sent by no user is the chat it was sent on behalf
/// of, or else the chat it was sent in: id `chat_<id>`, and each name copied
/// from that chat's matching field (empty when absent).
pub proof fn law_author_of_chat_message(message: IncomingMessage)
    requires
        message.from is None,
    ensures
        ({
            let chat = if message.sender_chat is Some {
                message.sender_chat->0
            } else {
                message.chat
            };
            &&& author_of(message).id == seq!['c', 'h', 'a', 't', '_'] + decimal(chat.id as int)
            &&& author_of(message).username == match chat.username {
                Some(name) => name@,
                None => Seq::<char>::empty(),
            }
            &&& author_of(message).first_name == match chat.first_name {
                Some(name) => name@,
                None => Seq::<char>::empty(),
            }
            &&& author_of(message).last_name == match chat.last_name {
                Some(name) => name@,
                None => Seq::<char>::empty(),
            }
        }),
{
}

} // verus!
