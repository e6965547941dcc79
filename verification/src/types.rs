//! The message model shared by every front-end and by the assistant.
use vstd::prelude::*;

verus! {

/// Where a conversation takes place.
#[derive(Clone, Copy, Debug, PartialEq, Eq, Hash, Structural)]
pub enum Platform {
    Local,
    Telegram,
}

/// A conversation: the platform and the platform's own chat identifier.
#[derive(Clone, Copy, Debug, PartialEq, Eq, Hash, Structural)]
pub struct SessionId(pub Platform, pub i64);

/// The person (or chat) a message comes from.
#[derive(Debug)]
pub struct User {
    pub id: String,
    pub username: String,
    pub first_name: String,
    pub last_name: String,
}

/// The body of a message.
#[derive(Debug)]
pub enum Content {
    Text(String),
}

/// A message written by a user.
#[derive(Debug)]
pub struct UserMessage {
    pub session: SessionId,
    pub user: User,
    pub content: Content,
    /// Whether the assistant is expected to answer this message; when it is
    /// not, the message is only remembered as context.
    pub should_reply: bool,
}

/// A message written by the assistant.
#[derive(Debug)]
pub struct AssistantMessage {
    pub session: SessionId,
    pub content: Content,
}

/// What a user is, as text.
pub struct UserView {
    pub id: Seq<char>,
    pub username: Seq<char>,
    pub first_name: Seq<char>,
    pub last_name: Seq<char>,
}

/// What a user's message is: its session, its author, its text and whether it
/// asks for an answer.
pub struct UserMessageView {
    pub session: SessionId,
    pub user: UserView,
    pub text: Seq<char>,
    pub should_reply: bool,
}

/// What an assistant's message is: its session and its text.
pub struct AssistantMessageView {
    pub session: SessionId,
    pub text: Seq<char>,
}

impl View for User {
    type V = UserView;

    open spec fn view(&self) -> UserView {
        UserView {
            id: self.id@,
            username: self.username@,
            first_name: self.first_name@,
            last_name: self.last_name@,
        }
    }
}

impl View for UserMessage {
    type V = UserMessageView;

    open spec fn view(&self) -> UserMessageView {
        UserMessageView {
            session: self.session,
            user: self.user@,
            text: self.content.text(),
            should_reply: self.should_reply,
        }
    }
}

impl View for AssistantMessage {
    type V = AssistantMessageView;

    open spec fn view(&self) -> AssistantMessageView {
        AssistantMessageView { session: self.session, text: self.content.text() }
    }
}

/// The anonymous user: every field is empty.
pub open spec fn anonymous_user() -> UserView {
    UserView {
        id: Seq::empty(),
        username: Seq::empty(),
        first_name: Seq::empty(),
        last_name: Seq::empty(),
    }
}

impl Content {
    /// The text that the content carries.
    pub open spec fn text(self) -> Seq<char> {
        match self {
            Content::Text(t) => t@,
        }
    }

    /// Borrows the text that the content carries.
    pub fn as_text(&self) -> (res: &String)
        ensures
            res@ == self.text(),
    {
        match self {
            Content::Text(t) => t,
        }
    }
}

impl Clone for User {
    fn clone(&self) -> (res: Self)
        ensures
            res == *self,
    {
        User {
            id: self.id.clone(),
            username: self.username.clone(),
            first_name: self.first_name.clone(),
            last_name: self.last_name.clone(),
        }
    }
}

impl Default for User {
    /// The anonymous user: every field is empty.
    fn default() -> (res: Self)
        ensures
            res@ == anonymous_user(),
    {
        User { id: String::new(), username: String::new(), first_name: String::new(), last_name: String::new() }
    }
}

impl Clone for Content {
    fn clone(&self) -> (res: Self)
        ensures
            res == *self,
    {
        match self {
            Content::Text(t) => Content::Text(t.clone()),
        }
    }
}

impl Clone for UserMessage {
    fn clone(&self) -> (res: Self)
        ensures
            res == *self,
    {
        UserMessage {
            session: self.session,
            user: self.user.clone(),
            content: self.content.clone(),
            should_reply: self.should_reply,
        }
    }
}

impl Clone for AssistantMessage {
    fn clone(&self) -> (res: Self)
        ensures
            res == *self,
    {
        AssistantMessage { session: self.session, content: self.content.clone() }
    }
}

/// The session of the local front-ends (the one-shot question and the
/// terminal chat): there is only one local conversation.
pub open spec fn local_session() -> SessionId {
    SessionId(Platform::Local, 0)
}

/// The message that a local front-end sends for a line the user typed: the
/// local session, the anonymous user, the text, and a request for an answer.
pub fn local_user_message(text: String) -> (res: UserMessage)
    ensures
        res@ == (UserMessageView {
            session: local_session(),
            user: anonymous_user(),
            text: text@,
            should_reply: true,
        }),
{
    UserMessage {
        session: SessionId(Platform::Local, 0),
        user: User::default(),
        content: Content::Text(text),
        should_reply: true,
    }
}

} // verus!
