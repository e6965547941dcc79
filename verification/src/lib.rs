//! Verified core of an AI prompt serving system: the message model, the
//! conversation store, the chat-completion request builder, and the
//! decisions taken by the terminal chat and the Telegram bot front-ends.

pub mod ai;
pub mod app;
pub mod chat;
pub mod config;
pub mod outgoing;
pub mod telegram;
pub mod text;
pub mod types;
pub mod typing;
