//! The configuration the program reads from its TOML file.
use vstd::prelude::*;

verus! {

/// The whole configuration.
#[derive(Clone, Debug)]
pub struct Config {
    pub ai: AiConfig,
    /// Needed only by the Telegram bot.
    pub telegram: Option<TelegramConfig>,
}

/// Where and how to reach the chat-completion service.
#[derive(Clone, Debug)]
pub struct AiConfig {
    pub api_base: String,
    pub api_key: String,
    pub model: String,
}

/// The Telegram bot's credentials.
#[derive(Clone, Debug)]
pub struct TelegramConfig {
    pub bot_token: String,
}

} // verus!
