//! The application: a configuration and a prompt, from which the assistant and
//! the front-ends are set up.
use vstd::prelude::*;

use crate::ai::Assistant;
use crate::config::Config;

verus! {

/// Why the application cannot start a front-end.
#[derive(Clone, Copy, Debug, PartialEq, Eq, Structural)]
pub enum AppError {
    /// The Telegram bot was asked for, but the configuration has no
    /// `[telegram]` table.
    MissingTelegramConfig,
}

impl AppError {
    /// The error's description.
    pub fn message(&self) -> (res: &'static str)
        ensures
            *self == AppError::MissingTelegramConfig ==> res@ == "missing telegram config"@,
    {
        match self {
            AppError::MissingTelegramConfig => "missing telegram config",
        }
    }
}

/// The application's configuration and prompt.
pub struct App {
    config: Config,
    prompt: String,
}

impl App {
    pub closed spec fn spec_config(&self) -> Config {
        self.config
    }

    pub closed spec fn spec_prompt(&self) -> Seq<char> {
        self.prompt@
    }

    /// An application with the given configuration and prompt.
    pub fn new(config: Config, prompt: String) -> (res: Self)
        ensures
            res.spec_config() == config,
            res.spec_prompt() == prompt@,
    {
        App { config, prompt }
    }

    /// The configuration.
    pub fn config(&self) -> (res: &Config)
        ensures
            *res == self.spec_config(),
    {
        &self.config
    }

    /// The prompt that opens every conversation.
    pub fn prompt(&self) -> (res: &str)
        ensures
            res@ == self.spec_prompt(),
    {
        self.prompt.as_str()
    }

    /// The assistant of the application: the configured service and model,
    /// with the application's prompt.
    pub fn assistant(&self) -> (res: Assistant)
        ensures
            res.spec_api_base() == self.spec_config().ai.api_base@,
            res.spec_api_key() == self.spec_config().ai.api_key@,
            res.spec_model() == self.spec_config().ai.model@,
            res.spec_prompt() == self.spec_prompt(),
    {
        let ai = &self.config.ai;
        Assistant::new(ai.api_base.as_str(), ai.api_key.as_str(), ai.model.as_str(), self.prompt.as_str())
    }

    /// The Telegram bot's token, which the Telegram front-end needs: an error
    /// when the configuration has no `[telegram]` table.
    pub fn telegram_bot_token(&self) -> (res: Result<&str, AppError>)
        ensures
            match self.spec_config().telegram {
                Some(t) => res matches Ok(token) && token@ == t.bot_token@,
                None => res == Err::<&str, AppError>(AppError::MissingTelegramConfig),
            },
    {
        match &self.config.telegram {
            Some(t) => Ok(t.bot_token.as_str()),
            None => Err(AppError::MissingTelegramConfig),
        }
    }
}

} // verus!
