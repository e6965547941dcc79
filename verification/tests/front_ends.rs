use unai::app::{App, AppError};
use unai::chat::{chat_step, line_from_input, use_color, ChatPrompts, ChatStep, Line};
use unai::config::{AiConfig, Config, TelegramConfig};
use unai::outgoing::{outgoing_from_conversion, text_message};
use unai::types::{local_user_message, Content, Platform, SessionId, User};

fn config(telegram: Option<&str>) -> Config {
    Config {
        ai: AiConfig {
            api_base: "https://example.invalid/v1".to_string(),
            api_key: "SECRET-REDACTED".to_string(),
            model: "m".to_string(),
        },
        telegram: telegram.map(|t| TelegramConfig { bot_token: t.to_string() }),
    }
}

#[test]
fn markdown_answers_are_converted() {
    let m = text_message(12, "Hello world!");
    assert_eq!(m.chat_id, 12);
    assert_eq!(m.text, "Hello world\\!\n");
    assert!(m.markdown_v2);
}

#[test]
fn unsupported_tags_are_escaped() {
    let m = text_message(3, "<div>test</div>");
    assert_eq!(m.text, "<div\\>test</div\\>\n");
    assert!(m.markdown_v2);
}

#[test]
fn failed_conversion_falls_back_to_plain_text() {
    let m = outgoing_from_conversion(4, "*raw*", None);
    assert_eq!(m.text, "*raw*");
    assert!(!m.markdown_v2);
    let m = outgoing_from_conversion(4, "*raw*", Some("\\*raw\\*".to_string()));
    assert_eq!(m.text, "\\*raw\\*");
    assert!(m.markdown_v2);
}

#[test]
fn colour_only_on_a_capable_terminal() {
    assert!(use_color(true, false, None));
    assert!(use_color(true, false, Some("xterm-256color".to_string())));
    assert!(!use_color(true, false, Some("dumb".to_string())));
    assert!(!use_color(true, true, None));
    assert!(!use_color(false, false, None));
}

#[test]
fn plain_prompts() {
    let p = ChatPrompts::new(false);
    assert_eq!(p.you, "You > ");
    assert_eq!(p.ai, " AI > ");
}

#[test]
fn coloured_prompts() {
    let p = ChatPrompts::new(true);
    assert_eq!(p.you, "\x1b[1m\x1b[94mYou >\x1b[0m ");
    assert_eq!(p.ai, "\x1b[1m\x1b[34m AI >\x1b[0m ");
}

#[test]
fn answers_are_printed_after_the_prompt() {
    let p = ChatPrompts::new(false);
    let out = p.answer_output(&Content::Text("Hi!".to_string()));
    assert_eq!(out, " AI > Hi!\n");
}

#[test]
fn lines_lead_to_steps() {
    assert!(matches!(line_from_input(None), Line::End));
    assert!(matches!(chat_step(Line::End), ChatStep::Finish));
    assert!(matches!(chat_step(Line::Retry), ChatStep::Prompt));
    match chat_step(line_from_input(Some("hello".to_string()))) {
        ChatStep::Send(m) => {
            assert_eq!(m.session, SessionId(Platform::Local, 0));
            assert!(m.should_reply);
            assert_eq!(m.user.id, "");
            let Content::Text(text) = &m.content;
            assert_eq!(text, "hello");
        }
        _ => panic!("a typed line goes to the assistant"),
    }
}

#[test]
fn local_messages_come_from_the_anonymous_user() {
    let m = local_user_message("q".to_string());
    let anonymous = User::default();
    assert_eq!(m.user.id, anonymous.id);
    assert_eq!(m.user.username, "");
    assert_eq!(m.user.first_name, "");
    assert_eq!(m.user.last_name, "");
    assert_eq!(m.session, SessionId(Platform::Local, 0));
}

#[test]
fn telegram_bot_needs_its_token() {
    let app = App::new(config(None), "prompt".to_string());
    let err = app.telegram_bot_token().unwrap_err();
    assert_eq!(err, AppError::MissingTelegramConfig);
    assert_eq!(err.message(), "missing telegram config");
    let app = App::new(config(Some("123:abc")), "prompt".to_string());
    assert_eq!(app.telegram_bot_token().unwrap(), "123:abc");
}

#[test]
fn app_assistant_uses_the_configuration() {
    let app = App::new(config(None), "Be brief.".to_string());
    assert_eq!(app.prompt(), "Be brief.");
    assert_eq!(app.config().ai.model, "m");
    let a = app.assistant();
    assert_eq!(a.api_base(), "https://example.invalid/v1");
    assert_eq!(a.api_key(), "SECRET-REDACTED");
}
