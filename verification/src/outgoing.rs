//! How the Telegram bot words an answer: the assistant writes Markdown, which
//! Telegram shows as formatted text once it is converted to Telegram's
//! MarkdownV2 dialect; an answer that cannot be converted is sent as it is.
use vstd::prelude::*;

verus! {

/// What to do with Markdown constructs that MarkdownV2 cannot express.
#[derive(Clone, Copy, Debug, PartialEq, Eq, Structural)]
pub enum UnsupportedTags {
    /// Show them as plain, escaped text.
    Escape,
    /// Drop them.
    Remove,
    /// Keep them unchanged.
    Keep,
}

/// The text message the bot sends to a chat.
#[derive(Debug)]
pub struct OutgoingText {
    pub chat_id: i64,
    pub text: String,
    /// Whether Telegram is to read `text` as MarkdownV2 (otherwise as plain text).
    pub markdown_v2: bool,
}

/// What an outgoing text message is.
pub struct OutgoingTextView {
    pub chat_id: i64,
    pub text: Seq<char>,
    pub markdown_v2: bool,
}

impl View for OutgoingText {
    type V = OutgoingTextView;

    open spec fn view(&self) -> OutgoingTextView {
        OutgoingTextView { chat_id: self.chat_id, text: self.text@, markdown_v2: self.markdown_v2 }
    }
}

/// The MarkdownV2 rendering of a Markdown text that
/// `telegram_markdown_v2::convert_with_strategy` gives, or nothing when the
/// conversion fails.
pub uninterp spec fn markdown_v2(text: Seq<char>, strategy: UnsupportedTags) -> Option<Seq<char>>;

/// The message that carries `text` to `chat_id`, given the outcome of its
/// conversion to MarkdownV2: the converted text, read as MarkdownV2, when
/// there is one; the text itself, read as plain text, otherwise.
pub open spec fn spec_outgoing(
    chat_id: i64,
    text: Seq<char>,
    converted: Option<Seq<char>>,
) -> OutgoingTextView {
    match converted {
        Some(markdown) => OutgoingTextView { chat_id, text: markdown, markdown_v2: true },
        None => OutgoingTextView { chat_id, text, markdown_v2: false },
    }
}

/// The conversion of a Markdown text to MarkdownV2 by
/// `telegram_markdown_v2::convert_with_strategy`, which is a function of the
/// text and of the strategy alone; `None` when it reports an error.
#[verifier::external_body]
fn convert_markdown(text: &str, strategy: UnsupportedTags) -> (res: Option<String>)
    ensures
        match res {
            Some(s) => markdown_v2(text@, strategy) == Some(s@),
            None => markdown_v2(text@, strategy) is None,
        },
{
    let strategy = match strategy {
        UnsupportedTags::Escape => telegram_markdown_v2::UnsupportedTagsStrategy::Escape,
        UnsupportedTags::Remove => telegram_markdown_v2::UnsupportedTagsStrategy::Remove,
        UnsupportedTags::Keep => telegram_markdown_v2::UnsupportedTagsStrategy::Keep,
    };
    telegram_markdown_v2::convert_with_strategy(text, strategy).ok()
}

/// The message that carries `text` to `chat_id`, given the outcome of its
/// conversion to MarkdownV2 (`converted`).
pub fn outgoing_from_conversion(chat_id: i64, text: &str, converted: Option<String>) -> (res:
    OutgoingText)
    ensures
        res@ == spec_outgoing(
            chat_id,
            text@,
            match converted {
                Some(s) => Some(s@),
                None => None,
            },
        ),
{
    match converted {
        Some(markdown) => OutgoingText { chat_id, text: markdown, markdown_v2: true },
        None => OutgoingText { chat_id, text: text.to_owned(), markdown_v2: false },
    }
}

/// The message that carries the assistant's answer `text` to `chat_id`: its
/// MarkdownV2 rendering, with unsupported constructs escaped, or the text
/// itself when the rendering fails.
pub fn text_message(chat_id: i64, text: &str) -> (res: OutgoingText)
    ensures
        res@ == spec_outgoing(chat_id, text@, markdown_v2(text@, UnsupportedTags::Escape)),
{
    let converted = convert_markdown(text, UnsupportedTags::Escape);
    outgoing_from_conversion(chat_id, text, converted)
}

/// A converted answer is sent as converted and read as MarkdownV2; one whose
/// conversion failed is sent unchanged, as plain text; either way to the
/// given chat.
pub proof fn law_outgoing_falls_back_to_plain(
    chat_id: i64,
    text: Seq<char>,
    converted: Option<Seq<char>>,
)
    ensures
        spec_outgoing(chat_id, text, converted).chat_id == chat_id,
        converted is Some ==> spec_outgoing(chat_id, text, converted).text == converted->0
            && spec_outgoing(chat_id, text, converted).markdown_v2,
        converted is None ==> spec_outgoing(chat_id, text, converted).text == text
            && !spec_outgoing(chat_id, text, converted).markdown_v2,
{
}

} // verus!
