//! The terminal chat's decisions: whether to colour the prompts, how the
//! prompts read, and what each line the user types leads to.
use vstd::prelude::*;

use crate::types::{Content, UserMessage, UserMessageView, local_session, local_user_message, anonymous_user};

verus! {

/// The look of a prompt.
#[derive(Clone, Copy, Debug, PartialEq, Eq, Structural)]
pub enum PromptStyle {
    /// No styling at all.
    Plain,
    /// Bold, in the terminal's blue.
    BoldBlue,
    /// Bold, in the terminal's bright blue.
    BoldBrightBlue,
}

/// The ANSI code that resets every style.
pub open spec fn ansi_reset() -> Seq<char> {
    seq!['\x1b', '[', '0', 'm']
}

/// The ANSI code for bold text.
pub open spec fn ansi_bold() -> Seq<char> {
    seq!['\x1b', '[', '1', 'm']
}

/// The ANSI code for the terminal's blue foreground.
pub open spec fn ansi_blue() -> Seq<char> {
    seq!['\x1b', '[', '3', '4', 'm']
}

/// The ANSI code for the terminal's bright blue foreground.
pub open spec fn ansi_bright_blue() -> Seq<char> {
    seq!['\x1b', '[', '9', '4', 'm']
}

/// The escape codes that render a style: the code that turns it on (the
/// effects, then the foreground colour) and the one that turns it off. The
/// plain style has neither.
pub open spec fn style_codes(style: PromptStyle) -> (Seq<char>, Seq<char>) {
    match style {
        PromptStyle::Plain => (Seq::empty(), Seq::empty()),
        PromptStyle::BoldBlue => (ansi_bold() + ansi_blue(), ansi_reset()),
        PromptStyle::BoldBrightBlue => (ansi_bold() + ansi_bright_blue(), ansi_reset()),
    }
}

/// `anstyle::Style`'s `Display`, plain and alternate: renders the codes that
/// turn the style on (its effects, then its foreground colour) and off (the
/// reset code, elided for the plain style).
#[verifier::external_body]
fn render_style(style: PromptStyle) -> (res: (String, String))
    ensures
        (res.0@, res.1@) == style_codes(style),
{
    let style = match style {
        PromptStyle::Plain => anstyle::Style::new(),
        PromptStyle::BoldBlue => anstyle::Style::new().fg_color(
            Some(anstyle::Color::Ansi(anstyle::AnsiColor::Blue)),
        ).bold(),
        PromptStyle::BoldBrightBlue => anstyle::Style::new().fg_color(
            Some(anstyle::Color::Ansi(anstyle::AnsiColor::BrightBlue)),
        ).bold(),
    };
    (format!("{style}"), format!("{style:#}"))
}

/// Whether the terminal chat colours its prompts: only on a terminal, when
/// `NO_COLOR` is unset and `TERM` is not `dumb`.
pub open spec fn spec_use_color(stdout_is_terminal: bool, no_color_set: bool, term: Option<Seq<char>>) -> bool {
    &&& stdout_is_terminal
    &&& !no_color_set
    &&& term != Some(seq!['d', 'u', 'm', 'b'])
}

/// Whether the terminal chat colours its prompts, given whether standard
/// output is a terminal, whether `NO_COLOR` is set and the value of `TERM`.
pub fn use_color(stdout_is_terminal: bool, no_color_set: bool, term: Option<String>) -> (res: bool)
    ensures
        res == spec_use_color(
            stdout_is_terminal,
            no_color_set,
            match term {
                Some(t) => Some(t@),
                None => None,
            },
        ),
{
    if !stdout_is_terminal || no_color_set {
        return false;
    }
    match term {
        Some(t) => {
            let dumb = String::from_str("dumb");
            proof {
                reveal_strlit("dumb");
                assert(dumb@ =~= seq!['d', 'u', 'm', 'b']);
            }
            !(t == dumb)
        },
        None => true,
    }
}

/// The prompts of the terminal chat.
#[derive(Debug)]
pub struct ChatPrompts {
    /// Shown before the user types a line.
    pub you: String,
    /// Shown before the assistant's answer.
    pub ai: String,
}

/// A prompt: the label between the codes that turn the style on and off,
/// then a space.
pub open spec fn styled_prompt(style: PromptStyle, label: Seq<char>) -> Seq<char> {
    style_codes(style).0 + label + style_codes(style).1 + seq![' ']
}

/// The user's prompt label.
pub open spec fn you_label() -> Seq<char> {
    seq!['Y', 'o', 'u', ' ', '>']
}

/// The assistant's prompt label.
pub open spec fn ai_label() -> Seq<char> {
    seq![' ', 'A', 'I', ' ', '>']
}

fn prompt(style: PromptStyle, label: &str) -> (res: String)
    ensures
        res@ == styled_prompt(style, label@),
{
    let (on, off) = render_style(style);
    let mut text = on;
    text.append(label);
    text.append(off.as_str());
    text.append(" ");
    proof {
        reveal_strlit(" ");
        assert(text@ =~= styled_prompt(style, label@));
    }
    text
}

impl ChatPrompts {
    /// The prompts, coloured (bright blue for the user, blue for the
    /// assistant, both bold) when `use_style` holds, plain otherwise.
    pub fn new(use_style: bool) -> (res: Self)
        ensures
            use_style ==> res.you@ == ansi_bold() + ansi_bright_blue() + you_label() + ansi_reset()
                + seq![' '] && res.ai@ == ansi_bold() + ansi_blue() + ai_label() + ansi_reset()
                + seq![' '],
            !use_style ==> res.you@ == you_label() + seq![' '] && res.ai@ == ai_label() + seq![' '],
    {
        let (style_you, style_ai) = if use_style {
            (PromptStyle::BoldBrightBlue, PromptStyle::BoldBlue)
        } else {
            (PromptStyle::Plain, PromptStyle::Plain)
        };
        let you = prompt(style_you, "You >");
        let ai = prompt(style_ai, " AI >");
        proof {
            reveal_strlit("You >");
            reveal_strlit(" AI >");
            assert("You >"@ =~= you_label());
            assert(" AI >"@ =~= ai_label());
            if use_style {
                assert(you@ =~= ansi_bold() + ansi_bright_blue() + you_label() + ansi_reset() + seq![' ']);
                assert(ai@ =~= ansi_bold() + ansi_blue() + ai_label() + ansi_reset() + seq![' ']);
            } else {
                assert(you@ =~= you_label() + seq![' ']);
                assert(ai@ =~= ai_label() + seq![' ']);
            }
        }
        ChatPrompts { you, ai }
    }
}

/// What the user did at the prompt.
#[derive(Debug)]
pub enum Line {
    /// Typed a line.
    Message(String),
    /// Interrupted the line with Ctrl-C.
    Retry,
    /// Closed the input.
    End,
}

/// What the chat does next.
#[derive(Debug)]
pub enum ChatStep {
    /// Send this message to the assistant, then show its answer.
    Send(UserMessage),
    /// End the interrupted line and prompt again.
    Prompt,
    /// End the line and stop.
    Finish,
}

/// The line that reading standard input gave: a line, or the end of input.
pub fn line_from_input(read: Option<String>) -> (res: Line)
    ensures
        match read {
            Some(text) => res == Line::Message(text),
            None => res == Line::End,
        },
{
    match read {
        Some(text) => Line::Message(text),
        None => Line::End,
    }
}

/// What the chat does after the user's line: a typed line goes to the
/// assistant in the local session, asking for an answer.
pub fn chat_step(line: Line) -> (res: ChatStep)
    ensures
        match line {
            Line::Message(text) => res matches ChatStep::Send(m) && m@ == (UserMessageView {
                session: local_session(),
                user: anonymous_user(),
                text: text@,
                should_reply: true,
            }),
            Line::Retry => res matches ChatStep::Prompt,
            Line::End => res matches ChatStep::Finish,
        },
{
    match line {
        Line::Message(text) => ChatStep::Send(local_user_message(text)),
        Line::Retry => ChatStep::Prompt,
        Line::End => ChatStep::Finish,
    }
}

impl ChatPrompts {
    /// What the chat prints for the assistant's answer: the assistant's
    /// prompt, the answer's text and a line break.
    pub fn answer_output(&self, content: &Content) -> (res: String)
        ensures
            res@ == self.ai@ + content.text() + seq!['\n'],
    {
        let mut out = self.ai.clone();
        out.append(content.as_text().as_str());
        out.append("\n");
        proof {
            reveal_strlit("\n");
        }
        out
    }
}

/// `NO_COLOR` turns colour off, whatever `TERM` holds and whatever the
/// terminal.
pub proof fn law_no_color_turns_colour_off(stdout_is_terminal: bool, term: Option<Seq<char>>)
    ensures
        !spec_use_color(stdout_is_terminal, true, term),
{
}

/// Output that is not a terminal is never coloured, and neither is a `dumb`
/// terminal.
pub proof fn law_no_colour_off_terminal_or_on_dumb(no_color_set: bool, term: Option<Seq<char>>)
    ensures
        !spec_use_color(false, no_color_set, term),
        !spec_use_color(true, no_color_set, Some(seq!['d', 'u', 'm', 'b'])),
{
}

/// On a terminal, with `NO_COLOR` unset and `TERM` unset or anything but
/// `dumb`, the prompts are coloured.
pub proof fn law_colour_on_capable_terminal(term: Option<Seq<char>>)
    requires
        term != Some(seq!['d', 'u', 'm', 'b']),
    ensures
        spec_use_color(true, false, term),
{
}

} // verus!
