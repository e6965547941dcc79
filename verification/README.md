# unai

unai (You & AI) serves an AI prompt: a one-shot question, an interactive
terminal chat, or a Telegram bot, all answered by a chat-completion service.

The library under `src/` holds the program's logic, verified with Verus:

- `types`: the message model (sessions, users, messages).
- `ai`: the assistant's settings, the per-conversation history, the
  chat-completion request built from it, participant-name sanitizing and the
  reply extracted from the service's answer.
- `telegram`: which Telegram updates reach the assistant, their author, and
  whether the bot was addressed (private chat, reply to the bot, or a mention
  compared in UTF-16 code units, ignoring ASCII case).
- `typing`: the typing-indicator schedule of the Telegram bot.
- `outgoing`: how an answer is worded for Telegram (MarkdownV2, or plain text
  when the conversion fails).
- `chat`: the terminal chat's prompts and line handling.
- `app`, `config`: the configuration and the application built from it.
- `text`: UTF-16 and decimal encodings.

`app/` is the program around it: command-line options, the configuration
file, the async runtime, the network clients and the terminal.
