# openwebui_chat

A command-line client for Open WebUI chats (`openwebui-chat start`, `send`,
`wait`, `history`, `delete-session`, `doctor`, `models`, `config init`),
whose logic is written in Verus and proved against its contracts.

## Layout

- `src/` — the verified library.
  - `cli` — the command-line grammar: options, subcommands, errors.
  - `config` — configuration layering (flags, environment, file, defaults).
  - `paths` — where the configuration and session files live.
  - `client` — the requests sent to the server and what each response means,
    including the chat-completion payload.
  - `json`, `messages` — a JSON value model and the text of a message's
    content and reasoning.
  - `history` — histories from the server or the local session, and their
    paginated Markdown rendering.
  - `wait` — the polling loop for a completion, as a state machine.
  - `session` — the local JSONL session records.
  - `program` — which exchange each command starts and what is recorded.
  - `commands`, `reports` — prompts, key masking, diagnostics and listings.
  - `errors` — the messages shown for each error.
  - `text`, `ids` — decimal text, number parsing, trimming, word splitting,
    and fresh identifiers.
- `app/` — the program around the library: argument reading, HTTP, files,
  clock, processes, serde conversions and printing.
- `tests/` — tests of the library's public functions.
