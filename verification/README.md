# mini_bot_rs

The decision logic of MiniBot, a small AI agent runtime, written in Verus with
its contracts proved.

- `src/` — the verified library:
  - `agent::history` — the bounded conversation history that keeps system messages;
  - `i18n` — locales, the message catalog and `{}` placeholder filling;
  - `providers` — message types, provider selection, and the reading of MiniMax replies;
  - `tools` — the file and shell tools: argument parsing, path confinement,
    allow-listing, and the reports built from each I/O outcome;
  - `gateway` — the webhook and health answers;
  - `memory` — the stored entry type;
  - `text` — character-level string helpers.
- `app/` — the I/O around it: HTTP (axum, reqwest), SQLite, the file system,
  processes and the environment.
- `tests/` — tests of the library on concrete values.

Shell commands are refused unless an allow-list admits them, and files and
written contents are limited to 10 MB; both are decided in the verified
library. A command is stopped after 30 seconds: the library fixes the limit
and the report for it, and `app/` enforces it with a timer, outside the proofs. The 10 MB and 30 s
limits are fixed constants (`MAX_FILE_SIZE`, `COMMAND_TIMEOUT_SECS`); nothing
configures them.
