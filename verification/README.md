# tg_cli

A terminal Telegram client built from a daemon (`tgcd`) that owns the TDLib
connection and clients (`tg`, `tg tui`, `tg-tui`) that talk to it over a Unix
socket. The decisions all of these programs make are a Verus-verified
library; the programs around it do the I/O.

## Layout

- `src/` — the verified library.
  - `json`, `protocol`, `frame`: the JSON model, the messages exchanged with
    the daemon, and the length-prefixed wire framing.
  - `handler`: what the daemon does for each request (answer, ask TDLib, read
    the cache first, notify TDLib, or first find a chat named by username).
  - `events`: what the daemon does with TDLib updates (cache writes, client
    events, the authorization wait, where each TDLib value goes).
  - `config`, `common_config`, `paths`: configuration defaults and paths.
  - `cli`, `output`: the `tg` commands, their requests, and what they print.
  - `tui`, `tui_app`: the two terminal interfaces as state machines, and what
    each frame shows.
  - `line_client`, `line_daemon`: the decisions of the line-protocol client
    and of the daemon that calls TDLib through typed functions. No program
    in `app/` runs them; `tg`, `tg-tui` and `tgcd` use the framed protocol.
  - `models`, `cache`, `display`, `text`: shared types and text helpers.
- `tests/` — tests of the library on concrete values.
- `app/` — the executables: sockets, terminal, SQLite, TDLib's C interface,
  configuration files and the keyring.
