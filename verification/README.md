# aerolithdb

The aerolithsDB command-line client and the request-handling logic of its API
layer, written in Verus. The functions under `src/` carry contracts that Verus
proves, except the small wrappers marked `#[verifier::external_body]` around calls into
std and outside crates (serde_json, serde_yaml, toml, csv, flate2, uuid): their
contracts are trusted, not proved, and each one's doc comment says what it claims.

## Layout

- `src/` — the verified library.
  - `text`, `json`: strings and a JSON model with objects kept in key order
    (insertion laws: a key reads back what was written, other keys are untouched,
    order is kept).
  - `args`, `documents`, `listing`, `reports`, `stats`, `format`: what each CLI
    command asks the server for and how it lays out the answer.
  - `batch_ops`: batch put/delete/import/export — ID lists, batch ranges, field
    mappings, CSV/TSV tables (through the `csv` crate).
  - `config_tools`: configuration validation, templates, filtering, masking of
    secrets, `.env` and table renderings.
  - `saas`, `wallet`: the SaaS and crypto-wallet subcommands as API requests.
  - `integration`: the CLI integration cases and workflows, and their verdicts.
  - `tui_app`, `tui_classic`: the terminal control center as a state machine
    driven by key presses, with its laws (well-formedness is kept, quit is final,
    Tab and Shift+Tab undo each other, …).
  - `api`, `rest_api`, `graphql_api`, `payments`, `saas_service`, `cache`: the
    server side — gateway settings, gRPC/REST/GraphQL replies, the WebSocket
    connection registry, payment rules and replies, the SaaS service replies.
- `tests/` — tests run against the compiled library.
- `app/` — the `aerolithsdb-cli` program: argument parsing (clap), the HTTP client
  (reqwest), the terminal interface (ratatui, crossterm), file and console I/O, and
  the printing of what the library computes.
