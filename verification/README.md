# aisudo

A local authorization broker for AI agents: every command, secret, file or
network access an agent asks for is classified, matched against an ordered
policy (first match wins, defaults for the rest), and then allowed, allowed
with an alert, escalated to a human on Telegram, or denied. Approvals can
leave scoped, expiring grants; nonces and expiry stop replays.

## Layout

- `src/` — the verified library (Verus). Each module states its behaviour
  in `requires`/`ensures` contracts over mathematical models and proves it;
  the `law_*` proof functions state properties that span several functions.
  - `text`, `codec`, `clock`: character-level helpers, Base64/SHA-256 and
    time, the latter two behind small trusted wrappers of their crates.
  - `protocol`: apps, actions, decisions, requests and their hashes.
  - `policy`: rule matching and evaluation.
  - `grants`, `crypto`, `secrets`, `audit`, `config`: grants, paired devices
    and Ed25519 keys, secret metadata, backends and the scanner's rules, the
    audit log's queries, and the file layout under `~/.aisudo`.
  - `transport`: the Telegram approval message, its keyboard and the parsing
    of tapped buttons.
  - `daemon`, `client`, `setup`, `cli`: the daemon's decisions, the
    command-line client's steps, first-run setup and the command line.
- `app/` — the `aisudo` program around the library: command-line parsing,
  files, the socket, the Telegram Bot API and the async runtime.
- `tests/` — tests of the library.
