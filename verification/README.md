# uprava_core

The verified core of a distributed agent control plane and its node daemon, written
in Verus. The library holds the decisions; everything that talks to the network, the
disk or other processes stays outside it.

## Layout

- `src/` — the library, verified but for the calls into other crates (listed below):
  - `states`, `protocol`, `text`, `split`, `strmap`, `order`: the vocabulary (states
    and their stored names, command and event envelopes, JSON values, strings, maps);
  - `node_state`, `command_flow`, `dispatch`, `retention`, `codex`, `workspace`,
    `git`, `control`: the node daemon (durable state and outbox, idempotent command
    handling, the built-in and Codex providers, outbox retention, workspace
    validation, the control channel);
  - `policy`, `commands`, `projection`, `session_views`, `agent`, `auth`, `client_log`,
    `server_config`: the control plane (what commands a session accepts and offers,
    how events project onto turns, runtimes and sessions, the agent projection and
    artifact tree, credentials and enrollment, the client log record, settings);
  - `node_config`, `managed_config`, `versions`, `logging`, `urls`, `system`:
    settings from the environment, Codex version checks, log rotation plans, URLs,
    and the clock and random identifiers.
  - `admission`: what a stored node event becomes when it arrives (accepted,
    repeated, or in conflict) and what a gap in a stream marks.
- `tests/` — scenarios run against the compiled library.
- `app/` — the node daemon program: environment, state file, HTTP enrollment and
  heartbeats, the WebSocket control channel, workspace probes and the Codex process.

## What is trusted

Verus believes, without proof, the contracts of these calls into other crates and
into std:

- `text`: `String::push` appends one character.
- `system`: `new_uuid` (`uuid::Uuid::new_v4` written out: 36 characters with four
  hyphens); and, for the clock, the type `std::time::SystemTime` with
  `system_time_now` (`SystemTime::now`), `since_unix_epoch`
  (`SystemTime::duration_since(UNIX_EPOCH)`) and `duration_millis`
  (`Duration::as_millis`), of which nothing is stated (a reading before the epoch
  counts as the epoch itself).
- `auth`: `sha256` (`sha2::Sha256::digest`), named `sha256_digest`, 32 bytes.
- `urls`: `parse_url`, `url_join`, `url_scheme`, `url_set_scheme`, `url_username`,
  `url_password` and `url_host` (`url::Url` through `reqwest::Url`), with their results
  named `url_serialization`, `url_join_result`, `url_scheme_of`, `url_with_scheme`,
  `url_username_of`, `url_password_of` and `url_host_of`.
