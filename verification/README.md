# spacemolt_viewer

The verified core of a multi-account desktop viewer for the SpaceMolt game.

- `src/` is the library, proved with Verus:
  - `ws_client` — what the WebSocket receive loop does when the server closes
    the socket (4001 stops, 4002 reconnects at once, 4003 waits the
    `retry_after` the reason names, other codes back off exponentially, at
    most 30 s), and reading `retry_after` from a close reason.
  - `game_api` — the read-only tool allowlist and the per-tool throttle that
    every game query passes.
  - `game_state` — merging state deltas, the event feed (newest first, at most
    200 entries) and its texts, message routing, refreshes after a reconnect.
  - `mcp_client` — session-expiry detection, when a call is retried after a
    new login, how a tool result is read, error messages.
  - `credential_store` — passwords in an IOTA Stronghold snapshot.
  - `account_manager` — the account list over the credential store.
  - `connection` — the decisions around connecting and disconnecting.
  - `models`, `text` — the game data and the character-level helpers.
- `app/` is the unverified rest: sockets, the MCP transport, files, tasks, and
  serde copies of the model types.
- `tests/` runs the library with the real outside crates.
