# StoryVote

A self-hosted, single-session agile story point estimation server. Everyone
who opens the shared URL joins one estimation session, picks a card from the
deck (0, 1, 2, 3, 5, 8, 13, 21, 34, 55, ?), and the host reveals the votes and
starts new rounds. All state lives in memory.

## Layout

- `src/` — the verified library (Verus):
  - `text.rs`: Unicode whitespace trimming, ASCII case folding, decimal
    rendering, with their specifications.
  - `state.rs`: the session model (`SessionView`), its invariant, and the
    executable `SharedState` whose operations are proved against the model.
  - `laws.rs`: properties that span operations (host hand-over, rejoining,
    vote visibility, round reset, ...).
  - `session.rs`: the decisions of one websocket connection.
  - `messages.rs`, `http.rs`, `startup.rs`, `ui.rs`: events, join-request
    check, bind address and share URLs, and the browser page.
- `app/` — the server process: command line, async locking and broadcast,
  axum routes and websocket I/O, JSON (serde) forms of the events, DNS and
  local address lookups.
- `tests/` — tests of the library.
