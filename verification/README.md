# a2a_cli

A command-line client for interactive A2A (Agent-to-Agent) sessions with an
agent endpoint, authenticated with Microsoft identity tokens.

The library under `src/` holds the client's logic with Verus contracts:

- `config.rs` — the command line as plain values: authority resolution,
  which arguments a login or a session needs, message settings.
- `session.rs` — the cached session: expiry at a given time, status,
  where the cache file lives.
- `auth.rs` — the token policy: cached token, broker, refresh token, device
  code, as a step function from the session and the failures so far to the
  next step; how a successful request updates the session.
- `jwt.rs` — inspecting a JWT without verifying it: splitting, base64url and
  JSON decoding of the sections, the lines shown for each claim, expiry.
- `display.rs` — what is shown for a reply or a streamed event, and how the
  conversation context follows them.
- `repl.rs` — what a typed line means (skip, quit, or a message).
- `client.rs` — the A2A client bound to an endpoint and a bearer token.

`app/` is the program around it: argument parsing, the session file, the
MSAL token requests, the network calls and the terminal output.
