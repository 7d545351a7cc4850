# oadiscord

The decision logic of an OpenAction (Stream Deck) plugin that controls the
Discord desktop client over its local RPC channel, verified with Verus.

- `src/json.rs` — the text of the RPC requests the buttons send (strings
  are escaped by `serde_json`, whose escape rules are stated; the framing
  and the numbers are proved).
- `src/actions.rs` — what each button asks for and what it shows afterwards.
- `src/settings.rs` — the stored Discord configuration, when a received one
  calls for reconnecting, and how errors are recorded.
- `src/connection.rs` — the connection set-up as a state machine: the order
  of the RPC calls, the error message of each failure, and the authorization
  flow when no access token is stored.
- `src/reconnect.rs` — the flag that keeps a single reconnect loop running;
  the loop stops on its own success, before the flag is cleared.

`app/` holds the plugin itself: the OpenAction handlers, the IPC client and
the tasks, which perform what the library decides.
