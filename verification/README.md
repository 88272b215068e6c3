# kiro_relay

The logic of a relay that answers the Responses API by way of a messages backend, warns
its administrators when credits run low, and signs credentials in through a device
authorization flow. The logic is written in Verus: every function states what it returns,
and Verus proves it.

- `src/anthropic/` maps requests, gathers answers and numbers the events of a stream.
- `src/alert/` decides when a warning is sent, to whom and with which words.
- `src/admin/` and `src/kiro/` hold sign-in sessions and the requests of the sign-in flow.
- `src/json.rs`, `src/text.rs`, `src/table.rs`, `src/order.rs`, `src/rows.rs`,
  `src/status.rs`, `src/amount.rs`, `src/clock.rs` and `src/ids.rs` are what the rest is stated in.
- `app/` is the relay around the library: HTTP, files, mail and background tasks.
- `tests/` runs the library.

Proof functions whose names begin with `law_` state what holds of several functions
together. What is taken on trust from outside crates stands in functions marked
`external_body`, each with a comment on what it claims.
