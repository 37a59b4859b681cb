# radio_core

Shared radio types (frequency ranges, capability flags, modes, tune
requests, errors) and the decision logic of a URC-200 radio driver, verified
with Verus:

- `src/caps.rs`, `src/mode.rs`, `src/radio.rs`, `src/error.rs` — the data types.
- `src/urc200.rs` — band selection, mode mapping, tune planning, PTT,
  raw-exchange replies, state snapshots, the URC-200 capability declaration.
- `src/exchange.rs` — running a list of commands one answer at a time.
- `src/scratch.rs` — the scratch-slot tune sequence and slot selection.
- `src/waterfall.rs` — spectrum frame encoding, SDR retune requests and the
  waterfall connection's event rule.
- `src/serial.rs` — serial line settings.
- `src/laws.rs` — properties that span several functions.

`app/` holds the async runtime around the library (serial transport,
dispatcher glue, HTTP / WebSocket routes) and the serde / thiserror forms of
the library types.
