# conduit_core

The decision core of a signal-following gold trading engine, written in
Verus: every function in `src/` carries a contract and is proved against it,
except the few wrappers of the `regex` crate and of std's Unicode character
and case functions, whose contracts name what those calls return and are
trusted.

## Layout

- `src/pending_cancel_proof.rs` — the evidence rules that decide when a
  cancelled pending batch is proven unfilled, and the sticky reducer that
  feeds observations through them.
- `src/pending_validity.rs` — the pending-source memory: merging restored
  records, message-to-basket mapping, withdrawals and their tombstones.
- `src/rearm_reconcile.rs` — the rearm batch ledger and its reconciliation
  against broker evidence.
- `src/routing.rs` — routing of channel messages to format engines, basket
  ownership by slot, the aggregate views over all engines, and the load of
  the other engines that each engine counts against its limits.
- `src/recorded_broker.rs`, `src/recorded_broker/` — the offline broker tape:
  recording, replay, exact value comparison and the revision-token tape.
- `src/parser.rs` — the signal reader: classifiers, field readers and the
  ordered signal list of a message, over regular-expression matches, with
  prices in thousandths.
- `src/obserwacje.rs` — the feature catalogue of the observation record and
  its deterministic helpers.
- `src/settings.rs`, `src/rf_protection.rs`, `src/profit_budget.rs` —
  configuration vocabulary, defaults, and the integer and text rules read
  from it (entry ladder, official counts, session hours), and the checks of
  a risk-free floor evaluation that need no valuation.
- `src/sr_warmup.rs` — the support/resistance warmup snapshot and the checks
  it must pass before any state is built from it.
- `src/tekst.rs` — text helpers: trimming, splitting, UTF-8 lengths, decimal
  reading, and the number-to-text calls used behind stated contracts.
- `app/` — serde wire formats, the thread-local token scope, the replay
  driver glue, and the floating-point price geometry of entries, which stay
  outside the verified library.
- `tests/` — executable tests of the library.

Prices, volumes and money that the engine keeps as floats are modelled in
`src/` as integer broker points, volume-step units and cents.
