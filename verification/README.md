# creditra-credit

A credit contract for CosmWasm chains, verified with Verus: credit lines and draws with audit
trails, a protocol fee split between treasury and bounty pool, collateral in several tokens with
risk weights, late-fee and oracle configuration.

- `src/contract.rs` holds the entry points, `src/fees.rs`, `src/collateral.rs` and
  `src/penalties.rs` the rules behind them, `src/msg.rs`, `src/state.rs`, `src/error.rs` and
  `src/chain.rs` the types.
- `src/ledger.rs` models everything that the contract stores. What a request does is stated as a
  step of that model: the state it leaves behind, and what is replied.
- `src/store.rs` is the boundary to the chain. Its functions call `cw_storage_plus` and
  `cosmwasm_std` and are trusted; records are stored as JSON objects, which `serde_json` holds on
  the way. Two more trusted calls, reading an amount and multiplying by a ratio, stand in
  `src/text.rs` and `src/contract.rs`.
- `src/limits.rs` tells beforehand whether a request stays within what counters, amounts and keys
  can hold, or tests and then calls. `src/records.rs` reads credit lines, draws and audit trails.
- `src/laws.rs` and the modules below it prove what holds of the contract as a whole.
- `app/` wires the library to a chain: JSON messages and entry points. Version bookkeeping, price
  resolution and the reports over the records are supplied from outside.
