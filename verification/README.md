# token_escrow

Two Soroban smart contracts, a fungible token and a two-party escrow, written
as verified state machines.

- `src/` (Verus): the contracts' state as plain values (`TokenContract`,
  `EscrowContract`), each entry point as a method whose contract equals a spec
  step function (`token_model.rs`, `escrow_model.rs`), and the laws proved of
  those steps (`token_laws.rs`, `escrow_laws.rs`; `supply.rs` sums balance
  tables). Accounts are numbered (`AccountId`). A call answers whose
  signature it needs and, for the escrow, which token transfer it asks for;
  the ledger sequence is an argument where a call reads it.
- `app/` (plain Rust): the `#[contract]` wrappers. Each entry point loads the
  storage it touches, numbers the addresses involved, runs the library, then
  requires the signature, performs the transfer, emits events and writes the
  new state back.
- `tests/`: scenarios on the library.
