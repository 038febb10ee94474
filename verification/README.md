# aero

Invoice-backed lending on Stellar: a liquidity pool for XLM and USDC, loans
whose terms come from the public inputs of a zero-knowledge proof, repayment
with simple interest, liquidation of overdue loans with a 10% bond, and a
mock USDC token.

- `src/` is the library, verified with Verus. The contracts' storage, the
  ledger clock and the token transfers they request are plain values
  (`state::ContractState`, `zk::types::VerifierState`,
  `mock_usdc::TokenState`); each contract entry point is a function from that
  state and its arguments to the next state and its result, with a contract
  that states both exactly. `laws.rs` states the properties that span calls.
- `app/` holds the Soroban contracts: they load storage into the library's
  state, check authorization, call the library, write the state back and
  perform the requested token transfers.
- `tests/` exercise the library on concrete values.
