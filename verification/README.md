# liquidity_bank

A deposit bank and a lending protocol for Solana, written in Verus.

- `src/` is the verified library. `bank.rs` holds the deposit bank's
  instructions (markets, the pause switch, banks, user deposit accounts, SOL
  and token deposits) and `program.rs` its entry points; `lending.rs` holds
  the lending protocol (reserves, positions, health factors, deposits,
  withdrawals, borrows, repayments, interest, liquidation, rewards,
  migration). Each operation's contract is stated over a specification
  function of its outcome; `bank_laws.rs` and `lending_laws.rs` prove the
  properties that relate operations. `chain.rs` holds the two calls into the
  Solana libraries (program-address search, the native mint id).
- `app/` is the Anchor program around the library: account layouts,
  account validation, the clock, account creation and token transfers.
- `tests/` runs the library on concrete values.
