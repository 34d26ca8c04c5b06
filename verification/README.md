# vaultpad

The decision logic of Vaultpad, an anti-manipulation token launchpad on
Solana, written in Verus and verified.

- `src/` — the verified library. Each instruction (`initialize_protocol`,
  `update_protocol`, `create_launch`, `buy`, `sell`, `claim_buyer_lock`,
  `claim_creator_lock`, `withdraw_charity`, `flag_same_funder`) is a function
  from the plain values of its accounts (and the clock) to the new account
  values and the lamport/token movements to perform, with a contract that
  states exactly when it is refused and what it produces. `state.rs` holds the
  accounts and the constant-product curve, `lock_timer.rs` the randomized lock
  timers, `fees.rs` the basis-point fees, `laws.rs` the properties that span
  instructions (wallet cap, creator ban, penalty locks, one-time claims, fee
  cap, curve well-formedness), `ledger.rs` the token and lamport accounting
  (vault contents, tracker balances as sums of locks, round trips).
- `app/` — the Anchor program around it: account validation and PDAs, the
  clock and rent sysvars, CPIs for lamport and token movements, logging.
- `tests/` — concrete scenarios for every instruction and error.
