# agx_ecosystem

A presale and staking program for the AGX token, split in two:

- `src/` is the verified library. Each instruction of the program is a
  function from the accounts it reads (the global account, a staking record,
  the signer's address) to the accounts it writes, the token transfers it
  orders and the event it emits, or to the error that refuses it, including
  the refusal of a signer who is not the recorded admin or the stake's
  owner. Its contracts state the result exactly, over spec functions in the
  same files;
  `laws.rs` and `ledger.rs` prove what holds across instructions (the price
  never falls, the pause blocks everything, the two-step admin handover, the
  7-day refund, the linear reward release, who may sign what, and that the
  reward vault's reservation always equals the rewards still owed).
- `app/` is the on-chain program around it: account validation, the clock,
  the token transfers and the events, on the Anchor framework. The account
  checks that the library does not model (account ownership and types, PDA
  seeds, the vault addresses recorded in the global account) are Anchor's.

Where the program's 64-bit arithmetic would overflow, it aborts; the library
leaves those inputs out by `requires`, and offers for each instruction a
verified `*_overflows` test that the program makes before the call.
