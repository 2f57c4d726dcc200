# solminer

Bookkeeping of a SOL mining pool on Solana, verified with Verus.

- `src/` is the verified library. Each instruction (`deposit`, `compound`,
  `unstake`, `set_pool_prize`) is a transition on plain account data with an
  exact contract; lamport movements come back as an ordered list of
  `Transfer`s. `src/laws.rs` holds the properties that span calls.
- `app/` is the Anchor program around it: account constraints, the clock,
  account storage, and performing the transfers through the system program.
- `tests/` runs the library on concrete values.

Rates are in parts of `FEE_DIVIDER` (1000). Addresses are held by the library
as four little-endian 64-bit words.
