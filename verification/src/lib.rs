//! Bookkeeping of a SOL mining pool: users deposit lamports into a shared pool,
//! let their active balance grow by a daily return, compound it, and unstake.
//!
//! Every instruction is a verified transition on plain account data. The
//! instructions never move lamports themselves: they hand back the transfers
//! to perform, in order, and the runtime glue performs them.

use vstd::prelude::*;

pub mod constants;
pub mod error;
pub mod instructions;
pub mod laws;
pub mod pubkey;
pub mod solminer;
pub mod states;

verus! {
} // verus!
