use vstd::prelude::*;

use crate::pubkey::Pubkey;

verus! {

/// A system transfer that an instruction asks the runtime to perform.
#[derive(Clone, Copy, Debug, PartialEq, Eq, Structural)]
pub struct Transfer {
    pub from: Pubkey,
    pub to: Pubkey,
    pub lamports: u64,
    /// Whether the pool signs for it (the pool is a program-derived address).
    pub pool_signed: bool,
}

/// Total lamports that `from` sends over the transfers.
pub open spec fn sent_by(ts: Seq<Transfer>, from: Pubkey) -> int
    decreases ts.len(),
{
    if ts.len() == 0 {
        0
    } else {
        sent_by(ts.drop_last(), from) + if ts.last().from == from {
            ts.last().lamports as int
        } else {
            0
        }
    }
}

} // verus!
