use vstd::prelude::*;

verus! {

/// A 32-byte account address, held as four little-endian 64-bit words.
#[derive(Clone, Copy, Debug, PartialEq, Eq, Structural)]
pub struct Pubkey(pub u64, pub u64, pub u64, pub u64);

/// The all-zero address, which stands for "no address".
pub open spec fn spec_default_key() -> Pubkey {
    Pubkey(0, 0, 0, 0)
}

impl Pubkey {
    /// The all-zero address.
    pub fn default_key() -> (k: Pubkey)
        ensures
            k == spec_default_key(),
    {
        Pubkey(0, 0, 0, 0)
    }

    /// Whether this is the all-zero address.
    pub fn is_default(&self) -> (r: bool)
        ensures
            r == (*self == spec_default_key()),
    {
        *self == Pubkey::default_key()
    }
}

} // verus!
