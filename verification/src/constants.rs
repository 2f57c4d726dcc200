use vstd::prelude::*;

verus! {

/// Rates (return, fees, taxes, prize ratio) are expressed in parts of this divider.
pub const FEE_DIVIDER: u64 = 1000;

/// Number of compounding periods after which an investment leaves the compounding phase;
/// unstaking before then is taxed.
pub const WITHDRAW_LIMIT: u64 = 28;

/// Seconds that must pass between two compounds of one investment.
pub const ROI_INTERVAL: u64 = 60;

/// Reads `solana_program::native_token::LAMPORTS_PER_SOL` (re-exported by
/// anchor_lang): the number of lamports in one SOL, which that crate defines as
/// 1_000_000_000.
#[verifier::external_body]
pub(crate) fn lamports_per_sol() -> (r: u64)
    ensures
        r == 1_000_000_000,
{
    anchor_lang::solana_program::native_token::LAMPORTS_PER_SOL
}

/// Smallest accepted deposit, in lamports: one SOL.
pub open spec fn min_deposit() -> int {
    1_000_000_000
}

/// Largest accepted deposit, in lamports: a thousand SOL.
pub open spec fn max_deposit() -> int {
    1000 * min_deposit()
}

/// Seconds per minute, used to turn a prize window given in minutes into seconds.
pub const SECONDS_PER_MINUTE: u64 = 60;

/// The part `rate / FEE_DIVIDER` of `amount`, rounded down.
pub open spec fn share(amount: int, rate: int) -> int {
    amount * rate / (FEE_DIVIDER as int)
}

/// Computes `share(amount, rate)`; the product must fit in 64 bits.
pub fn rate_share(amount: u64, rate: u64) -> (r: u64)
    requires
        amount * rate <= u64::MAX,
    ensures
        r == share(amount as int, rate as int),
{
    amount.checked_mul(rate).unwrap().checked_div(FEE_DIVIDER).unwrap()
}

/// A share of a non-negative amount at a non-negative rate is non-negative.
pub proof fn lemma_share_nonneg(amount: int, rate: int)
    requires
        0 <= amount,
        0 <= rate,
    ensures
        0 <= share(amount, rate),
{
    assert(0 <= amount * rate) by (nonlinear_arith)
        requires
            0 <= amount,
            0 <= rate,
    ;
}

/// A share at a rate of at most the whole is at most the amount.
pub proof fn lemma_share_bounded(amount: int, rate: int)
    requires
        0 <= amount,
        0 <= rate <= FEE_DIVIDER as int,
    ensures
        0 <= share(amount, rate) <= amount,
{
    assert(0 <= amount * rate <= amount * (FEE_DIVIDER as int)) by (nonlinear_arith)
        requires
            0 <= amount,
            0 <= rate <= FEE_DIVIDER as int,
    ;
    assert(amount * (FEE_DIVIDER as int) / (FEE_DIVIDER as int) == amount) by (nonlinear_arith);
    assert(amount * rate / (FEE_DIVIDER as int) <= amount * (FEE_DIVIDER as int) / (FEE_DIVIDER as int)) by (nonlinear_arith)
        requires
            amount * rate <= amount * (FEE_DIVIDER as int),
    ;
}

} // verus!
