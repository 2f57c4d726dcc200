//! The program's instructions, each running its checks and then its handler.
use vstd::prelude::*;

use crate::constants::SECONDS_PER_MINUTE;
use crate::error::CustomError;
use crate::instructions::compound::{self, compound_check, compound_defined, compounded, Compound};
use crate::instructions::deposit::{self, deposit_check, deposit_defined, deposit_transfers, deposited, Deposit};
use crate::instructions::set_pool_prize::{self, with_pool_prize, SetPoolPrize};
use crate::instructions::transfer::Transfer;
use crate::instructions::unstake::{self, unstake_check, unstake_defined, unstake_transfers, unstaked_user_state, Unstake};
use crate::pubkey::Pubkey;

verus! {

/// Sets the pool prize window (in minutes) and ratio.
pub fn set_pool_prize(accts: &mut SetPoolPrize, mins: u64, ratio: u64) -> (r: Result<(), CustomError>)
    requires
        mins * SECONDS_PER_MINUTE <= u64::MAX,
    ensures
        r is Ok,
        final(accts).settings == with_pool_prize(old(accts).settings, mins, ratio),
{
    set_pool_prize::handler(accts, mins, ratio)
}

/// Compounds an investment at time `current_time`.
pub fn compound(accts: &mut Compound, current_time: u64) -> (r: Result<(), CustomError>)
    requires
        compound_defined(old(accts).invest_data, old(accts).settings, current_time),
    ensures
        r == compound_check(old(accts).invest_data, old(accts).settings, current_time),
        r is Err ==> *final(accts) == *old(accts),
        r is Ok ==> final(accts).settings == old(accts).settings,
        r is Ok ==> final(accts).invest_data == compounded(
            old(accts).invest_data,
            old(accts).settings,
            current_time,
        ),
{
    compound::handler(accts, current_time)
}

/// Deposits `amount` lamports into a new investment at time `current_time`.
pub fn deposit(
    accts: &mut Deposit,
    amount: u64,
    seed_key: Pubkey,
    invest_data_bump: u8,
    current_time: u64,
) -> (r: Result<Vec<Transfer>, CustomError>)
    requires
        deposit_defined(*old(accts), amount, current_time),
    ensures
        r is Ok <==> deposit_check(*old(accts), amount) is Ok,
        r matches Err(e) ==> deposit_check(*old(accts), amount) == Err::<(), CustomError>(e)
            && *final(accts) == *old(accts),
        r matches Ok(ts) ==> *final(accts) == deposited(
            *old(accts),
            amount,
            seed_key,
            invest_data_bump,
            current_time,
        ) && ts@ == deposit_transfers(*old(accts), amount, current_time),
{
    deposit::handler(accts, amount, seed_key, invest_data_bump, current_time)
}

/// Closes an investment and pays it out.
pub fn unstake(accts: &mut Unstake) -> (r: Result<Vec<Transfer>, CustomError>)
    requires
        unstake_defined(*old(accts)),
    ensures
        r is Ok <==> unstake_check(*old(accts)) is Ok,
        r matches Err(e) ==> e == CustomError::Blocked && *final(accts) == *old(accts),
        r matches Ok(ts) ==> ts@ == unstake_transfers(*old(accts)),
        r is Ok ==> final(accts).user_state == unstaked_user_state(*old(accts)),
        r is Ok ==> final(accts).settings == old(accts).settings && final(accts).invest_data
            == old(accts).invest_data && final(accts).blacklist == old(accts).blacklist
            && final(accts).pool_lamports == old(accts).pool_lamports,
{
    unstake::handler(accts)
}

} // verus!
