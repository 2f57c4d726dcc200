use vstd::prelude::*;

use crate::constants::{lemma_share_nonneg, rate_share, share, FEE_DIVIDER, WITHDRAW_LIMIT};
use crate::error::CustomError;
use crate::instructions::transfer::{sent_by, Transfer};
use crate::pubkey::Pubkey;
use crate::states::{Blacklist, InvestData, Settings, UserState};

verus! {

/// The account data that unstaking reads and writes.
#[derive(Debug)]
pub struct Unstake {
    /// The unstaking user.
    pub user: Pubkey,
    pub settings: Settings,
    pub blacklist: Blacklist,
    pub dev_wallet: Pubkey,
    pub pool: Pubkey,
    /// Lamports held by the pool when the unstake starts.
    pub pool_lamports: u64,
    pub user_state: UserState,
    /// The investment being closed.
    pub invest_data: InvestData,
}

/// When unstaking succeeds: the user is not blacklisted.
pub open spec fn unstake_check(u: Unstake) -> Result<(), CustomError> {
    if u.blacklist.addresses@.contains(u.user) {
        Err(CustomError::Blocked)
    } else {
        Ok(())
    }
}

/// The tax on unstaking before `WITHDRAW_LIMIT` compounds: `withdraw_tax_rate /
/// FEE_DIVIDER` of the active balance; none afterwards.
pub open spec fn withdraw_tax(inv: InvestData, settings: Settings) -> int {
    if inv.days < WITHDRAW_LIMIT {
        share(inv.active_balance as int, settings.withdraw_tax_rate as int)
    } else {
        0
    }
}

/// What the pool pays out: the active balance less the tax, but no more than the pool holds.
pub open spec fn payable(u: Unstake) -> int {
    let untaxed = u.invest_data.active_balance - withdraw_tax(u.invest_data, u.settings);
    if untaxed > u.pool_lamports {
        u.pool_lamports as int
    } else {
        untaxed
    }
}

/// The withdraw fee, paid to the dev wallet: `fee / FEE_DIVIDER` of the active balance.
pub open spec fn withdraw_fee(u: Unstake) -> int {
    share(u.invest_data.active_balance as int, u.settings.fee as int)
}

/// What the user receives: the payout less the withdraw fee.
pub open spec fn real_withdraw(u: Unstake) -> int {
    payable(u) - withdraw_fee(u)
}

/// The arithmetic of an unstake stays within the bounds of its types.
pub open spec fn unstake_arith_ok(u: Unstake) -> bool {
    &&& u.invest_data.days < WITHDRAW_LIMIT ==> u.invest_data.active_balance
        * u.settings.withdraw_tax_rate <= u64::MAX
    &&& withdraw_tax(u.invest_data, u.settings) <= u.invest_data.active_balance
    &&& u.invest_data.active_balance * u.settings.fee <= u64::MAX
    &&& real_withdraw(u) >= 0
    &&& u.user_state.matrix_count >= 1
}

/// The inputs on which unstaking runs to an answer.
pub open spec fn unstake_defined(u: Unstake) -> bool {
    unstake_check(u) is Ok ==> unstake_arith_ok(u)
}

/// The user's state after a successful unstake: one open investment fewer.
pub open spec fn unstaked_user_state(u: Unstake) -> UserState {
    UserState { matrix_count: (u.user_state.matrix_count - 1) as u8, ..u.user_state }
}

/// The transfers of a successful unstake, in order: the payout to the user and
/// the withdraw fee to the dev wallet, both signed by the pool.
pub open spec fn unstake_transfers(u: Unstake) -> Seq<Transfer> {
    seq![
        Transfer { from: u.pool, to: u.user, lamports: real_withdraw(u) as u64, pool_signed: true },
        Transfer { from: u.pool, to: u.dev_wallet, lamports: withdraw_fee(u) as u64, pool_signed: true },
    ]
}

impl Unstake {
    /// Unstaking has no checks of its own before it runs.
    pub fn validate(&self) -> (r: Result<(), CustomError>)
        ensures
            r is Ok,
    {
        Ok(())
    }

    /// Whether `handler` runs to an answer on this data.
    pub fn is_defined(&self) -> (r: bool)
        ensures
            r == unstake_defined(*self),
    {
        if self.blacklist.contains(&self.user) {
            return true;
        }
        let inv = &self.invest_data;
        let s = &self.settings;
        let mut tax: u64 = 0;
        if inv.days < WITHDRAW_LIMIT {
            tax = match inv.active_balance.checked_mul(s.withdraw_tax_rate) {
                Some(p) => p / FEE_DIVIDER,
                None => return false,
            };
        }
        if tax > inv.active_balance {
            return false;
        }
        let mut untaxed = inv.active_balance - tax;
        if untaxed > self.pool_lamports {
            untaxed = self.pool_lamports;
        }
        let fee = match inv.active_balance.checked_mul(s.fee) {
            Some(p) => p / FEE_DIVIDER,
            None => return false,
        };
        fee <= untaxed && self.user_state.matrix_count >= 1
    }
}

/// The pool pays out over an unstake exactly what is payable, which is no more
/// than it holds nor than the active balance.
pub proof fn lemma_unstake_pool_bounded(u: Unstake)
    requires
        unstake_check(u) is Ok,
        unstake_arith_ok(u),
    ensures
        sent_by(unstake_transfers(u), u.pool) == payable(u),
        payable(u) <= u.pool_lamports,
        payable(u) <= u.invest_data.active_balance,
{
    let ts = unstake_transfers(u);
    reveal_with_fuel(sent_by, 3);
    assert(ts.drop_last() == seq![ts[0]]);
    assert(ts.drop_last().drop_last() == Seq::<Transfer>::empty());
    if u.invest_data.days < WITHDRAW_LIMIT {
        lemma_share_nonneg(u.invest_data.active_balance as int, u.settings.withdraw_tax_rate as int);
    }
}

/// Closes the user's investment: unless the user is blacklisted, the active
/// balance less the early-withdraw tax (capped by what the pool holds) is paid
/// out, less the withdraw fee that goes to the dev wallet, and the user's count
/// of open investments goes down by one. Nothing changes on an error.
pub fn handler(accts: &mut Unstake) -> (r: Result<Vec<Transfer>, CustomError>)
    requires
        unstake_defined(*old(accts)),
    ensures
        r is Ok <==> unstake_check(*old(accts)) is Ok,
        r matches Err(e) ==> e == CustomError::Blocked && *final(accts) == *old(accts),
        r matches Ok(ts) ==> ts@ == unstake_transfers(*old(accts)),
        r is Ok ==> final(accts).user_state == unstaked_user_state(*old(accts)),
        r is Ok ==> final(accts).settings == old(accts).settings && final(accts).invest_data
            == old(accts).invest_data && final(accts).blacklist == old(accts).blacklist
            && final(accts).pool_lamports == old(accts).pool_lamports,
        r matches Ok(ts) ==> sent_by(ts@, old(accts).pool) == payable(*old(accts)) <= old(
            accts,
        ).pool_lamports,
{
    if accts.blacklist.contains(&accts.user) {
        return Err(CustomError::Blocked);
    }
    proof {
        lemma_unstake_pool_bounded(*accts);
    }
    let mut withdraw_tax: u64 = 0;
    if accts.invest_data.days < WITHDRAW_LIMIT {
        withdraw_tax = rate_share(accts.invest_data.active_balance, accts.settings.withdraw_tax_rate);
    }
    let mut withdraw_without_tax = accts.invest_data.active_balance.checked_sub(withdraw_tax).unwrap();
    if withdraw_without_tax > accts.pool_lamports {
        withdraw_without_tax = accts.pool_lamports;
    }
    let withdraw_fee = rate_share(accts.invest_data.active_balance, accts.settings.fee);
    let real_withdraw = withdraw_without_tax.checked_sub(withdraw_fee).unwrap();

    let mut transfers: Vec<Transfer> = Vec::new();
    transfers.push(
        Transfer { from: accts.pool, to: accts.user, lamports: real_withdraw, pool_signed: true },
    );
    transfers.push(
        Transfer { from: accts.pool, to: accts.dev_wallet, lamports: withdraw_fee, pool_signed: true },
    );
    accts.user_state.matrix_count = accts.user_state.matrix_count - 1;
    assert(transfers@ =~= unstake_transfers(*old(accts)));
    Ok(transfers)
}

} // verus!
