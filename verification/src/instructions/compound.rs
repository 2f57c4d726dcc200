use vstd::prelude::*;

use crate::constants::{rate_share, share, FEE_DIVIDER, ROI_INTERVAL, WITHDRAW_LIMIT};
use crate::error::CustomError;
use crate::states::{InvestData, Settings};

verus! {

/// The account data that compounding reads and writes.
#[derive(Clone, Copy, Debug)]
pub struct Compound {
    pub settings: Settings,
    pub invest_data: InvestData,
}

/// When compounding is allowed: one `ROI_INTERVAL` after the last compound,
/// fewer than `WITHDRAW_LIMIT` compounds so far, and the miner started.
pub open spec fn compound_check(inv: InvestData, settings: Settings, now: u64) -> Result<(), CustomError> {
    if inv.last_roi_time + ROI_INTERVAL > now {
        Err(CustomError::CantClaimNow)
    } else if inv.days >= WITHDRAW_LIMIT {
        Err(CustomError::CantCompound)
    } else if settings.miner_started != 1 {
        Err(CustomError::MinerNotStarted)
    } else {
        Ok(())
    }
}

/// The active balance after one period of growth, before the compound fee:
/// `roi / FEE_DIVIDER` of the active balance, or twice the deposit once the
/// investment has reached `WITHDRAW_LIMIT` compounds.
pub open spec fn grown_balance(inv: InvestData, settings: Settings) -> int {
    if inv.days == WITHDRAW_LIMIT {
        inv.amount * 2
    } else {
        share(inv.active_balance as int, settings.roi as int)
    }
}

/// The reward of one period: the growth of the active balance.
pub open spec fn daily_reward(inv: InvestData, settings: Settings) -> int {
    grown_balance(inv, settings) - inv.active_balance
}

/// The compound fee: `compound_fee / FEE_DIVIDER` of the reward.
pub open spec fn compound_fee_amount(inv: InvestData, settings: Settings) -> int {
    share(daily_reward(inv, settings), settings.compound_fee as int)
}

/// The active balance after a compound.
pub open spec fn compounded_balance(inv: InvestData, settings: Settings) -> int {
    grown_balance(inv, settings) - compound_fee_amount(inv, settings)
}

/// The arithmetic of a compound stays within 64 bits and never goes below zero.
pub open spec fn compound_arith_ok(inv: InvestData, settings: Settings) -> bool {
    &&& inv.active_balance * settings.roi <= u64::MAX
    &&& inv.days == WITHDRAW_LIMIT ==> inv.amount * 2 <= u64::MAX
    &&& daily_reward(inv, settings) >= 0
    &&& daily_reward(inv, settings) * settings.compound_fee <= u64::MAX
    &&& compounded_balance(inv, settings) >= 0
    &&& inv.days + 1 <= u64::MAX
}

/// The inputs on which compounding runs to an answer: the next allowed time is
/// representable, and where the checks pass, the arithmetic is in range.
pub open spec fn compound_defined(inv: InvestData, settings: Settings, now: u64) -> bool {
    &&& inv.last_roi_time + ROI_INTERVAL <= u64::MAX
    &&& compound_check(inv, settings, now) is Ok ==> compound_arith_ok(inv, settings)
}

/// The investment after a compound at time `now`.
pub open spec fn compounded(inv: InvestData, settings: Settings, now: u64) -> InvestData {
    InvestData {
        last_roi_time: now,
        active_balance: compounded_balance(inv, settings) as u64,
        days: (inv.days + 1) as u64,
        ..inv
    }
}

impl Compound {
    /// Checks that the investment may compound at time `current_time`.
    pub fn validate(&self, current_time: u64) -> (r: Result<(), CustomError>)
        requires
            self.invest_data.last_roi_time + ROI_INTERVAL <= u64::MAX,
        ensures
            r == compound_check(self.invest_data, self.settings, current_time),
    {
        let new_roi_time = self.invest_data.last_roi_time.checked_add(ROI_INTERVAL).unwrap();
        if !(new_roi_time <= current_time) {
            return Err(CustomError::CantClaimNow);
        }
        if !(self.invest_data.days < WITHDRAW_LIMIT) {
            return Err(CustomError::CantCompound);
        }
        if !(self.settings.miner_started == 1) {
            return Err(CustomError::MinerNotStarted);
        }
        Ok(())
    }

    /// Whether `handler` runs to an answer on this data at `current_time`.
    pub fn is_defined(&self, current_time: u64) -> (r: bool)
        ensures
            r == compound_defined(self.invest_data, self.settings, current_time),
    {
        let inv = &self.invest_data;
        let s = &self.settings;
        if inv.last_roi_time > u64::MAX - ROI_INTERVAL {
            return false;
        }
        if self.validate(current_time).is_err() {
            return true;
        }
        let grown_by_roi = match inv.active_balance.checked_mul(s.roi) {
            Some(p) => p / FEE_DIVIDER,
            None => return false,
        };
        let grown = if inv.days == WITHDRAW_LIMIT {
            match inv.amount.checked_mul(2) {
                Some(p) => p,
                None => return false,
            }
        } else {
            grown_by_roi
        };
        let reward = match grown.checked_sub(inv.active_balance) {
            Some(d) => d,
            None => return false,
        };
        let fee = match reward.checked_mul(s.compound_fee) {
            Some(p) => p / FEE_DIVIDER,
            None => return false,
        };
        grown >= fee
    }
}

/// Compounds the investment at time `current_time`: the active balance grows by
/// one period's return less the compound fee, the compound count goes up by one
/// and the compound time is set to `current_time`. Nothing changes on an error.
pub fn handler(accts: &mut Compound, current_time: u64) -> (r: Result<(), CustomError>)
    requires
        compound_defined(old(accts).invest_data, old(accts).settings, current_time),
    ensures
        r == compound_check(old(accts).invest_data, old(accts).settings, current_time),
        r is Err ==> *final(accts) == *old(accts),
        r is Ok ==> final(accts).settings == old(accts).settings,
        r is Ok ==> final(accts).invest_data == compounded(
            old(accts).invest_data,
            old(accts).settings,
            current_time,
        ),
{
    let checked = accts.validate(current_time);
    if checked.is_err() {
        return checked;
    }
    let mut new_active_balance = rate_share(accts.invest_data.active_balance, accts.settings.roi);
    if accts.invest_data.days == WITHDRAW_LIMIT {
        new_active_balance = accts.invest_data.amount * 2;
    }
    let daily_reward = new_active_balance.checked_sub(accts.invest_data.active_balance).unwrap();
    let compound_fee = rate_share(daily_reward, accts.settings.compound_fee);
    accts.invest_data.last_roi_time = current_time;
    accts.invest_data.active_balance = new_active_balance.checked_sub(compound_fee).unwrap();
    accts.invest_data.days = accts.invest_data.days + 1;
    Ok(())
}

} // verus!
