use vstd::prelude::*;

use crate::constants::{lamports_per_sol, lemma_share_nonneg, max_deposit, min_deposit, rate_share, share, FEE_DIVIDER};
use crate::error::CustomError;
use crate::instructions::transfer::{sent_by, Transfer};
use crate::pubkey::{spec_default_key, Pubkey};
use crate::states::{InvestData, Settings, UserState};

verus! {

/// The account data that a deposit reads and writes.
#[derive(Clone, Copy, Debug)]
pub struct Deposit {
    /// The depositing user.
    pub user: Pubkey,
    pub settings: Settings,
    pub dev_wallet: Pubkey,
    pub pool: Pubkey,
    /// Lamports held by the pool when the deposit starts.
    pub pool_lamports: u64,
    pub user_state: UserState,
    /// The new investment account, freshly created.
    pub invest_data: InvestData,
    pub referrer: Pubkey,
    pub ref_user_state: UserState,
    pub last_deposit_user: Pubkey,
}

/// The checks made before a deposit: the amount lies between one and a thousand
/// SOL, a referrer is given, and the miner is started.
pub open spec fn deposit_validate(d: Deposit, amount: u64) -> Result<(), CustomError> {
    if !(min_deposit() <= amount <= max_deposit()) {
        Err(CustomError::InvalidAmount)
    } else if d.referrer == spec_default_key() {
        Err(CustomError::InvalidReferrer)
    } else if d.settings.miner_started != 1 {
        Err(CustomError::MinerNotStarted)
    } else {
        Ok(())
    }
}

/// When a deposit succeeds: the checks pass, and a user who already has a
/// referrer gives that same referrer.
pub open spec fn deposit_check(d: Deposit, amount: u64) -> Result<(), CustomError> {
    if deposit_validate(d, amount) is Err {
        deposit_validate(d, amount)
    } else if d.user_state.referrer != spec_default_key() && d.user_state.referrer != d.referrer {
        Err(CustomError::InvalidReferrer)
    } else {
        Ok(())
    }
}

/// Whether the last depositor wins the pool prize: no deposit came within
/// `pool_prize_limit` seconds of the last one.
pub open spec fn prize_due(settings: Settings, now: u64) -> bool {
    settings.last_deposit_time + settings.pool_prize_limit < now
}

/// The pool prize: `pool_prize_ratio / FEE_DIVIDER` of the pool.
pub open spec fn pool_prize(d: Deposit) -> int {
    share(d.pool_lamports as int, d.settings.pool_prize_ratio as int)
}

/// The referral fee of a deposit.
pub open spec fn ref_fee_amount(d: Deposit, amount: u64) -> int {
    share(amount as int, d.settings.ref_fee as int)
}

/// The deposit fee, paid to the dev wallet.
pub open spec fn deposit_fee_amount(d: Deposit, amount: u64) -> int {
    share(amount as int, d.settings.fee as int)
}

/// The deposit less its fee: the new investment's active balance.
pub open spec fn real_amount(d: Deposit, amount: u64) -> int {
    amount - deposit_fee_amount(d, amount)
}

/// Whether the referrer is someone other than the user, and so is paid.
pub open spec fn is_referred(d: Deposit) -> bool {
    d.referrer != d.user
}

/// What goes into the pool: the real amount, less the referral fee when one is paid.
pub open spec fn contract_amount(d: Deposit, amount: u64) -> int {
    if is_referred(d) {
        real_amount(d, amount) - ref_fee_amount(d, amount)
    } else {
        real_amount(d, amount)
    }
}

/// The arithmetic of a deposit stays within the bounds of its types.
pub open spec fn deposit_arith_ok(d: Deposit, amount: u64, now: u64) -> bool {
    &&& amount * d.settings.ref_fee <= u64::MAX
    &&& d.user_state.matrix_count + 1 <= u8::MAX
    &&& d.settings.last_deposit_time + d.settings.pool_prize_limit <= u64::MAX
    &&& prize_due(d.settings, now) ==> d.pool_lamports * d.settings.pool_prize_ratio <= u64::MAX
    &&& amount * d.settings.fee <= u64::MAX
    &&& real_amount(d, amount) >= 0
    &&& is_referred(d) ==> {
        &&& d.ref_user_state.referred_count + 1 <= u64::MAX
        &&& d.ref_user_state.referral_reward + ref_fee_amount(d, amount) <= u64::MAX
        &&& contract_amount(d, amount) >= 0
    }
}

/// The inputs on which a deposit runs to an answer.
pub open spec fn deposit_defined(d: Deposit, amount: u64, now: u64) -> bool {
    deposit_check(d, amount) is Ok ==> deposit_arith_ok(d, amount, now)
}

/// The settings after a deposit at `now`.
pub open spec fn deposited_settings(d: Deposit, now: u64) -> Settings {
    let s = d.settings;
    Settings {
        last_pool_winner: if prize_due(s, now) { d.last_deposit_user } else { s.last_pool_winner },
        last_pool_reward: if prize_due(s, now) { pool_prize(d) as u64 } else { s.last_pool_reward },
        last_deposit_time: now,
        last_deposit_user: d.user,
        ..s
    }
}

/// The account data after a successful deposit.
pub open spec fn deposited(d: Deposit, amount: u64, seed_key: Pubkey, bump: u8, now: u64) -> Deposit {
    Deposit {
        settings: deposited_settings(d, now),
        user_state: UserState {
            referrer: d.referrer,
            matrix_count: (d.user_state.matrix_count + 1) as u8,
            ..d.user_state
        },
        invest_data: InvestData {
            user: d.user,
            amount: amount,
            invest_time: now,
            seed_key: seed_key,
            bump: bump,
            last_roi_time: now,
            active_balance: real_amount(d, amount) as u64,
            ..d.invest_data
        },
        ref_user_state: if is_referred(d) {
            UserState {
                referred_count: (d.ref_user_state.referred_count + 1) as u64,
                referral_reward: (d.ref_user_state.referral_reward + ref_fee_amount(d, amount)) as u64,
                ..d.ref_user_state
            }
        } else {
            d.ref_user_state
        },
        ..d
    }
}

/// The transfers of a successful deposit, in order: the pool prize when due,
/// the referral fee when referred, the deposit fee, and the rest into the pool.
pub open spec fn deposit_transfers(d: Deposit, amount: u64, now: u64) -> Seq<Transfer> {
    let prize: Seq<Transfer> = if prize_due(d.settings, now) {
        seq![Transfer { from: d.pool, to: d.last_deposit_user, lamports: pool_prize(d) as u64, pool_signed: true }]
    } else {
        seq![]
    };
    let referral: Seq<Transfer> = if is_referred(d) {
        seq![Transfer { from: d.user, to: d.referrer, lamports: ref_fee_amount(d, amount) as u64, pool_signed: false }]
    } else {
        seq![]
    };
    prize + referral + seq![
        Transfer { from: d.user, to: d.dev_wallet, lamports: deposit_fee_amount(d, amount) as u64, pool_signed: false },
        Transfer { from: d.user, to: d.pool, lamports: contract_amount(d, amount) as u64, pool_signed: false },
    ]
}

impl Deposit {
    /// Checks the amount, the referrer and that the miner is started.
    pub fn validate(&self, amount: u64) -> (r: Result<(), CustomError>)
        ensures
            r == deposit_validate(*self, amount),
    {
        let lamports_per_sol = lamports_per_sol();
        if !(amount >= lamports_per_sol && amount <= 1000 * lamports_per_sol) {
            return Err(CustomError::InvalidAmount);
        }
        if self.referrer.is_default() {
            return Err(CustomError::InvalidReferrer);
        }
        if !(self.settings.miner_started == 1) {
            return Err(CustomError::MinerNotStarted);
        }
        Ok(())
    }

    /// Whether `handler` runs to an answer on this data for a deposit of
    /// `amount` at `current_time`.
    pub fn is_defined(&self, amount: u64, current_time: u64) -> (r: bool)
        ensures
            r == deposit_defined(*self, amount, current_time),
    {
        if self.validate(amount).is_err() {
            return true;
        }
        if !self.user_state.referrer.is_default() && !(self.user_state.referrer == self.referrer) {
            return true;
        }
        let s = &self.settings;
        let ref_fee = match amount.checked_mul(s.ref_fee) {
            Some(p) => p / FEE_DIVIDER,
            None => return false,
        };
        if self.user_state.matrix_count == u8::MAX {
            return false;
        }
        let deadline = match s.last_deposit_time.checked_add(s.pool_prize_limit) {
            Some(t) => t,
            None => return false,
        };
        if deadline < current_time && self.pool_lamports.checked_mul(s.pool_prize_ratio).is_none() {
            return false;
        }
        let deposit_fee = match amount.checked_mul(s.fee) {
            Some(p) => p / FEE_DIVIDER,
            None => return false,
        };
        if deposit_fee > amount {
            return false;
        }
        let real_amount = amount - deposit_fee;
        if !(self.referrer == self.user) {
            if self.ref_user_state.referred_count == u64::MAX {
                return false;
            }
            if self.ref_user_state.referral_reward.checked_add(ref_fee).is_none() {
                return false;
            }
            if ref_fee > real_amount {
                return false;
            }
        }
        true
    }
}

/// The lamports that leave the user over a deposit's transfers add up to the
/// deposit amount, whether or not a referral fee is paid.
pub proof fn lemma_deposit_pays_amount(d: Deposit, amount: u64, now: u64)
    requires
        deposit_check(d, amount) is Ok,
        deposit_arith_ok(d, amount, now),
        d.user != d.pool,
    ensures
        sent_by(deposit_transfers(d, amount, now), d.user) == amount,
{
    let ts = deposit_transfers(d, amount, now);
    reveal_with_fuel(sent_by, 5);
    let prize: Seq<Transfer> = if prize_due(d.settings, now) {
        seq![Transfer { from: d.pool, to: d.last_deposit_user, lamports: pool_prize(d) as u64, pool_signed: true }]
    } else {
        seq![]
    };
    let referral: Seq<Transfer> = if is_referred(d) {
        seq![Transfer { from: d.user, to: d.referrer, lamports: ref_fee_amount(d, amount) as u64, pool_signed: false }]
    } else {
        seq![]
    };
    let tail = seq![
        Transfer { from: d.user, to: d.dev_wallet, lamports: deposit_fee_amount(d, amount) as u64, pool_signed: false },
        Transfer { from: d.user, to: d.pool, lamports: contract_amount(d, amount) as u64, pool_signed: false },
    ];
    assert(ts == prize + referral + tail);
    lemma_share_nonneg(amount as int, d.settings.ref_fee as int);
    lemma_share_nonneg(amount as int, d.settings.fee as int);
    if prize_due(d.settings, now) {
        if is_referred(d) {
            assert((prize + referral + tail).drop_last() == prize + referral + seq![tail[0]]);
            assert((prize + referral + seq![tail[0]]).drop_last() == prize + referral);
            assert((prize + referral).drop_last() == prize);
            assert(prize.drop_last() == Seq::<Transfer>::empty());
        } else {
            assert((prize + referral + tail).drop_last() == prize + seq![tail[0]]);
            assert((prize + seq![tail[0]]).drop_last() == prize);
            assert(prize.drop_last() == Seq::<Transfer>::empty());
        }
    } else {
        if is_referred(d) {
            assert((prize + referral + tail).drop_last() == referral + seq![tail[0]]);
            assert((referral + seq![tail[0]]).drop_last() == referral);
            assert(referral.drop_last() == Seq::<Transfer>::empty());
        } else {
            assert((prize + referral + tail).drop_last() == seq![tail[0]]);
            assert(seq![tail[0]].drop_last() == Seq::<Transfer>::empty());
        }
    }
}

/// Runs a deposit of `amount` lamports into a new investment with seed key
/// `seed_key` and bump `invest_data_bump` at time `current_time`. On success the
/// user's referrer is bound, the investment is filled in, the last depositor
/// wins the pool prize when it is due, the referrer is credited, and the
/// transfers to perform are handed back in order. Nothing changes on an error.
pub fn handler(
    accts: &mut Deposit,
    amount: u64,
    seed_key: Pubkey,
    invest_data_bump: u8,
    current_time: u64,
) -> (r: Result<Vec<Transfer>, CustomError>)
    requires
        deposit_defined(*old(accts), amount, current_time),
    ensures
        r is Ok <==> deposit_check(*old(accts), amount) is Ok,
        r matches Err(e) ==> deposit_check(*old(accts), amount) == Err::<(), CustomError>(e)
            && *final(accts) == *old(accts),
        r matches Ok(ts) ==> *final(accts) == deposited(
            *old(accts),
            amount,
            seed_key,
            invest_data_bump,
            current_time,
        ) && ts@ == deposit_transfers(*old(accts), amount, current_time),
        r matches Ok(ts) ==> (old(accts).user != old(accts).pool ==> sent_by(ts@, old(accts).user)
            == amount),
{
    let checked = accts.validate(amount);
    if let Err(e) = checked {
        return Err(e);
    }
    let ghost d0 = *accts;
    if accts.user_state.referrer.is_default() {
        accts.user_state.referrer = accts.referrer;
    } else if !(accts.user_state.referrer == accts.referrer) {
        return Err(CustomError::InvalidReferrer);
    }
    proof {
        if d0.user != d0.pool {
            lemma_deposit_pays_amount(d0, amount, current_time);
        }
    }
    let ref_fee = rate_share(amount, accts.settings.ref_fee);
    accts.user_state.matrix_count = accts.user_state.matrix_count + 1;

    accts.invest_data.user = accts.user;
    accts.invest_data.amount = amount;
    accts.invest_data.invest_time = current_time;
    accts.invest_data.seed_key = seed_key;
    accts.invest_data.bump = invest_data_bump;
    accts.invest_data.last_roi_time = current_time;

    let mut transfers: Vec<Transfer> = Vec::new();
    if accts.settings.last_deposit_time + accts.settings.pool_prize_limit < current_time {
        let pool_prize = rate_share(accts.pool_lamports, accts.settings.pool_prize_ratio);
        transfers.push(
            Transfer { from: accts.pool, to: accts.last_deposit_user, lamports: pool_prize, pool_signed: true },
        );
        accts.settings.last_pool_winner = accts.last_deposit_user;
        accts.settings.last_pool_reward = pool_prize;
    }
    accts.settings.last_deposit_time = current_time;
    accts.settings.last_deposit_user = accts.user;

    let deposit_fee = rate_share(amount, accts.settings.fee);
    let real_amount = amount.checked_sub(deposit_fee).unwrap();
    let mut contract_amount = real_amount;
    if !(accts.referrer == accts.user) {
        accts.ref_user_state.referred_count = accts.ref_user_state.referred_count + 1;
        accts.ref_user_state.referral_reward = accts.ref_user_state.referral_reward + ref_fee;
        transfers.push(
            Transfer { from: accts.user, to: accts.referrer, lamports: ref_fee, pool_signed: false },
        );
        contract_amount = real_amount.checked_sub(ref_fee).unwrap();
    }
    accts.invest_data.active_balance = real_amount;
    transfers.push(
        Transfer { from: accts.user, to: accts.dev_wallet, lamports: deposit_fee, pool_signed: false },
    );
    transfers.push(
        Transfer { from: accts.user, to: accts.pool, lamports: contract_amount, pool_signed: false },
    );
    assert(transfers@ =~= deposit_transfers(d0, amount, current_time));
    Ok(transfers)
}

} // verus!
