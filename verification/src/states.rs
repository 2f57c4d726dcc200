use vstd::prelude::*;

use crate::pubkey::{spec_default_key, Pubkey};

verus! {

/// Global configuration and pool bookkeeping.
#[derive(Clone, Copy, Debug)]
pub struct Settings {
    pub admin: Pubkey,
    pub dev_wallet: Pubkey,
    pub marketing_wallet: Pubkey,
    pub pool: Pubkey,
    /// Growth of an active balance per compound, in parts of `FEE_DIVIDER`.
    pub roi: u64,
    /// Deposit and withdraw fee, in parts of `FEE_DIVIDER`.
    pub fee: u64,
    /// Fee taken from each compound's reward, in parts of `FEE_DIVIDER`.
    pub compound_fee: u64,
    /// Tax on unstaking before `WITHDRAW_LIMIT` compounds, in parts of `FEE_DIVIDER`.
    pub withdraw_tax_rate: u64,
    /// Referral fee, in parts of `FEE_DIVIDER`.
    pub ref_fee: u64,
    pub last_deposit_user: Pubkey,
    pub last_deposit_time: u64,
    /// Seconds without a deposit after which the last depositor wins the pool prize.
    pub pool_prize_limit: u64,
    /// Part of the pool paid as the prize, in parts of `FEE_DIVIDER`.
    pub pool_prize_ratio: u64,
    pub members: u64,
    pub bump: u8,
    pub pool_bump: u8,
    /// 1 once the miner has been started.
    pub miner_started: u8,
    pub last_pool_winner: Pubkey,
    pub last_pool_reward: u64,
    pub reserves: [u64; 6],
}

/// Per-user bookkeeping.
#[derive(Clone, Copy, Debug)]
pub struct UserState {
    pub user: Pubkey,
    pub invested_amount: u64,
    pub approved_amount: u64,
    pub total_withdraw_amount: u64,
    pub bump: u8,
    pub is_first: u8,
    pub withdraw_start: u64,
    pub claim_start: u64,
    /// The user's referrer; the all-zero address until the first deposit binds one.
    pub referrer: Pubkey,
    pub referral_reward: u64,
    pub referred_count: u64,
    /// Number of open investments.
    pub matrix_count: u8,
    pub reserves: [u64; 12],
}

/// One investment of one user.
#[derive(Clone, Copy, Debug)]
pub struct InvestData {
    pub user: Pubkey,
    pub seed_key: Pubkey,
    /// Deposited amount, in lamports.
    pub amount: u64,
    pub invest_time: u64,
    /// Number of compounds made so far.
    pub days: u64,
    /// Balance that grows with each compound and is paid out on unstake.
    pub active_balance: u64,
    pub last_roi_time: u64,
    pub bump: u8,
    pub reserves: [u64; 2],
}

/// Addresses that may not unstake.
#[derive(Debug)]
pub struct Blacklist {
    pub addresses: Vec<Pubkey>,
}

impl Blacklist {
    /// Whether `key` is on the list.
    pub fn contains(&self, key: &Pubkey) -> (r: bool)
        ensures
            r == self.addresses@.contains(*key),
    {
        let n = self.addresses.len();
        let mut i: usize = 0;
        while i < n
            invariant
                n == self.addresses@.len(),
                i <= n,
                forall|j: int| 0 <= j < i ==> self.addresses@[j] != *key,
            decreases n - i,
        {
            if self.addresses[i] == *key {
                return true;
            }
            i = i + 1;
        }
        false
    }
}

impl Default for Settings {
    /// All-zero settings: every address the all-zero address, every number zero.
    fn default() -> (s: Settings)
        ensures
            s == (Settings {
                admin: spec_default_key(),
                dev_wallet: spec_default_key(),
                marketing_wallet: spec_default_key(),
                pool: spec_default_key(),
                roi: 0,
                fee: 0,
                compound_fee: 0,
                withdraw_tax_rate: 0,
                ref_fee: 0,
                last_deposit_user: spec_default_key(),
                last_deposit_time: 0,
                pool_prize_limit: 0,
                pool_prize_ratio: 0,
                members: 0,
                bump: 0,
                pool_bump: 0,
                miner_started: 0,
                last_pool_winner: spec_default_key(),
                last_pool_reward: 0,
                reserves: s.reserves,
            }),
            s.reserves@ == Seq::new(6, |k: int| 0u64),
    {
        Settings {
            admin: Pubkey::default_key(),
            dev_wallet: Pubkey::default_key(),
            marketing_wallet: Pubkey::default_key(),
            pool: Pubkey::default_key(),
            roi: 0,
            fee: 0,
            compound_fee: 0,
            withdraw_tax_rate: 0,
            ref_fee: 0,
            last_deposit_user: Pubkey::default_key(),
            last_deposit_time: 0,
            pool_prize_limit: 0,
            pool_prize_ratio: 0,
            members: 0,
            bump: 0,
            pool_bump: 0,
            miner_started: 0,
            last_pool_winner: Pubkey::default_key(),
            last_pool_reward: 0,
            reserves: [0u64; 6],
        }
    }
}

impl Default for UserState {
    /// An all-zero user state: no referrer, no investments.
    fn default() -> (u: UserState)
        ensures
            u == (UserState {
                user: spec_default_key(),
                invested_amount: 0,
                approved_amount: 0,
                total_withdraw_amount: 0,
                bump: 0,
                is_first: 0,
                withdraw_start: 0,
                claim_start: 0,
                referrer: spec_default_key(),
                referral_reward: 0,
                referred_count: 0,
                matrix_count: 0,
                reserves: u.reserves,
            }),
            u.reserves@ == Seq::new(12, |k: int| 0u64),
    {
        UserState {
            user: Pubkey::default_key(),
            invested_amount: 0,
            approved_amount: 0,
            total_withdraw_amount: 0,
            bump: 0,
            is_first: 0,
            withdraw_start: 0,
            claim_start: 0,
            referrer: Pubkey::default_key(),
            referral_reward: 0,
            referred_count: 0,
            matrix_count: 0,
            reserves: [0u64; 12],
        }
    }
}

impl Default for InvestData {
    /// An all-zero investment, as a freshly created account holds.
    fn default() -> (i: InvestData)
        ensures
            i == (InvestData {
                user: spec_default_key(),
                seed_key: spec_default_key(),
                amount: 0,
                invest_time: 0,
                days: 0,
                active_balance: 0,
                last_roi_time: 0,
                bump: 0,
                reserves: i.reserves,
            }),
            i.reserves@ == Seq::new(2, |k: int| 0u64),
    {
        InvestData {
            user: Pubkey::default_key(),
            seed_key: Pubkey::default_key(),
            amount: 0,
            invest_time: 0,
            days: 0,
            active_balance: 0,
            last_roi_time: 0,
            bump: 0,
            reserves: [0u64; 2],
        }
    }
}

impl Default for Blacklist {
    /// An empty blacklist.
    fn default() -> (b: Blacklist)
        ensures
            b.addresses@ == Seq::<Pubkey>::empty(),
    {
        Blacklist { addresses: Vec::new() }
    }
}

} // verus!
