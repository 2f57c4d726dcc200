use solminer::constants::{rate_share, FEE_DIVIDER, ROI_INTERVAL, WITHDRAW_LIMIT};
use solminer::error::CustomError;
use solminer::instructions::compound::{self, Compound};
use solminer::instructions::deposit::{self, Deposit};
use solminer::instructions::set_pool_prize::{self, SetPoolPrize};
use solminer::instructions::transfer::Transfer;
use solminer::instructions::unstake::{self, Unstake};
use solminer::pubkey::Pubkey;
use solminer::solminer as program;
use solminer::states::{Blacklist, InvestData, Settings, UserState};

const LAMPORTS_PER_SOL: u64 = 1_000_000_000;
const MIN_DEPOSIT: u64 = LAMPORTS_PER_SOL;
const MAX_DEPOSIT: u64 = 1000 * LAMPORTS_PER_SOL;

fn key(n: u64) -> Pubkey {
    Pubkey(n, 0, 0, 0)
}

const USER: u64 = 1;
const REFERRER: u64 = 2;
const DEV: u64 = 3;
const POOL: u64 = 4;
const LAST: u64 = 5;
const OTHER: u64 = 6;

fn started_settings() -> Settings {
    let mut s = Settings::default();
    s.roi = 1050;
    s.fee = 50;
    s.compound_fee = 100;
    s.withdraw_tax_rate = 200;
    s.ref_fee = 100;
    s.miner_started = 1;
    s.dev_wallet = key(DEV);
    s.pool = key(POOL);
    s.last_deposit_user = key(LAST);
    s.pool_prize_limit = 3600;
    s.pool_prize_ratio = 100;
    s
}

fn investment(active: u64, days: u64, last_roi_time: u64) -> InvestData {
    let mut inv = InvestData::default();
    inv.amount = active;
    inv.active_balance = active;
    inv.days = days;
    inv.last_roi_time = last_roi_time;
    inv
}

fn compound_accts(active: u64, days: u64, last_roi_time: u64) -> Compound {
    Compound { settings: started_settings(), invest_data: investment(active, days, last_roi_time) }
}

fn deposit_accts(referrer: Pubkey, last_deposit_time: u64) -> Deposit {
    let mut settings = started_settings();
    settings.last_deposit_time = last_deposit_time;
    Deposit {
        user: key(USER),
        settings,
        dev_wallet: key(DEV),
        pool: key(POOL),
        pool_lamports: 10 * LAMPORTS_PER_SOL,
        user_state: UserState::default(),
        invest_data: InvestData::default(),
        referrer,
        ref_user_state: UserState::default(),
        last_deposit_user: key(LAST),
    }
}

fn unstake_accts(active: u64, days: u64, pool_lamports: u64, blacklisted: bool) -> Unstake {
    let mut blacklist = Blacklist::default();
    blacklist.addresses.push(key(OTHER));
    if blacklisted {
        blacklist.addresses.push(key(USER));
    }
    let mut user_state = UserState::default();
    user_state.matrix_count = 2;
    Unstake {
        user: key(USER),
        settings: started_settings(),
        blacklist,
        dev_wallet: key(DEV),
        pool: key(POOL),
        pool_lamports,
        user_state,
        invest_data: investment(active, days, 0),
    }
}

fn sent_by(ts: &[Transfer], from: Pubkey) -> u64 {
    ts.iter().filter(|t| t.from == from).map(|t| t.lamports).sum()
}

#[test]
fn rate_share_takes_parts_of_the_divider() {
    assert_eq!(FEE_DIVIDER, 1000);
    assert_eq!(rate_share(2_000, 50), 100);
    assert_eq!(rate_share(1_999, 50), 99);
    assert_eq!(rate_share(0, 50), 0);
    assert_eq!(rate_share(7, 1000), 7);
}

#[test]
fn default_key_is_all_zero() {
    assert_eq!(Pubkey::default_key(), Pubkey(0, 0, 0, 0));
    assert!(Pubkey::default_key().is_default());
    assert!(!key(USER).is_default());
}

#[test]
fn blacklist_contains_only_listed_keys() {
    let mut b = Blacklist::default();
    assert!(!b.contains(&key(USER)));
    b.addresses.push(key(OTHER));
    b.addresses.push(key(USER));
    assert!(b.contains(&key(USER)));
    assert!(b.contains(&key(OTHER)));
    assert!(!b.contains(&key(DEV)));
}

#[test]
fn compound_grows_balance_less_fee() {
    let mut c = compound_accts(1000, 3, 10);
    assert!(c.is_defined(100));
    assert_eq!(compound::handler(&mut c, 100), Ok(()));
    // 1000 * 1050 / 1000 = 1050, reward 50, fee 50 * 100 / 1000 = 5
    assert_eq!(c.invest_data.active_balance, 1045);
    assert_eq!(c.invest_data.days, 4);
    assert_eq!(c.invest_data.last_roi_time, 100);
    assert_eq!(c.invest_data.amount, 1000);
}

#[test]
fn compound_rounds_down() {
    let mut c = compound_accts(2_000_000_000, 0, 0);
    c.settings.roi = 1033;
    c.settings.compound_fee = 333;
    assert_eq!(program::compound(&mut c, ROI_INTERVAL), Ok(()));
    // grown 2_066_000_000, reward 66_000_000, fee 21_978_000
    assert_eq!(c.invest_data.active_balance, 2_066_000_000 - 21_978_000);
}

#[test]
fn compound_too_early_is_refused() {
    let mut c = compound_accts(1000, 3, 10);
    let before = c.invest_data.active_balance;
    assert_eq!(compound::handler(&mut c, 10 + ROI_INTERVAL - 1), Err(CustomError::CantClaimNow));
    assert_eq!(c.invest_data.active_balance, before);
    assert_eq!(c.invest_data.days, 3);
    assert_eq!(c.invest_data.last_roi_time, 10);
}

#[test]
fn compound_after_limit_is_refused() {
    let mut c = compound_accts(1000, WITHDRAW_LIMIT, 10);
    assert_eq!(compound::handler(&mut c, 1000), Err(CustomError::CantCompound));
    assert_eq!(c.invest_data.days, WITHDRAW_LIMIT);
}

#[test]
fn compound_before_start_is_refused() {
    let mut c = compound_accts(1000, 0, 10);
    c.settings.miner_started = 0;
    assert_eq!(compound::handler(&mut c, 1000), Err(CustomError::MinerNotStarted));
    assert_eq!(c.invest_data.active_balance, 1000);
}

#[test]
fn compound_checks_time_first() {
    let mut c = compound_accts(1000, WITHDRAW_LIMIT, 10);
    c.settings.miner_started = 0;
    assert_eq!(c.validate(11), Err(CustomError::CantClaimNow));
    assert_eq!(c.validate(1000), Err(CustomError::CantCompound));
}

#[test]
fn compound_is_rate_limited() {
    let mut c = compound_accts(1000, 0, 0);
    assert_eq!(compound::handler(&mut c, 500), Ok(()));
    assert_eq!(compound::handler(&mut c, 500), Err(CustomError::CantClaimNow));
    assert_eq!(compound::handler(&mut c, 500 + ROI_INTERVAL - 1), Err(CustomError::CantClaimNow));
    assert_eq!(compound::handler(&mut c, 500 + ROI_INTERVAL), Ok(()));
    assert_eq!(c.invest_data.days, 2);
}

#[test]
fn compound_count_is_bounded() {
    let mut c = compound_accts(1_000_000, 0, 0);
    let mut now = 0;
    for _ in 0..WITHDRAW_LIMIT {
        now += ROI_INTERVAL;
        let before = c.invest_data.active_balance;
        assert_eq!(compound::handler(&mut c, now), Ok(()));
        assert!(c.invest_data.active_balance >= before);
    }
    assert_eq!(c.invest_data.days, WITHDRAW_LIMIT);
    now += ROI_INTERVAL;
    assert_eq!(compound::handler(&mut c, now), Err(CustomError::CantCompound));
}

#[test]
fn compound_with_shrinking_roi_is_undefined() {
    let mut c = compound_accts(1000, 0, 0);
    c.settings.roi = 900;
    assert!(!c.is_defined(ROI_INTERVAL));
    assert!(c.is_defined(ROI_INTERVAL - 1));
}

#[test]
fn deposit_with_referrer_pays_everyone() {
    let amount = 2 * LAMPORTS_PER_SOL;
    let mut d = deposit_accts(key(REFERRER), 1000);
    assert!(d.is_defined(amount, 2000));
    let ts = deposit::handler(&mut d, amount, key(9), 7, 2000).unwrap();
    let deposit_fee = amount * 50 / 1000;
    let ref_fee = amount * 100 / 1000;
    let real = amount - deposit_fee;
    assert_eq!(
        ts,
        vec![
            Transfer { from: key(USER), to: key(REFERRER), lamports: ref_fee, pool_signed: false },
            Transfer { from: key(USER), to: key(DEV), lamports: deposit_fee, pool_signed: false },
            Transfer { from: key(USER), to: key(POOL), lamports: real - ref_fee, pool_signed: false },
        ]
    );
    assert_eq!(sent_by(&ts, key(USER)), amount);
    assert_eq!(d.user_state.referrer, key(REFERRER));
    assert_eq!(d.user_state.matrix_count, 1);
    assert_eq!(d.ref_user_state.referred_count, 1);
    assert_eq!(d.ref_user_state.referral_reward, ref_fee);
    assert_eq!(d.invest_data.user, key(USER));
    assert_eq!(d.invest_data.seed_key, key(9));
    assert_eq!(d.invest_data.bump, 7);
    assert_eq!(d.invest_data.amount, amount);
    assert_eq!(d.invest_data.active_balance, real);
    assert_eq!(d.invest_data.invest_time, 2000);
    assert_eq!(d.invest_data.last_roi_time, 2000);
    assert_eq!(d.settings.last_deposit_time, 2000);
    assert_eq!(d.settings.last_deposit_user, key(USER));
    assert_eq!(d.settings.last_pool_winner, Pubkey::default_key());
}

#[test]
fn deposit_after_quiet_window_pays_pool_prize() {
    let amount = MIN_DEPOSIT;
    let mut d = deposit_accts(key(REFERRER), 1000);
    let ts = program::deposit(&mut d, amount, key(9), 1, 1000 + 3600 + 1).unwrap();
    assert_eq!(
        ts[0],
        Transfer { from: key(POOL), to: key(LAST), lamports: LAMPORTS_PER_SOL, pool_signed: true }
    );
    assert_eq!(ts.len(), 4);
    assert_eq!(d.settings.last_pool_winner, key(LAST));
    assert_eq!(d.settings.last_pool_reward, LAMPORTS_PER_SOL);
    assert_eq!(sent_by(&ts, key(USER)), amount);
}

#[test]
fn deposit_at_end_of_window_pays_no_prize() {
    let mut d = deposit_accts(key(REFERRER), 1000);
    let ts = deposit::handler(&mut d, MIN_DEPOSIT, key(9), 1, 1000 + 3600).unwrap();
    assert_eq!(ts.len(), 3);
    assert_eq!(d.settings.last_pool_reward, 0);
}

#[test]
fn self_referral_pays_no_referral_fee() {
    let amount = 3 * LAMPORTS_PER_SOL;
    let mut d = deposit_accts(key(USER), 1000);
    let ts = deposit::handler(&mut d, amount, key(9), 1, 2000).unwrap();
    let deposit_fee = amount * 50 / 1000;
    assert_eq!(
        ts,
        vec![
            Transfer { from: key(USER), to: key(DEV), lamports: deposit_fee, pool_signed: false },
            Transfer { from: key(USER), to: key(POOL), lamports: amount - deposit_fee, pool_signed: false },
        ]
    );
    assert_eq!(d.ref_user_state.referred_count, 0);
    assert_eq!(d.ref_user_state.referral_reward, 0);
    assert_eq!(sent_by(&ts, key(USER)), amount);
}

#[test]
fn deposit_amount_out_of_range_is_refused() {
    let mut d = deposit_accts(key(REFERRER), 1000);
    assert_eq!(deposit::handler(&mut d, MIN_DEPOSIT - 1, key(9), 1, 2000), Err(CustomError::InvalidAmount));
    assert_eq!(deposit::handler(&mut d, MAX_DEPOSIT + 1, key(9), 1, 2000), Err(CustomError::InvalidAmount));
    assert!(deposit::handler(&mut d, MAX_DEPOSIT, key(9), 1, 2000).is_ok());
}

#[test]
fn deposit_without_referrer_is_refused() {
    let mut d = deposit_accts(Pubkey::default_key(), 1000);
    assert_eq!(deposit::handler(&mut d, MIN_DEPOSIT, key(9), 1, 2000), Err(CustomError::InvalidReferrer));
    assert_eq!(d.user_state.matrix_count, 0);
}

#[test]
fn deposit_before_start_is_refused() {
    let mut d = deposit_accts(key(REFERRER), 1000);
    d.settings.miner_started = 0;
    assert_eq!(deposit::handler(&mut d, MIN_DEPOSIT, key(9), 1, 2000), Err(CustomError::MinerNotStarted));
    assert_eq!(d.settings.last_deposit_time, 1000);
}

#[test]
fn referrer_is_bound_by_first_deposit() {
    let mut d = deposit_accts(key(REFERRER), 1000);
    assert!(deposit::handler(&mut d, MIN_DEPOSIT, key(9), 1, 2000).is_ok());
    assert_eq!(d.user_state.referrer, key(REFERRER));
    let mut next = deposit_accts(key(OTHER), 2000);
    next.user_state = d.user_state;
    assert_eq!(deposit::handler(&mut next, MIN_DEPOSIT, key(10), 1, 3000), Err(CustomError::InvalidReferrer));
    assert_eq!(next.user_state.matrix_count, 1);
    let mut again = deposit_accts(key(REFERRER), 2000);
    again.user_state = d.user_state;
    assert!(deposit::handler(&mut again, MIN_DEPOSIT, key(10), 1, 3000).is_ok());
    assert_eq!(again.user_state.matrix_count, 2);
}

#[test]
fn unstake_early_is_taxed() {
    let active = 10_000;
    let mut u = unstake_accts(active, 3, 1_000_000, false);
    assert!(u.is_defined());
    let ts = unstake::handler(&mut u).unwrap();
    // tax 20%, fee 5%
    assert_eq!(
        ts,
        vec![
            Transfer { from: key(POOL), to: key(USER), lamports: 8_000 - 500, pool_signed: true },
            Transfer { from: key(POOL), to: key(DEV), lamports: 500, pool_signed: true },
        ]
    );
    assert_eq!(u.user_state.matrix_count, 1);
    assert_eq!(sent_by(&ts, key(POOL)), 8_000);
}

#[test]
fn unstake_after_limit_is_untaxed() {
    let mut u = unstake_accts(10_000, WITHDRAW_LIMIT, 1_000_000, false);
    let ts = program::unstake(&mut u).unwrap();
    assert_eq!(ts[0].lamports, 9_500);
    assert_eq!(ts[1].lamports, 500);
}

#[test]
fn unstake_is_capped_by_pool() {
    let mut u = unstake_accts(10_000, WITHDRAW_LIMIT, 6_000, false);
    let ts = unstake::handler(&mut u).unwrap();
    assert_eq!(ts[0].lamports, 5_500);
    assert_eq!(ts[1].lamports, 500);
    assert!(sent_by(&ts, key(POOL)) <= 6_000);
}

#[test]
fn unstake_by_blacklisted_user_is_blocked() {
    let mut u = unstake_accts(10_000, 3, 1_000_000, true);
    assert_eq!(u.validate(), Ok(()));
    assert_eq!(unstake::handler(&mut u), Err(CustomError::Blocked));
    assert_eq!(u.user_state.matrix_count, 2);
}

#[test]
fn unstake_with_pool_below_fee_is_undefined() {
    let u = unstake_accts(10_000, WITHDRAW_LIMIT, 400, false);
    assert!(!u.is_defined());
    let mut none_open = unstake_accts(10_000, WITHDRAW_LIMIT, 1_000_000, false);
    none_open.user_state.matrix_count = 0;
    assert!(!none_open.is_defined());
}

#[test]
fn set_pool_prize_keeps_seconds() {
    let mut accts = SetPoolPrize { settings: started_settings() };
    assert_eq!(set_pool_prize::handler(&mut accts, 5, 250), Ok(()));
    assert_eq!(accts.settings.pool_prize_limit, 300);
    assert_eq!(accts.settings.pool_prize_ratio, 250);
    assert_eq!(program::set_pool_prize(&mut accts, 0, 1), Ok(()));
    assert_eq!(accts.settings.pool_prize_limit, 0);
    assert_eq!(accts.settings.roi, 1050);
}
