//! Properties of the instructions that span calls or hold of every input.
use vstd::prelude::*;

use crate::constants::{lemma_share_bounded, lemma_share_nonneg, FEE_DIVIDER, ROI_INTERVAL, WITHDRAW_LIMIT};
use crate::error::CustomError;
use crate::instructions::compound::{
    compound_arith_ok, compound_check, compound_fee_amount, compounded, daily_reward,
};
use crate::instructions::deposit::{
    deposit_arith_ok, deposit_check, deposit_transfers, deposit_validate, deposited,
    deposited_settings, pool_prize, prize_due, Deposit,
};
use crate::instructions::set_pool_prize::with_pool_prize;
use crate::instructions::transfer::Transfer;
use crate::instructions::unstake::{unstake_arith_ok, unstake_check, unstake_transfers, Unstake};
use crate::pubkey::{spec_default_key, Pubkey};
use crate::states::{InvestData, Settings};

verus! {

/// After a successful compound at time `now`, compounding the same investment
/// again earlier than `ROI_INTERVAL` seconds later is refused with `CantClaimNow`.
pub proof fn law_compound_rate_limited(inv: InvestData, settings: Settings, now: u64, later: u64)
    requires
        compound_check(inv, settings, now) is Ok,
        later < now + ROI_INTERVAL,
    ensures
        compound_check(compounded(inv, settings, now), settings, later) == Err::<(), CustomError>(
            CustomError::CantClaimNow,
        ),
{
}

/// A successful compound leaves at most `WITHDRAW_LIMIT` compounds on the
/// investment, and once it has `WITHDRAW_LIMIT`, every compound whose time has
/// come is refused with `CantCompound`.
pub proof fn law_compound_count_bounded(inv: InvestData, settings: Settings, now: u64)
    ensures
        compound_check(inv, settings, now) is Ok ==> compounded(inv, settings, now).days
            <= WITHDRAW_LIMIT,
        inv.days >= WITHDRAW_LIMIT && inv.last_roi_time + ROI_INTERVAL <= now ==> compound_check(
            inv,
            settings,
            now,
        ) == Err::<(), CustomError>(CustomError::CantCompound),
{
}

/// With a compound fee of at most the whole reward, compounding never lowers
/// the active balance, and the balance after it is the old balance plus the
/// reward less the fee.
pub proof fn law_compound_never_lowers_balance(inv: InvestData, settings: Settings, now: u64)
    requires
        compound_check(inv, settings, now) is Ok,
        compound_arith_ok(inv, settings),
        settings.compound_fee <= FEE_DIVIDER,
    ensures
        compounded(inv, settings, now).active_balance == inv.active_balance + daily_reward(inv, settings)
            - compound_fee_amount(inv, settings),
        compounded(inv, settings, now).active_balance >= inv.active_balance,
        compounded(inv, settings, now).days == inv.days + 1,
        compounded(inv, settings, now).last_roi_time == now,
{
    lemma_share_bounded(daily_reward(inv, settings), settings.compound_fee as int);
}

/// Once a deposit has bound the user's referrer, a later deposit of that user
/// naming another referrer is refused with `InvalidReferrer`.
pub proof fn law_referrer_bound_once(
    d: Deposit,
    amount: u64,
    seed_key: Pubkey,
    bump: u8,
    now: u64,
    next: Deposit,
    next_amount: u64,
)
    requires
        deposit_check(d, amount) is Ok,
        next.user_state == deposited(d, amount, seed_key, bump, now).user_state,
        next.referrer != d.referrer,
        deposit_validate(next, next_amount) is Ok,
    ensures
        deposited(d, amount, seed_key, bump, now).user_state.referrer == d.referrer,
        deposit_check(next, next_amount) == Err::<(), CustomError>(CustomError::InvalidReferrer),
{
}

/// The pool prize goes to the last depositor exactly when no deposit came for
/// more than `pool_prize_limit` seconds; with a ratio of at most the whole it
/// is no more than the pool holds; and right after a deposit at `now`, no prize
/// is due until `pool_prize_limit` seconds have passed.
pub proof fn law_pool_prize(d: Deposit, amount: u64, now: u64, later: u64)
    requires
        deposit_check(d, amount) is Ok,
        deposit_arith_ok(d, amount, now),
        later <= now + d.settings.pool_prize_limit,
    ensures
        prize_due(d.settings, now) ==> deposited_settings(d, now).last_pool_winner == d.last_deposit_user
            && deposited_settings(d, now).last_pool_reward == pool_prize(d),
        !prize_due(d.settings, now) ==> deposited_settings(d, now).last_pool_winner
            == d.settings.last_pool_winner && deposited_settings(d, now).last_pool_reward
            == d.settings.last_pool_reward,
        d.settings.pool_prize_ratio <= FEE_DIVIDER ==> 0 <= pool_prize(d) <= d.pool_lamports,
        !prize_due(deposited_settings(d, now), later),
{
    if d.settings.pool_prize_ratio <= FEE_DIVIDER {
        lemma_share_bounded(d.pool_lamports as int, d.settings.pool_prize_ratio as int);
    }
    if prize_due(d.settings, now) {
        lemma_share_nonneg(d.pool_lamports as int, d.settings.pool_prize_ratio as int);
        assert(pool_prize(d) <= d.pool_lamports * d.settings.pool_prize_ratio) by (nonlinear_arith)
            requires
                pool_prize(d) == d.pool_lamports * d.settings.pool_prize_ratio / (FEE_DIVIDER as int),
                d.pool_lamports * d.settings.pool_prize_ratio >= 0,
        ;
    }
}

/// A successful deposit naming a referrer other than the user credits that
/// referrer with the referral fee `amount * ref_fee / FEE_DIVIDER` on top of
/// what it had earned before, and counts one more referral.
pub proof fn law_deposit_credits_referrer(d: Deposit, amount: u64, seed_key: Pubkey, bump: u8, now: u64)
    requires
        1_000_000_000 <= amount <= 1_000_000_000_000,
        d.referrer != spec_default_key(),
        d.settings.miner_started == 1,
        d.user_state.referrer == spec_default_key() || d.user_state.referrer == d.referrer,
        d.referrer != d.user,
        amount * d.settings.ref_fee <= u64::MAX,
        amount * d.settings.fee <= u64::MAX,
        amount * d.settings.fee / (FEE_DIVIDER as int) + amount * d.settings.ref_fee / (FEE_DIVIDER as int) <= amount,
        d.ref_user_state.referral_reward + amount * d.settings.ref_fee / (FEE_DIVIDER as int) <= u64::MAX,
        d.ref_user_state.referred_count + 1 <= u64::MAX,
    ensures
        deposit_check(d, amount) is Ok,
        deposited(d, amount, seed_key, bump, now).ref_user_state.referral_reward
            == d.ref_user_state.referral_reward + amount * d.settings.ref_fee / (FEE_DIVIDER as int),
        deposited(d, amount, seed_key, bump, now).ref_user_state.referred_count
            == d.ref_user_state.referred_count + 1,
{
}

/// A successful deposit naming a referrer other than the user pays that
/// referrer `amount * ref_fee / FEE_DIVIDER`, pays the dev wallet
/// `amount * fee / FEE_DIVIDER`, and puts the rest of the amount into the pool,
/// as its last three transfers; before them comes only the pool prize, when due.
pub proof fn law_deposit_pays_referrer(d: Deposit, amount: u64, now: u64)
    requires
        1_000_000_000 <= amount <= 1_000_000_000_000,
        d.referrer != spec_default_key(),
        d.settings.miner_started == 1,
        d.user_state.referrer == spec_default_key() || d.user_state.referrer == d.referrer,
        d.referrer != d.user,
        amount * d.settings.ref_fee <= u64::MAX,
        amount * d.settings.fee <= u64::MAX,
        amount * d.settings.fee / (FEE_DIVIDER as int) + amount * d.settings.ref_fee / (FEE_DIVIDER as int) <= amount,
        d.ref_user_state.referral_reward + amount * d.settings.ref_fee / (FEE_DIVIDER as int) <= u64::MAX,
        d.ref_user_state.referred_count + 1 <= u64::MAX,
    ensures
        deposit_check(d, amount) is Ok,
        ({
            let ts = deposit_transfers(d, amount, now);
            let ref_fee = amount * d.settings.ref_fee / (FEE_DIVIDER as int);
            let dev_fee = amount * d.settings.fee / (FEE_DIVIDER as int);
            &&& ts.len() == if d.settings.last_deposit_time + d.settings.pool_prize_limit < now { 4int } else { 3int }
            &&& ts[ts.len() - 3] == (Transfer { from: d.user, to: d.referrer, lamports: ref_fee as u64, pool_signed: false })
            &&& ts[ts.len() - 2] == (Transfer { from: d.user, to: d.dev_wallet, lamports: dev_fee as u64, pool_signed: false })
            &&& ts[ts.len() - 1] == (Transfer { from: d.user, to: d.pool, lamports: (amount - dev_fee - ref_fee) as u64, pool_signed: false })
            &&& ref_fee == ts[ts.len() - 3].lamports
            &&& amount - dev_fee - ref_fee == ts[ts.len() - 1].lamports
        }),
{
    lemma_share_nonneg(amount as int, d.settings.ref_fee as int);
    lemma_share_nonneg(amount as int, d.settings.fee as int);
}

/// Whether the user's referrer was already bound (to the same referrer) or is
/// bound by this deposit makes no difference to a deposit's transfers nor to
/// what the referrer is credited.
pub proof fn law_deposit_referral_independent_of_binding(
    d: Deposit,
    amount: u64,
    seed_key: Pubkey,
    bump: u8,
    now: u64,
)
    requires
        d.user_state.referrer == spec_default_key(),
        deposit_check(d, amount) is Ok,
        deposit_arith_ok(d, amount, now),
    ensures
        ({
            let bound = Deposit { user_state: crate::states::UserState { referrer: d.referrer, ..d.user_state }, ..d };
            &&& deposit_check(bound, amount) is Ok
            &&& deposit_transfers(bound, amount, now) == deposit_transfers(d, amount, now)
            &&& deposited(bound, amount, seed_key, bump, now).ref_user_state
                == deposited(d, amount, seed_key, bump, now).ref_user_state
            &&& deposited(bound, amount, seed_key, bump, now).user_state
                == deposited(d, amount, seed_key, bump, now).user_state
        }),
{
}

/// Before `WITHDRAW_LIMIT` compounds, a successful compound grows the active
/// balance `a` to `g = a * roi / FEE_DIVIDER` and takes the compound fee
/// `(g - a) * compound_fee / FEE_DIVIDER` from it: the growth is on the active
/// balance, whatever was deposited.
pub proof fn law_compound_grows_active_balance(inv: InvestData, settings: Settings, now: u64)
    requires
        inv.last_roi_time + 60 <= now,
        inv.days < WITHDRAW_LIMIT,
        settings.miner_started == 1,
        inv.active_balance * settings.roi <= u64::MAX,
        inv.active_balance <= inv.active_balance * settings.roi / (FEE_DIVIDER as int),
        (inv.active_balance * settings.roi / (FEE_DIVIDER as int) - inv.active_balance) * settings.compound_fee
            <= u64::MAX,
        (inv.active_balance * settings.roi / (FEE_DIVIDER as int) - inv.active_balance) * settings.compound_fee
            / (FEE_DIVIDER as int) <= inv.active_balance * settings.roi / (FEE_DIVIDER as int),
    ensures
        compound_check(inv, settings, now) is Ok,
        ({
            let a = inv.active_balance as int;
            let g = a * settings.roi / (FEE_DIVIDER as int);
            compounded(inv, settings, now).active_balance == g - (g - a) * settings.compound_fee / (
            FEE_DIVIDER as int)
        }),
        compounded(inv, settings, now).amount == inv.amount,
        compounded(inv, settings, now).days == inv.days + 1,
        compounded(inv, settings, now).last_roi_time == now,
{
}

/// Two investments with the same active balance, compound count and compound
/// time compound to the same active balance, whatever each had deposited.
pub proof fn law_compound_ignores_deposit(inv1: InvestData, inv2: InvestData, settings: Settings, now: u64)
    requires
        inv1.last_roi_time + 60 <= now,
        inv1.days < WITHDRAW_LIMIT,
        settings.miner_started == 1,
        inv1.active_balance == inv2.active_balance,
        inv1.days == inv2.days,
        inv1.last_roi_time == inv2.last_roi_time,
    ensures
        compound_check(inv1, settings, now) is Ok,
        compound_check(inv2, settings, now) is Ok,
        compounded(inv1, settings, now).active_balance == compounded(inv2, settings, now).active_balance,
{
}

/// An unstake before `WITHDRAW_LIMIT` compounds, from a pool that holds the
/// taxed balance, pays the user `a - a * withdraw_tax_rate / FEE_DIVIDER -
/// a * fee / FEE_DIVIDER` and the dev wallet `a * fee / FEE_DIVIDER`, where `a`
/// is the active balance; from `WITHDRAW_LIMIT` compounds on, no tax is taken.
pub proof fn law_unstake_pays_active_balance(u: Unstake)
    requires
        !u.blacklist.addresses@.contains(u.user),
        u.invest_data.active_balance * u.settings.withdraw_tax_rate <= u64::MAX,
        u.invest_data.active_balance * u.settings.fee <= u64::MAX,
        u.invest_data.active_balance * u.settings.withdraw_tax_rate / (FEE_DIVIDER as int)
            + u.invest_data.active_balance * u.settings.fee / (FEE_DIVIDER as int)
            <= u.invest_data.active_balance,
        u.invest_data.active_balance * u.settings.fee / (FEE_DIVIDER as int) <= u.pool_lamports,
    ensures
        unstake_check(u) is Ok,
        ({
            let a = u.invest_data.active_balance as int;
            let tax = a * u.settings.withdraw_tax_rate / (FEE_DIVIDER as int);
            let fee = a * u.settings.fee / (FEE_DIVIDER as int);
            let ts = unstake_transfers(u);
            &&& ts.len() == 2
            &&& ts[1] == (Transfer { from: u.pool, to: u.dev_wallet, lamports: fee as u64, pool_signed: true })
            &&& ts[1].lamports == fee
            &&& ts[0].from == u.pool && ts[0].to == u.user && ts[0].pool_signed
            &&& (u.invest_data.days < WITHDRAW_LIMIT && a - tax <= u.pool_lamports ==> ts[0].lamports == a - tax - fee)
            &&& (u.invest_data.days >= WITHDRAW_LIMIT && a <= u.pool_lamports ==> ts[0].lamports == a - fee)
            &&& (u.invest_data.days >= WITHDRAW_LIMIT && a > u.pool_lamports ==> ts[0].lamports == u.pool_lamports - fee)
        }),
{
    lemma_share_nonneg(u.invest_data.active_balance as int, u.settings.fee as int);
}

/// Setting the pool prize makes the window `limit_minutes * 60` seconds and the
/// ratio `ratio`, whatever they were before, and changes nothing else.
pub proof fn law_set_pool_prize_overwrites(settings: Settings, limit_minutes: u64, ratio: u64)
    requires
        limit_minutes * 60 <= u64::MAX,
    ensures
        with_pool_prize(settings, limit_minutes, ratio).pool_prize_limit == limit_minutes * 60,
        with_pool_prize(settings, limit_minutes, ratio).pool_prize_ratio == ratio,
        with_pool_prize(settings, limit_minutes, ratio) == (Settings {
            pool_prize_limit: (limit_minutes * 60) as u64,
            pool_prize_ratio: ratio,
            ..settings
        }),
{
}

} // verus!
