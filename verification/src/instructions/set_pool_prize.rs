use vstd::prelude::*;

use crate::constants::SECONDS_PER_MINUTE;
use crate::error::CustomError;
use crate::states::Settings;

verus! {

/// The account data that setting the pool prize writes.
#[derive(Clone, Copy, Debug)]
pub struct SetPoolPrize {
    pub settings: Settings,
}

/// The settings after the prize window is set to `limit_minutes` minutes and
/// the prize ratio to `ratio`.
pub open spec fn with_pool_prize(settings: Settings, limit_minutes: u64, ratio: u64) -> Settings {
    Settings {
        pool_prize_limit: (limit_minutes * SECONDS_PER_MINUTE) as u64,
        pool_prize_ratio: ratio,
        ..settings
    }
}

/// Sets the pool prize window, given in minutes and kept in seconds, and the
/// pool prize ratio.
pub fn handler(accts: &mut SetPoolPrize, limit_minutes: u64, ratio: u64) -> (r: Result<(), CustomError>)
    requires
        limit_minutes * SECONDS_PER_MINUTE <= u64::MAX,
    ensures
        r is Ok,
        final(accts).settings == with_pool_prize(old(accts).settings, limit_minutes, ratio),
{
    accts.settings.pool_prize_limit = limit_minutes * SECONDS_PER_MINUTE;
    accts.settings.pool_prize_ratio = ratio;
    Ok(())
}

} // verus!
