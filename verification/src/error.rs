use vstd::prelude::*;

verus! {

/// Errors that an instruction can answer with.
#[derive(Clone, Copy, Debug, PartialEq, Eq, Structural)]
pub enum CustomError {
    Unauthorized,
    NotAllowedAuthority,
    InvalidParameter,
    InvalidReferrer,
    CantClaimNow,
    CantCompound,
    CantWithdrawNow,
    MatrixCountOverflow,
    TotalRewardOverflow,
    WithdrawOverflow,
    InvalidReferral,
    InvalidAmount,
    Blocked,
    MinerNotStarted,
    MinerAlreadyStarted,
    ZeroAddressDetected,
}

} // verus!
