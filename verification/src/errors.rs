//! The error kinds that an operation can surface to its caller.

use vstd::prelude::*;

verus! {

/// Every way an operation can fail. A failing operation commits no ledger
/// change: the caller keeps the state it started from.
#[derive(Clone, Copy, Debug, PartialEq, Eq, Structural)]
pub enum StakingError {
    /// The caller is not the record owner, or not the pool admin, for an
    /// operation that requires it.
    Unauthorized,
    /// The requested amount exceeds the available stake or vault balance, or
    /// would underflow a balance.
    InsufficientFunds,
    /// The supplied asset identifier does not match the pool's configured
    /// stake or reward asset.
    InvalidAsset,
    /// A zero amount was supplied where a positive amount is required.
    ZeroAmount,
    /// A claim was requested while `pending_rewards` is zero.
    NoRewardsAccrued,
    /// A checked addition or multiplication would exceed the integer range.
    Overflow,
    /// A subtraction or division produced an undefined result on a code path
    /// that should have been unreachable; surfaced as a defensive fault.
    MathError,
    /// The custody collaborator refused the requested transfer; surfaced
    /// verbatim by the host, with no ledger field committed.
    TransferError,
}

} // verus!
