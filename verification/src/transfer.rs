//! The request handed to the external custody collaborator.
//!
//! The core never moves assets itself: each successful operation returns at
//! most one `TransferRequest`, and the host performs it atomically. When the
//! collaborator refuses the transfer, the host discards the returned ledger
//! state and surfaces `StakingError::TransferError`.

use vstd::prelude::*;

use crate::state::{Pool, UserStakeAccount};

verus! {

/// An endpoint of a transfer: a participant's or the admin's own account, or
/// one of the two vaults the pool controls.
#[derive(Clone, Copy, Debug, PartialEq, Eq, Structural)]
pub enum TransferParty {
    /// The account of the named identity.
    Identity(u64),
    /// The pool-owned vault holding staked assets in escrow.
    StakeVault,
    /// The pool-owned vault backing reward payouts.
    RewardVault,
}

/// The authorization accompanying a transfer: the acting caller's own
/// signature, or the pool's capability over its vaults.
#[derive(Clone, Copy, Debug, PartialEq, Eq, Structural)]
pub enum TransferAuthority {
    /// The named identity authorizes moving assets out of its own account.
    Identity(u64),
    /// The pool's vault-authority capability: the pool, not an individual
    /// caller, authorizes moving assets out of a pool-owned vault.
    VaultAuthority,
}

/// One atomic asset movement the core asks the custody collaborator for.
#[derive(Clone, Copy, Debug, PartialEq, Eq, Structural)]
pub struct TransferRequest {
    /// Which asset to move.
    pub asset_id: u64,
    /// Source of the movement.
    pub from: TransferParty,
    /// Destination of the movement.
    pub to: TransferParty,
    /// Exact amount to move; never zero.
    pub amount: u64,
    /// Who authorizes the movement.
    pub authority: TransferAuthority,
}

/// The complete outcome of a successful balance-changing operation: the
/// post-operation ledger records and the one transfer the operation requests.
/// The host performs the transfer first and commits `pool` and `user` only
/// when it succeeded; on refusal it discards both, so a failed operation
/// leaves the ledger exactly as it was.
#[derive(Clone, Copy, Debug, PartialEq, Eq, Structural)]
pub struct LedgerUpdate {
    /// The pool record to commit.
    pub pool: Pool,
    /// The acting participant's record to commit.
    pub user: UserStakeAccount,
    /// The asset movement to perform before committing.
    pub transfer: TransferRequest,
}

} // verus!
