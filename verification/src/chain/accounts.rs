//! The accounts that each instruction names.

use vstd::prelude::*;

use super::address::Address;
use crate::pubkey::Pubkey;

verus! {

/// Creates the global account; signed by `payer`.
#[derive(Clone, Copy, Debug, PartialEq, Eq, Structural)]
pub struct Initialize {
    pub payer: Pubkey,
    /// Must be the global account.
    pub global_state: Address,
}

/// Creates the profile of `payer`; signed by `payer`.
#[derive(Clone, Copy, Debug, PartialEq, Eq, Structural)]
pub struct InitializeUser {
    pub payer: Pubkey,
    /// Must be the profile address of `payer`.
    pub user_profile: Address,
}

/// Changes the reputation in the profile of `payer`; signed by `payer`.
#[derive(Clone, Copy, Debug, PartialEq, Eq, Structural)]
pub struct UpdateUser {
    pub payer: Pubkey,
    /// Must be the profile address of `payer`, and the profile's authority
    /// must be `payer`.
    pub user_profile: Address,
}

/// Would create a bounty at the address derived from `["bounty", payer]`.
#[derive(Clone, Copy, Debug, PartialEq, Eq, Structural)]
pub struct InitializeBounty {
    pub payer: Pubkey,
    pub bounty_state: Address,
}

/// Changes the bounty at the address derived from `["bounty", payer]`;
/// signed by `payer`.
#[derive(Clone, Copy, Debug, PartialEq, Eq, Structural)]
pub struct UpdateBounty {
    pub payer: Pubkey,
    pub bounty_state: Address,
}

/// Creates the bounty `id` of `payer` and funds its escrow; signed by `payer`.
#[derive(Clone, Copy, Debug, PartialEq, Eq, Structural)]
pub struct PostBounty {
    pub payer: Pubkey,
    /// Must be the bounty address of `payer` and `id`.
    pub bounty_state: Address,
}

/// Claims the bounty `id` of `poster` with a submission; signed by
/// `submitter`.
#[derive(Clone, Copy, Debug, PartialEq, Eq, Structural)]
pub struct SubmitTask {
    pub submitter: Pubkey,
    pub poster: Pubkey,
    /// Must be the bounty address of `poster` and `id`.
    pub bounty_state: Address,
}

/// Pays the escrow of the bounty `id` of `poster` to `claimer`; signed by
/// `poster`.
#[derive(Clone, Copy, Debug, PartialEq, Eq, Structural)]
pub struct ApproveTask {
    pub poster: Pubkey,
    pub claimer: Pubkey,
    /// Must be the bounty address of `poster` and `id`.
    pub bounty_state: Address,
}

/// Refunds the escrow of the open bounty `id` of `poster`; signed by `poster`.
#[derive(Clone, Copy, Debug, PartialEq, Eq, Structural)]
pub struct CancelTask {
    pub poster: Pubkey,
    /// Must be the bounty address of `poster` and `id`.
    pub bounty_state: Address,
}

} // verus!
