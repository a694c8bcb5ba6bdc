//! Where accounts live.

use vstd::prelude::*;

use crate::pubkey::Pubkey;

verus! {

/// The address of an account. Program-derived addresses are named by the
/// seeds they are derived from; wallets by their key.
#[derive(Clone, Copy, Debug, PartialEq, Eq, Structural)]
pub enum Address {
    /// An account owned by the system program, named by its key.
    Wallet(Pubkey),
    /// The bounty account derived from `["bounty", poster]`, followed by the
    /// little-endian bytes of `id` where there is one.
    Bounty { poster: Pubkey, id: Option<u64> },
    /// The profile account derived from `["user", authority]`.
    User(Pubkey),
    /// The program's single global account.
    Global,
}

impl Address {
    /// The address of the bounty that `poster` posted under `id`.
    pub fn bounty(poster: Pubkey, id: u64) -> (a: Address)
        ensures
            a == (Address::Bounty { poster, id: Some(id) }),
    {
        Address::Bounty { poster, id: Some(id) }
    }

    /// The address of the profile of `authority`.
    pub fn user(authority: Pubkey) -> (a: Address)
        ensures
            a == Address::User(authority),
    {
        Address::User(authority)
    }
}

} // verus!
