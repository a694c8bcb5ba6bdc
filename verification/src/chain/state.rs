//! The data that the program's accounts hold.

use vstd::prelude::*;

use crate::pubkey::Pubkey;

verus! {

/// The longest submission URI, in bytes, that a bounty account holds.
pub const MAX_URI_LEN: usize = 200;

/// Where a bounty is in its life.
#[derive(Clone, Copy, Debug, PartialEq, Eq, Structural)]
pub enum BountyStatus {
    Open,
    Claimed,
    Closed,
}

/// A posted bounty; its account also holds the escrowed lamports.
pub struct BountyState {
    pub id: u64,
    pub poster: Pubkey,
    pub claimer: Pubkey,
    pub amount: u64,
    pub status: BountyStatus,
    pub submisstion_uri: String,
}

/// A user's reputation record.
#[derive(Clone, Copy, Debug, PartialEq, Eq, Structural)]
pub struct UserProfile {
    pub authority: Pubkey,
    pub reputation: u64,
}

/// The program's global settings.
#[derive(Clone, Copy, Debug, PartialEq, Eq, Structural)]
pub struct GlobalState {
    pub authority: Pubkey,
    pub bump: u8,
}

/// The number of bytes of the UTF-8 encoding of `s`, as a `usize` (the
/// length of a string in memory always fits).
pub open spec fn utf8_len(s: Seq<char>) -> usize {
    vstd::utf8::encode_utf8(s).len() as usize
}

/// The number of bytes of the UTF-8 encoding of `s`.
pub fn byte_len(s: &String) -> (n: usize)
    ensures
        n == utf8_len(s@),
{
    s.as_str().len()
}

} // verus!
