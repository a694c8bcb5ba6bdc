//! The rows that the service stores.

use vstd::prelude::*;

verus! {

/// A moment in UTC: whole seconds since the Unix epoch and the nanoseconds
/// past them.
#[derive(Clone, Copy, Debug, PartialEq, Eq, Structural)]
pub struct Timestamp {
    pub secs: i64,
    pub nanos: u32,
}

/// Where a bounty is in its life, as the service records it.
#[derive(Clone, Copy, Debug, PartialEq, Eq, Structural)]
pub enum BountyStatus {
    Open,
    Claimed,
    Closed,
}

/// A bounty row.
pub struct Bounty {
    pub id: uuid::Uuid,
    pub on_chain_id: i64,
    pub poster_wallet: String,
    pub claimer_wallet: Option<String>,
    pub pda_address: String,
    pub title: String,
    pub description: String,
    pub amount_lamports: i64,
    pub status: BountyStatus,
    pub submission_uri: Option<String>,
    pub tx_signature: Option<String>,
    pub created_at: Timestamp,
    pub updated_at: Timestamp,
}

/// A submission row.
pub struct Submission {
    pub id: uuid::Uuid,
    pub bounty_id: uuid::Uuid,
    pub submitter_wallet: String,
    pub submission_uri: String,
    pub note: Option<String>,
    pub created_at: Timestamp,
}

/// A user row.
pub struct User {
    pub id: uuid::Uuid,
    pub wallet_address: String,
    pub display_name: Option<String>,
    pub bio: Option<String>,
    pub reputation: i64,
    pub created_at: Timestamp,
    pub updated_at: Timestamp,
}

} // verus!
