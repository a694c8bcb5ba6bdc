//! The bodies and queries that the service takes and gives.

use vstd::prelude::*;

use super::models::{Bounty, BountyStatus, Submission, Timestamp, User};

verus! {

/// Query of `GET /api/auth/nonce`.
pub struct AuthNonceQuery {
    pub wallet: String,
}

/// Answer of `GET /api/auth/nonce`: the message the wallet is to sign.
pub struct AuthNonceResponse {
    pub wallet: String,
    pub message: String,
    pub nonce: String,
}

/// Body of `POST /api/auth/verify`.
pub struct AuthVerifyRequest {
    pub wallet: String,
    pub message: String,
    pub signature: String,
}

/// Answer of `POST /api/auth/verify`.
pub struct AuthVerifyResponse {
    pub token: String,
    pub wallet: String,
}

/// Body of `POST /api/bounties`.
pub struct CreateBountyRequest {
    pub on_chain_id: i64,
    pub poster_wallet: String,
    pub pda_address: String,
    pub title: String,
    pub description: String,
    pub amount_lamports: i64,
    /// Absent until a transaction is confirmed.
    pub tx_signature: Option<String>,
}

/// Body of `PATCH`/`PUT /api/bounties/{id}` and of `PATCH /api/bounties/{id}/status`.
pub struct UpdateBountyRequest {
    pub title: Option<String>,
    pub description: Option<String>,
    pub claimer_wallet: Option<String>,
    pub amount_lamports: Option<i64>,
    pub status: Option<BountyStatus>,
    pub submission_uri: Option<String>,
    pub tx_signature: Option<String>,
}

/// A bounty as the service shows it.
pub struct BountyResponse {
    pub id: uuid::Uuid,
    pub on_chain_id: i64,
    pub poster_wallet: String,
    pub claimer_wallet: Option<String>,
    pub pda_address: String,
    pub title: String,
    pub description: String,
    pub amount_lamports: i64,
    pub status: BountyStatus,
    pub submission_uri: Option<String>,
    pub tx_signature: Option<String>,
    pub created_at: Timestamp,
    pub updated_at: Timestamp,
}

impl From<Bounty> for BountyResponse {
    fn from(bounty: Bounty) -> (r: Self)
        ensures
            r.id == bounty.id,
            r.on_chain_id == bounty.on_chain_id,
            r.poster_wallet == bounty.poster_wallet,
            r.claimer_wallet == bounty.claimer_wallet,
            r.pda_address == bounty.pda_address,
            r.title == bounty.title,
            r.description == bounty.description,
            r.amount_lamports == bounty.amount_lamports,
            r.status == bounty.status,
            r.submission_uri == bounty.submission_uri,
            r.tx_signature == bounty.tx_signature,
            r.created_at == bounty.created_at,
            r.updated_at == bounty.updated_at,
    {
        BountyResponse {
            id: bounty.id,
            on_chain_id: bounty.on_chain_id,
            poster_wallet: bounty.poster_wallet,
            claimer_wallet: bounty.claimer_wallet,
            pda_address: bounty.pda_address,
            title: bounty.title,
            description: bounty.description,
            amount_lamports: bounty.amount_lamports,
            status: bounty.status,
            submission_uri: bounty.submission_uri,
            tx_signature: bounty.tx_signature,
            created_at: bounty.created_at,
            updated_at: bounty.updated_at,
        }
    }
}

impl vstd::std_specs::convert::FromSpecImpl<Bounty> for BountyResponse {
    open spec fn obeys_from_spec() -> bool {
        true
    }

    /// Every field of the row, as it is.
    open spec fn from_spec(bounty: Bounty) -> Self {
        BountyResponse {
            id: bounty.id,
            on_chain_id: bounty.on_chain_id,
            poster_wallet: bounty.poster_wallet,
            claimer_wallet: bounty.claimer_wallet,
            pda_address: bounty.pda_address,
            title: bounty.title,
            description: bounty.description,
            amount_lamports: bounty.amount_lamports,
            status: bounty.status,
            submission_uri: bounty.submission_uri,
            tx_signature: bounty.tx_signature,
            created_at: bounty.created_at,
            updated_at: bounty.updated_at,
        }
    }
}

/// Body of `POST /api/bounties/{id}/submissions`.
pub struct CreateSubmissionRequest {
    pub submitter_wallet: String,
    pub submission_uri: String,
    pub note: Option<String>,
}

/// A submission as the service shows it.
pub struct SubmissionResponse {
    pub id: uuid::Uuid,
    pub bounty_id: uuid::Uuid,
    pub submitter_wallet: String,
    pub submission_uri: String,
    pub note: Option<String>,
    pub created_at: Timestamp,
}

impl From<Submission> for SubmissionResponse {
    fn from(s: Submission) -> (r: Self)
        ensures
            r.id == s.id,
            r.bounty_id == s.bounty_id,
            r.submitter_wallet == s.submitter_wallet,
            r.submission_uri == s.submission_uri,
            r.note == s.note,
            r.created_at == s.created_at,
    {
        SubmissionResponse {
            id: s.id,
            bounty_id: s.bounty_id,
            submitter_wallet: s.submitter_wallet,
            submission_uri: s.submission_uri,
            note: s.note,
            created_at: s.created_at,
        }
    }
}

impl vstd::std_specs::convert::FromSpecImpl<Submission> for SubmissionResponse {
    open spec fn obeys_from_spec() -> bool {
        true
    }

    /// Every field of the row, as it is.
    open spec fn from_spec(s: Submission) -> Self {
        SubmissionResponse {
            id: s.id,
            bounty_id: s.bounty_id,
            submitter_wallet: s.submitter_wallet,
            submission_uri: s.submission_uri,
            note: s.note,
            created_at: s.created_at,
        }
    }
}

/// Body of `POST /api/users`.
pub struct CreateUserRequest {
    pub wallet_address: String,
    pub display_name: Option<String>,
    pub bio: Option<String>,
}

/// Body of `PUT /api/users/{id}`.
pub struct UpdateUserRequest {
    pub display_name: Option<String>,
    pub bio: Option<String>,
}

/// A user as the service shows it.
pub struct UserResponse {
    pub id: uuid::Uuid,
    pub wallet_address: String,
    pub display_name: Option<String>,
    pub bio: Option<String>,
    pub reputation: i64,
    pub created_at: Timestamp,
    pub updated_at: Timestamp,
}

impl From<User> for UserResponse {
    fn from(user: User) -> (r: Self)
        ensures
            r.id == user.id,
            r.wallet_address == user.wallet_address,
            r.display_name == user.display_name,
            r.bio == user.bio,
            r.reputation == user.reputation,
            r.created_at == user.created_at,
            r.updated_at == user.updated_at,
    {
        UserResponse {
            id: user.id,
            wallet_address: user.wallet_address,
            display_name: user.display_name,
            bio: user.bio,
            reputation: user.reputation,
            created_at: user.created_at,
            updated_at: user.updated_at,
        }
    }
}

impl vstd::std_specs::convert::FromSpecImpl<User> for UserResponse {
    open spec fn obeys_from_spec() -> bool {
        true
    }

    /// Every field of the row, as it is.
    open spec fn from_spec(user: User) -> Self {
        UserResponse {
            id: user.id,
            wallet_address: user.wallet_address,
            display_name: user.display_name,
            bio: user.bio,
            reputation: user.reputation,
            created_at: user.created_at,
            updated_at: user.updated_at,
        }
    }
}

} // verus!
