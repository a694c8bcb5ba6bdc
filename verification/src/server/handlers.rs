//! What the service's handlers decide, given what they read from the request
//! and the database.

use vstd::prelude::*;
use vstd::string::StringExecFns;

use super::dto::{
    AuthNonceQuery, AuthNonceResponse, AuthVerifyRequest, AuthVerifyResponse, BountyResponse,
    CreateBountyRequest, UpdateBountyRequest, UpdateUserRequest, UserResponse,
};
use super::ext::{is_hyphenated_v4, new_nonce};
use super::models::{Bounty, BountyStatus, User};

verus! {

/// A refusal, with the HTTP status it is answered with.
#[derive(Clone, Copy, Debug, PartialEq, Eq, Structural)]
pub enum ApiError {
    BadRequest,
    NotFound,
    Conflict,
    Internal,
    NotImplemented,
    ServiceUnavailable,
}

impl ApiError {
    /// The HTTP status code.
    pub fn status(&self) -> (code: u16)
        ensures
            code == match self {
                ApiError::BadRequest => 400u16,
                ApiError::NotFound => 404,
                ApiError::Conflict => 409,
                ApiError::Internal => 500,
                ApiError::NotImplemented => 501,
                ApiError::ServiceUnavailable => 503,
            },
    {
        match self {
            ApiError::BadRequest => 400,
            ApiError::NotFound => 404,
            ApiError::Conflict => 409,
            ApiError::Internal => 500,
            ApiError::NotImplemented => 501,
            ApiError::ServiceUnavailable => 503,
        }
    }
}

/// The text a wallet signs to sign in.
pub open spec fn nonce_message(wallet: Seq<char>, nonce: Seq<char>) -> Seq<char> {
    "Sign in to Bounty Board\nWallet: "@ + wallet + "\nNonce: "@ + nonce
}

/// The answer to a nonce request for `wallet` with the nonce `nonce`.
pub fn nonce_response(wallet: String, nonce: String) -> (r: AuthNonceResponse)
    ensures
        r.wallet == wallet,
        r.nonce == nonce,
        r.message@ == nonce_message(wallet@, nonce@),
{
    let mut message = String::from_str("Sign in to Bounty Board\nWallet: ");
    message.append(wallet.as_str());
    message.append("\nNonce: ");
    message.append(nonce.as_str());
    AuthNonceResponse { wallet, message, nonce }
}

/// `GET /api/auth/nonce`: a fresh nonce for the wallet, and the message to
/// sign with it.
pub fn get_nonce(query: AuthNonceQuery) -> (r: AuthNonceResponse)
    ensures
        r.wallet == query.wallet,
        is_hyphenated_v4(r.nonce@),
        r.message@ == nonce_message(query.wallet@, r.nonce@),
{
    let nonce = new_nonce();
    nonce_response(query.wallet, nonce)
}

/// `POST /api/auth/verify`: signature checking is not offered yet.
pub fn verify_signature(payload: &AuthVerifyRequest) -> (r: Result<AuthVerifyResponse, ApiError>)
    ensures
        r == Err::<AuthVerifyResponse, ApiError>(ApiError::NotImplemented),
{
    Err(ApiError::NotImplemented)
}

/// `GET /api/me`: sessions are not offered yet.
pub fn me() -> (r: Result<UserResponse, ApiError>)
    ensures
        r == Err::<UserResponse, ApiError>(ApiError::NotImplemented),
{
    Err(ApiError::NotImplemented)
}

/// Query of `GET /api/bounties`.
pub struct ListBountiesQuery {
    pub status: Option<String>,
    pub poster: Option<String>,
    pub claimer: Option<String>,
    pub limit: Option<i64>,
    pub offset: Option<i64>,
}

/// `x` brought into `[lo, hi]`.
pub open spec fn clamp(x: i64, lo: i64, hi: i64) -> i64 {
    if x < lo {
        lo
    } else if x > hi {
        hi
    } else {
        x
    }
}

impl ListBountiesQuery {
    /// How many bounties to list: 50 unless asked, and from 1 to 100.
    pub fn page_limit(&self) -> (n: i64)
        ensures
            n == clamp(
                match self.limit {
                    Some(x) => x,
                    None => 50,
                },
                1,
                100,
            ),
            1 <= n <= 100,
    {
        let asked = match self.limit {
            Some(x) => x,
            None => 50,
        };
        if asked < 1 {
            1
        } else if asked > 100 {
            100
        } else {
            asked
        }
    }

    /// How many bounties to skip: 0 unless asked, and never below 0.
    pub fn page_offset(&self) -> (n: i64)
        ensures
            n == match self.offset {
                Some(x) => if x < 0 {
                    0
                } else {
                    x
                },
                None => 0,
            },
            n >= 0,
    {
        match self.offset {
            Some(x) => if x < 0 {
                0
            } else {
                x
            },
            None => 0,
        }
    }
}

/// Body of `POST /api/bounties/confirm`.
pub struct ConfirmBountyRequest {
    pub tx_signature: String,
    pub pda_address: Option<String>,
}

/// `POST /api/bounties/{id}/sync`: reading the chain is not offered yet.
pub fn sync_bounty(id: uuid::Uuid) -> (r: Result<BountyResponse, ApiError>)
    ensures
        r == Err::<BountyResponse, ApiError>(ApiError::NotImplemented),
{
    Err(ApiError::NotImplemented)
}

/// `POST /api/bounties/confirm`: confirming transactions is not offered yet.
pub fn confirm_bounty(payload: &ConfirmBountyRequest) -> (r: Result<BountyResponse, ApiError>)
    ensures
        r == Err::<BountyResponse, ApiError>(ApiError::NotImplemented),
{
    Err(ApiError::NotImplemented)
}

/// The columns of a new bounty row; the database gives its id and times.
pub struct NewBounty {
    pub on_chain_id: i64,
    pub poster_wallet: String,
    pub pda_address: String,
    pub title: String,
    pub description: String,
    pub amount_lamports: i64,
    pub status: BountyStatus,
    pub tx_signature: Option<String>,
}

impl CreateBountyRequest {
    /// The row that `POST /api/bounties` inserts: the request's fields, open.
    pub fn new_bounty(self) -> (row: NewBounty)
        ensures
            row.on_chain_id == self.on_chain_id,
            row.poster_wallet == self.poster_wallet,
            row.pda_address == self.pda_address,
            row.title == self.title,
            row.description == self.description,
            row.amount_lamports == self.amount_lamports,
            row.status == BountyStatus::Open,
            row.tx_signature == self.tx_signature,
    {
        NewBounty {
            on_chain_id: self.on_chain_id,
            poster_wallet: self.poster_wallet,
            pda_address: self.pda_address,
            title: self.title,
            description: self.description,
            amount_lamports: self.amount_lamports,
            status: BountyStatus::Open,
            tx_signature: self.tx_signature,
        }
    }
}

/// `new` where it is given, else `old`.
pub open spec fn given_or<T>(new: Option<T>, old: T) -> T {
    match new {
        Some(x) => x,
        None => old,
    }
}

/// `new` where it is given, else `old`.
pub open spec fn given_or_optional<T>(new: Option<T>, old: Option<T>) -> Option<T> {
    match new {
        Some(x) => Some(x),
        None => old,
    }
}

/// `new` where it is given, else `old`.
fn pick<T>(new: Option<T>, old: T) -> (r: T)
    ensures
        r == given_or(new, old),
{
    match new {
        Some(x) => x,
        None => old,
    }
}

/// `new` where it is given, else `old`.
fn pick_optional<T>(new: Option<T>, old: Option<T>) -> (r: Option<T>)
    ensures
        r == given_or_optional(new, old),
{
    match new {
        Some(x) => Some(x),
        None => old,
    }
}

impl UpdateBountyRequest {
    /// `PUT /api/bounties/{id}`: each field that the request gives replaces
    /// the row's; the others stay.
    pub fn apply(self, row: Bounty) -> (r: Bounty)
        ensures
            r.id == row.id,
            r.on_chain_id == row.on_chain_id,
            r.poster_wallet == row.poster_wallet,
            r.pda_address == row.pda_address,
            r.title == given_or(self.title, row.title),
            r.description == given_or(self.description, row.description),
            r.claimer_wallet == given_or_optional(self.claimer_wallet, row.claimer_wallet),
            r.amount_lamports == given_or(self.amount_lamports, row.amount_lamports),
            r.status == given_or(self.status, row.status),
            r.submission_uri == given_or_optional(self.submission_uri, row.submission_uri),
            r.tx_signature == given_or_optional(self.tx_signature, row.tx_signature),
            r.created_at == row.created_at,
            r.updated_at == row.updated_at,
    {
        Bounty {
            id: row.id,
            on_chain_id: row.on_chain_id,
            poster_wallet: row.poster_wallet,
            claimer_wallet: pick_optional(self.claimer_wallet, row.claimer_wallet),
            pda_address: row.pda_address,
            title: pick(self.title, row.title),
            description: pick(self.description, row.description),
            amount_lamports: pick(self.amount_lamports, row.amount_lamports),
            status: pick(self.status, row.status),
            submission_uri: pick_optional(self.submission_uri, row.submission_uri),
            tx_signature: pick_optional(self.tx_signature, row.tx_signature),
            created_at: row.created_at,
            updated_at: row.updated_at,
        }
    }

    /// `PATCH /api/bounties/{id}/status`: the status to set; a request
    /// without one is refused.
    pub fn required_status(&self) -> (r: Result<BountyStatus, ApiError>)
        ensures
            match self.status {
                Some(s) => r == Ok::<BountyStatus, ApiError>(s),
                None => r == Err::<BountyStatus, ApiError>(ApiError::BadRequest),
            },
    {
        match self.status {
            Some(s) => Ok(s),
            None => Err(ApiError::BadRequest),
        }
    }
}

/// `PATCH /api/bounties/{id}/status`: the row with its status replaced and
/// every other field kept.
pub fn set_status(row: Bounty, status: BountyStatus) -> (r: Bounty)
    ensures
        r.status == status,
        r.id == row.id,
        r.on_chain_id == row.on_chain_id,
        r.poster_wallet == row.poster_wallet,
        r.claimer_wallet == row.claimer_wallet,
        r.pda_address == row.pda_address,
        r.title == row.title,
        r.description == row.description,
        r.amount_lamports == row.amount_lamports,
        r.submission_uri == row.submission_uri,
        r.tx_signature == row.tx_signature,
        r.created_at == row.created_at,
        r.updated_at == row.updated_at,
{
    Bounty { status, ..row }
}

impl UpdateUserRequest {
    /// `PUT /api/users/{id}`: the display name and the bio that the request
    /// gives replace the row's; the others stay.
    pub fn apply(self, row: User) -> (r: User)
        ensures
            r.id == row.id,
            r.wallet_address == row.wallet_address,
            r.display_name == given_or_optional(self.display_name, row.display_name),
            r.bio == given_or_optional(self.bio, row.bio),
            r.reputation == row.reputation,
            r.created_at == row.created_at,
            r.updated_at == row.updated_at,
    {
        User {
            id: row.id,
            wallet_address: row.wallet_address,
            display_name: pick_optional(self.display_name, row.display_name),
            bio: pick_optional(self.bio, row.bio),
            reputation: row.reputation,
            created_at: row.created_at,
            updated_at: row.updated_at,
        }
    }
}

/// A looked-up row, or `NotFound` where there is none.
pub fn require_found<T>(row: Option<T>) -> (r: Result<T, ApiError>)
    ensures
        match row {
            Some(x) => r == Ok::<T, ApiError>(x),
            None => r == Err::<T, ApiError>(ApiError::NotFound),
        },
{
    match row {
        Some(x) => Ok(x),
        None => Err(ApiError::NotFound),
    }
}

/// The answer to a delete that removed `rows_affected` rows: `NotFound`
/// where it removed none.
pub fn deletion_result(rows_affected: u64) -> (r: Result<(), ApiError>)
    ensures
        rows_affected == 0 ==> r == Err::<(), ApiError>(ApiError::NotFound),
        rows_affected > 0 ==> r is Ok,
{
    if rows_affected == 0 {
        Err(ApiError::NotFound)
    } else {
        Ok(())
    }
}

/// The answer to an insert that the database refused: `Conflict` where the
/// refusal names a violated constraint, else `Internal`.
pub fn insert_failure(names_constraint: bool) -> (e: ApiError)
    ensures
        e == if names_constraint {
            ApiError::Conflict
        } else {
            ApiError::Internal
        },
{
    if names_constraint {
        ApiError::Conflict
    } else {
        ApiError::Internal
    }
}

/// Body of `GET /health`.
pub struct HealthResponse {
    pub status: &'static str,
    pub database: &'static str,
}

/// `GET /health`: healthy where the database answers, else
/// `ServiceUnavailable`.
pub fn health(database_answers: bool) -> (r: Result<HealthResponse, ApiError>)
    ensures
        database_answers <==> r is Ok,
        r matches Ok(h) ==> h.status@ == "ok"@ && h.database@ == "up"@,
        !database_answers ==> r == Err::<HealthResponse, ApiError>(ApiError::ServiceUnavailable),
{
    if database_answers {
        Ok(HealthResponse { status: "ok", database: "up" })
    } else {
        Err(ApiError::ServiceUnavailable)
    }
}

} // verus!
