//! What the service's responses say of the rows they show.

use vstd::prelude::*;
use vstd::std_specs::convert::FromSpec;

use super::dto::{BountyResponse, SubmissionResponse, UserResponse};
use super::handlers::{clamp, given_or, given_or_optional};
use super::models::{Bounty, Submission, User};

verus! {

/// A bounty response shows each field of its row under the same name.
pub proof fn lemma_bounty_response_shows_row(row: Bounty)
    ensures
        <BountyResponse as FromSpec<Bounty>>::obeys_from_spec(),
        ({
            let r = <BountyResponse as FromSpec<Bounty>>::from_spec(row);
            &&& r.id == row.id
            &&& r.on_chain_id == row.on_chain_id
            &&& r.poster_wallet == row.poster_wallet
            &&& r.claimer_wallet == row.claimer_wallet
            &&& r.pda_address == row.pda_address
            &&& r.title == row.title
            &&& r.description == row.description
            &&& r.amount_lamports == row.amount_lamports
            &&& r.status == row.status
            &&& r.submission_uri == row.submission_uri
            &&& r.tx_signature == row.tx_signature
            &&& r.created_at == row.created_at
            &&& r.updated_at == row.updated_at
        }),
{
}

/// A submission response shows each field of its row under the same name:
/// its own id, not its bounty's.
pub proof fn lemma_submission_response_shows_row(row: Submission)
    ensures
        <SubmissionResponse as FromSpec<Submission>>::obeys_from_spec(),
        ({
            let r = <SubmissionResponse as FromSpec<Submission>>::from_spec(row);
            &&& r.id == row.id
            &&& r.bounty_id == row.bounty_id
            &&& r.submitter_wallet == row.submitter_wallet
            &&& r.submission_uri == row.submission_uri
            &&& r.note == row.note
            &&& r.created_at == row.created_at
        }),
{
}

/// A user response shows each field of its row under the same name.
pub proof fn lemma_user_response_shows_row(row: User)
    ensures
        <UserResponse as FromSpec<User>>::obeys_from_spec(),
        ({
            let r = <UserResponse as FromSpec<User>>::from_spec(row);
            &&& r.id == row.id
            &&& r.wallet_address == row.wallet_address
            &&& r.display_name == row.display_name
            &&& r.bio == row.bio
            &&& r.reputation == row.reputation
            &&& r.created_at == row.created_at
            &&& r.updated_at == row.updated_at
        }),
{
}

/// An update takes the value that the request gives, and keeps the old one
/// where it gives none.
pub proof fn lemma_given_value_wins<T>(new: Option<T>, old: T, old_optional: Option<T>)
    ensures
        new matches Some(x) ==> given_or(new, old) == x && given_or_optional(new, old_optional)
            == Some(x),
        new is None ==> given_or(new, old) == old && given_or_optional(new, old_optional)
            == old_optional,
{
}

/// Clamping keeps a value inside the bounds and changes none that is inside
/// already: below the range gives the lower bound, above it the upper.
pub proof fn lemma_clamp_bounds(x: i64, lo: i64, hi: i64)
    requires
        lo <= hi,
    ensures
        lo <= clamp(x, lo, hi) <= hi,
        lo <= x <= hi ==> clamp(x, lo, hi) == x,
        x < lo ==> clamp(x, lo, hi) == lo,
        x > hi ==> clamp(x, lo, hi) == hi,
{
}

} // verus!
