use bounty_board::server::dto::{
    AuthNonceQuery, AuthVerifyRequest, BountyResponse, CreateBountyRequest, SubmissionResponse,
    UpdateBountyRequest, UpdateUserRequest, UserResponse,
};
use bounty_board::server::models::Timestamp;
use bounty_board::server::handlers::{
    confirm_bounty, deletion_result, get_nonce, health, insert_failure, me, nonce_response,
    require_found, set_status, sync_bounty, verify_signature, ApiError, ConfirmBountyRequest,
    ListBountiesQuery,
};
use bounty_board::server::models::{Bounty, BountyStatus, Submission, User};

fn query(limit: Option<i64>, offset: Option<i64>) -> ListBountiesQuery {
    ListBountiesQuery { status: None, poster: None, claimer: None, limit, offset }
}

fn ts(secs: i64) -> Timestamp {
    Timestamp { secs, nanos: 5 }
}

fn sample_bounty() -> Bounty {
    Bounty {
        id: uuid::Uuid::from_u128(1),
        on_chain_id: 7,
        poster_wallet: "poster".to_string(),
        claimer_wallet: None,
        pda_address: "pda".to_string(),
        title: "Fix it".to_string(),
        description: "".to_string(),
        amount_lamports: 1_000,
        status: BountyStatus::Open,
        submission_uri: None,
        tx_signature: Some("sig".to_string()),
        created_at: ts(10),
        updated_at: ts(20),
    }
}

fn sample_user() -> User {
    User {
        id: uuid::Uuid::from_u128(2),
        wallet_address: "w".to_string(),
        display_name: Some("Ann".to_string()),
        bio: None,
        reputation: 3,
        created_at: ts(1),
        updated_at: ts(2),
    }
}

#[test]
fn page_limit_defaults_and_bounds() {
    assert_eq!(query(None, None).page_limit(), 50);
    assert_eq!(query(Some(0), None).page_limit(), 1);
    assert_eq!(query(Some(-3), None).page_limit(), 1);
    assert_eq!(query(Some(100), None).page_limit(), 100);
    assert_eq!(query(Some(101), None).page_limit(), 100);
    assert_eq!(query(Some(i64::MAX), None).page_limit(), 100);
    assert_eq!(query(Some(7), None).page_limit(), 7);
}

#[test]
fn page_offset_defaults_and_bounds() {
    assert_eq!(query(None, None).page_offset(), 0);
    assert_eq!(query(None, Some(-5)).page_offset(), 0);
    assert_eq!(query(None, Some(i64::MIN)).page_offset(), 0);
    assert_eq!(query(None, Some(40)).page_offset(), 40);
}

#[test]
fn nonce_message_format() {
    let r = nonce_response("W4llet".to_string(), "n-1".to_string());
    assert_eq!(r.wallet, "W4llet");
    assert_eq!(r.nonce, "n-1");
    assert_eq!(r.message, "Sign in to Bounty Board\nWallet: W4llet\nNonce: n-1");
}

#[test]
fn get_nonce_gives_a_fresh_uuid() {
    let a = get_nonce(AuthNonceQuery { wallet: "abc".to_string() });
    let b = get_nonce(AuthNonceQuery { wallet: "abc".to_string() });
    assert_eq!(a.wallet, "abc");
    assert_eq!(a.nonce.len(), 36);
    let parsed = uuid::Uuid::parse_str(&a.nonce).unwrap();
    assert_eq!(parsed.get_version_num(), 4);
    assert_eq!(a.nonce, a.nonce.to_lowercase());
    assert_eq!(&a.nonce[8..9], "-");
    assert_eq!(&a.nonce[14..15], "4");
    assert!(["8", "9", "a", "b"].contains(&&a.nonce[19..20]));
    assert_eq!(parsed.get_variant(), uuid::Variant::RFC4122);
    assert_ne!(a.nonce, b.nonce);
    assert_eq!(a.message, format!("Sign in to Bounty Board\nWallet: abc\nNonce: {}", a.nonce));
}

#[test]
fn unfinished_endpoints_answer_not_implemented() {
    let req = AuthVerifyRequest { wallet: "w".to_string(), message: "m".to_string(), signature: "s".to_string() };
    assert_eq!(verify_signature(&req).err(), Some(ApiError::NotImplemented));
    assert_eq!(me().err(), Some(ApiError::NotImplemented));
    assert_eq!(sync_bounty(uuid::Uuid::nil()).err(), Some(ApiError::NotImplemented));
    let c = ConfirmBountyRequest { tx_signature: "t".to_string(), pda_address: None };
    assert_eq!(confirm_bounty(&c).err(), Some(ApiError::NotImplemented));
    assert_eq!(ApiError::NotImplemented.status(), 501);
}

#[test]
fn status_codes() {
    assert_eq!(ApiError::BadRequest.status(), 400);
    assert_eq!(ApiError::NotFound.status(), 404);
    assert_eq!(ApiError::Conflict.status(), 409);
    assert_eq!(ApiError::Internal.status(), 500);
    assert_eq!(ApiError::ServiceUnavailable.status(), 503);
}

#[test]
fn new_bounty_is_open() {
    let req = CreateBountyRequest {
        on_chain_id: 3,
        poster_wallet: "p".to_string(),
        pda_address: "a".to_string(),
        title: "t".to_string(),
        description: "d".to_string(),
        amount_lamports: 99,
        tx_signature: None,
    };
    let row = req.new_bounty();
    assert_eq!(row.status, BountyStatus::Open);
    assert_eq!(row.on_chain_id, 3);
    assert_eq!(row.poster_wallet, "p");
    assert_eq!(row.amount_lamports, 99);
    assert_eq!(row.tx_signature, None);
}

#[test]
fn update_bounty_keeps_what_is_not_given() {
    let req = UpdateBountyRequest {
        title: Some("New".to_string()),
        description: None,
        claimer_wallet: Some("dev".to_string()),
        amount_lamports: None,
        status: Some(BountyStatus::Claimed),
        submission_uri: None,
        tx_signature: None,
    };
    let b = req.apply(sample_bounty());
    assert_eq!(b.title, "New");
    assert_eq!(b.description, "");
    assert_eq!(b.claimer_wallet.as_deref(), Some("dev"));
    assert_eq!(b.amount_lamports, 1_000);
    assert_eq!(b.status, BountyStatus::Claimed);
    assert_eq!(b.submission_uri, None);
    assert_eq!(b.tx_signature.as_deref(), Some("sig"));
    assert_eq!(b.id, uuid::Uuid::from_u128(1));
    assert_eq!(b.updated_at, ts(20));
}

#[test]
fn status_update_needs_a_status() {
    let empty = UpdateBountyRequest {
        title: None,
        description: None,
        claimer_wallet: None,
        amount_lamports: None,
        status: None,
        submission_uri: None,
        tx_signature: None,
    };
    assert_eq!(empty.required_status(), Err(ApiError::BadRequest));
    let given = UpdateBountyRequest { status: Some(BountyStatus::Closed), ..empty };
    assert_eq!(given.required_status(), Ok(BountyStatus::Closed));
}

#[test]
fn set_status_changes_only_the_status() {
    let b = set_status(sample_bounty(), BountyStatus::Closed);
    assert_eq!(b.status, BountyStatus::Closed);
    assert_eq!(b.title, "Fix it");
    assert_eq!(b.amount_lamports, 1_000);
    assert_eq!(b.tx_signature.as_deref(), Some("sig"));
    assert_eq!(b.created_at, ts(10));
}

#[test]
fn update_user_keeps_what_is_not_given() {
    let u = UpdateUserRequest { display_name: None, bio: Some("hi".to_string()) }.apply(sample_user());
    assert_eq!(u.display_name.as_deref(), Some("Ann"));
    assert_eq!(u.bio.as_deref(), Some("hi"));
    assert_eq!(u.reputation, 3);
    assert_eq!(u.wallet_address, "w");
}

#[test]
fn responses_copy_every_field() {
    let r = BountyResponse::from(sample_bounty());
    assert_eq!(r.id, uuid::Uuid::from_u128(1));
    assert_eq!(r.on_chain_id, 7);
    assert_eq!(r.title, "Fix it");
    assert_eq!(r.tx_signature.as_deref(), Some("sig"));
    assert_eq!(r.created_at, ts(10));
    assert_eq!(r.status, BountyStatus::Open);
    let u = UserResponse::from(sample_user());
    assert_eq!(u.wallet_address, "w");
    assert_eq!(u.reputation, 3);
    let s = SubmissionResponse::from(Submission {
        id: uuid::Uuid::from_u128(3),
        bounty_id: uuid::Uuid::from_u128(1),
        submitter_wallet: "dev".to_string(),
        submission_uri: "ipfs://x".to_string(),
        note: Some("n".to_string()),
        created_at: ts(4),
    });
    assert_eq!(s.bounty_id, uuid::Uuid::from_u128(1));
    assert_eq!(s.submission_uri, "ipfs://x");
    assert_eq!(s.note.as_deref(), Some("n"));
}

#[test]
fn lookups_deletes_inserts_and_health() {
    assert_eq!(require_found(Some(5)), Ok(5));
    assert_eq!(require_found::<i32>(None), Err(ApiError::NotFound));
    assert_eq!(deletion_result(0), Err(ApiError::NotFound));
    assert_eq!(deletion_result(2), Ok(()));
    assert_eq!(insert_failure(true), ApiError::Conflict);
    assert_eq!(insert_failure(false), ApiError::Internal);
    let h = health(true).ok().unwrap();
    assert_eq!(h.status, "ok");
    assert_eq!(h.database, "up");
    assert_eq!(health(false).err(), Some(ApiError::ServiceUnavailable));
}
