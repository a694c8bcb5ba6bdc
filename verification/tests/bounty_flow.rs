use bounty_board::chain::accounts::{
    ApproveTask, CancelTask, Initialize, InitializeUser, PostBounty, SubmitTask, UpdateBounty,
    UpdateUser,
};
use bounty_board::chain::address::Address;
use bounty_board::chain::board::{Board, RentSchedule};
use bounty_board::chain::error::{ErrorCode, InstructionError};
use bounty_board::chain::program::{
    approve_task, cancel_task, initialize, initialize_user, post_bounty, process_instruction,
    submit_task, update_bounty, update_user, Instruction,
};
use bounty_board::chain::state::BountyStatus;
use bounty_board::pubkey::Pubkey;

/// The rent-exempt minimums under the default rent (3480 lamports per
/// byte-year, two years, 128 bytes of overhead) for accounts of 0, 48, 41
/// and 293 bytes.
fn default_rent() -> RentSchedule {
    RentSchedule { wallet: 890_880, user_profile: 1_224_960, global_state: 1_176_240, bounty: 2_930_160 }
}

/// Small minimums that keep the arithmetic of the tests below readable.
fn small_rent() -> RentSchedule {
    RentSchedule { wallet: 10, user_profile: 4, global_state: 6, bounty: 3 }
}

fn keypair(n: u8) -> Pubkey {
    Pubkey::new_from_array([n; 32])
}

fn airdrop(board: &mut Board, user: Pubkey, lamports: u64) {
    board.airdrop(user, lamports).unwrap();
}

fn lamports_of(board: &Board, a: Address) -> u64 {
    board.lamports_of(a)
}

fn wallet(k: Pubkey) -> Address {
    Address::Wallet(k)
}

fn do_post_bounty(board: &mut Board, poster: Pubkey, id: u64, amount: u64) {
    post_bounty(board, &[poster], PostBounty { payer: poster, bounty_state: Address::bounty(poster, id) }, id, amount)
        .expect("transaction should succeed");
}

fn do_submit_task(board: &mut Board, submitter: Pubkey, poster: Pubkey, id: u64, uri: String) {
    submit_task(
        board,
        &[submitter],
        SubmitTask { submitter, poster, bounty_state: Address::bounty(poster, id) },
        id,
        uri,
    )
    .expect("transaction should succeed");
}

#[test]
fn test_initialize_global_state() {
    let mut board = Board::new(default_rent());
    let payer = keypair(1);
    airdrop(&mut board, payer, 10_000_000_000);

    initialize(&mut board, &[payer], Initialize { payer, global_state: Address::Global }, 255)
        .expect("transaction should succeed");

    let state = board.global_state().expect("global state exists");
    assert_eq!(state.authority, payer);
}

#[test]
fn test_initialize_and_update_user() {
    let mut board = Board::new(default_rent());
    let payer = keypair(2);
    airdrop(&mut board, payer, 10_000_000_000);

    initialize_user(&mut board, &[payer], InitializeUser { payer, user_profile: Address::user(payer) })
        .expect("transaction should succeed");

    let profile = board.user_profile(Address::user(payer)).expect("user profile exists");
    assert_eq!(profile.authority, payer);
    assert_eq!(profile.reputation, 0);

    update_user(&mut board, &[payer], UpdateUser { payer, user_profile: Address::user(payer) }, 42)
        .expect("transaction should succeed");

    let profile = board.user_profile(Address::user(payer)).unwrap();
    assert_eq!(profile.reputation, 42);
}

#[test]
fn test_post_bounty_creates_open_escrow() {
    let mut board = Board::new(default_rent());
    let poster = keypair(3);
    airdrop(&mut board, poster, 10_000_000_000);

    let id = 1u64;
    let amount = 1_000_000u64;
    let bounty = Address::bounty(poster, id);
    let before = lamports_of(&board, wallet(poster));

    do_post_bounty(&mut board, poster, id, amount);

    let state = board.bounty(bounty).expect("bounty account exists");
    assert_eq!(state.id, id);
    assert_eq!(state.poster, poster);
    assert_eq!(state.claimer, Pubkey::default());
    assert_eq!(state.amount, amount);
    assert_eq!(state.status, BountyStatus::Open);
    assert!(state.submisstion_uri.is_empty());

    assert!(lamports_of(&board, bounty) >= amount);
    assert!(lamports_of(&board, wallet(poster)) < before);
}

#[test]
fn test_full_bounty_flow_submit_and_approve() {
    let mut board = Board::new(default_rent());
    let poster = keypair(4);
    let developer = keypair(5);
    airdrop(&mut board, poster, 10_000_000_000);
    airdrop(&mut board, developer, 10_000_000_000);

    let id = 7u64;
    let amount = 2_000_000u64;

    do_post_bounty(&mut board, poster, id, amount);

    let developer_before = lamports_of(&board, wallet(developer));
    do_submit_task(&mut board, developer, poster, id, "ipfs://bafy-test-proof".to_string());

    let claimed = board.bounty(Address::bounty(poster, id)).expect("bounty account exists");
    assert_eq!(claimed.status, BountyStatus::Claimed);
    assert_eq!(claimed.claimer, developer);
    assert_eq!(claimed.submisstion_uri, "ipfs://bafy-test-proof");

    approve_task(
        &mut board,
        &[poster],
        ApproveTask { poster, claimer: developer, bounty_state: Address::bounty(poster, id) },
        id,
    )
    .expect("transaction should succeed");

    let closed = board.bounty(Address::bounty(poster, id)).expect("bounty account exists");
    assert_eq!(closed.status, BountyStatus::Closed);
    assert_eq!(closed.amount, 0);
    assert!(lamports_of(&board, wallet(developer)) >= developer_before + amount - 10_000);
}

#[test]
fn test_cancel_open_bounty_refunds_poster() {
    let mut board = Board::new(default_rent());
    let poster = keypair(6);
    airdrop(&mut board, poster, 10_000_000_000);

    let id = 3u64;
    let amount = 1_500_000u64;

    do_post_bounty(&mut board, poster, id, amount);
    let after_post = lamports_of(&board, wallet(poster));

    cancel_task(&mut board, &[poster], CancelTask { poster, bounty_state: Address::bounty(poster, id) }, id)
        .expect("transaction should succeed");

    let cancelled = board.bounty(Address::bounty(poster, id)).expect("bounty account exists");
    assert_eq!(cancelled.status, BountyStatus::Closed);
    assert_eq!(cancelled.amount, 0);
    assert!(lamports_of(&board, wallet(poster)) > after_post);
}

#[test]
fn test_submit_own_bounty_fails() {
    let mut board = Board::new(default_rent());
    let poster = keypair(7);
    airdrop(&mut board, poster, 10_000_000_000);

    let id = 9u64;
    do_post_bounty(&mut board, poster, id, 1_000_000);

    let r = submit_task(
        &mut board,
        &[poster],
        SubmitTask { submitter: poster, poster, bounty_state: Address::bounty(poster, id) },
        id,
        "http://evil".to_string(),
    );
    assert!(r.is_err(), "transaction should fail");
}

#[test]
fn test_cancel_claimed_bounty_fails() {
    let mut board = Board::new(default_rent());
    let poster = keypair(8);
    let developer = keypair(9);
    airdrop(&mut board, poster, 10_000_000_000);
    airdrop(&mut board, developer, 10_000_000_000);

    let id = 11u64;
    do_post_bounty(&mut board, poster, id, 1_000_000);
    do_submit_task(&mut board, developer, poster, id, "ipfs://claimed".to_string());

    let r = cancel_task(&mut board, &[poster], CancelTask { poster, bounty_state: Address::bounty(poster, id) }, id);
    assert!(r.is_err(), "transaction should fail");
}

// The errors that each refusal gives, and what it leaves.

#[test]
fn submit_own_bounty_names_its_error_and_changes_nothing() {
    let mut board = Board::new(small_rent());
    let poster = keypair(10);
    airdrop(&mut board, poster, 5_000);
    do_post_bounty(&mut board, poster, 1, 3_000);
    let r = submit_task(
        &mut board,
        &[poster],
        SubmitTask { submitter: poster, poster, bounty_state: Address::bounty(poster, 1) },
        1,
        "x".to_string(),
    );
    assert_eq!(r, Err(InstructionError::Custom(ErrorCode::CannotSubmitOwnBounty)));
    let s = board.bounty(Address::bounty(poster, 1)).unwrap();
    assert_eq!(s.status, BountyStatus::Open);
    assert_eq!(s.claimer, Pubkey::default());
    assert_eq!(lamports_of(&board, wallet(poster)), 1_997);
    assert_eq!(lamports_of(&board, Address::bounty(poster, 1)), 3_003);
}

#[test]
fn cancel_claimed_bounty_is_not_open() {
    let mut board = Board::new(small_rent());
    let poster = keypair(11);
    let dev = keypair(12);
    airdrop(&mut board, poster, 100);
    do_post_bounty(&mut board, poster, 2, 60);
    do_submit_task(&mut board, dev, poster, 2, "u".to_string());
    let r = cancel_task(&mut board, &[poster], CancelTask { poster, bounty_state: Address::bounty(poster, 2) }, 2);
    assert_eq!(r, Err(InstructionError::Custom(ErrorCode::BountyNotOpen)));
    assert_eq!(lamports_of(&board, Address::bounty(poster, 2)), 63);
}

#[test]
fn post_bounty_errors() {
    let mut board = Board::new(small_rent());
    let poster = keypair(13);
    airdrop(&mut board, poster, 100);
    // Wrong address for the seeds.
    let r = post_bounty(&mut board, &[poster], PostBounty { payer: poster, bounty_state: Address::bounty(poster, 2) }, 1, 10);
    assert_eq!(r, Err(InstructionError::ConstraintSeeds));
    // Not enough lamports for the amount, or for the rent on top of it.
    let r = post_bounty(&mut board, &[poster], PostBounty { payer: poster, bounty_state: Address::bounty(poster, 1) }, 1, 101);
    assert_eq!(r, Err(InstructionError::InsufficientFunds));
    let r = post_bounty(&mut board, &[poster], PostBounty { payer: poster, bounty_state: Address::bounty(poster, 1) }, 1, 98);
    assert_eq!(r, Err(InstructionError::InsufficientFunds));
    // Leaving the payer 7 lamports, below a wallet's minimum of 10.
    let r = post_bounty(&mut board, &[poster], PostBounty { payer: poster, bounty_state: Address::bounty(poster, 1) }, 1, 90);
    assert_eq!(r, Err(InstructionError::InsufficientFundsForRent));
    assert!(board.bounty(Address::bounty(poster, 1)).is_none());
    assert_eq!(lamports_of(&board, wallet(poster)), 100);
    // Leaving the payer nothing is fine; the same id twice is not.
    do_post_bounty(&mut board, poster, 1, 97);
    assert_eq!(lamports_of(&board, wallet(poster)), 0);
    assert_eq!(lamports_of(&board, Address::bounty(poster, 1)), 100);
    let r = post_bounty(&mut board, &[poster], PostBounty { payer: poster, bounty_state: Address::bounty(poster, 1) }, 1, 0);
    assert_eq!(r, Err(InstructionError::AccountAlreadyInUse));
}

#[test]
fn submit_task_errors() {
    let mut board = Board::new(small_rent());
    let poster = keypair(14);
    let dev = keypair(15);
    airdrop(&mut board, poster, 100);
    let missing = submit_task(
        &mut board,
        &[dev],
        SubmitTask { submitter: dev, poster, bounty_state: Address::bounty(poster, 1) },
        1,
        "u".to_string(),
    );
    assert_eq!(missing, Err(InstructionError::AccountNotInitialized));
    do_post_bounty(&mut board, poster, 1, 10);
    let seeds = submit_task(
        &mut board,
        &[dev],
        SubmitTask { submitter: dev, poster, bounty_state: Address::bounty(poster, 1) },
        2,
        "u".to_string(),
    );
    assert_eq!(seeds, Err(InstructionError::ConstraintSeeds));
    // 201 bytes is one too many.
    let long = submit_task(
        &mut board,
        &[dev],
        SubmitTask { submitter: dev, poster, bounty_state: Address::bounty(poster, 1) },
        1,
        "a".repeat(201),
    );
    assert_eq!(long, Err(InstructionError::Custom(ErrorCode::UriTooLong)));
    // 101 two-byte characters are 202 bytes.
    let wide = submit_task(
        &mut board,
        &[dev],
        SubmitTask { submitter: dev, poster, bounty_state: Address::bounty(poster, 1) },
        1,
        "é".repeat(101),
    );
    assert_eq!(wide, Err(InstructionError::Custom(ErrorCode::UriTooLong)));
    // 100 of them are 200 bytes, which fits.
    do_submit_task(&mut board, dev, poster, 1, "é".repeat(100));
    let again = submit_task(
        &mut board,
        &[keypair(16)],
        SubmitTask { submitter: keypair(16), poster, bounty_state: Address::bounty(poster, 1) },
        1,
        "v".to_string(),
    );
    assert_eq!(again, Err(InstructionError::Custom(ErrorCode::BountyNotOpen)));
    assert_eq!(board.bounty(Address::bounty(poster, 1)).unwrap().claimer, dev);
}

#[test]
fn approve_task_errors_and_payout() {
    let mut board = Board::new(small_rent());
    let poster = keypair(17);
    let dev = keypair(18);
    let other = keypair(19);
    airdrop(&mut board, poster, 1_000);
    do_post_bounty(&mut board, poster, 5, 400);
    let a = Address::bounty(poster, 5);
    let not_claimed = approve_task(&mut board, &[poster], ApproveTask { poster, claimer: Pubkey::default(), bounty_state: a }, 5);
    assert_eq!(not_claimed, Err(InstructionError::Custom(ErrorCode::BountyNotClaimed)));
    do_submit_task(&mut board, dev, poster, 5, "proof".to_string());
    let wrong_claimer = approve_task(&mut board, &[poster], ApproveTask { poster, claimer: other, bounty_state: a }, 5);
    assert_eq!(wrong_claimer, Err(InstructionError::Custom(ErrorCode::Unauthorized)));
    let wrong_poster = approve_task(&mut board, &[other], ApproveTask { poster: other, claimer: dev, bounty_state: a }, 5);
    assert_eq!(wrong_poster, Err(InstructionError::ConstraintSeeds));
    approve_task(&mut board, &[poster], ApproveTask { poster, claimer: dev, bounty_state: a }, 5).unwrap();
    assert_eq!(lamports_of(&board, wallet(dev)), 400);
    assert_eq!(lamports_of(&board, a), 3);
    assert_eq!(lamports_of(&board, wallet(poster)), 597);
    // A closed bounty stays closed.
    let twice = approve_task(&mut board, &[poster], ApproveTask { poster, claimer: dev, bounty_state: a }, 5);
    assert_eq!(twice, Err(InstructionError::Custom(ErrorCode::BountyNotClaimed)));
    let cancel = cancel_task(&mut board, &[poster], CancelTask { poster, bounty_state: a }, 5);
    assert_eq!(cancel, Err(InstructionError::Custom(ErrorCode::BountyNotOpen)));
}

#[test]
fn approve_overflowing_the_claimer_is_refused() {
    let mut board = Board::new(small_rent());
    let poster = keypair(20);
    let dev = keypair(21);
    airdrop(&mut board, poster, 13);
    airdrop(&mut board, dev, u64::MAX - 5);
    do_post_bounty(&mut board, poster, 1, 10);
    do_submit_task(&mut board, dev, poster, 1, "p".to_string());
    let a = Address::bounty(poster, 1);
    let r = approve_task(&mut board, &[poster], ApproveTask { poster, claimer: dev, bounty_state: a }, 1);
    assert_eq!(r, Err(InstructionError::ArithmeticOverflow));
    assert_eq!(board.bounty(a).unwrap().status, BountyStatus::Claimed);
    assert_eq!(lamports_of(&board, a), 13);
}

#[test]
fn airdrop_overflow_is_refused() {
    let mut board = Board::new(small_rent());
    let k = keypair(22);
    airdrop(&mut board, k, u64::MAX);
    assert_eq!(board.airdrop(k, 1), Err(InstructionError::ArithmeticOverflow));
    assert_eq!(lamports_of(&board, wallet(k)), u64::MAX);
    let fresh = keypair(31);
    assert_eq!(board.airdrop(fresh, 9), Err(InstructionError::InsufficientFundsForRent));
    assert_eq!(board.airdrop(fresh, 0), Ok(()));
    assert_eq!(board.airdrop(fresh, 10), Ok(()));
    assert_eq!(board.airdrop(fresh, 1), Ok(()));
    assert_eq!(lamports_of(&board, wallet(fresh)), 11);
}

#[test]
fn user_errors() {
    let mut board = Board::new(small_rent());
    let a = keypair(23);
    let b = keypair(24);
    airdrop(&mut board, a, 100);
    let missing = update_user(&mut board, &[a], UpdateUser { payer: a, user_profile: Address::user(a) }, 1);
    assert_eq!(missing, Err(InstructionError::AccountNotInitialized));
    let seeds = initialize_user(&mut board, &[a], InitializeUser { payer: a, user_profile: Address::user(b) });
    assert_eq!(seeds, Err(InstructionError::ConstraintSeeds));
    initialize_user(&mut board, &[a], InitializeUser { payer: a, user_profile: Address::user(a) }).unwrap();
    assert_eq!(lamports_of(&board, wallet(a)), 96);
    assert_eq!(lamports_of(&board, Address::user(a)), 4);
    let twice = initialize_user(&mut board, &[a], InitializeUser { payer: a, user_profile: Address::user(a) });
    assert_eq!(twice, Err(InstructionError::AccountAlreadyInUse));
    let broke = initialize_user(&mut board, &[b], InitializeUser { payer: b, user_profile: Address::user(b) });
    assert_eq!(broke, Err(InstructionError::InsufficientFunds));
    let c = keypair(32);
    airdrop(&mut board, c, 12);
    let short = initialize_user(&mut board, &[c], InitializeUser { payer: c, user_profile: Address::user(c) });
    assert_eq!(short, Err(InstructionError::InsufficientFundsForRent));
    assert!(board.user_profile(Address::user(c)).is_none());
    let other = update_user(&mut board, &[b], UpdateUser { payer: b, user_profile: Address::user(a) }, 1);
    assert_eq!(other, Err(InstructionError::ConstraintSeeds));
    assert_eq!(board.user_profile(Address::user(a)).unwrap().reputation, 0);
}

#[test]
fn global_state_errors() {
    let mut board = Board::new(small_rent());
    let a = keypair(25);
    airdrop(&mut board, a, 100);
    let seeds = initialize(&mut board, &[a], Initialize { payer: a, global_state: Address::user(a) }, 1);
    assert_eq!(seeds, Err(InstructionError::ConstraintSeeds));
    initialize(&mut board, &[a], Initialize { payer: a, global_state: Address::Global }, 254).unwrap();
    assert_eq!(board.global_state().unwrap().bump, 254);
    assert_eq!(lamports_of(&board, Address::Global), 6);
    assert_eq!(lamports_of(&board, wallet(a)), 94);
    let twice = initialize(&mut board, &[keypair(26)], Initialize { payer: keypair(26), global_state: Address::Global }, 1);
    assert_eq!(twice, Err(InstructionError::AccountAlreadyInUse));
    assert_eq!(board.global_state().unwrap().authority, a);
}

#[test]
fn update_bounty_is_always_refused() {
    let mut board = Board::new(small_rent());
    let poster = keypair(27);
    airdrop(&mut board, poster, 100);
    do_post_bounty(&mut board, poster, 1, 50);
    let unseeded = update_bounty(
        &mut board,
        &[poster],
        UpdateBounty { payer: poster, bounty_state: Address::Bounty { poster, id: None } },
        Some(0),
        Some(BountyStatus::Closed),
    );
    assert_eq!(unseeded, Err(InstructionError::AccountNotInitialized));
    let posted = update_bounty(
        &mut board,
        &[poster],
        UpdateBounty { payer: poster, bounty_state: Address::bounty(poster, 1) },
        Some(0),
        Some(BountyStatus::Closed),
    );
    assert_eq!(posted, Err(InstructionError::ConstraintSeeds));
    let s = board.bounty(Address::bounty(poster, 1)).unwrap();
    assert_eq!(s.amount, 50);
    assert_eq!(s.status, BountyStatus::Open);
}

#[test]
fn cancel_right_after_post_restores_balances() {
    let mut board = Board::new(small_rent());
    let poster = keypair(28);
    airdrop(&mut board, poster, 777);
    do_post_bounty(&mut board, poster, 4, 700);
    assert_eq!(lamports_of(&board, wallet(poster)), 74);
    cancel_task(&mut board, &[poster], CancelTask { poster, bounty_state: Address::bounty(poster, 4) }, 4).unwrap();
    // The escrow comes back; the rent stays in the bounty's account.
    assert_eq!(lamports_of(&board, wallet(poster)), 774);
    assert_eq!(lamports_of(&board, Address::bounty(poster, 4)), 3);
}

#[test]
fn cancel_refused_where_the_refund_is_below_a_wallets_minimum() {
    let mut board = Board::new(small_rent());
    let poster = keypair(33);
    airdrop(&mut board, poster, 10);
    do_post_bounty(&mut board, poster, 1, 7);
    assert_eq!(lamports_of(&board, wallet(poster)), 0);
    let r = cancel_task(&mut board, &[poster], CancelTask { poster, bounty_state: Address::bounty(poster, 1) }, 1);
    assert_eq!(r, Err(InstructionError::InsufficientFundsForRent));
    assert_eq!(board.bounty(Address::bounty(poster, 1)).unwrap().status, BountyStatus::Open);
}

#[test]
fn approve_refused_where_a_new_claimer_would_be_below_its_minimum() {
    let mut board = Board::new(small_rent());
    let poster = keypair(34);
    let dev = keypair(35);
    airdrop(&mut board, poster, 100);
    do_post_bounty(&mut board, poster, 1, 5);
    do_submit_task(&mut board, dev, poster, 1, "p".to_string());
    let a = Address::bounty(poster, 1);
    let r = approve_task(&mut board, &[poster], ApproveTask { poster, claimer: dev, bounty_state: a }, 1);
    assert_eq!(r, Err(InstructionError::InsufficientFundsForRent));
    assert_eq!(lamports_of(&board, wallet(dev)), 0);
    // Once the claimer holds its minimum, the payout goes through.
    airdrop(&mut board, dev, 10);
    approve_task(&mut board, &[poster], ApproveTask { poster, claimer: dev, bounty_state: a }, 1).unwrap();
    assert_eq!(lamports_of(&board, wallet(dev)), 15);
}

#[test]
fn process_instruction_dispatches() {
    let mut board = Board::new(small_rent());
    let poster = keypair(29);
    let dev = keypair(30);
    airdrop(&mut board, poster, 1_000);
    let a = Address::bounty(poster, 8);
    process_instruction(&mut board, &[poster], Instruction::PostBounty { accounts: PostBounty { payer: poster, bounty_state: a }, id: 8, amount: 300 }).unwrap();
    process_instruction(
        &mut board,
        &[dev],
        Instruction::SubmitTask {
            accounts: SubmitTask { submitter: dev, poster, bounty_state: a },
            id: 8,
            submission_uri: "w".to_string(),
        },
    )
    .unwrap();
    process_instruction(&mut board, &[poster], Instruction::ApproveTask { accounts: ApproveTask { poster, claimer: dev, bounty_state: a }, id: 8 }).unwrap();
    assert_eq!(lamports_of(&board, wallet(dev)), 300);
    assert_eq!(lamports_of(&board, wallet(poster)), 697);
    // The total stays 1_000 throughout.
    assert_eq!(lamports_of(&board, wallet(dev)) + lamports_of(&board, wallet(poster)) + lamports_of(&board, a), 1_000);
    let r = process_instruction(&mut board, &[poster], Instruction::CancelTask { accounts: CancelTask { poster, bounty_state: a }, id: 8 });
    assert_eq!(r, Err(InstructionError::Custom(ErrorCode::BountyNotOpen)));
}

#[test]
fn unsigned_requests_are_refused_first() {
    let mut board = Board::new(small_rent());
    let poster = keypair(36);
    let dev = keypair(37);
    let stranger = keypair(38);
    airdrop(&mut board, poster, 100);
    let a = Address::bounty(poster, 1);
    let r = post_bounty(&mut board, &[stranger], PostBounty { payer: poster, bounty_state: a }, 1, 50);
    assert_eq!(r, Err(InstructionError::AccountNotSigner));
    assert_eq!(lamports_of(&board, wallet(poster)), 100);
    do_post_bounty(&mut board, poster, 1, 50);
    let r = submit_task(&mut board, &[poster], SubmitTask { submitter: dev, poster, bounty_state: a }, 1, "x".to_string());
    assert_eq!(r, Err(InstructionError::AccountNotSigner));
    do_submit_task(&mut board, dev, poster, 1, "x".to_string());
    // The claimer cannot pay itself: the poster must sign.
    let r = approve_task(&mut board, &[dev], ApproveTask { poster, claimer: dev, bounty_state: a }, 1);
    assert_eq!(r, Err(InstructionError::AccountNotSigner));
    let r = cancel_task(&mut board, &[dev], CancelTask { poster, bounty_state: a }, 1);
    assert_eq!(r, Err(InstructionError::AccountNotSigner));
    assert_eq!(lamports_of(&board, a), 53);
    let r = initialize(&mut board, &[], Initialize { payer: poster, global_state: Address::Global }, 1);
    assert_eq!(r, Err(InstructionError::AccountNotSigner));
    let r = initialize_user(&mut board, &[dev], InitializeUser { payer: poster, user_profile: Address::user(poster) });
    assert_eq!(r, Err(InstructionError::AccountNotSigner));
    // Extra signatures do no harm.
    approve_task(&mut board, &[stranger, poster], ApproveTask { poster, claimer: dev, bounty_state: a }, 1).unwrap();
    assert_eq!(lamports_of(&board, wallet(dev)), 50);
}

#[test]
fn accounts_of_the_wrong_kind_are_refused() {
    let mut board = Board::new(small_rent());
    let poster = keypair(39);
    let dev = keypair(40);
    airdrop(&mut board, poster, 100);
    initialize_user(&mut board, &[poster], InitializeUser { payer: poster, user_profile: Address::user(poster) }).unwrap();
    initialize(&mut board, &[poster], Initialize { payer: poster, global_state: Address::Global }, 1).unwrap();
    // A funded wallet belongs to the system program.
    let r = submit_task(&mut board, &[dev], SubmitTask { submitter: dev, poster, bounty_state: wallet(poster) }, 1, "u".to_string());
    assert_eq!(r, Err(InstructionError::AccountOwnedByWrongProgram));
    // An empty wallet holds nothing at all.
    let r = cancel_task(&mut board, &[dev], CancelTask { poster: dev, bounty_state: wallet(dev) }, 1);
    assert_eq!(r, Err(InstructionError::AccountNotInitialized));
    // A profile or the global account where a bounty is expected.
    let r = approve_task(&mut board, &[poster], ApproveTask { poster, claimer: dev, bounty_state: Address::user(poster) }, 1);
    assert_eq!(r, Err(InstructionError::AccountDiscriminatorMismatch));
    let r = cancel_task(&mut board, &[poster], CancelTask { poster, bounty_state: Address::Global }, 1);
    assert_eq!(r, Err(InstructionError::AccountDiscriminatorMismatch));
    // A bounty where a profile is expected.
    do_post_bounty(&mut board, poster, 1, 10);
    let r = update_user(&mut board, &[poster], UpdateUser { payer: poster, user_profile: Address::bounty(poster, 1) }, 5);
    assert_eq!(r, Err(InstructionError::AccountDiscriminatorMismatch));
    let r = update_user(&mut board, &[poster], UpdateUser { payer: poster, user_profile: wallet(poster) }, 5);
    assert_eq!(r, Err(InstructionError::AccountOwnedByWrongProgram));
}

#[test]
fn no_refund_after_close() {
    let mut board = Board::new(small_rent());
    let poster = keypair(41);
    let dev = keypair(42);
    airdrop(&mut board, poster, 1_000);
    let a = Address::bounty(poster, 1);
    do_post_bounty(&mut board, poster, 1, 100);
    do_submit_task(&mut board, dev, poster, 1, "p".to_string());
    approve_task(&mut board, &[poster], ApproveTask { poster, claimer: dev, bounty_state: a }, 1).unwrap();
    // Other activity in between.
    do_post_bounty(&mut board, poster, 2, 50);
    airdrop(&mut board, poster, 500);
    let before_poster = lamports_of(&board, wallet(poster));
    let r = cancel_task(&mut board, &[poster], CancelTask { poster, bounty_state: a }, 1);
    assert_eq!(r, Err(InstructionError::Custom(ErrorCode::BountyNotOpen)));
    assert_eq!(lamports_of(&board, wallet(poster)), before_poster);
    assert_eq!(lamports_of(&board, a), 3);
    assert_eq!(lamports_of(&board, wallet(dev)), 100);
    let s = board.bounty(a).unwrap();
    assert_eq!(s.status, BountyStatus::Closed);
    assert_eq!(s.amount, 0);
}

#[test]
fn error_codes_and_messages() {
    assert_eq!(ErrorCode::Unauthorized.code(), 6000);
    assert_eq!(ErrorCode::UriTooLong.code(), 6006);
    assert_eq!(ErrorCode::CannotSubmitOwnBounty.code(), 6003);
    assert_eq!(ErrorCode::BountyNotOpen.message(), "Bounty is not open for submission");
    assert_eq!(ErrorCode::UriTooLong.message(), "Uri is do long");
}

#[test]
fn pubkey_bytes_round_trip() {
    let mut bytes = [0u8; 32];
    for (i, b) in bytes.iter_mut().enumerate() {
        *b = (i as u8).wrapping_mul(37).wrapping_add(1);
    }
    let k = Pubkey::new_from_array(bytes);
    assert_eq!(k.to_bytes(), bytes);
    assert_eq!(Pubkey::default().to_bytes(), [0u8; 32]);
    let mut other = bytes;
    other[31] ^= 1;
    assert_ne!(Pubkey::new_from_array(other), k);
}
