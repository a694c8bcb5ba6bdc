//! The instructions of the bounty program: which requests each one refuses,
//! and what it does to the accounts when it accepts.
//!
//! Each instruction first checks its accounts in the order they are
//! declared (the signer has signed; an account that must exist is loaded,
//! which fails where it holds nothing, belongs to another program or holds
//! data of another kind; then its address is checked against its seeds,
//! then its constraints in order), then runs its handler; a new account is funded by its payer with
//! its rent-exempt minimum. After the handler, no wallet may be left with
//! some lamports but fewer than its minimum. A refused instruction leaves
//! every account as it was.

use vstd::prelude::*;

use super::accounts::{
    ApproveTask, CancelTask, Initialize, InitializeUser, PostBounty, SubmitTask, UpdateBounty,
    UpdateUser,
};
use super::address::Address;
use super::board::{wallet_may_hold, Board, BoardView, RentSchedule};
use super::error::{ErrorCode, InstructionError};
use super::state::{byte_len, utf8_len, BountyState, BountyStatus, GlobalState, UserProfile, MAX_URI_LEN};
use crate::pubkey::Pubkey;

verus! {

/// A wallet may hold `lamports` under `rent`.
fn may_hold(rent: &RentSchedule, lamports: u64) -> (ok: bool)
    ensures
        ok == wallet_may_hold(*rent, lamports as int),
{
    lamports == 0 || lamports >= rent.wallet
}

/// `key` is among the keys that signed the transaction.
fn has_signed(signers: &[Pubkey], key: Pubkey) -> (r: bool)
    ensures
        r == signers@.contains(key),
{
    let n = signers.len();
    let mut i: usize = 0;
    while i < n
        invariant
            n == signers@.len(),
            i <= n,
            forall|j: int| 0 <= j < i ==> signers@[j] != key,
        decreases n - i,
    {
        if signers[i] == key {
            assert(signers@[i as int] == key);
            return true;
        }
        i = i + 1;
    }
    false
}

/// Why the account at `a` cannot be loaded as the kind of data that the
/// instruction expects, if it cannot: `of_kind` says that it holds that
/// kind. An account with neither lamports nor data is not initialized; a
/// funded wallet belongs to the system program; an account with the
/// program's data of another kind fails the discriminator check.
pub open spec fn load_error(b: BoardView, a: Address, of_kind: bool) -> Option<InstructionError> {
    if of_kind {
        None
    } else if a is Wallet && b.balance(a) > 0 {
        Some(InstructionError::AccountOwnedByWrongProgram)
    } else if b.holds_data(a) {
        Some(InstructionError::AccountDiscriminatorMismatch)
    } else {
        Some(InstructionError::AccountNotInitialized)
    }
}

/// The error for an account at `a` that does not hold the expected kind of
/// data.
fn load_failure(board: &Board, a: Address) -> (e: InstructionError)
    requires
        board.tables_wf(),
    ensures
        load_error(board@, a, false) == Some(e),
{
    let is_wallet = match a {
        Address::Wallet(_) => true,
        _ => false,
    };
    if is_wallet && board.lamports_of(a) > 0 {
        InstructionError::AccountOwnedByWrongProgram
    } else if board.holds_data(a) {
        InstructionError::AccountDiscriminatorMismatch
    } else {
        InstructionError::AccountNotInitialized
    }
}

/// Why a payer holding `funds` is refused when it must pay `cost`, if it is:
/// it holds too little, or would be left with some lamports but fewer than a
/// wallet's minimum.
pub open spec fn payment_error(rent: RentSchedule, funds: int, cost: int) -> Option<InstructionError> {
    if funds < cost {
        Some(InstructionError::InsufficientFunds)
    } else if !wallet_may_hold(rent, funds - cost) {
        Some(InstructionError::InsufficientFundsForRent)
    } else {
        None
    }
}

/// Why `initialize` is refused, if it is.
pub open spec fn initialize_error(b: BoardView, signers: Seq<Pubkey>, ctx: Initialize) -> Option<InstructionError> {
    if !signers.contains(ctx.payer) {
        Some(InstructionError::AccountNotSigner)
    } else if ctx.global_state != Address::Global {
        Some(InstructionError::ConstraintSeeds)
    } else if b.global is Some {
        Some(InstructionError::AccountAlreadyInUse)
    } else {
        payment_error(b.rent, b.balance(Address::Wallet(ctx.payer)) as int, b.rent.global_state as int)
    }
}

/// The board after an accepted `initialize`: the payer funds the new account
/// with its rent-exempt minimum.
pub open spec fn initialize_next(b: BoardView, ctx: Initialize, bump: u8) -> BoardView {
    let payer = Address::Wallet(ctx.payer);
    BoardView {
        lamports: b.lamports.insert(payer, (b.balance(payer) - b.rent.global_state) as u64).insert(
            Address::Global,
            b.rent.global_state,
        ),
        global: Some(GlobalState { authority: ctx.payer, bump }),
        ..b
    }
}

/// Creates the global account, with `payer` as its authority and `bump`, the
/// bump seed found for its address; `payer` funds it.
pub fn initialize(board: &mut Board, signers: &[Pubkey], ctx: Initialize, bump: u8) -> (r: Result<(), InstructionError>)
    requires
        old(board).wf(),
    ensures
        final(board).wf(),
        final(board).total_lamports() == old(board).total_lamports(),
        match initialize_error(old(board)@, signers@, ctx) {
            Some(e) => r == Err::<(), InstructionError>(e) && final(board)@ == old(board)@,
            None => r is Ok && final(board)@ == initialize_next(old(board)@, ctx, bump),
        },
{
    if !has_signed(signers, ctx.payer) {
        return Err(InstructionError::AccountNotSigner);
    }
    if ctx.global_state != Address::Global {
        return Err(InstructionError::ConstraintSeeds);
    }
    if board.global_state().is_some() {
        return Err(InstructionError::AccountAlreadyInUse);
    }
    let rent = board.rent();
    let payer = Address::Wallet(ctx.payer);
    let funds = board.lamports_of(payer);
    if funds < rent.global_state {
        return Err(InstructionError::InsufficientFunds);
    }
    if !may_hold(&rent, funds - rent.global_state) {
        return Err(InstructionError::InsufficientFundsForRent);
    }
    board.put_global(GlobalState { authority: ctx.payer, bump });
    board.set_lamports(payer, funds - rent.global_state);
    board.set_lamports(Address::Global, rent.global_state);
    Ok(())
}

/// Why `initialize_user` is refused, if it is.
pub open spec fn initialize_user_error(b: BoardView, signers: Seq<Pubkey>, ctx: InitializeUser) -> Option<InstructionError> {
    if !signers.contains(ctx.payer) {
        Some(InstructionError::AccountNotSigner)
    } else if ctx.user_profile != Address::User(ctx.payer) {
        Some(InstructionError::ConstraintSeeds)
    } else if b.users.contains_key(ctx.user_profile) {
        Some(InstructionError::AccountAlreadyInUse)
    } else {
        payment_error(b.rent, b.balance(Address::Wallet(ctx.payer)) as int, b.rent.user_profile as int)
    }
}

/// The board after an accepted `initialize_user`: the payer funds the new
/// account with its rent-exempt minimum.
pub open spec fn initialize_user_next(b: BoardView, ctx: InitializeUser) -> BoardView {
    let payer = Address::Wallet(ctx.payer);
    BoardView {
        lamports: b.lamports.insert(payer, (b.balance(payer) - b.rent.user_profile) as u64).insert(
            ctx.user_profile,
            b.rent.user_profile,
        ),
        users: b.users.insert(ctx.user_profile, UserProfile { authority: ctx.payer, reputation: 0 }),
        ..b
    }
}

/// Creates the profile of `payer`, with reputation 0; `payer` funds it.
pub fn initialize_user(board: &mut Board, signers: &[Pubkey], ctx: InitializeUser) -> (r: Result<(), InstructionError>)
    requires
        old(board).wf(),
    ensures
        final(board).wf(),
        final(board).total_lamports() == old(board).total_lamports(),
        match initialize_user_error(old(board)@, signers@, ctx) {
            Some(e) => r == Err::<(), InstructionError>(e) && final(board)@ == old(board)@,
            None => r is Ok && final(board)@ == initialize_user_next(old(board)@, ctx),
        },
{
    if !has_signed(signers, ctx.payer) {
        return Err(InstructionError::AccountNotSigner);
    }
    if ctx.user_profile != Address::user(ctx.payer) {
        return Err(InstructionError::ConstraintSeeds);
    }
    if board.user_profile(ctx.user_profile).is_some() {
        return Err(InstructionError::AccountAlreadyInUse);
    }
    let rent = board.rent();
    let payer = Address::Wallet(ctx.payer);
    let funds = board.lamports_of(payer);
    if funds < rent.user_profile {
        return Err(InstructionError::InsufficientFunds);
    }
    if !may_hold(&rent, funds - rent.user_profile) {
        return Err(InstructionError::InsufficientFundsForRent);
    }
    board.put_user(ctx.user_profile, UserProfile { authority: ctx.payer, reputation: 0 });
    board.set_lamports(payer, funds - rent.user_profile);
    board.set_lamports(ctx.user_profile, rent.user_profile);
    Ok(())
}

/// Why `update_user` is refused, if it is.
pub open spec fn update_user_error(b: BoardView, signers: Seq<Pubkey>, ctx: UpdateUser) -> Option<InstructionError> {
    if !signers.contains(ctx.payer) {
        Some(InstructionError::AccountNotSigner)
    } else if !b.users.contains_key(ctx.user_profile) {
        load_error(b, ctx.user_profile, false)
    } else if ctx.user_profile != Address::User(ctx.payer) {
        Some(InstructionError::ConstraintSeeds)
    } else if b.users[ctx.user_profile].authority != ctx.payer {
        Some(InstructionError::ConstraintRaw)
    } else {
        None
    }
}

/// The board after an accepted `update_user`.
pub open spec fn update_user_next(b: BoardView, ctx: UpdateUser, data: u64) -> BoardView {
    BoardView {
        users: b.users.insert(
            ctx.user_profile,
            UserProfile { reputation: data, ..b.users[ctx.user_profile] },
        ),
        ..b
    }
}

/// Sets the reputation in the profile of `payer` to `data`.
pub fn update_user(board: &mut Board, signers: &[Pubkey], ctx: UpdateUser, data: u64) -> (r: Result<(), InstructionError>)
    requires
        old(board).wf(),
    ensures
        final(board).wf(),
        final(board).total_lamports() == old(board).total_lamports(),
        match update_user_error(old(board)@, signers@, ctx) {
            Some(e) => r == Err::<(), InstructionError>(e) && final(board)@ == old(board)@,
            None => r is Ok && final(board)@ == update_user_next(old(board)@, ctx, data),
        },
        r is Ok ==> final(board)@.users.contains_key(ctx.user_profile)
            && final(board)@.users[ctx.user_profile].reputation == data
            && final(board)@.users[ctx.user_profile].authority == ctx.payer
            && final(board)@.lamports == old(board)@.lamports,
{
    if !has_signed(signers, ctx.payer) {
        return Err(InstructionError::AccountNotSigner);
    }
    let profile = match board.user_profile(ctx.user_profile) {
        Some(p) => *p,
        None => return Err(load_failure(board, ctx.user_profile)),
    };
    if ctx.user_profile != Address::user(ctx.payer) {
        return Err(InstructionError::ConstraintSeeds);
    }
    if ctx.payer != profile.authority {
        return Err(InstructionError::ConstraintRaw);
    }
    board.put_user(ctx.user_profile, UserProfile { reputation: data, ..profile });
    Ok(())
}

/// Why `post_bounty` is refused, if it is.
pub open spec fn post_bounty_error(b: BoardView, signers: Seq<Pubkey>, ctx: PostBounty, id: u64, amount: u64) -> Option<InstructionError> {
    if !signers.contains(ctx.payer) {
        Some(InstructionError::AccountNotSigner)
    } else if ctx.bounty_state != (Address::Bounty { poster: ctx.payer, id: Some(id) }) {
        Some(InstructionError::ConstraintSeeds)
    } else if b.bounties.contains_key(ctx.bounty_state) {
        Some(InstructionError::AccountAlreadyInUse)
    } else {
        payment_error(
            b.rent,
            b.balance(Address::Wallet(ctx.payer)) as int,
            b.rent.bounty + amount,
        )
    }
}

/// `after` is the board after an accepted `post_bounty`: a new open bounty
/// of `amount`, with no claimer and no submission, whose account holds its
/// rent-exempt minimum and the `amount` in escrow, both taken from the payer.
pub open spec fn post_bounty_next(b: BoardView, after: BoardView, ctx: PostBounty, id: u64, amount: u64) -> bool {
    let a = ctx.bounty_state;
    let s = after.bounties[a];
    let payer = Address::Wallet(ctx.payer);
    &&& after.bounties == b.bounties.insert(a, s)
    &&& s.id == id
    &&& s.poster == ctx.payer
    &&& s.claimer == Pubkey::zero()
    &&& s.amount == amount
    &&& s.status == BountyStatus::Open
    &&& s.submisstion_uri@ == Seq::<char>::empty()
    &&& after.lamports == b.lamports.insert(
        payer,
        (b.balance(payer) - b.rent.bounty - amount) as u64,
    ).insert(a, (b.rent.bounty + amount) as u64)
    &&& after.users == b.users
    &&& after.global == b.global
    &&& after.rent == b.rent
}

/// Posts the bounty `id` of `payer`: the payer funds the new account with
/// its rent-exempt minimum and moves `amount` lamports into it in escrow.
pub fn post_bounty(board: &mut Board, signers: &[Pubkey], ctx: PostBounty, id: u64, amount: u64) -> (r: Result<(), InstructionError>)
    requires
        old(board).wf(),
    ensures
        final(board).wf(),
        final(board).total_lamports() == old(board).total_lamports(),
        match post_bounty_error(old(board)@, signers@, ctx, id, amount) {
            Some(e) => r == Err::<(), InstructionError>(e) && final(board)@ == old(board)@,
            None => r is Ok && post_bounty_next(old(board)@, final(board)@, ctx, id, amount),
        },
{
    if !has_signed(signers, ctx.payer) {
        return Err(InstructionError::AccountNotSigner);
    }
    let a = ctx.bounty_state;
    if a != Address::bounty(ctx.payer, id) {
        return Err(InstructionError::ConstraintSeeds);
    }
    if board.bounty(a).is_some() {
        return Err(InstructionError::AccountAlreadyInUse);
    }
    let rent = board.rent();
    let payer = Address::Wallet(ctx.payer);
    let funds = board.lamports_of(payer);
    if funds < rent.bounty {
        return Err(InstructionError::InsufficientFunds);
    }
    if funds - rent.bounty < amount {
        return Err(InstructionError::InsufficientFunds);
    }
    let rest = funds - rent.bounty - amount;
    if !may_hold(&rent, rest) {
        return Err(InstructionError::InsufficientFundsForRent);
    }
    let state = BountyState {
        id,
        poster: ctx.payer,
        claimer: Pubkey::default(),
        amount,
        status: BountyStatus::Open,
        submisstion_uri: String::new(),
    };
    proof {
        assert(vstd::utf8::encode_utf8(state.submisstion_uri@) =~= Seq::<u8>::empty());
    }
    board.put_bounty(a, state);
    board.set_lamports(payer, rest);
    board.set_lamports(a, rent.bounty + amount);
    Ok(())
}

/// Why `update_bounty` is refused, if it is.
pub open spec fn update_bounty_error(b: BoardView, signers: Seq<Pubkey>, ctx: UpdateBounty) -> Option<InstructionError> {
    let a = ctx.bounty_state;
    if !signers.contains(ctx.payer) {
        Some(InstructionError::AccountNotSigner)
    } else if !b.bounties.contains_key(a) {
        load_error(b, a, false)
    } else if a != (Address::Bounty { poster: ctx.payer, id: None }) {
        Some(InstructionError::ConstraintSeeds)
    } else if b.bounties[a].poster != ctx.payer {
        Some(InstructionError::Custom(ErrorCode::Unauthorized))
    } else {
        None
    }
}

/// The board after an accepted `update_bounty`.
pub open spec fn update_bounty_next(
    b: BoardView,
    ctx: UpdateBounty,
    new_amount: Option<u64>,
    new_status: Option<BountyStatus>,
) -> BoardView {
    let s = b.bounties[ctx.bounty_state];
    BoardView {
        bounties: b.bounties.insert(
            ctx.bounty_state,
            BountyState {
                amount: match new_amount {
                    Some(x) => x,
                    None => s.amount,
                },
                status: match new_status {
                    Some(x) => x,
                    None => s.status,
                },
                ..s
            },
        ),
        ..b
    }
}

/// Lets the poster set the amount and the status of the bounty derived from
/// `["bounty", payer]`. No instruction creates an account at that address,
/// so on any board that the instructions reach this is refused.
pub fn update_bounty(
    board: &mut Board,
    signers: &[Pubkey],
    ctx: UpdateBounty,
    new_amount: Option<u64>,
    new_status: Option<BountyStatus>,
) -> (r: Result<(), InstructionError>)
    requires
        old(board).wf(),
    ensures
        final(board).wf(),
        final(board).total_lamports() == old(board).total_lamports(),
        match update_bounty_error(old(board)@, signers@, ctx) {
            Some(e) => r == Err::<(), InstructionError>(e) && final(board)@ == old(board)@,
            None => r is Ok && final(board)@ == update_bounty_next(old(board)@, ctx, new_amount, new_status),
        },
{
    if !has_signed(signers, ctx.payer) {
        return Err(InstructionError::AccountNotSigner);
    }
    let a = ctx.bounty_state;
    let s = match board.bounty(a) {
        Some(s) => s,
        None => return Err(load_failure(board, a)),
    };
    if a != (Address::Bounty { poster: ctx.payer, id: None }) {
        return Err(InstructionError::ConstraintSeeds);
    }
    if s.poster != ctx.payer {
        return Err(InstructionError::Custom(ErrorCode::Unauthorized));
    }
    let updated = BountyState {
        id: s.id,
        poster: s.poster,
        claimer: s.claimer,
        amount: match new_amount {
            Some(x) => x,
            None => s.amount,
        },
        status: match new_status {
            Some(x) => x,
            None => s.status,
        },
        submisstion_uri: s.submisstion_uri.clone(),
    };
    board.put_bounty(a, updated);
    Ok(())
}

/// Why `submit_task` is refused, if it is.
pub open spec fn submit_task_error(b: BoardView, signers: Seq<Pubkey>, ctx: SubmitTask, id: u64, submission_uri: Seq<char>) -> Option<InstructionError> {
    let a = ctx.bounty_state;
    let s = b.bounties[a];
    if !signers.contains(ctx.submitter) {
        Some(InstructionError::AccountNotSigner)
    } else if !b.bounties.contains_key(a) {
        load_error(b, a, false)
    } else if a != (Address::Bounty { poster: ctx.poster, id: Some(id) }) {
        Some(InstructionError::ConstraintSeeds)
    } else if s.poster != ctx.poster {
        Some(InstructionError::Custom(ErrorCode::Unauthorized))
    } else if s.status != BountyStatus::Open {
        Some(InstructionError::Custom(ErrorCode::BountyNotOpen))
    } else if ctx.submitter == s.poster {
        Some(InstructionError::Custom(ErrorCode::CannotSubmitOwnBounty))
    } else if utf8_len(submission_uri) > MAX_URI_LEN {
        Some(InstructionError::Custom(ErrorCode::UriTooLong))
    } else {
        None
    }
}

/// The board after an accepted `submit_task`: the bounty is claimed by the
/// submitter, with the submission's URI.
pub open spec fn submit_task_next(b: BoardView, ctx: SubmitTask, submission_uri: String) -> BoardView {
    let s = b.bounties[ctx.bounty_state];
    BoardView {
        bounties: b.bounties.insert(
            ctx.bounty_state,
            BountyState {
                claimer: ctx.submitter,
                submisstion_uri: submission_uri,
                status: BountyStatus::Claimed,
                ..s
            },
        ),
        ..b
    }
}

/// Claims the open bounty `id` of `poster` for `submitter`, with the URI of
/// the submitted work.
pub fn submit_task(board: &mut Board, signers: &[Pubkey], ctx: SubmitTask, id: u64, submission_uri: String) -> (r: Result<(), InstructionError>)
    requires
        old(board).wf(),
    ensures
        final(board).wf(),
        final(board).total_lamports() == old(board).total_lamports(),
        match submit_task_error(old(board)@, signers@, ctx, id, submission_uri@) {
            Some(e) => r == Err::<(), InstructionError>(e) && final(board)@ == old(board)@,
            None => r is Ok && final(board)@ == submit_task_next(old(board)@, ctx, submission_uri),
        },
{
    if !has_signed(signers, ctx.submitter) {
        return Err(InstructionError::AccountNotSigner);
    }
    let a = ctx.bounty_state;
    let s = match board.bounty(a) {
        Some(s) => s,
        None => return Err(load_failure(board, a)),
    };
    if a != Address::bounty(ctx.poster, id) {
        return Err(InstructionError::ConstraintSeeds);
    }
    if s.poster != ctx.poster {
        return Err(InstructionError::Custom(ErrorCode::Unauthorized));
    }
    if s.status != BountyStatus::Open {
        return Err(InstructionError::Custom(ErrorCode::BountyNotOpen));
    }
    if ctx.submitter == s.poster {
        return Err(InstructionError::Custom(ErrorCode::CannotSubmitOwnBounty));
    }
    if byte_len(&submission_uri) > MAX_URI_LEN {
        return Err(InstructionError::Custom(ErrorCode::UriTooLong));
    }
    let claimed = BountyState {
        id: s.id,
        poster: s.poster,
        claimer: ctx.submitter,
        amount: s.amount,
        status: BountyStatus::Claimed,
        submisstion_uri: submission_uri,
    };
    board.put_bounty(a, claimed);
    Ok(())
}

/// Why `approve_task` is refused, if it is.
pub open spec fn approve_task_error(b: BoardView, signers: Seq<Pubkey>, ctx: ApproveTask, id: u64) -> Option<InstructionError> {
    let a = ctx.bounty_state;
    let s = b.bounties[a];
    let payee = Address::Wallet(ctx.claimer);
    if !signers.contains(ctx.poster) {
        Some(InstructionError::AccountNotSigner)
    } else if !b.bounties.contains_key(a) {
        load_error(b, a, false)
    } else if a != (Address::Bounty { poster: ctx.poster, id: Some(id) }) {
        Some(InstructionError::ConstraintSeeds)
    } else if s.poster != ctx.poster {
        Some(InstructionError::Custom(ErrorCode::Unauthorized))
    } else if s.claimer != ctx.claimer {
        Some(InstructionError::Custom(ErrorCode::Unauthorized))
    } else if s.status != BountyStatus::Claimed {
        Some(InstructionError::Custom(ErrorCode::BountyNotClaimed))
    } else if b.balance(a) < s.amount {
        Some(InstructionError::ArithmeticOverflow)
    } else if b.balance(payee) + s.amount > u64::MAX {
        Some(InstructionError::ArithmeticOverflow)
    } else if !wallet_may_hold(b.rent, b.balance(payee) + s.amount) {
        Some(InstructionError::InsufficientFundsForRent)
    } else {
        None
    }
}

/// The bounty at `a` paid out: its escrow moved to `payee`, its amount 0,
/// its status closed; its account keeps its rent-exempt minimum.
pub open spec fn payout_next(b: BoardView, a: Address, payee: Address) -> BoardView {
    let s = b.bounties[a];
    BoardView {
        lamports: b.lamports.insert(a, (b.balance(a) - s.amount) as u64).insert(
            payee,
            (b.balance(payee) + s.amount) as u64,
        ),
        bounties: b.bounties.insert(a, BountyState { amount: 0, status: BountyStatus::Closed, ..s }),
        ..b
    }
}

/// Moves the escrow of the bounty at `a` to `payee` and closes the bounty.
fn pay_out(board: &mut Board, a: Address, payee: Address) -> (r: Result<(), InstructionError>)
    requires
        old(board).tables_wf(),
        old(board)@.bounties.contains_key(a),
        a is Bounty,
        payee is Wallet,
    ensures
        final(board).tables_wf(),
        final(board).total_lamports() == old(board).total_lamports(),
        ({
            let s = old(board)@.bounties[a];
            if old(board)@.balance(a) < s.amount || old(board)@.balance(payee) + s.amount > u64::MAX {
                r == Err::<(), InstructionError>(InstructionError::ArithmeticOverflow) && final(board)@ == old(board)@
            } else if !wallet_may_hold(old(board)@.rent, old(board)@.balance(payee) + s.amount) {
                r == Err::<(), InstructionError>(InstructionError::InsufficientFundsForRent)
                    && final(board)@ == old(board)@
            } else {
                r is Ok && final(board)@ == payout_next(old(board)@, a, payee)
            }
        }),
{
    let s = match board.bounty(a) {
        Some(s) => s,
        None => return Err(load_failure(board, a)),
    };
    let amount = s.amount;
    let escrow = board.lamports_of(a);
    let rest = match escrow.checked_sub(amount) {
        Some(x) => x,
        None => return Err(InstructionError::ArithmeticOverflow),
    };
    let funds = board.lamports_of(payee);
    let paid = match funds.checked_add(amount) {
        Some(x) => x,
        None => return Err(InstructionError::ArithmeticOverflow),
    };
    if !may_hold(&board.rent(), paid) {
        return Err(InstructionError::InsufficientFundsForRent);
    }
    let closed = BountyState {
        id: s.id,
        poster: s.poster,
        claimer: s.claimer,
        amount: 0,
        status: BountyStatus::Closed,
        submisstion_uri: s.submisstion_uri.clone(),
    };
    board.set_lamports(a, rest);
    board.set_lamports(payee, paid);
    board.put_bounty(a, closed);
    Ok(())
}

/// Pays the escrow of the claimed bounty `id` of `poster` to its claimer
/// and closes the bounty.
pub fn approve_task(board: &mut Board, signers: &[Pubkey], ctx: ApproveTask, id: u64) -> (r: Result<(), InstructionError>)
    requires
        old(board).wf(),
    ensures
        final(board).wf(),
        final(board).total_lamports() == old(board).total_lamports(),
        match approve_task_error(old(board)@, signers@, ctx, id) {
            Some(e) => r == Err::<(), InstructionError>(e) && final(board)@ == old(board)@,
            None => r is Ok && final(board)@ == payout_next(
                old(board)@,
                ctx.bounty_state,
                Address::Wallet(ctx.claimer),
            ),
        },
        r is Ok ==> ({
            let a = ctx.bounty_state;
            let payee = Address::Wallet(ctx.claimer);
            let s0 = old(board)@.bounties[a];
            let s1 = final(board)@.bounties[a];
            &&& old(board)@.bounties.contains_key(a)
            &&& final(board)@.bounties.contains_key(a)
            &&& s0.poster == ctx.poster
            &&& s0.claimer == ctx.claimer
            &&& s0.status == BountyStatus::Claimed
            &&& s1.id == s0.id
            &&& s1.poster == s0.poster
            &&& s1.claimer == s0.claimer
            &&& s1.submisstion_uri == s0.submisstion_uri
            &&& s1.amount == 0
            &&& s1.status == BountyStatus::Closed
            &&& final(board)@.balance(payee) == old(board)@.balance(payee) + s0.amount
            &&& final(board)@.balance(a) == old(board)@.balance(a) - s0.amount
        }),
        ({
            let a = ctx.bounty_state;
            let s0 = old(board)@.bounties[a];
            signers@.contains(ctx.poster) && old(board)@.bounties.contains_key(a) && a == (Address::Bounty {
                poster: ctx.poster,
                id: Some(id),
            }) && s0.poster == ctx.poster && s0.claimer != ctx.claimer ==> r == Err::<
                (),
                InstructionError,
            >(InstructionError::Custom(ErrorCode::Unauthorized))
        }),
{
    if !has_signed(signers, ctx.poster) {
        return Err(InstructionError::AccountNotSigner);
    }
    let a = ctx.bounty_state;
    let s = match board.bounty(a) {
        Some(s) => s,
        None => return Err(load_failure(board, a)),
    };
    if a != Address::bounty(ctx.poster, id) {
        return Err(InstructionError::ConstraintSeeds);
    }
    if s.poster != ctx.poster {
        return Err(InstructionError::Custom(ErrorCode::Unauthorized));
    }
    if s.claimer != ctx.claimer {
        return Err(InstructionError::Custom(ErrorCode::Unauthorized));
    }
    if s.status != BountyStatus::Claimed {
        return Err(InstructionError::Custom(ErrorCode::BountyNotClaimed));
    }
    pay_out(board, a, Address::Wallet(ctx.claimer))
}

/// Why `cancel_task` is refused, if it is.
pub open spec fn cancel_task_error(b: BoardView, signers: Seq<Pubkey>, ctx: CancelTask, id: u64) -> Option<InstructionError> {
    let a = ctx.bounty_state;
    let s = b.bounties[a];
    let payee = Address::Wallet(ctx.poster);
    if !signers.contains(ctx.poster) {
        Some(InstructionError::AccountNotSigner)
    } else if !b.bounties.contains_key(a) {
        load_error(b, a, false)
    } else if a != (Address::Bounty { poster: ctx.poster, id: Some(id) }) {
        Some(InstructionError::ConstraintSeeds)
    } else if s.poster != ctx.poster {
        Some(InstructionError::Custom(ErrorCode::Unauthorized))
    } else if s.status != BountyStatus::Open {
        Some(InstructionError::Custom(ErrorCode::BountyNotOpen))
    } else if b.balance(a) < s.amount {
        Some(InstructionError::ArithmeticOverflow)
    } else if b.balance(payee) + s.amount > u64::MAX {
        Some(InstructionError::ArithmeticOverflow)
    } else if !wallet_may_hold(b.rent, b.balance(payee) + s.amount) {
        Some(InstructionError::InsufficientFundsForRent)
    } else {
        None
    }
}

/// Refunds the escrow of the open bounty `id` to its poster and closes the
/// bounty.
pub fn cancel_task(board: &mut Board, signers: &[Pubkey], ctx: CancelTask, id: u64) -> (r: Result<(), InstructionError>)
    requires
        old(board).wf(),
    ensures
        final(board).wf(),
        final(board).total_lamports() == old(board).total_lamports(),
        match cancel_task_error(old(board)@, signers@, ctx, id) {
            Some(e) => r == Err::<(), InstructionError>(e) && final(board)@ == old(board)@,
            None => r is Ok && final(board)@ == payout_next(
                old(board)@,
                ctx.bounty_state,
                Address::Wallet(ctx.poster),
            ),
        },
        r is Ok ==> ({
            let a = ctx.bounty_state;
            let payee = Address::Wallet(ctx.poster);
            let s0 = old(board)@.bounties[a];
            let s1 = final(board)@.bounties[a];
            &&& old(board)@.bounties.contains_key(a)
            &&& final(board)@.bounties.contains_key(a)
            &&& s0.poster == ctx.poster
            &&& s0.status == BountyStatus::Open
            &&& s1.id == s0.id
            &&& s1.poster == s0.poster
            &&& s1.claimer == s0.claimer
            &&& s1.submisstion_uri == s0.submisstion_uri
            &&& s1.amount == 0
            &&& s1.status == BountyStatus::Closed
            &&& final(board)@.balance(payee) == old(board)@.balance(payee) + s0.amount
            &&& final(board)@.balance(a) == old(board)@.balance(a) - s0.amount
        }),
{
    if !has_signed(signers, ctx.poster) {
        return Err(InstructionError::AccountNotSigner);
    }
    let a = ctx.bounty_state;
    let s = match board.bounty(a) {
        Some(s) => s,
        None => return Err(load_failure(board, a)),
    };
    if a != Address::bounty(ctx.poster, id) {
        return Err(InstructionError::ConstraintSeeds);
    }
    if s.poster != ctx.poster {
        return Err(InstructionError::Custom(ErrorCode::Unauthorized));
    }
    if s.status != BountyStatus::Open {
        return Err(InstructionError::Custom(ErrorCode::BountyNotOpen));
    }
    pay_out(board, a, Address::Wallet(ctx.poster))
}

/// An instruction with its accounts and arguments.
#[allow(inconsistent_fields)]
pub enum Instruction {
    Initialize { accounts: Initialize, bump: u8 },
    InitializeUser { accounts: InitializeUser },
    UpdateUser { accounts: UpdateUser, data: u64 },
    PostBounty { accounts: PostBounty, id: u64, amount: u64 },
    UpdateBounty { accounts: UpdateBounty, new_amount: Option<u64>, new_status: Option<BountyStatus> },
    SubmitTask { accounts: SubmitTask, id: u64, submission_uri: String },
    ApproveTask { accounts: ApproveTask, id: u64 },
    CancelTask { accounts: CancelTask, id: u64 },
}

/// Why `ix` is refused on `b`, if it is.
pub open spec fn step_error(b: BoardView, signers: Seq<Pubkey>, ix: Instruction) -> Option<InstructionError> {
    match ix {
        Instruction::Initialize { accounts, bump } => initialize_error(b, signers, accounts),
        Instruction::InitializeUser { accounts } => initialize_user_error(b, signers, accounts),
        Instruction::UpdateUser { accounts, data } => update_user_error(b, signers, accounts),
        Instruction::PostBounty { accounts, id, amount } => post_bounty_error(b, signers, accounts, id, amount),
        Instruction::UpdateBounty { accounts, new_amount, new_status } => update_bounty_error(b, signers, accounts),
        Instruction::SubmitTask { accounts, id, submission_uri } => submit_task_error(
            b,
            signers,
            accounts,
            id,
            submission_uri@,
        ),
        Instruction::ApproveTask { accounts, id } => approve_task_error(b, signers, accounts, id),
        Instruction::CancelTask { accounts, id } => cancel_task_error(b, signers, accounts, id),
    }
}

/// `after` is the board after `ix` was accepted on `b`.
pub open spec fn step_next(b: BoardView, after: BoardView, ix: Instruction) -> bool {
    match ix {
        Instruction::Initialize { accounts, bump } => after == initialize_next(b, accounts, bump),
        Instruction::InitializeUser { accounts } => after == initialize_user_next(b, accounts),
        Instruction::UpdateUser { accounts, data } => after == update_user_next(b, accounts, data),
        Instruction::PostBounty { accounts, id, amount } => post_bounty_next(b, after, accounts, id, amount),
        Instruction::UpdateBounty { accounts, new_amount, new_status } => after == update_bounty_next(
            b,
            accounts,
            new_amount,
            new_status,
        ),
        Instruction::SubmitTask { accounts, id, submission_uri } => after == submit_task_next(
            b,
            accounts,
            submission_uri,
        ),
        Instruction::ApproveTask { accounts, id } => after == payout_next(
            b,
            accounts.bounty_state,
            Address::Wallet(accounts.claimer),
        ),
        Instruction::CancelTask { accounts, id } => after == payout_next(
            b,
            accounts.bounty_state,
            Address::Wallet(accounts.poster),
        ),
    }
}

/// `r` and `after` are what running `ix` on `b` may give: refused with the
/// error that `step_error` names and nothing changed, or accepted.
pub open spec fn step(
    b: BoardView,
    signers: Seq<Pubkey>,
    ix: Instruction,
    r: Result<(), InstructionError>,
    after: BoardView,
) -> bool {
    match step_error(b, signers, ix) {
        Some(e) => r == Err::<(), InstructionError>(e) && after == b,
        None => r is Ok && step_next(b, after, ix),
    }
}

/// Runs one instruction of the program, in a transaction signed by
/// `signers`.
pub fn process_instruction(board: &mut Board, signers: &[Pubkey], ix: Instruction) -> (r: Result<(), InstructionError>)
    requires
        old(board).wf(),
    ensures
        final(board).wf(),
        final(board).total_lamports() == old(board).total_lamports(),
        step(old(board)@, signers@, ix, r, final(board)@),
{
    match ix {
        Instruction::Initialize { accounts, bump } => initialize(board, signers, accounts, bump),
        Instruction::InitializeUser { accounts } => initialize_user(board, signers, accounts),
        Instruction::UpdateUser { accounts, data } => update_user(board, signers, accounts, data),
        Instruction::PostBounty { accounts, id, amount } => post_bounty(board, signers, accounts, id, amount),
        Instruction::UpdateBounty { accounts, new_amount, new_status } => update_bounty(
            board,
            signers,
            accounts,
            new_amount,
            new_status,
        ),
        Instruction::SubmitTask { accounts, id, submission_uri } => submit_task(
            board,
            signers,
            accounts,
            id,
            submission_uri,
        ),
        Instruction::ApproveTask { accounts, id } => approve_task(board, signers, accounts, id),
        Instruction::CancelTask { accounts, id } => cancel_task(board, signers, accounts, id),
    }
}

} // verus!
