//! What holds of the bounty program over all boards and instructions.

use vstd::prelude::*;

use super::accounts::{
    ApproveTask, CancelTask, Initialize, InitializeUser, PostBounty, SubmitTask, UpdateBounty,
    UpdateUser,
};
use super::address::Address;
use super::board::{wallet_may_hold, BoardView};
use super::error::InstructionError;
use super::error::ErrorCode;
use super::program::{
    approve_task_error, cancel_task_error, payout_next, post_bounty_error, post_bounty_next, step,
    step_error, update_bounty_error, Instruction,
};
use super::state::{utf8_len, BountyStatus, GlobalState, UserProfile, MAX_URI_LEN};
use crate::pubkey::Pubkey;

verus! {

/// A bounty's account holds its rent-exempt minimum and exactly the
/// bounty's amount; once the bounty is closed it holds only the minimum.
pub proof fn lemma_escrow_holds_amount(b: BoardView, a: Address)
    requires
        b.inv(),
        b.bounties.contains_key(a),
    ensures
        b.balance(a) == b.rent.bounty + b.bounties[a].amount,
        b.bounties[a].status == BountyStatus::Closed ==> b.balance(a) == b.rent.bounty,
{
}

/// `to` may follow `from`: a bounty goes from open to claimed or closed, and
/// from claimed to closed, and never back.
pub open spec fn status_may_follow(from: BountyStatus, to: BountyStatus) -> bool {
    ||| from == to
    ||| from == BountyStatus::Open && to == BountyStatus::Claimed
    ||| from == BountyStatus::Open && to == BountyStatus::Closed
    ||| from == BountyStatus::Claimed && to == BountyStatus::Closed
}

/// No instruction removes a bounty, changes its poster or id, or moves its
/// status backwards.
pub proof fn lemma_status_moves_forward(
    b: BoardView,
    signers: Seq<Pubkey>,
    ix: Instruction,
    r: Result<(), InstructionError>,
    after: BoardView,
    a: Address,
)
    requires
        b.inv(),
        b.bounties.contains_key(a),
        step(b, signers, ix, r, after),
    ensures
        after.bounties.contains_key(a),
        after.bounties[a].poster == b.bounties[a].poster,
        after.bounties[a].id == b.bounties[a].id,
        status_may_follow(b.bounties[a].status, after.bounties[a].status),
{
}

/// No instruction changes a closed bounty or its account's lamports.
pub proof fn lemma_closed_bounty_is_final(
    b: BoardView,
    signers: Seq<Pubkey>,
    ix: Instruction,
    r: Result<(), InstructionError>,
    after: BoardView,
    a: Address,
)
    requires
        b.inv(),
        b.bounties.contains_key(a),
        b.bounties[a].status == BountyStatus::Closed,
        step(b, signers, ix, r, after),
    ensures
        after.bounties.contains_key(a),
        after.bounties[a] == b.bounties[a],
        after.balance(a) == b.balance(a),
{
}

/// A bounty comes into being only by an accepted `post_bounty`: open, with
/// no claimer.
pub proof fn lemma_new_bounty_is_open(
    b: BoardView,
    signers: Seq<Pubkey>,
    ix: Instruction,
    r: Result<(), InstructionError>,
    after: BoardView,
    a: Address,
)
    requires
        b.inv(),
        !b.bounties.contains_key(a),
        after.bounties.contains_key(a),
        step(b, signers, ix, r, after),
    ensures
        ix is PostBounty,
        r is Ok,
        after.bounties[a].status == BountyStatus::Open,
        after.bounties[a].claimer == Pubkey::zero(),
{
}

/// `update_bounty` is refused on every board that the instructions reach:
/// it reads the bounty at the address derived from `["bounty", payer]`, and
/// no instruction creates an account there.
pub proof fn lemma_update_bounty_always_refused(b: BoardView, signers: Seq<Pubkey>, ctx: UpdateBounty)
    requires
        b.inv(),
    ensures
        update_bounty_error(b, signers, ctx) is Some,
{
}

/// An accepted `approve_task` pays the claimer exactly the bounty's amount,
/// leaves the bounty's account with only its rent-exempt minimum and touches
/// no other balance.
pub proof fn lemma_approve_pays_claimer(
    b: BoardView,
    signers: Seq<Pubkey>,
    ctx: ApproveTask,
    id: u64,
    after: BoardView,
)
    requires
        b.inv(),
        approve_task_error(b, signers, ctx, id) is None,
        after == payout_next(b, ctx.bounty_state, Address::Wallet(ctx.claimer)),
    ensures
        after.balance(Address::Wallet(ctx.claimer)) == b.balance(Address::Wallet(ctx.claimer))
            + b.bounties[ctx.bounty_state].amount,
        after.balance(ctx.bounty_state) == b.rent.bounty,
        after.bounties[ctx.bounty_state].status == BountyStatus::Closed,
        forall|x: Address|
            x != ctx.bounty_state && x != Address::Wallet(ctx.claimer) ==> #[trigger] after.balance(x)
                == b.balance(x),
{
}

/// Cancelling a bounty right after posting it gives the poster back the
/// escrowed amount; the bounty's account keeps the rent-exempt minimum that
/// the poster paid for it, and every other account holds what it held
/// before the post. The cancel is accepted unless it would leave the poster
/// with some lamports but fewer than a wallet's minimum (possible only where
/// the post took all the poster had).
pub proof fn lemma_cancel_undoes_post(
    b: BoardView,
    signers: Seq<Pubkey>,
    ctx: PostBounty,
    id: u64,
    amount: u64,
    posted: BoardView,
)
    requires
        b.inv(),
        post_bounty_error(b, signers, ctx, id, amount) is None,
        post_bounty_next(b, posted, ctx, id, amount),
    ensures
        ({
            let poster = Address::Wallet(ctx.payer);
            let refused = cancel_task_error(
                posted,
                signers,
                CancelTask { poster: ctx.payer, bounty_state: ctx.bounty_state },
                id,
            );
            let cancelled = payout_next(posted, ctx.bounty_state, poster);
            &&& wallet_may_hold(b.rent, b.balance(poster) - b.rent.bounty) ==> refused is None
            &&& !wallet_may_hold(b.rent, b.balance(poster) - b.rent.bounty) ==> refused == Some(
                InstructionError::InsufficientFundsForRent,
            )
            &&& cancelled.balance(poster) == b.balance(poster) - b.rent.bounty
            &&& cancelled.balance(ctx.bounty_state) == b.rent.bounty
            &&& forall|x: Address|
                x != poster && x != ctx.bounty_state ==> #[trigger] cancelled.balance(x)
                    == b.balance(x)
            &&& cancelled.bounties[ctx.bounty_state].status == BountyStatus::Closed
            &&& cancelled.bounties[ctx.bounty_state].amount == 0
        }),
{
    assert(!b.lamports.contains_key(ctx.bounty_state));
}

/// Lamports leave a bounty's account only when the bounty's own poster,
/// having signed, approves the claimed bounty, paying its claimer, or
/// cancels the open bounty, refunding the poster; either way the whole
/// amount moves.
pub proof fn lemma_escrow_leaves_only_to_claimer_or_poster(
    b: BoardView,
    signers: Seq<Pubkey>,
    ix: Instruction,
    r: Result<(), InstructionError>,
    after: BoardView,
    a: Address,
)
    requires
        b.inv(),
        b.bounties.contains_key(a),
        step(b, signers, ix, r, after),
        after.balance(a) < b.balance(a),
    ensures
        after.balance(a) == b.rent.bounty,
        ({
            let s = b.bounties[a];
            &&& signers.contains(s.poster)
            &&& {
                ||| ix matches Instruction::ApproveTask { accounts, id } && accounts.poster
                    == s.poster && s.status == BountyStatus::Claimed && after.balance(
                    Address::Wallet(s.claimer),
                ) == b.balance(Address::Wallet(s.claimer)) + s.amount
                ||| ix matches Instruction::CancelTask { accounts, id } && accounts.poster
                    == s.poster && s.status == BountyStatus::Open && after.balance(
                    Address::Wallet(s.poster),
                ) == b.balance(Address::Wallet(s.poster)) + s.amount
            }
        }),
{
}

/// No wallet loses lamports in an instruction that its key did not sign.
pub proof fn lemma_only_signers_pay(
    b: BoardView,
    signers: Seq<Pubkey>,
    ix: Instruction,
    r: Result<(), InstructionError>,
    after: BoardView,
    k: Pubkey,
)
    requires
        b.inv(),
        step(b, signers, ix, r, after),
        after.balance(Address::Wallet(k)) < b.balance(Address::Wallet(k)),
    ensures
        signers.contains(k),
{
}

/// Every instruction, accepted or refused, keeps the board one that the
/// instructions can reach: the invariant holds after it.
pub proof fn lemma_step_keeps_inv(
    b: BoardView,
    signers: Seq<Pubkey>,
    ix: Instruction,
    r: Result<(), InstructionError>,
    after: BoardView,
)
    requires
        b.inv(),
        step(b, signers, ix, r, after),
    ensures
        after.inv(),
{
    if let Instruction::PostBounty { accounts, id, amount } = ix {
        if step_error(b, signers, ix) is None {
            let s = after.bounties[accounts.bounty_state];
            assert(vstd::utf8::encode_utf8(s.submisstion_uri@) =~= Seq::<u8>::empty());
        }
    }
}

/// A closed bounty stays as it is, and its account keeps its lamports,
/// through any run of instructions: `boards[i + 1]` is what instruction
/// `ixs[i]`, signed by `signers[i]` and answered with `results[i]`, leaves of
/// `boards[i]`.
pub proof fn lemma_closed_bounty_stays_closed(
    boards: Seq<BoardView>,
    signers: Seq<Seq<Pubkey>>,
    ixs: Seq<Instruction>,
    results: Seq<Result<(), InstructionError>>,
    a: Address,
)
    requires
        boards.len() == ixs.len() + 1,
        signers.len() == ixs.len(),
        results.len() == ixs.len(),
        boards[0].inv(),
        boards[0].bounties.contains_key(a),
        boards[0].bounties[a].status == BountyStatus::Closed,
        forall|i: int|
            0 <= i < ixs.len() ==> step(boards[i], signers[i], ixs[i], results[i], #[trigger] boards[i + 1]),
    ensures
        boards.last().inv(),
        boards.last().bounties.contains_key(a),
        boards.last().bounties[a] == boards[0].bounties[a],
        boards.last().balance(a) == boards[0].balance(a),
    decreases ixs.len(),
{
    if ixs.len() > 0 {
        let n = ixs.len() - 1;
        lemma_closed_bounty_stays_closed(
            boards.drop_last(),
            signers.drop_last(),
            ixs.drop_last(),
            results.drop_last(),
            a,
        );
        assert(boards.drop_last().last() == boards[n]);
        assert(step(boards[n], signers[n], ixs[n], results[n], boards[n + 1]));
        lemma_step_keeps_inv(boards[n], signers[n], ixs[n], results[n], boards[n + 1]);
        lemma_closed_bounty_is_final(boards[n], signers[n], ixs[n], results[n], boards[n + 1], a);
    }
}

/// A closed bounty is never paid out again: `cancel_task` and `approve_task`
/// on it are refused, with `BountyNotOpen` and `BountyNotClaimed` where the
/// poster signed and the address is the bounty's own, and a refused
/// instruction moves no lamports.
pub proof fn lemma_closed_bounty_refuses_payout(b: BoardView, signers: Seq<Pubkey>, a: Address, id: u64, claimer: Pubkey)
    requires
        b.inv(),
        b.bounties.contains_key(a),
        b.bounties[a].status == BountyStatus::Closed,
    ensures
        ({
            let poster = b.bounties[a].poster;
            let cancel = cancel_task_error(b, signers, CancelTask { poster, bounty_state: a }, id);
            let approve = approve_task_error(
                b,
                signers,
                ApproveTask { poster, claimer, bounty_state: a },
                id,
            );
            &&& cancel is Some
            &&& approve is Some
            &&& signers.contains(poster) && id == b.bounties[a].id ==> cancel == Some(
                InstructionError::Custom(ErrorCode::BountyNotOpen),
            )
            &&& signers.contains(poster) && id == b.bounties[a].id && claimer
                == b.bounties[a].claimer ==> approve == Some(
                InstructionError::Custom(ErrorCode::BountyNotClaimed),
            )
        }),
{
}

/// Once `approve_task` or `cancel_task` has paid a bounty out, no later
/// `cancel_task` on it, after any run of instructions, refunds anything:
/// it is refused (with `BountyNotOpen` where its poster signed it for the
/// bounty's own id) and leaves every account as it was.
pub proof fn lemma_no_refund_after_close(
    boards: Seq<BoardView>,
    signers: Seq<Seq<Pubkey>>,
    ixs: Seq<Instruction>,
    results: Seq<Result<(), InstructionError>>,
    a: Address,
    later_signers: Seq<Pubkey>,
    id: u64,
    r: Result<(), InstructionError>,
    after: BoardView,
)
    requires
        boards.len() == ixs.len() + 1,
        signers.len() == ixs.len(),
        results.len() == ixs.len(),
        ixs.len() >= 1,
        boards[0].inv(),
        forall|i: int|
            #![trigger ixs[i]]
            0 <= i < ixs.len() ==> step(boards[i], signers[i], ixs[i], results[i], boards[i + 1]),
        results[0] is Ok,
        ({
            ||| ixs[0] matches Instruction::ApproveTask { accounts, id } && accounts.bounty_state == a
            ||| ixs[0] matches Instruction::CancelTask { accounts, id } && accounts.bounty_state == a
        }),
        ({
            let last = boards.last();
            step(
                last,
                later_signers,
                Instruction::CancelTask {
                    accounts: CancelTask { poster: boards[0].bounties[a].poster, bounty_state: a },
                    id,
                },
                r,
                after,
            )
        }),
    ensures
        r is Err,
        after == boards.last(),
        later_signers.contains(boards[0].bounties[a].poster) && id == boards[0].bounties[a].id ==> r
            == Err::<(), InstructionError>(InstructionError::Custom(ErrorCode::BountyNotOpen)),
{
    let first = ixs[0];
    assert(step(boards[0], signers[0], first, results[0], boards[1]));
    lemma_step_keeps_inv(boards[0], signers[0], ixs[0], results[0], boards[1]);
    let rest = boards.subrange(1, boards.len() as int);
    let rest_signers = signers.subrange(1, signers.len() as int);
    let rest_ixs = ixs.subrange(1, ixs.len() as int);
    let rest_results = results.subrange(1, results.len() as int);
    assert forall|i: int| 0 <= i < rest_ixs.len() implies step(
        rest[i],
        rest_signers[i],
        rest_ixs[i],
        rest_results[i],
        #[trigger] rest[i + 1],
    ) by {
        let ix = ixs[i + 1];
        assert(step(boards[i + 1], signers[i + 1], ix, results[i + 1], boards[i + 2]));
    }
    lemma_closed_bounty_stays_closed(rest, rest_signers, rest_ixs, rest_results, a);
    assert(rest.last() == boards.last());
    lemma_closed_bounty_refuses_payout(boards.last(), later_signers, a, id, Pubkey::zero());
}

/// An accepted `update_user` with data `d` sets the profile's reputation to
/// `d`, whatever it was before, keeps its authority, and changes no other
/// profile and no lamports.
pub proof fn lemma_update_user_sets_reputation(
    b: BoardView,
    signers: Seq<Pubkey>,
    ctx: UpdateUser,
    d: u64,
    r: Result<(), InstructionError>,
    after: BoardView,
)
    requires
        b.inv(),
        step(b, signers, Instruction::UpdateUser { accounts: ctx, data: d }, r, after),
        r is Ok,
    ensures
        b.users.contains_key(ctx.user_profile),
        after.users.contains_key(ctx.user_profile),
        after.users[ctx.user_profile].reputation == d,
        after.users[ctx.user_profile].authority == b.users[ctx.user_profile].authority,
        forall|x: Address|
            x != ctx.user_profile ==> (#[trigger] after.users.contains_key(x) == b.users.contains_key(x)
                && (b.users.contains_key(x) ==> after.users[x] == b.users[x])),
        after.lamports == b.lamports,
        after.bounties == b.bounties,
{
}

/// Of two accepted `update_user`s on a profile, the later one's data is the
/// reputation that remains.
pub proof fn lemma_update_user_last_write_wins(
    b: BoardView,
    signers1: Seq<Pubkey>,
    signers2: Seq<Pubkey>,
    ctx: UpdateUser,
    d1: u64,
    d2: u64,
    mid: BoardView,
    after: BoardView,
    r1: Result<(), InstructionError>,
    r2: Result<(), InstructionError>,
)
    requires
        b.inv(),
        step(b, signers1, Instruction::UpdateUser { accounts: ctx, data: d1 }, r1, mid),
        step(mid, signers2, Instruction::UpdateUser { accounts: ctx, data: d2 }, r2, after),
        r1 is Ok,
        r2 is Ok,
    ensures
        after.users[ctx.user_profile].reputation == d2,
{
    lemma_step_keeps_inv(b, signers1, Instruction::UpdateUser { accounts: ctx, data: d1 }, r1, mid);
    lemma_update_user_sets_reputation(mid, signers2, ctx, d2, r2, after);
}

/// An accepted `approve_task` or `cancel_task` closes the bounty with amount
/// 0 and keeps the rest of its record: its id, poster, claimer (who was
/// paid, for an approval) and submission URI. It pays the bounty's amount to
/// the claimer that the bounty records (approval) or to its poster
/// (cancellation).
pub proof fn lemma_payout_keeps_record(
    b: BoardView,
    signers: Seq<Pubkey>,
    ix: Instruction,
    r: Result<(), InstructionError>,
    after: BoardView,
    a: Address,
)
    requires
        b.inv(),
        step(b, signers, ix, r, after),
        r is Ok,
        ({
            ||| ix matches Instruction::ApproveTask { accounts, id } && accounts.bounty_state == a
            ||| ix matches Instruction::CancelTask { accounts, id } && accounts.bounty_state == a
        }),
    ensures
        b.bounties.contains_key(a),
        after.bounties.contains_key(a),
        after.bounties[a].id == b.bounties[a].id,
        after.bounties[a].poster == b.bounties[a].poster,
        after.bounties[a].claimer == b.bounties[a].claimer,
        after.bounties[a].submisstion_uri == b.bounties[a].submisstion_uri,
        after.bounties[a].amount == 0,
        after.bounties[a].status == BountyStatus::Closed,
        signers.contains(b.bounties[a].poster),
        ix is ApproveTask ==> b.bounties[a].status == BountyStatus::Claimed,
        ix matches Instruction::ApproveTask { accounts, id } ==> accounts.claimer
            == b.bounties[a].claimer,
        ix is CancelTask ==> b.bounties[a].status == BountyStatus::Open,
        ({
            let s = b.bounties[a];
            let payee = if ix is ApproveTask {
                Address::Wallet(s.claimer)
            } else {
                Address::Wallet(s.poster)
            };
            &&& after.balance(payee) == b.balance(payee) + s.amount
            &&& after.balance(a) == b.rent.bounty
        }),
{
}

/// `approve_task` naming a claimer other than the one the bounty records is
/// refused with `Unauthorized` whatever the bounty's status, once the poster
/// has signed for the bounty's own address.
pub proof fn lemma_approve_needs_the_recorded_claimer(
    b: BoardView,
    signers: Seq<Pubkey>,
    ctx: ApproveTask,
    id: u64,
)
    requires
        signers.contains(ctx.poster),
        b.bounties.contains_key(ctx.bounty_state),
        ctx.bounty_state == (Address::Bounty { poster: ctx.poster, id: Some(id) }),
        b.bounties[ctx.bounty_state].poster == ctx.poster,
        b.bounties[ctx.bounty_state].claimer != ctx.claimer,
    ensures
        approve_task_error(b, signers, ctx, id) == Some(
            InstructionError::Custom(ErrorCode::Unauthorized),
        ),
{
}

/// An accepted `initialize` was signed by its payer, found no global account,
/// records the payer as authority with the given bump, and moves the global
/// account's rent-exempt minimum from the payer into it.
pub proof fn lemma_initialize_records_payer(
    b: BoardView,
    signers: Seq<Pubkey>,
    ctx: Initialize,
    bump: u8,
    r: Result<(), InstructionError>,
    after: BoardView,
)
    requires
        b.inv(),
        step(b, signers, Instruction::Initialize { accounts: ctx, bump }, r, after),
        r is Ok,
    ensures
        signers.contains(ctx.payer),
        b.global is None,
        after.global == Some(GlobalState { authority: ctx.payer, bump }),
        after.balance(Address::Wallet(ctx.payer)) == b.balance(Address::Wallet(ctx.payer))
            - b.rent.global_state,
        after.balance(Address::Global) == b.rent.global_state,
        after.bounties == b.bounties,
        after.users == b.users,
{
}

/// An accepted `initialize_user` was signed by its payer, creates the
/// payer's own profile where there was none, with the payer as authority
/// and reputation 0, and moves the profile's rent-exempt minimum from the
/// payer into it.
pub proof fn lemma_initialize_user_starts_at_zero(
    b: BoardView,
    signers: Seq<Pubkey>,
    ctx: InitializeUser,
    r: Result<(), InstructionError>,
    after: BoardView,
)
    requires
        b.inv(),
        step(b, signers, Instruction::InitializeUser { accounts: ctx }, r, after),
        r is Ok,
    ensures
        signers.contains(ctx.payer),
        ctx.user_profile == Address::User(ctx.payer),
        !b.users.contains_key(ctx.user_profile),
        after.users.contains_key(ctx.user_profile),
        after.users[ctx.user_profile] == (UserProfile { authority: ctx.payer, reputation: 0 }),
        after.balance(Address::Wallet(ctx.payer)) == b.balance(Address::Wallet(ctx.payer))
            - b.rent.user_profile,
        after.balance(ctx.user_profile) == b.rent.user_profile,
        after.bounties == b.bounties,
{
}

/// An accepted `post_bounty` was signed by its payer, creates the payer's
/// bounty `id` where there was none: open, of `amount`, with no claimer and
/// an empty URI. The payer pays the account's rent-exempt minimum and the
/// amount, and is left with nothing or at least a wallet's minimum.
pub proof fn lemma_post_bounty_opens_escrow(
    b: BoardView,
    signers: Seq<Pubkey>,
    ctx: PostBounty,
    id: u64,
    amount: u64,
    r: Result<(), InstructionError>,
    after: BoardView,
)
    requires
        b.inv(),
        step(b, signers, Instruction::PostBounty { accounts: ctx, id, amount }, r, after),
        r is Ok,
    ensures
        signers.contains(ctx.payer),
        ctx.bounty_state == (Address::Bounty { poster: ctx.payer, id: Some(id) }),
        !b.bounties.contains_key(ctx.bounty_state),
        after.bounties.contains_key(ctx.bounty_state),
        ({
            let s = after.bounties[ctx.bounty_state];
            let payer = Address::Wallet(ctx.payer);
            &&& s.id == id
            &&& s.poster == ctx.payer
            &&& s.claimer == Pubkey::zero()
            &&& s.amount == amount
            &&& s.status == BountyStatus::Open
            &&& s.submisstion_uri@.len() == 0
            &&& b.balance(payer) >= b.rent.bounty + amount
            &&& after.balance(payer) == b.balance(payer) - b.rent.bounty - amount
            &&& wallet_may_hold(b.rent, after.balance(payer) as int)
            &&& after.balance(ctx.bounty_state) == b.rent.bounty + amount
        }),
        after.users == b.users,
{
}

/// An accepted `submit_task` was signed by its submitter, who is not the
/// poster, on an open bounty, with a URI of at most 200 bytes. The bounty is
/// then claimed by the submitter with that URI; its id, poster and amount,
/// and all lamports, stay.
pub proof fn lemma_submit_task_claims(
    b: BoardView,
    signers: Seq<Pubkey>,
    ctx: SubmitTask,
    id: u64,
    uri: String,
    r: Result<(), InstructionError>,
    after: BoardView,
)
    requires
        b.inv(),
        step(b, signers, Instruction::SubmitTask { accounts: ctx, id, submission_uri: uri }, r, after),
        r is Ok,
    ensures
        signers.contains(ctx.submitter),
        b.bounties.contains_key(ctx.bounty_state),
        after.bounties.contains_key(ctx.bounty_state),
        ({
            let s0 = b.bounties[ctx.bounty_state];
            let s1 = after.bounties[ctx.bounty_state];
            &&& s0.status == BountyStatus::Open
            &&& ctx.submitter != s0.poster
            &&& utf8_len(uri@) <= MAX_URI_LEN
            &&& s1.claimer == ctx.submitter
            &&& s1.submisstion_uri == uri
            &&& s1.status == BountyStatus::Claimed
            &&& s1.id == s0.id
            &&& s1.poster == s0.poster
            &&& s1.amount == s0.amount
        }),
        after.lamports == b.lamports,
{
}

} // verus!
