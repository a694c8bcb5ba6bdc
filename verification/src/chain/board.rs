//! The accounts that the bounty program reads and writes, with their lamport
//! balances.

use vstd::prelude::*;

use super::address::Address;
use super::error::InstructionError;
use super::state::{utf8_len, BountyState, BountyStatus, GlobalState, UserProfile, MAX_URI_LEN};
use super::table::{sum_over, Table};
use crate::pubkey::Pubkey;

verus! {

/// The smallest balances, in lamports, at which accounts of each kind are
/// exempt from rent: the runtime's rent-exempt minimum for each account's
/// size. A new account is funded with its minimum by its payer, and no
/// transaction may leave a wallet with some lamports but fewer than its
/// minimum.
#[derive(Clone, Copy, Debug, PartialEq, Eq, Structural)]
pub struct RentSchedule {
    /// An account with no data.
    pub wallet: u64,
    /// A user profile account.
    pub user_profile: u64,
    /// The global account.
    pub global_state: u64,
    /// A bounty account.
    pub bounty: u64,
}

/// A wallet may hold `lamports`: none, or at least its rent-exempt minimum.
pub open spec fn wallet_may_hold(rent: RentSchedule, lamports: int) -> bool {
    lamports == 0 || lamports >= rent.wallet
}

/// What a board holds, as maps.
pub struct BoardView {
    /// Lamports of every account that has held any.
    pub lamports: Map<Address, u64>,
    pub bounties: Map<Address, BountyState>,
    pub users: Map<Address, UserProfile>,
    pub global: Option<GlobalState>,
    /// The rent-exempt minimums in force.
    pub rent: RentSchedule,
}

/// A bounty as it may stand at address `a`: at the address of its own poster
/// and id, closed only once its amount is paid out, its URI within bounds.
pub open spec fn bounty_fits(a: Address, s: BountyState) -> bool {
    &&& a == (Address::Bounty { poster: s.poster, id: Some(s.id) })
    &&& s.status == BountyStatus::Closed ==> s.amount == 0
    &&& utf8_len(s.submisstion_uri@) <= MAX_URI_LEN
}

impl BoardView {
    /// The lamports at `a`; an account that never held any holds 0.
    pub open spec fn balance(self, a: Address) -> u64 {
        if self.lamports.contains_key(a) {
            self.lamports[a]
        } else {
            0
        }
    }

    /// The sum of the lamports of all accounts.
    pub open spec fn total_lamports(self) -> int {
        sum_over(self.lamports.dom(), self.lamports)
    }

    /// An account holds data at `a`.
    pub open spec fn holds_data(self, a: Address) -> bool {
        ||| self.bounties.contains_key(a)
        ||| self.users.contains_key(a)
        ||| a == Address::Global && self.global is Some
    }

    /// What every board reached by the program's instructions satisfies:
    /// each bounty account holds its rent-exempt minimum and, in escrow, its
    /// bounty's amount; each other data account holds its minimum; each
    /// wallet holds nothing or at least its minimum.
    pub open spec fn inv(self) -> bool {
        &&& forall|a: Address| #[trigger]
            self.bounties.contains_key(a) ==> bounty_fits(a, self.bounties[a]) && self.balance(a)
                == self.rent.bounty + self.bounties[a].amount
        &&& forall|a: Address| #[trigger]
            self.users.contains_key(a) ==> a == Address::User(self.users[a].authority)
                && self.balance(a) == self.rent.user_profile
        &&& self.global is Some ==> self.balance(Address::Global) == self.rent.global_state
        &&& forall|a: Address| #[trigger]
            self.lamports.contains_key(a) ==> a is Wallet || self.holds_data(a)
        &&& forall|k: Pubkey| #[trigger]
            self.lamports.contains_key(Address::Wallet(k)) ==> wallet_may_hold(
                self.rent,
                self.balance(Address::Wallet(k)) as int,
            )
    }
}

/// The accounts of the bounty program and the lamports of every account.
pub struct Board {
    lamports: Table<u64>,
    bounties: Table<BountyState>,
    users: Table<UserProfile>,
    global: Option<GlobalState>,
    rent: RentSchedule,
}

impl View for Board {
    type V = BoardView;

    closed spec fn view(&self) -> BoardView {
        BoardView {
            lamports: self.lamports@,
            bounties: self.bounties@,
            users: self.users@,
            global: self.global,
            rent: self.rent,
        }
    }
}

impl Board {
    /// The tables are well formed.
    pub closed spec fn tables_wf(self) -> bool {
        &&& self.lamports.wf()
        &&& self.bounties.wf()
        &&& self.users.wf()
    }

    /// The board is one that the program's instructions can reach.
    pub open spec fn wf(self) -> bool {
        self.tables_wf() && self@.inv()
    }

    /// The sum of the lamports of all accounts.
    pub open spec fn total_lamports(self) -> int {
        self@.total_lamports()
    }

    /// Finitely many accounts hold lamports, and the total is their sum.
    pub proof fn lemma_total_is_sum_of_balances(self)
        requires
            self.tables_wf(),
        ensures
            self@.lamports.dom().finite(),
            self.total_lamports() == sum_over(self@.lamports.dom(), self@.lamports),
    {
        self.lamports.lemma_total_is_sum();
    }

    /// A board with no accounts, under the rent-exempt minimums `rent`.
    pub fn new(rent: RentSchedule) -> (b: Board)
        ensures
            b.wf(),
            b@.lamports == Map::<Address, u64>::empty(),
            b@.bounties == Map::<Address, BountyState>::empty(),
            b@.users == Map::<Address, UserProfile>::empty(),
            b@.global is None,
            b@.rent == rent,
            b.total_lamports() == 0,
    {
        let b = Board {
            lamports: Table::new(),
            bounties: Table::new(),
            users: Table::new(),
            global: None,
            rent,
        };
        proof {
            b.lamports.lemma_total_empty();
            b.lamports.lemma_total_is_sum();
        }
        b
    }

    /// An account holds data at `a`.
    pub fn holds_data(&self, a: Address) -> (r: bool)
        requires
            self.tables_wf(),
        ensures
            r == self@.holds_data(a),
    {
        self.bounty(a).is_some() || self.user_profile(a).is_some() || (a == Address::Global
            && self.global.is_some())
    }

    /// The rent-exempt minimums in force.
    pub fn rent(&self) -> (r: RentSchedule)
        ensures
            r == self@.rent,
    {
        self.rent
    }

    /// The lamports at `a`.
    pub fn lamports_of(&self, a: Address) -> (n: u64)
        requires
            self.tables_wf(),
        ensures
            n == self@.balance(a),
    {
        match self.lamports.get(a) {
            Some(n) => *n,
            None => 0,
        }
    }

    /// The bounty at `a`, if there is one.
    pub fn bounty(&self, a: Address) -> (r: Option<&BountyState>)
        requires
            self.tables_wf(),
        ensures
            r matches Some(s) ==> self@.bounties.contains_key(a) && *s == self@.bounties[a],
            r is None <==> !self@.bounties.contains_key(a),
    {
        self.bounties.get(a)
    }

    /// The user profile at `a`, if there is one.
    pub fn user_profile(&self, a: Address) -> (r: Option<&UserProfile>)
        requires
            self.tables_wf(),
        ensures
            r matches Some(p) ==> self@.users.contains_key(a) && *p == self@.users[a],
            r is None <==> !self@.users.contains_key(a),
    {
        self.users.get(a)
    }

    /// The global state, if it was initialized.
    pub fn global_state(&self) -> (r: Option<&GlobalState>)
        ensures
            r matches Some(g) ==> self@.global == Some(*g),
            r is None <==> self@.global is None,
    {
        self.global.as_ref()
    }

    /// Sets the lamports at `a` to `v`.
    pub(crate) fn set_lamports(&mut self, a: Address, v: u64)
        requires
            old(self).tables_wf(),
        ensures
            final(self).tables_wf(),
            final(self)@ == (BoardView { lamports: old(self)@.lamports.insert(a, v), ..old(self)@ }),
            final(self).total_lamports() == old(self).total_lamports() - old(self)@.balance(a) + v,
    {
        let ghost before = self.lamports;
        self.lamports.set(a, v);
        proof {
            self.lamports.lemma_total_after_set(before, a, v);
            before.lemma_total_is_sum();
            self.lamports.lemma_total_is_sum();
        }
    }

    /// Puts the bounty `s` at `a`.
    pub(crate) fn put_bounty(&mut self, a: Address, s: BountyState)
        requires
            old(self).tables_wf(),
        ensures
            final(self).tables_wf(),
            final(self)@ == (BoardView { bounties: old(self)@.bounties.insert(a, s), ..old(self)@ }),
            final(self).total_lamports() == old(self).total_lamports(),
    {
        self.bounties.set(a, s);
    }

    /// Puts the profile `p` at `a`.
    pub(crate) fn put_user(&mut self, a: Address, p: UserProfile)
        requires
            old(self).tables_wf(),
        ensures
            final(self).tables_wf(),
            final(self)@ == (BoardView { users: old(self)@.users.insert(a, p), ..old(self)@ }),
            final(self).total_lamports() == old(self).total_lamports(),
    {
        self.users.set(a, p);
    }

    /// Sets the global state.
    pub(crate) fn put_global(&mut self, g: GlobalState)
        requires
            old(self).tables_wf(),
        ensures
            final(self).tables_wf(),
            final(self)@ == (BoardView { global: Some(g), ..old(self)@ }),
            final(self).total_lamports() == old(self).total_lamports(),
    {
        self.global = Some(g);
    }

    /// Credits `lamports` to the wallet `to`, as a faucet does; refused
    /// where the balance would overflow, or would be some lamports but fewer
    /// than a wallet's rent-exempt minimum.
    pub fn airdrop(&mut self, to: Pubkey, lamports: u64) -> (r: Result<(), InstructionError>)
        requires
            old(self).wf(),
        ensures
            final(self).wf(),
            ({
                let w = Address::Wallet(to);
                let new_balance = old(self)@.balance(w) + lamports;
                if new_balance > u64::MAX {
                    r == Err::<(), InstructionError>(InstructionError::ArithmeticOverflow) && final(self)@ == old(self)@
                } else if !wallet_may_hold(old(self)@.rent, new_balance) {
                    r == Err::<(), InstructionError>(InstructionError::InsufficientFundsForRent)
                        && final(self)@ == old(self)@
                } else {
                    r is Ok && final(self)@ == (BoardView {
                        lamports: old(self)@.lamports.insert(w, new_balance as u64),
                        ..old(self)@
                    })
                }
            }),
            r is Ok ==> final(self).total_lamports() == old(self).total_lamports() + lamports,
    {
        let a = Address::Wallet(to);
        let have = self.lamports_of(a);
        match have.checked_add(lamports) {
            Some(v) => {
                if v != 0 && v < self.rent.wallet {
                    return Err(InstructionError::InsufficientFundsForRent);
                }
                self.set_lamports(a, v);
                Ok(())
            },
            None => Err(InstructionError::ArithmeticOverflow),
        }
    }
}

} // verus!
