//! Why an instruction is refused.

use vstd::prelude::*;

verus! {

/// The bounty program's own errors.
#[derive(Clone, Copy, Debug, PartialEq, Eq, Structural)]
pub enum ErrorCode {
    Unauthorized,
    CounterOverflow,
    BountyNotOpen,
    CannotSubmitOwnBounty,
    BountyNotClaimed,
    BountyNotClosed,
    UriTooLong,
}

impl ErrorCode {
    /// The number under which the error reaches a client: program errors are
    /// numbered from 6000 in the order they are declared.
    pub fn code(&self) -> (n: u32)
        ensures
            n == 6000 + match self {
                ErrorCode::Unauthorized => 0u32,
                ErrorCode::CounterOverflow => 1,
                ErrorCode::BountyNotOpen => 2,
                ErrorCode::CannotSubmitOwnBounty => 3,
                ErrorCode::BountyNotClaimed => 4,
                ErrorCode::BountyNotClosed => 5,
                ErrorCode::UriTooLong => 6,
            },
    {
        match self {
            ErrorCode::Unauthorized => 6000,
            ErrorCode::CounterOverflow => 6001,
            ErrorCode::BountyNotOpen => 6002,
            ErrorCode::CannotSubmitOwnBounty => 6003,
            ErrorCode::BountyNotClaimed => 6004,
            ErrorCode::BountyNotClosed => 6005,
            ErrorCode::UriTooLong => 6006,
        }
    }

    /// The message that goes with the error.
    pub fn message(&self) -> (m: &'static str)
        ensures
            m@ == match self {
                ErrorCode::Unauthorized => "Only the bounty poster can update this bounty"@,
                ErrorCode::CounterOverflow => "Counter has reached the maximum value"@,
                ErrorCode::BountyNotOpen => "Bounty is not open for submission"@,
                ErrorCode::CannotSubmitOwnBounty => "Cannot submit work on your own bounty"@,
                ErrorCode::BountyNotClaimed => "Bounty is not claimed"@,
                ErrorCode::BountyNotClosed => "Bounty is not closed"@,
                ErrorCode::UriTooLong => "Uri is do long"@,
            },
    {
        match self {
            ErrorCode::Unauthorized => "Only the bounty poster can update this bounty",
            ErrorCode::CounterOverflow => "Counter has reached the maximum value",
            ErrorCode::BountyNotOpen => "Bounty is not open for submission",
            ErrorCode::CannotSubmitOwnBounty => "Cannot submit work on your own bounty",
            ErrorCode::BountyNotClaimed => "Bounty is not claimed",
            ErrorCode::BountyNotClosed => "Bounty is not closed",
            ErrorCode::UriTooLong => "Uri is do long",
        }
    }
}

/// Why a transaction that carries an instruction fails.
#[derive(Clone, Copy, Debug, PartialEq, Eq, Structural)]
pub enum InstructionError {
    /// The program refused with one of its own errors.
    Custom(ErrorCode),
    /// An account that must sign the transaction did not.
    AccountNotSigner,
    /// An account that must already hold data holds none.
    AccountNotInitialized,
    /// An account that must hold the program's data belongs to another
    /// program (a funded wallet belongs to the system program).
    AccountOwnedByWrongProgram,
    /// An account holds the program's data, but of another kind than the
    /// instruction expects there.
    AccountDiscriminatorMismatch,
    /// An account that the instruction creates already holds data.
    AccountAlreadyInUse,
    /// A constraint that names no error of its own did not hold.
    ConstraintRaw,
    /// An account is not at the address that its seeds derive.
    ConstraintSeeds,
    /// A transfer asked for more lamports than its source holds.
    InsufficientFunds,
    /// A lamport balance would leave the range of `u64`.
    ArithmeticOverflow,
    /// The transaction would leave a wallet with some lamports but fewer
    /// than its rent-exempt minimum.
    InsufficientFundsForRent,
}

} // verus!
