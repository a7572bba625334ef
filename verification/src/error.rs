//! The ways in which an operation on a vault can be refused.

use vstd::prelude::*;

verus! {

/// Why an operation was refused. A refused operation leaves every record as it
/// found it.
#[derive(Clone, Copy, Debug, PartialEq, Eq, Hash)]
pub enum CustomError {
    /// The caller is not the identity that the operation is reserved for, or
    /// named a vault that belongs to somebody else.
    NotAuthorized,
    /// Recovery has been triggered, but its delay has not yet run out.
    RecoveryIsNotFinished,
    /// Recovery could not be carried out. No operation refuses with it.
    NotAbleToRecover,
    /// The owner asked for the funds before the unlock time.
    UnlockTimeNotReached,
    /// The backup identity asked for the funds before triggering recovery.
    RecoveryNotTriggered,
    /// A balance or a timestamp would leave the range of its type.
    Overflow,
    /// A record already exists for this owner.
    AlreadyInitialized,
    /// The ledger could not move the funds: the source account holds too little.
    InsufficientFunds,
}

} // verus!
