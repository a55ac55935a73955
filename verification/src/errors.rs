//! The error taxonomy of the escrow operations.
//!
//! Every error aborts the operation with zero side effects: no partial state
//! mutation and no partial transfer.

use vstd::prelude::*;

verus! {

/// Why an escrow operation was refused.
#[derive(Clone, Copy, Debug, PartialEq, Eq, Structural)]
pub enum EscrowError {
    /// Creation was attempted with an already-used escrow identifier.
    DuplicateEscrow,
    /// Creation was attempted with a non-positive amount.
    InvalidAmount,
    /// The buyer's account cannot fund the deposit.
    InsufficientFunds,
    /// The caller's identity does not match the role the operation requires.
    Unauthorized,
    /// The operation was invoked from a state that does not permit it.
    InvalidEscrowState,
    /// The buyer attempted to confirm receipt after the confirmation window.
    ConfirmationPeriodExpired,
    /// Auto-release was attempted before the confirmation window elapsed.
    AutoReleaseTimeNotReached,
}

} // verus!
