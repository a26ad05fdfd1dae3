//! The closed set of failure codes. Every operation either completes in
//! full or fails with exactly one of these.

use vstd::prelude::*;

verus! {

/// Named failure codes for every rejected operation.
#[derive(Clone, Copy, PartialEq, Eq, Structural, Debug)]
pub enum MsError {
    KeyNotInMultisig,
    InvalidTransactionState,
    InvalidNumberOfAccounts,
    InvalidInstructionAccount,
    InvalidAuthorityIndex,
    TransactionAlreadyExecuted,
    CannotRemoveSoloMember,
    InvalidThreshold,
    DeprecatedTransaction,
    InstructionFailed,
    MaxMembersReached,
    MemberNotFound,
    PartialExecution,
    NotEnoughLamports,
    TimeLockNotSatisfied,
    UnauthorizedMember,
    TimeLockExceedsMaximum,
    TimeError,
    MissingAccount,
    SpendingLimitNotFound,
    SpendingLimitExceeded,
    InvalidMint,
    InvalidAmount,
    InvalidDecimals,
    SpendingLimitDisabled,
    DuplicateMembers,
    ChangeIndexExceedsTransactionIndex,
}

} // verus!
