//! The error kinds with which a call on the token contract can be rejected.

use vstd::prelude::*;

verus! {

/// Why an operation on the token contract was rejected.
///
/// Every mutating operation validates all of its preconditions before any
/// mutation, so a call that returns one of these errors has no effect on the
/// contract state.
#[derive(Clone, Copy, Debug, PartialEq, Eq, Structural)]
pub enum TokenError {
    /// The contract state was already created by an earlier initialization.
    AlreadyInitialized,
    /// No contract state exists yet.
    NotInitialized,
    /// The account already has a ledger entry.
    AlreadyRegistered,
    /// The account has no ledger entry.
    NotRegistered,
    /// An account was unregistered with a nonzero balance and without force.
    NonZeroBalance,
    /// The sender's balance does not cover the requested amount.
    InsufficientBalance,
    /// The attached deposit does not cover the storage the call consumes.
    InsufficientStorageDeposit,
    /// A storage withdrawal asked for more than the available storage balance.
    StorageUnavailable,
    /// The operation would push a balance or the total supply past the
    /// 128-bit bound.
    Overflow,
    /// Sender and receiver of a transfer are the same account.
    SelfTransfer,
    /// A transfer of zero tokens.
    ZeroAmount,
    /// The receiver of a transfer has no ledger entry.
    ReceiverNotRegistered,
    /// The receiving contract's handling call failed at the host level.
    ReceiverCallFailed,
}

} // verus!
