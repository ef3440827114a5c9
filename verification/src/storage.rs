//! Storage accounting: deposit bounds and the generic storage-delta
//! settlement rule.
//!
//! The host measures storage bytes and supplies the price per byte; this
//! module only converts measurements into costs and decides whether an
//! attached deposit covers them.  All arithmetic is checked.

use vstd::prelude::*;

use crate::errors::TokenError;

verus! {

/// An account's storage balance: what it has deposited and what it could
/// withdraw.  Ledger entries are fixed-size, so `available` is always zero.
#[derive(Clone, Copy, Debug, PartialEq, Eq, Structural)]
pub struct StorageBalance {
    /// The deposit held for the account's registration.
    pub total: u128,
    /// The portion withdrawable beyond the registration minimum.
    pub available: u128,
}

/// The storage deposit bounds: the minimum cost to register one account and
/// the ceiling an account may ever occupy.  Entries are fixed-size, so the
/// two coincide.
#[derive(Clone, Copy, Debug, PartialEq, Eq, Structural)]
pub struct StorageBalanceBounds {
    pub min: u128,
    pub max: u128,
}

/// What a storage deposit produced: the amount owed back to the caller and
/// the account's resulting storage balance.
#[derive(Clone, Copy, Debug, PartialEq, Eq, Structural)]
pub struct StorageDepositOutcome {
    /// The unused part of the attached deposit, to be refunded by the host.
    pub refund: u128,
    /// The account's storage balance after the call.
    pub balance: StorageBalance,
}

/// The storage deposit bounds owed for a measured entry size and a price per
/// byte: both bounds equal their product, rejected with `Overflow` past the
/// 128-bit bound.
pub open spec fn spec_storage_balance_bounds(bytes: u64, price: u128) -> Result<
    StorageBalanceBounds,
    TokenError,
> {
    if bytes * price > u128::MAX {
        Err(TokenError::Overflow)
    } else {
        Ok(
            StorageBalanceBounds {
                min: (bytes * price) as u128,
                max: (bytes * price) as u128,
            },
        )
    }
}

/// Converts the measured size of one ledger entry into the deposit bounds,
/// using the host-supplied price per byte.
pub fn storage_balance_bounds(account_storage_bytes: u64, price_per_byte: u128) -> (r: Result<
    StorageBalanceBounds,
    TokenError,
>)
    ensures
        r == spec_storage_balance_bounds(account_storage_bytes, price_per_byte),
{
    match (account_storage_bytes as u128).checked_mul(price_per_byte) {
        None => Err(TokenError::Overflow),
        Some(cost) => Ok(StorageBalanceBounds { min: cost, max: cost }),
    }
}

/// The settlement owed for a storage delta.  If storage grew, the attached
/// deposit must cover the growth at the given price, and the remainder is
/// refunded; a deposit below the cost rejects the whole call.  If storage
/// shrank, the freed cost is refunded on top of the attached deposit.
pub open spec fn spec_settle_storage_delta(
    before: u64,
    after: u64,
    price: u128,
    attached: u128,
) -> Result<u128, TokenError> {
    if after > before {
        if attached < (after - before) * price {
            Err(TokenError::InsufficientStorageDeposit)
        } else {
            Ok((attached - (after - before) * price) as u128)
        }
    } else {
        if attached + (before - after) * price > u128::MAX {
            Err(TokenError::Overflow)
        } else {
            Ok((attached + (before - after) * price) as u128)
        }
    }
}

/// The rule threaded through every state-mutating call: measure storage
/// before and after, charge growth against the attached deposit, refund
/// shrinkage and whatever was not used.  Returns the refund owed to the
/// caller.
pub fn settle_storage_delta(
    bytes_before: u64,
    bytes_after: u64,
    price_per_byte: u128,
    attached_deposit: u128,
) -> (r: Result<u128, TokenError>)
    ensures
        r == spec_settle_storage_delta(bytes_before, bytes_after, price_per_byte, attached_deposit),
{
    if bytes_after > bytes_before {
        let grown: u128 = (bytes_after - bytes_before) as u128;
        match grown.checked_mul(price_per_byte) {
            None => Err(TokenError::InsufficientStorageDeposit),
            Some(cost) => {
                if attached_deposit < cost {
                    Err(TokenError::InsufficientStorageDeposit)
                } else {
                    Ok(attached_deposit - cost)
                }
            },
        }
    } else {
        let freed: u128 = (bytes_before - bytes_after) as u128;
        match freed.checked_mul(price_per_byte) {
            None => Err(TokenError::Overflow),
            Some(refund) => {
                match attached_deposit.checked_add(refund) {
                    None => Err(TokenError::Overflow),
                    Some(total_refund) => Ok(total_refund),
                }
            },
        }
    }
}

} // verus!
