//! Tests of the ledger primitives, storage accounting, metadata validity and
//! initialization.

use ura_token::contract::{initialize, loaded, Contract};
use ura_token::errors::TokenError;
use ura_token::ledger::Ledger;
use ura_token::metadata::{metadata_spec_version, FtMetadata};
use ura_token::storage::{
    settle_storage_delta, storage_balance_bounds, StorageBalance,
};

fn plain_metadata() -> FtMetadata {
    FtMetadata {
        spec_version: metadata_spec_version(),
        name: "Example token".to_string(),
        symbol: "EXT".to_string(),
        icon: None,
        reference: None,
        reference_hash: None,
        decimals: 8,
    }
}

#[test]
fn register_and_deposit() {
    let a = "alice".to_string();
    let mut ledger = Ledger::new();
    assert_eq!(ledger.register(&a), Ok(()));
    assert_eq!(ledger.register(&a), Err(TokenError::AlreadyRegistered));
    assert_eq!(ledger.deposit(&a, 500), Ok(()));
    assert_eq!(ledger.balance_of(&a), 500);
    assert_eq!(ledger.total_supply(), 500);
    assert_eq!(
        ledger.deposit(&"nobody".to_string(), 1),
        Err(TokenError::NotRegistered)
    );
}

#[test]
fn deposit_overflow_leaves_state_unchanged() {
    let a = "alice".to_string();
    let b = "bob".to_string();
    let mut ledger = Ledger::new();
    ledger.register(&a).unwrap();
    ledger.register(&b).unwrap();
    ledger.deposit(&a, u128::MAX).unwrap();
    assert_eq!(ledger.deposit(&b, 1), Err(TokenError::Overflow));
    assert_eq!(ledger.balance_of(&a), u128::MAX);
    assert_eq!(ledger.balance_of(&b), 0);
    assert_eq!(ledger.total_supply(), u128::MAX);
}

#[test]
fn withdraw_checks_balance() {
    let a = "alice".to_string();
    let mut ledger = Ledger::new();
    ledger.register(&a).unwrap();
    ledger.deposit(&a, 100).unwrap();
    assert_eq!(
        ledger.withdraw(&a, 101),
        Err(TokenError::InsufficientBalance)
    );
    assert_eq!(ledger.withdraw(&a, 60), Ok(()));
    assert_eq!(ledger.balance_of(&a), 40);
    assert_eq!(ledger.total_supply(), 40);
    assert_eq!(
        ledger.withdraw(&"nobody".to_string(), 0),
        Err(TokenError::NotRegistered)
    );
}

#[test]
fn unregister_requires_zero_balance_or_force() {
    let a = "alice".to_string();
    let mut ledger = Ledger::new();
    ledger.register(&a).unwrap();
    ledger.deposit(&a, 10).unwrap();
    assert_eq!(ledger.unregister(&a, false), Err(TokenError::NonZeroBalance));
    assert_eq!(ledger.unregister(&a, true), Ok(10));
    assert_eq!(ledger.total_supply(), 0);
    assert_eq!(ledger.unregister(&a, true), Err(TokenError::NotRegistered));
}

#[test]
fn storage_bounds_are_byte_cost_product() {
    let bounds = storage_balance_bounds(125, 3).unwrap();
    assert_eq!(bounds.min, 375);
    assert_eq!(bounds.max, 375);
    assert_eq!(
        storage_balance_bounds(u64::MAX, u128::MAX),
        Err(TokenError::Overflow)
    );
}

#[test]
fn storage_delta_settlement() {
    // Growth of 50 bytes at price 2 costs 100.
    assert_eq!(settle_storage_delta(100, 150, 2, 120), Ok(20));
    assert_eq!(
        settle_storage_delta(100, 150, 2, 99),
        Err(TokenError::InsufficientStorageDeposit)
    );
    // Shrinkage of 50 bytes at price 2 refunds 100 on top of the deposit.
    assert_eq!(settle_storage_delta(150, 100, 2, 7), Ok(107));
    // No change: the whole deposit comes back.
    assert_eq!(settle_storage_delta(100, 100, 2, 55), Ok(55));
    assert_eq!(
        settle_storage_delta(0, u64::MAX, u128::MAX, u128::MAX),
        Err(TokenError::InsufficientStorageDeposit)
    );
    assert_eq!(
        settle_storage_delta(u64::MAX, 0, u128::MAX, 0),
        Err(TokenError::Overflow)
    );
}

#[test]
fn storage_deposit_underpayment_fails() {
    let owner = "owner".to_string();
    let newcomer = "newcomer".to_string();
    let mut contract = Contract::new_default_meta(owner, 1_000);
    assert_eq!(
        contract.storage_deposit(&newcomer, 99, false, 100),
        Err(TokenError::InsufficientStorageDeposit)
    );
    assert_eq!(contract.storage_balance_of(&newcomer, 100), None);

    let outcome = contract.storage_deposit(&newcomer, 130, false, 100).unwrap();
    assert_eq!(outcome.refund, 30);
    assert_eq!(
        contract.storage_balance_of(&newcomer, 100),
        Some(StorageBalance { total: 100, available: 0 })
    );

    // Already registered: the whole deposit is refunded.
    let outcome = contract.storage_deposit(&newcomer, 42, false, 100).unwrap();
    assert_eq!(outcome.refund, 42);
}

#[test]
fn storage_withdraw_has_nothing_available() {
    let owner = "owner".to_string();
    let contract = Contract::new_default_meta(owner.clone(), 1_000);
    assert_eq!(
        contract.storage_withdraw(&owner, Some(1), 100),
        Err(TokenError::StorageUnavailable)
    );
    assert_eq!(
        contract.storage_withdraw(&owner, None, 100),
        Ok(StorageBalance { total: 100, available: 0 })
    );
    assert_eq!(
        contract.storage_withdraw(&owner, Some(0), 100),
        Ok(StorageBalance { total: 100, available: 0 })
    );
    assert_eq!(
        contract.storage_withdraw(&"nobody".to_string(), None, 100),
        Err(TokenError::NotRegistered)
    );
}

#[test]
fn initialize_only_once() {
    let mut slot: Option<Contract> = None;
    assert!(matches!(loaded(&slot), Err(TokenError::NotInitialized)));
    assert_eq!(
        initialize(&mut slot, "owner".to_string(), 9_000, plain_metadata()),
        Ok(())
    );
    let contract = loaded(&slot).unwrap();
    assert_eq!(contract.ft_total_supply(), 9_000);
    assert_eq!(
        initialize(&mut slot, "owner".to_string(), 9_000, plain_metadata()),
        Err(TokenError::AlreadyInitialized)
    );
}

#[test]
fn metadata_validity() {
    let good = plain_metadata();
    assert!(good.is_valid());

    let mut wrong_version = plain_metadata();
    wrong_version.spec_version = "ft-0.9.9".to_string();
    assert!(!wrong_version.is_valid());

    let mut dangling_reference = plain_metadata();
    dangling_reference.reference = Some("ipfs://example".to_string());
    assert!(!dangling_reference.is_valid());

    let mut short_hash = plain_metadata();
    short_hash.reference = Some("ipfs://example".to_string());
    short_hash.reference_hash = Some(vec![7; 31]);
    assert!(!short_hash.is_valid());

    let mut with_reference = plain_metadata();
    with_reference.reference = Some("ipfs://example".to_string());
    with_reference.reference_hash = Some(vec![7; 32]);
    assert!(with_reference.is_valid());

    let default_meta = Contract::new_default_meta("owner".to_string(), 1);
    let meta = default_meta.ft_metadata().as_ref().unwrap();
    assert!(meta.is_valid());
    assert_eq!(meta.symbol, "URA");
    assert_eq!(meta.name, "URA fungible token");
    assert_eq!(meta.decimals, 6);
    assert!(meta.icon.is_some());
}
