//! Tests of the contract surface: initialization, transfers and queries.

use ura_token::contract::Contract;
use ura_token::errors::TokenError;
use ura_token::events::Event;

const TOTAL_SUPPLY: u128 = 1_000_000_000_000_000;

/// A representative registration cost: entry bytes times price per byte.
fn min_storage_cost() -> u128 {
    ura_token::storage::storage_balance_bounds(125, 10_000_000_000_000_000_000)
        .unwrap()
        .min
}

#[test]
fn test_new() {
    let owner = "bob".to_string();
    let contract = Contract::new_default_meta(owner.clone(), TOTAL_SUPPLY);
    assert_eq!(contract.ft_total_supply(), TOTAL_SUPPLY);
    assert_eq!(contract.ft_balance_of(&owner), TOTAL_SUPPLY);
}

#[test]
fn test_transfer() {
    let owner = "charlie".to_string();
    let other = "bob".to_string();
    let mut contract = Contract::new_default_meta(owner.clone(), TOTAL_SUPPLY);

    // Paying for account registration, aka storage deposit
    let min = min_storage_cost();
    let outcome = contract.storage_deposit(&other, min, false, min).unwrap();
    assert_eq!(outcome.refund, 0);

    let transfer_amount = TOTAL_SUPPLY / 3;
    contract
        .ft_transfer(&owner, &other, transfer_amount, None)
        .unwrap();

    assert_eq!(contract.ft_balance_of(&owner), TOTAL_SUPPLY - transfer_amount);
    assert_eq!(contract.ft_balance_of(&other), transfer_amount);
}

#[test]
fn initial_balances() {
    let owner = "owner".to_string();
    let contract = Contract::new_default_meta(owner.clone(), TOTAL_SUPPLY);
    assert_eq!(contract.ft_balance_of(&owner), TOTAL_SUPPLY);
    assert_eq!(contract.ft_balance_of(&"anyone-else".to_string()), 0);
}

fn sum_of_balances(contract: &Contract) -> u128 {
    let mut sum: u128 = 0;
    for entry in &contract.token.accounts {
        sum += entry.1;
    }
    sum
}

#[test]
fn supply_conserved_across_operations() {
    let owner = "owner".to_string();
    let a = "alice".to_string();
    let b = "bob".to_string();
    let min = min_storage_cost();
    let mut contract = Contract::new_default_meta(owner.clone(), TOTAL_SUPPLY);
    assert_eq!(sum_of_balances(&contract), contract.ft_total_supply());

    contract.storage_deposit(&a, min, false, min).unwrap();
    assert_eq!(sum_of_balances(&contract), contract.ft_total_supply());

    contract.storage_deposit(&b, min + 7, false, min).unwrap();
    assert_eq!(sum_of_balances(&contract), contract.ft_total_supply());

    contract.ft_transfer(&owner, &a, 1_000, None).unwrap();
    assert_eq!(sum_of_balances(&contract), contract.ft_total_supply());

    contract.ft_transfer(&a, &b, 400, None).unwrap();
    assert_eq!(sum_of_balances(&contract), contract.ft_total_supply());

    contract.storage_unregister(&b, true, min).unwrap();
    assert_eq!(sum_of_balances(&contract), contract.ft_total_supply());
}

#[test]
fn transfer_round_trip_restores_balances() {
    let owner = "owner".to_string();
    let friend = "friend".to_string();
    let min = min_storage_cost();
    let mut contract = Contract::new_default_meta(owner.clone(), TOTAL_SUPPLY);
    contract.storage_deposit(&friend, min, false, min).unwrap();
    contract.ft_transfer(&owner, &friend, 5_000, None).unwrap();

    let owner_before = contract.ft_balance_of(&owner);
    let friend_before = contract.ft_balance_of(&friend);

    contract.ft_transfer(&owner, &friend, 2_345, None).unwrap();
    contract.ft_transfer(&friend, &owner, 2_345, None).unwrap();

    assert_eq!(contract.ft_balance_of(&owner), owner_before);
    assert_eq!(contract.ft_balance_of(&friend), friend_before);
}

#[test]
fn repeated_queries_agree() {
    let owner = "owner".to_string();
    let contract = Contract::new_default_meta(owner.clone(), TOTAL_SUPPLY);
    let b1 = contract.ft_balance_of(&owner);
    let b2 = contract.ft_balance_of(&owner);
    let t1 = contract.ft_total_supply();
    let t2 = contract.ft_total_supply();
    assert_eq!(b1, b2);
    assert_eq!(t1, t2);
}

#[test]
fn transfer_boundary_errors() {
    let owner = "owner".to_string();
    let friend = "friend".to_string();
    let min = min_storage_cost();
    let mut contract = Contract::new_default_meta(owner.clone(), TOTAL_SUPPLY);
    contract.storage_deposit(&friend, min, false, min).unwrap();

    assert_eq!(
        contract.ft_transfer(&owner, &friend, 0, None),
        Err(TokenError::ZeroAmount)
    );
    assert_eq!(
        contract.ft_transfer(&owner, &owner, 10, None),
        Err(TokenError::SelfTransfer)
    );
    let owner_before = contract.ft_balance_of(&owner);
    let friend_before = contract.ft_balance_of(&friend);
    assert_eq!(
        contract.ft_transfer(&friend, &owner, 1, None),
        Err(TokenError::InsufficientBalance)
    );
    assert_eq!(contract.ft_balance_of(&owner), owner_before);
    assert_eq!(contract.ft_balance_of(&friend), friend_before);

    assert_eq!(
        contract.ft_transfer(&owner, &"stranger".to_string(), 10, None),
        Err(TokenError::ReceiverNotRegistered)
    );
    assert_eq!(
        contract.ft_transfer(&"stranger".to_string(), &owner, 10, None),
        Err(TokenError::NotRegistered)
    );
}

#[test]
fn transfer_call_full_rejection_restores_sender() {
    let owner = "owner".to_string();
    let receiver = "receiver".to_string();
    let min = min_storage_cost();
    let mut contract = Contract::new_default_meta(owner.clone(), TOTAL_SUPPLY);
    contract.storage_deposit(&receiver, min, false, min).unwrap();
    contract.ft_transfer(&owner, &receiver, 10_000, None).unwrap();

    let sender_before = contract.ft_balance_of(&owner);
    let receiver_before = contract.ft_balance_of(&receiver);

    let amount: u128 = 7_000;
    let pending = contract
        .ft_transfer_call(&owner, &receiver, amount, None)
        .unwrap();
    assert_eq!(pending.amount, amount);

    // The receiver rejects everything: unused_amount == amount.
    let (used, burned) = contract.ft_resolve_transfer(
        &pending.sender_id,
        &pending.receiver_id,
        pending.amount,
        Ok(amount),
    );
    assert_eq!(used, 0);
    assert_eq!(burned, 0);
    assert_eq!(contract.ft_balance_of(&owner), sender_before);
    assert_eq!(contract.ft_balance_of(&receiver), receiver_before);
}

#[test]
fn transfer_call_partial_use_and_failed_call() {
    let owner = "owner".to_string();
    let receiver = "receiver".to_string();
    let min = min_storage_cost();
    let mut contract = Contract::new_default_meta(owner.clone(), TOTAL_SUPPLY);
    contract.storage_deposit(&receiver, min, false, min).unwrap();

    // Receiver keeps 600 of 1000.
    contract.ft_transfer_call(&owner, &receiver, 1_000, None).unwrap();
    let (used, burned) = contract.ft_resolve_transfer(&owner, &receiver, 1_000, Ok(400));
    assert_eq!(used, 600);
    assert_eq!(burned, 0);
    assert_eq!(contract.ft_balance_of(&receiver), 600);

    // A failed receiver call refunds everything the receiver still holds.
    contract.ft_transfer_call(&owner, &receiver, 500, None).unwrap();
    let (used, burned) = contract.ft_resolve_transfer(
        &owner,
        &receiver,
        500,
        Err(TokenError::ReceiverCallFailed),
    );
    assert_eq!(used, 0);
    assert_eq!(burned, 0);
    assert_eq!(contract.ft_balance_of(&receiver), 600);
    assert_eq!(contract.ft_balance_of(&owner), TOTAL_SUPPLY - 600);
}

#[test]
fn resolve_burns_refund_when_sender_unregistered() {
    let owner = "owner".to_string();
    let sender = "sender".to_string();
    let receiver = "receiver".to_string();
    let min = min_storage_cost();
    let mut contract = Contract::new_default_meta(owner.clone(), TOTAL_SUPPLY);
    contract.storage_deposit(&sender, min, false, min).unwrap();
    contract.storage_deposit(&receiver, min, false, min).unwrap();
    contract.ft_transfer(&owner, &sender, 1_000, None).unwrap();

    contract.ft_transfer_call(&sender, &receiver, 1_000, None).unwrap();
    // The sender unregisters while the call is in flight.
    contract.storage_unregister(&sender, false, min).unwrap();

    let supply_before = contract.ft_total_supply();
    let (used, burned) = contract.ft_resolve_transfer(&sender, &receiver, 1_000, Ok(1_000));
    assert_eq!(used, 1_000);
    assert_eq!(burned, 1_000);
    assert_eq!(contract.ft_total_supply(), supply_before - 1_000);
    assert!(matches!(
        contract.events.last(),
        Some(Event::Burn { amount: 1_000, .. })
    ));
}

#[test]
fn forced_unregister_burns_balance() {
    let owner = "owner".to_string();
    let holder = "holder".to_string();
    let min = min_storage_cost();
    let mut contract = Contract::new_default_meta(owner.clone(), TOTAL_SUPPLY);
    contract.storage_deposit(&holder, min, false, min).unwrap();
    contract.ft_transfer(&owner, &holder, 12_345, None).unwrap();

    assert_eq!(
        contract.storage_unregister(&holder, false, min),
        Err(TokenError::NonZeroBalance)
    );

    let refund = contract.storage_unregister(&holder, true, min).unwrap();
    assert_eq!(refund, min);
    assert_eq!(contract.ft_total_supply(), TOTAL_SUPPLY - 12_345);
    assert_eq!(contract.ft_balance_of(&holder), 0);
    match contract.events.last() {
        Some(Event::Burn { owner_id, amount, memo }) => {
            assert_eq!(owner_id, &holder);
            assert_eq!(*amount, 12_345);
            assert_eq!(*memo, None);
        }
        other => panic!("expected a burn event, got {:?}", other),
    }
}

#[test]
fn events_follow_committed_mutations() {
    let owner = "owner".to_string();
    let friend = "friend".to_string();
    let min = min_storage_cost();
    let mut contract = Contract::new_default_meta(owner.clone(), TOTAL_SUPPLY);
    assert!(matches!(
        contract.events.as_slice(),
        [Event::Mint { amount: TOTAL_SUPPLY, .. }]
    ));

    contract.storage_deposit(&friend, min, false, min).unwrap();
    let events_before = contract.events.len();

    // A rejected transfer records nothing.
    let _ = contract.ft_transfer(&owner, &friend, 0, None);
    assert_eq!(contract.events.len(), events_before);

    contract
        .ft_transfer(&owner, &friend, 77, Some("hello".to_string()))
        .unwrap();
    assert_eq!(contract.events.len(), events_before + 1);
    match contract.events.last() {
        Some(Event::Transfer { sender_id, receiver_id, amount, memo }) => {
            assert_eq!(sender_id, &owner);
            assert_eq!(receiver_id, &friend);
            assert_eq!(*amount, 77);
            assert_eq!(memo.as_deref(), Some("hello"));
        }
        other => panic!("expected a transfer event, got {:?}", other),
    }
}
