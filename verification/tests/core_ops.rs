//! Deposit, withdrawal and unregistration against the storage mirror.

use ft_wrapper::errors::FtWrapperError;
use ft_wrapper::ft::{handle_balance_check, storage_deposit, storage_unregister, storage_withdraw};
use ft_wrapper::state::FtWrapperContractState;
use ft_wrapper::types::{AccountId, Continuation, PendingOp, RemoteCall, StorageBalance};

const TOKEN: AccountId = AccountId(7);
const ADMIN: AccountId = AccountId(1);
const USER: AccountId = AccountId(2);
const RELAYER: AccountId = AccountId(99);
const DEFAULT_DEPOSIT: u128 = 5_000;

fn fresh_state() -> FtWrapperContractState {
    let mut s = FtWrapperContractState::new(vec![ADMIN], RELAYER, DEFAULT_DEPOSIT);
    ft_wrapper::admin::add_supported_token(&mut s, ADMIN, TOKEN).unwrap();
    s
}

#[test]
fn deposit_then_query_returns_deposited_total() {
    let mut s = fresh_state();
    let (balance, _op) = storage_deposit(&mut s, USER, 0, TOKEN, None, None).unwrap();
    assert_eq!(balance.total, DEFAULT_DEPOSIT);
    assert_eq!(balance.available, 0);
    // the balance query answers from the mirror at once
    let mirrored = s.storage_balances.get(TOKEN, USER).unwrap();
    assert_eq!(mirrored.total, DEFAULT_DEPOSIT);
    assert_eq!(mirrored.available, 0);
}

#[test]
fn deposit_attaching_more_than_default_records_attached_amount() {
    let mut s = fresh_state();
    let (balance, op) = storage_deposit(&mut s, USER, 8_000, TOKEN, None, None).unwrap();
    assert_eq!(balance.total, 8_000);
    // no excess: the attached payment itself funds the allocation
    assert_eq!(
        op,
        PendingOp::Remote(RemoteCall::StorageDeposit {
            token: TOKEN,
            account_id: USER,
            registration_only: false,
            attached: 8_000,
        })
    );
    assert_eq!(s.storage_balances.get(TOKEN, USER).unwrap().total, 8_000);
}

#[test]
fn registration_only_deposit_refunds_excess() {
    let mut s = fresh_state();
    let (balance, op) = storage_deposit(&mut s, USER, 8_000, TOKEN, None, Some(true)).unwrap();
    assert_eq!(balance.total, DEFAULT_DEPOSIT);
    assert_eq!(
        op,
        PendingOp::Join(
            Box::new(PendingOp::Remote(RemoteCall::StorageDeposit {
                token: TOKEN,
                account_id: USER,
                registration_only: true,
                attached: DEFAULT_DEPOSIT,
            })),
            Box::new(PendingOp::Remote(RemoteCall::NativeTransfer {
                receiver_id: USER,
                amount: 3_000,
            })),
        )
    );
}

#[test]
fn deposit_for_registered_account_with_nothing_attached_is_a_read() {
    let mut s = fresh_state();
    storage_deposit(&mut s, USER, 0, TOKEN, None, None).unwrap();
    let events_before = s.events.len();
    let (balance, op) = storage_deposit(&mut s, USER, 0, TOKEN, None, Some(true)).unwrap();
    assert_eq!(balance.total, DEFAULT_DEPOSIT);
    assert_eq!(balance.available, 0);
    assert_eq!(op, PendingOp::NoOp);
    assert_eq!(s.events.len(), events_before);
}

#[test]
fn deposit_for_named_account_uses_that_account() {
    let mut s = fresh_state();
    let other = AccountId(55);
    storage_deposit(&mut s, USER, 0, TOKEN, Some(other), None).unwrap();
    assert!(s.storage_balances.get(TOKEN, other).is_some());
    assert!(s.storage_balances.get(TOKEN, USER).is_none());
}

#[test]
fn deposit_on_unsupported_token_fails() {
    let mut s = fresh_state();
    let err = storage_deposit(&mut s, USER, 0, AccountId(1234), None, None).unwrap_err();
    assert_eq!(err, FtWrapperError::TokenNotSupported);
}

#[test]
fn deposit_with_huge_attached_amount_overflows_nowhere() {
    let mut s = fresh_state();
    let (balance, _op) = storage_deposit(&mut s, USER, u128::MAX, TOKEN, None, None).unwrap();
    assert_eq!(balance.total, u128::MAX);
}

fn state_with_record(total: u128, available: u128) -> FtWrapperContractState {
    let mut s = fresh_state();
    s.storage_balances.insert(TOKEN, USER, StorageBalance { total, available });
    s
}

#[test]
fn withdraw_more_than_available_fails_without_effect() {
    let mut s = state_with_record(100, 30);
    let events_before = s.events.len();
    let err = storage_withdraw(&mut s, USER, 1, TOKEN, Some(50)).unwrap_err();
    assert_eq!(err, FtWrapperError::InsufficientStorageBalance);
    let b = s.storage_balances.get(TOKEN, USER).unwrap();
    assert_eq!((b.total, b.available), (100, 30));
    // no event, no refund was issued
    assert_eq!(s.events.len(), events_before);
}

#[test]
fn withdraw_takes_from_available_and_refunds() {
    let mut s = state_with_record(100, 30);
    let (balance, op) = storage_withdraw(&mut s, USER, 1, TOKEN, Some(20)).unwrap();
    assert_eq!(balance.total, 100);
    assert_eq!(balance.available, 10);
    assert_eq!(
        op,
        PendingOp::Remote(RemoteCall::NativeTransfer { receiver_id: USER, amount: 20 })
    );
    let b = s.storage_balances.get(TOKEN, USER).unwrap();
    assert_eq!((b.total, b.available), (100, 10));
}

#[test]
fn withdraw_without_amount_takes_everything_available() {
    let mut s = state_with_record(100, 30);
    let (balance, op) = storage_withdraw(&mut s, USER, 1, TOKEN, None).unwrap();
    assert_eq!(balance.available, 0);
    assert_eq!(balance.total, 100);
    assert_eq!(
        op,
        PendingOp::Remote(RemoteCall::NativeTransfer { receiver_id: USER, amount: 30 })
    );
}

#[test]
fn withdraw_of_zero_issues_no_refund() {
    let mut s = state_with_record(100, 0);
    let (_balance, op) = storage_withdraw(&mut s, USER, 1, TOKEN, None).unwrap();
    assert_eq!(op, PendingOp::NoOp);
}

#[test]
fn withdraw_needs_the_exact_proof_of_intent_payment() {
    let mut s = state_with_record(100, 30);
    assert_eq!(
        storage_withdraw(&mut s, USER, 0, TOKEN, None).unwrap_err(),
        FtWrapperError::InvalidDeposit
    );
    assert_eq!(
        storage_withdraw(&mut s, USER, 2, TOKEN, None).unwrap_err(),
        FtWrapperError::InvalidDeposit
    );
}

#[test]
fn withdraw_without_record_fails() {
    let mut s = fresh_state();
    assert_eq!(
        storage_withdraw(&mut s, USER, 1, TOKEN, None).unwrap_err(),
        FtWrapperError::AccountNotRegistered
    );
}

#[test]
fn unregister_without_record_is_a_no_op() {
    let mut s = fresh_state();
    let (done, op) = storage_unregister(&mut s, USER, 1, TOKEN, None).unwrap();
    assert!(!done);
    assert_eq!(op, PendingOp::NoOp);
}

#[test]
fn forced_unregister_refunds_the_whole_total() {
    let mut s = state_with_record(100, 30);
    let (done, op) = storage_unregister(&mut s, USER, 1, TOKEN, Some(true)).unwrap();
    assert!(done);
    assert_eq!(
        op,
        PendingOp::Remote(RemoteCall::NativeTransfer { receiver_id: USER, amount: 100 })
    );
    assert!(s.storage_balances.get(TOKEN, USER).is_none());
}

#[test]
fn deferred_unregister_only_starts_the_balance_check() {
    let mut s = state_with_record(100, 30);
    let (done, op) = storage_unregister(&mut s, USER, 1, TOKEN, Some(false)).unwrap();
    assert!(!done);
    assert_eq!(
        op,
        PendingOp::AndThen(
            Box::new(PendingOp::Remote(RemoteCall::FtBalanceOf {
                token: TOKEN,
                account_id: USER,
            })),
            Box::new(PendingOp::Callback(Continuation::HandleBalanceCheck {
                token: TOKEN,
                account_id: USER,
            })),
        )
    );
    // the record is untouched until the check comes back
    assert!(s.storage_balances.get(TOKEN, USER).is_some());
}

#[test]
fn nonzero_remote_balance_never_deletes_the_record() {
    let mut s = state_with_record(100, 30);
    storage_unregister(&mut s, USER, 1, TOKEN, Some(false)).unwrap();
    let (done, op) = handle_balance_check(&mut s, TOKEN, USER, 17);
    assert!(!done);
    assert_eq!(op, PendingOp::NoOp);
    let b = s.storage_balances.get(TOKEN, USER).unwrap();
    assert_eq!((b.total, b.available), (100, 30));
}

#[test]
fn zero_remote_balance_completes_unregistration_with_exact_refund() {
    let mut s = state_with_record(100, 30);
    storage_unregister(&mut s, USER, 1, TOKEN, Some(false)).unwrap();
    let (done, op) = handle_balance_check(&mut s, TOKEN, USER, 0);
    assert!(done);
    assert_eq!(
        op,
        PendingOp::Remote(RemoteCall::NativeTransfer { receiver_id: USER, amount: 100 })
    );
    assert!(s.storage_balances.get(TOKEN, USER).is_none());
}

#[test]
fn balance_check_for_vanished_record_signals_no_op() {
    let mut s = fresh_state();
    let (done, op) = handle_balance_check(&mut s, TOKEN, USER, 0);
    assert!(!done);
    assert_eq!(op, PendingOp::NoOp);
}

#[test]
fn available_stays_within_total_after_every_operation() {
    let mut s = fresh_state();
    let check = |s: &FtWrapperContractState| {
        for e in s.storage_balances.entries.iter() {
            assert!(e.balance.available <= e.balance.total);
        }
    };
    storage_deposit(&mut s, USER, 0, TOKEN, None, None).unwrap();
    check(&s);
    s.storage_balances.insert(TOKEN, USER, StorageBalance { total: 100, available: 100 });
    check(&s);
    storage_withdraw(&mut s, USER, 1, TOKEN, Some(60)).unwrap();
    check(&s);
    storage_deposit(&mut s, USER, 7_000, TOKEN, None, None).unwrap();
    check(&s);
    storage_unregister(&mut s, USER, 1, TOKEN, Some(true)).unwrap();
    check(&s);
}
