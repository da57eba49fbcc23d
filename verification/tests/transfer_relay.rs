//! The transfer dispatcher, the registration guarantor, and the relay
//! forwarder.

use ft_wrapper::errors::FtWrapperError;
use ft_wrapper::events::FtWrapperEvent;
use ft_wrapper::ft::{ensure_registered, ft_balance_of, ft_transfer, handle_registration,
    handle_storage_deposit, bridge_transfer, request_chain_signature, storage_balance_bounds,
    storage_balance_of};
use ft_wrapper::state::FtWrapperContractState;
use ft_wrapper::types::{AccountId, BridgeTransferArgs, Continuation, FtTransferArgs, PendingOp,
    RemoteCall, RequestChainSignatureArgs};

const TOKEN: AccountId = AccountId(7);
const ADMIN: AccountId = AccountId(1);
const SENDER: AccountId = AccountId(2);
const RECEIVER: AccountId = AccountId(3);
const RELAYER: AccountId = AccountId(99);
const DEFAULT_DEPOSIT: u128 = 5_000;

fn fresh_state() -> FtWrapperContractState {
    let mut s = FtWrapperContractState::new(vec![ADMIN], RELAYER, DEFAULT_DEPOSIT);
    ft_wrapper::admin::add_supported_token(&mut s, ADMIN, TOKEN).unwrap();
    s
}

fn registration_chain_of(token: AccountId, account_id: AccountId) -> PendingOp {
    PendingOp::AndThen(
        Box::new(PendingOp::Remote(RemoteCall::StorageBalanceOf { token, account_id })),
        Box::new(PendingOp::Callback(Continuation::HandleRegistration { token, account_id })),
    )
}

#[test]
fn transfer_guarantees_both_parties_then_transfers() {
    let mut s = fresh_state();
    let args = FtTransferArgs {
        token: TOKEN,
        receiver_id: RECEIVER,
        amount: 100,
        memo: Some("memo".to_string()),
    };
    let op = ft_transfer(&mut s, SENDER, args).unwrap();
    assert_eq!(
        op,
        PendingOp::AndThen(
            Box::new(PendingOp::Join(
                Box::new(registration_chain_of(TOKEN, SENDER)),
                Box::new(registration_chain_of(TOKEN, RECEIVER)),
            )),
            Box::new(PendingOp::Remote(RemoteCall::FtTransfer {
                token: TOKEN,
                receiver_id: RECEIVER,
                amount: 100,
                memo: Some("memo".to_string()),
            })),
        )
    );
    // the transfer-intent event is emitted immediately
    assert_eq!(
        s.events.last().unwrap(),
        &FtWrapperEvent::FtTransfer { token: TOKEN, sender: SENDER, receiver: RECEIVER, amount: 100 }
    );
}

#[test]
fn transfer_of_zero_fails() {
    let mut s = fresh_state();
    let args = FtTransferArgs { token: TOKEN, receiver_id: RECEIVER, amount: 0, memo: None };
    assert_eq!(ft_transfer(&mut s, SENDER, args).unwrap_err(), FtWrapperError::AmountTooLow);
}

#[test]
fn transfer_on_unsupported_token_fails() {
    let mut s = fresh_state();
    let args = FtTransferArgs { token: AccountId(1234), receiver_id: RECEIVER, amount: 5, memo: None };
    assert_eq!(ft_transfer(&mut s, SENDER, args).unwrap_err(), FtWrapperError::TokenNotSupported);
}

#[test]
fn guarantor_starts_with_the_existence_check() {
    let s = fresh_state();
    let op = ensure_registered(&s, TOKEN, SENDER).unwrap();
    assert_eq!(op, registration_chain_of(TOKEN, SENDER));
}

#[test]
fn guarantor_refuses_unsupported_ledger() {
    let s = fresh_state();
    assert_eq!(
        ensure_registered(&s, AccountId(1234), SENDER).unwrap_err(),
        FtWrapperError::TokenNotSupported
    );
}

#[test]
fn registration_stage_moves_to_allocation_when_absent() {
    let mut s = fresh_state();
    let op = handle_registration(&mut s, TOKEN, SENDER);
    assert_eq!(
        op,
        PendingOp::AndThen(
            Box::new(PendingOp::Remote(RemoteCall::StorageBalanceBounds { token: TOKEN })),
            Box::new(PendingOp::Callback(Continuation::HandleStorageDeposit {
                token: TOKEN,
                account_id: SENDER,
            })),
        )
    );
}

#[test]
fn allocation_stage_issues_funds_and_records_belief() {
    let mut s = fresh_state();
    let op = handle_storage_deposit(&mut s, TOKEN, SENDER);
    assert_eq!(
        op,
        PendingOp::Remote(RemoteCall::StorageDeposit {
            token: TOKEN,
            account_id: SENDER,
            registration_only: true,
            attached: DEFAULT_DEPOSIT,
        })
    );
    let b = s.storage_balances.get(TOKEN, SENDER).unwrap();
    assert_eq!((b.total, b.available), (DEFAULT_DEPOSIT, 0));
    assert_eq!(
        s.events.last().unwrap(),
        &FtWrapperEvent::StorageDeposited { token: TOKEN, account_id: SENDER, amount: DEFAULT_DEPOSIT }
    );
}

#[test]
fn second_registration_of_a_registered_account_issues_nothing() {
    let mut s = fresh_state();
    // first pass registers the account
    ensure_registered(&s, TOKEN, SENDER).unwrap();
    handle_registration(&mut s, TOKEN, SENDER);
    handle_storage_deposit(&mut s, TOKEN, SENDER);
    // both later passes complete as no-ops at the registration stage
    ensure_registered(&s, TOKEN, SENDER).unwrap();
    assert_eq!(handle_registration(&mut s, TOKEN, SENDER), PendingOp::NoOp);
    ensure_registered(&s, TOKEN, SENDER).unwrap();
    assert_eq!(handle_registration(&mut s, TOKEN, SENDER), PendingOp::NoOp);
}

#[test]
fn chain_signature_request_registers_sender_then_forwards() {
    let mut s = fresh_state();
    let op = request_chain_signature(&mut s, SENDER, RequestChainSignatureArgs { token: TOKEN })
        .unwrap();
    assert_eq!(
        op,
        PendingOp::AndThen(
            Box::new(registration_chain_of(TOKEN, SENDER)),
            Box::new(PendingOp::Remote(RemoteCall::RelayerForward {
                relayer: RELAYER,
                attached: 0,
                gas: ft_wrapper::state::DEFAULT_CROSS_CONTRACT_GAS,
            })),
        )
    );
}

#[test]
fn bridge_transfer_carries_the_attached_payment() {
    let mut s = fresh_state();
    let op = bridge_transfer(&mut s, SENDER, 42, BridgeTransferArgs { token: TOKEN, amount: 9 })
        .unwrap();
    assert_eq!(
        op,
        PendingOp::AndThen(
            Box::new(registration_chain_of(TOKEN, SENDER)),
            Box::new(PendingOp::Remote(RemoteCall::RelayerForward {
                relayer: RELAYER,
                attached: 42,
                gas: ft_wrapper::state::DEFAULT_CROSS_CONTRACT_GAS,
            })),
        )
    );
}

#[test]
fn bridge_transfer_of_zero_fails() {
    let mut s = fresh_state();
    assert_eq!(
        bridge_transfer(&mut s, SENDER, 42, BridgeTransferArgs { token: TOKEN, amount: 0 })
            .unwrap_err(),
        FtWrapperError::AmountTooLow
    );
}

#[test]
fn queries_address_the_named_ledger() {
    let s = fresh_state();
    assert_eq!(
        ft_balance_of(&s, TOKEN, SENDER),
        PendingOp::Remote(RemoteCall::FtBalanceOf { token: TOKEN, account_id: SENDER })
    );
    assert_eq!(
        storage_balance_of(&s, TOKEN, SENDER),
        PendingOp::Remote(RemoteCall::StorageBalanceOf { token: TOKEN, account_id: SENDER })
    );
    assert_eq!(
        storage_balance_bounds(&s, TOKEN),
        PendingOp::Remote(RemoteCall::StorageBalanceBounds { token: TOKEN })
    );
}
