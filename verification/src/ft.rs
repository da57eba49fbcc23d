//! The orchestration core: registration guarantor, transfer dispatcher,
//! storage deposit and withdrawal, two-phase unregistration, and the relay
//! forwarder. Each operation checks its preconditions synchronously, mutates
//! the state, and hands back a [`PendingOp`] describing the remote work the
//! shell is to issue; continuation stages re-enter here when a remote call
//! has resolved.

use vstd::prelude::*;
use crate::errors::FtWrapperError;
use crate::events::FtWrapperEvent;
use crate::state::{FtWrapperContractState, config_unchanged, event_pushed, mirror_unchanged,
    same_state};
use crate::types::{AccountId, BridgeTransferArgs, Continuation, FtTransferArgs, PendingOp,
    RemoteCall, RequestChainSignatureArgs, StorageBalance, registration_chain};

verus! {

/// The stage the registration guarantor moves to when the account has no
/// record yet: ask the ledger for its allocation bounds, then enter the
/// allocation stage.
pub open spec fn allocation_stage(token: AccountId, account_id: AccountId) -> PendingOp {
    PendingOp::AndThen(
        Box::new(PendingOp::Remote(RemoteCall::StorageBalanceBounds { token })),
        Box::new(PendingOp::Callback(Continuation::HandleStorageDeposit { token, account_id })),
    )
}

/// The chain a deferred unregistration starts: ask the ledger for the
/// account's token balance, then enter the balance-check stage.
pub open spec fn balance_check_chain(token: AccountId, account_id: AccountId) -> PendingOp {
    PendingOp::AndThen(
        Box::new(PendingOp::Remote(RemoteCall::FtBalanceOf { token, account_id })),
        Box::new(PendingOp::Callback(Continuation::HandleBalanceCheck { token, account_id })),
    )
}

/// The composed transfer operation: guarantee both parties' registration —
/// a join barrier over two independent chains — and only then transfer.
pub open spec fn transfer_op(
    token: AccountId,
    sender_id: AccountId,
    receiver_id: AccountId,
    amount: u128,
    memo: Option<String>,
) -> PendingOp {
    PendingOp::AndThen(
        Box::new(
            PendingOp::Join(
                Box::new(registration_chain(token, sender_id)),
                Box::new(registration_chain(token, receiver_id)),
            ),
        ),
        Box::new(PendingOp::Remote(RemoteCall::FtTransfer { token, receiver_id, amount, memo })),
    )
}

/// The composed relay operation: guarantee the sender's registration, then
/// forward to the configured relayer.
pub open spec fn relay_op(
    token: AccountId,
    sender_id: AccountId,
    relayer: AccountId,
    attached: u128,
    gas: u64,
) -> PendingOp {
    PendingOp::AndThen(
        Box::new(registration_chain(token, sender_id)),
        Box::new(PendingOp::Remote(RemoteCall::RelayerForward { relayer, attached, gas })),
    )
}

/// A refund of the given amount, or nothing when there is nothing to refund.
pub open spec fn refund_op(receiver_id: AccountId, amount: u128) -> PendingOp {
    if amount > 0 {
        PendingOp::Remote(RemoteCall::NativeTransfer { receiver_id, amount })
    } else {
        PendingOp::NoOp
    }
}

/// What the registration stage decides from the mirror's current belief:
/// an account with a record needs nothing; one without moves to the
/// allocation stage.
pub open spec fn registration_stage_result(
    s: FtWrapperContractState,
    token: AccountId,
    account_id: AccountId,
) -> PendingOp {
    if s.storage_balances.spec_contains((token, account_id)) {
        PendingOp::NoOp
    } else {
        allocation_stage(token, account_id)
    }
}

/// The registration guarantor: for a supported ledger, starts the chain
/// that checks the account's registration and repairs it when absent.
pub fn ensure_registered(
    state: &FtWrapperContractState,
    token: AccountId,
    account_id: AccountId,
) -> (r: Result<PendingOp, FtWrapperError>)
    ensures
        r is Err <==> !state.spec_supports(token),
        r is Err ==> r->Err_0 == FtWrapperError::TokenNotSupported,
        r is Ok ==> r->Ok_0 == registration_chain(token, account_id),
{
    if !state.supported_tokens.contains(token) {
        return Err(FtWrapperError::TokenNotSupported);
    }
    Ok(
        PendingOp::AndThen(
            Box::new(PendingOp::Remote(RemoteCall::StorageBalanceOf { token, account_id })),
            Box::new(PendingOp::Callback(Continuation::HandleRegistration { token, account_id })),
        ),
    )
}

/// The registration stage: handles the existence-check response. An account
/// the mirror already has a record for needs nothing — the chain completes
/// as a no-op and in particular no allocation request is ever issued for it.
/// An absent one moves to the allocation stage.
pub fn handle_registration(
    state: &mut FtWrapperContractState,
    token: AccountId,
    account_id: AccountId,
) -> (r: PendingOp)
    requires
        old(state).wf(),
    ensures
        final(state).wf(),
        same_state(*old(state), *final(state)),
        r == registration_stage_result(*old(state), token, account_id),
{
    match state.storage_balances.get(token, account_id) {
        Some(_) => PendingOp::NoOp,
        None => PendingOp::AndThen(
            Box::new(PendingOp::Remote(RemoteCall::StorageBalanceBounds { token })),
            Box::new(PendingOp::Callback(Continuation::HandleStorageDeposit { token, account_id })),
        ),
    }
}

/// The allocation stage: issues the allocation request funded by the
/// configured default amount, records the belief `{total: amount,
/// available: 0}` in the mirror, and emits the deposit notification.
pub fn handle_storage_deposit(
    state: &mut FtWrapperContractState,
    token: AccountId,
    account_id: AccountId,
) -> (r: PendingOp)
    requires
        old(state).wf(),
    ensures
        final(state).wf(),
        r == PendingOp::Remote(
            RemoteCall::StorageDeposit {
                token,
                account_id,
                registration_only: true,
                attached: old(state).storage_deposit,
            },
        ),
        final(state).storage_balances.spec_get((token, account_id)) == Some(
            (StorageBalance { total: old(state).storage_deposit, available: 0 }),
        ),
        forall|k: (AccountId, AccountId)|
            k != (token, account_id) ==> final(state).storage_balances.spec_get(k) == old(
                state,
            ).storage_balances.spec_get(k),
        config_unchanged(*old(state), *final(state)),
        event_pushed(
            *old(state),
            *final(state),
            FtWrapperEvent::StorageDeposited {
                token,
                account_id,
                amount: old(state).storage_deposit,
            },
        ),
{
    let deposit_amount = state.storage_deposit;
    state.storage_balances.insert(
        token,
        account_id,
        StorageBalance { total: deposit_amount, available: 0 },
    );
    state.events.push(
        FtWrapperEvent::StorageDeposited { token, account_id, amount: deposit_amount },
    );
    PendingOp::Remote(
        RemoteCall::StorageDeposit {
            token,
            account_id,
            registration_only: true,
            attached: deposit_amount,
        },
    )
}

/// The account a deposit is for: the named one, or the caller.
pub open spec fn chosen_account(account_id: Option<AccountId>, caller: AccountId) -> AccountId {
    match account_id {
        Some(a) => a,
        None => caller,
    }
}

/// The registration-only flag, defaulted to false.
pub open spec fn chosen_registration_only(registration_only: Option<bool>) -> bool {
    match registration_only {
        Some(b) => b,
        None => false,
    }
}

/// How much a deposit funds: the configured default for a registration-only
/// request, else the larger of the attached payment and the default.
pub open spec fn deposit_amount_of(registration_only: bool, attached: u128, default: u128) -> u128 {
    if registration_only {
        default
    } else if attached >= default {
        attached
    } else {
        default
    }
}

/// What of the attached payment is returned to the caller: the part beyond
/// what the deposit funds.
pub open spec fn deposit_refund_of(registration_only: bool, attached: u128, default: u128) -> u128 {
    if attached > deposit_amount_of(registration_only, attached, default) {
        (attached - deposit_amount_of(registration_only, attached, default)) as u128
    } else {
        0
    }
}

/// The remote work a deposit issues: the allocation request, joined with a
/// refund of the excess when there is one.
pub open spec fn deposit_request_op(
    token: AccountId,
    account_id: AccountId,
    registration_only: bool,
    amount: u128,
    refund_to: AccountId,
    refund: u128,
) -> PendingOp {
    if refund > 0 {
        PendingOp::Join(
            Box::new(
                PendingOp::Remote(
                    RemoteCall::StorageDeposit {
                        token,
                        account_id,
                        registration_only,
                        attached: amount,
                    },
                ),
            ),
            Box::new(
                PendingOp::Remote(
                    RemoteCall::NativeTransfer { receiver_id: refund_to, amount: refund },
                ),
            ),
        )
    } else {
        PendingOp::Remote(
            RemoteCall::StorageDeposit { token, account_id, registration_only, attached: amount },
        )
    }
}

/// Everything a successful deposit does, relating the state before and
/// after: the optimistic record, the issued work, and the event.
pub open spec fn deposit_outcome_ok(
    pre: FtWrapperContractState,
    post: FtWrapperContractState,
    caller: AccountId,
    attached: u128,
    token: AccountId,
    account: AccountId,
    reg_only: bool,
    r: Result<(StorageBalance, PendingOp), FtWrapperError>,
) -> bool {
    let amt = deposit_amount_of(reg_only, attached, pre.storage_deposit);
    let refund = deposit_refund_of(reg_only, attached, pre.storage_deposit);
    &&& r == Ok::<(StorageBalance, PendingOp), FtWrapperError>(
        (
            StorageBalance { total: amt, available: 0 },
            deposit_request_op(token, account, reg_only, amt, caller, refund),
        ),
    )
    &&& post.storage_balances.spec_get((token, account)) == Some(
        StorageBalance { total: amt, available: 0 },
    )
    &&& forall|k: (AccountId, AccountId)|
        k != (token, account) ==> post.storage_balances.spec_get(k)
            == pre.storage_balances.spec_get(k)
    &&& config_unchanged(pre, post)
    &&& event_pushed(
        pre,
        post,
        FtWrapperEvent::StorageDeposited { token, account_id: account, amount: amt },
    )
}

/// How much a withdrawal takes out: the requested amount, or everything
/// available when none is named.
pub open spec fn requested_withdraw(amount: Option<u128>, available: u128) -> u128 {
    match amount {
        Some(a) => a,
        None => available,
    }
}

/// The transfer dispatcher. Checks everything synchronously — ledger
/// supported, nonzero amount, not paused — then composes "guarantee both
/// registrations, then transfer", and emits the transfer-intent event at
/// once: a notification of intent, not proof of settlement.
pub fn ft_transfer(
    state: &mut FtWrapperContractState,
    sender_id: AccountId,
    args: FtTransferArgs,
) -> (r: Result<PendingOp, FtWrapperError>)
    requires
        old(state).wf(),
    ensures
        final(state).wf(),
        old(state).paused ==> (r matches Err(e) && e == FtWrapperError::ContractPaused
            && same_state(*old(state), *final(state))),
        !old(state).paused && !old(state).spec_supports(args.token) ==> (r matches Err(e) && e
            == FtWrapperError::TokenNotSupported && same_state(*old(state), *final(state))),
        !old(state).paused && old(state).spec_supports(args.token) && args.amount == 0 ==> (
        r matches Err(e) && e == FtWrapperError::AmountTooLow && same_state(
            *old(state),
            *final(state),
        )),
        !old(state).paused && old(state).spec_supports(args.token) && args.amount > 0 ==> {
            &&& r == Ok::<PendingOp, FtWrapperError>(
                transfer_op(args.token, sender_id, args.receiver_id, args.amount, args.memo),
            )
            &&& config_unchanged(*old(state), *final(state))
            &&& mirror_unchanged(*old(state), *final(state))
            &&& event_pushed(
                *old(state),
                *final(state),
                FtWrapperEvent::FtTransfer {
                    token: args.token,
                    sender: sender_id,
                    receiver: args.receiver_id,
                    amount: args.amount,
                },
            )
        },
{
    if state.paused {
        return Err(FtWrapperError::ContractPaused);
    }
    if !state.supported_tokens.contains(args.token) {
        return Err(FtWrapperError::TokenNotSupported);
    }
    if args.amount == 0 {
        return Err(FtWrapperError::AmountTooLow);
    }

    let sender_promise = match ensure_registered(state, args.token, sender_id) {
        Ok(p) => p,
        Err(e) => {
            return Err(e);
        },
    };
    let receiver_promise = match ensure_registered(state, args.token, args.receiver_id) {
        Ok(p) => p,
        Err(e) => {
            return Err(e);
        },
    };
    let transfer_call = PendingOp::Remote(
        RemoteCall::FtTransfer {
            token: args.token,
            receiver_id: args.receiver_id,
            amount: args.amount,
            memo: args.memo,
        },
    );

    state.events.push(
        FtWrapperEvent::FtTransfer {
            token: args.token,
            sender: sender_id,
            receiver: args.receiver_id,
            amount: args.amount,
        },
    );

    Ok(
        PendingOp::AndThen(
            Box::new(PendingOp::Join(Box::new(sender_promise), Box::new(receiver_promise))),
            Box::new(transfer_call),
        ),
    )
}

/// Storage deposit. An existing record with nothing attached is an
/// idempotent read: it is returned unchanged and no remote call is issued.
/// Otherwise the allocation request is issued, any excess payment refunded,
/// and the optimistic record `{total: deposit amount, available: 0}` is
/// both returned at once — before the external ledger confirms — and
/// written to the mirror as the core's current belief.
pub fn storage_deposit(
    state: &mut FtWrapperContractState,
    caller: AccountId,
    attached_deposit: u128,
    token: AccountId,
    account_id: Option<AccountId>,
    registration_only: Option<bool>,
) -> (r: Result<(StorageBalance, PendingOp), FtWrapperError>)
    requires
        old(state).wf(),
    ensures
        final(state).wf(),
        r is Err <==> (old(state).paused || !old(state).spec_supports(token)),
        old(state).paused ==> (r matches Err(e) && e == FtWrapperError::ContractPaused
            && same_state(*old(state), *final(state))),
        !old(state).paused && !old(state).spec_supports(token) ==> (r matches Err(e) && e
            == FtWrapperError::TokenNotSupported && same_state(*old(state), *final(state))),
        !old(state).paused && old(state).spec_supports(token) && old(
            state,
        ).storage_balances.spec_get((token, chosen_account(account_id, caller))) is Some
            && attached_deposit == 0 ==> ({
            let b = old(state).storage_balances.spec_get(
                (token, chosen_account(account_id, caller)),
            )->Some_0;
            r == Ok::<(StorageBalance, PendingOp), FtWrapperError>((b, PendingOp::NoOp))
                && same_state(*old(state), *final(state))
        }),
        !old(state).paused && old(state).spec_supports(token) && !(old(
            state,
        ).storage_balances.spec_get((token, chosen_account(account_id, caller))) is Some
            && attached_deposit == 0) ==> deposit_outcome_ok(
            *old(state),
            *final(state),
            caller,
            attached_deposit,
            token,
            chosen_account(account_id, caller),
            chosen_registration_only(registration_only),
            r,
        ),
{
    if state.paused {
        return Err(FtWrapperError::ContractPaused);
    }
    if !state.supported_tokens.contains(token) {
        return Err(FtWrapperError::TokenNotSupported);
    }

    let account = match account_id {
        Some(a) => a,
        None => caller,
    };
    let reg_only = match registration_only {
        Some(b) => b,
        None => false,
    };

    match state.storage_balances.get(token, account) {
        Some(balance) => {
            if attached_deposit == 0 {
                return Ok((balance, PendingOp::NoOp));
            }
        },
        None => {},
    }

    let default_amount = state.storage_deposit;
    let deposit_amount = if reg_only {
        default_amount
    } else if attached_deposit >= default_amount {
        attached_deposit
    } else {
        default_amount
    };

    state.storage_balances.insert(
        token,
        account,
        StorageBalance { total: deposit_amount, available: 0 },
    );
    state.events.push(
        FtWrapperEvent::StorageDeposited { token, account_id: account, amount: deposit_amount },
    );

    let main_call = PendingOp::Remote(
        RemoteCall::StorageDeposit {
            token,
            account_id: account,
            registration_only: reg_only,
            attached: deposit_amount,
        },
    );
    let op = if attached_deposit > deposit_amount {
        let refund = attached_deposit - deposit_amount;
        PendingOp::Join(
            Box::new(main_call),
            Box::new(
                PendingOp::Remote(
                    RemoteCall::NativeTransfer { receiver_id: caller, amount: refund },
                ),
            ),
        )
    } else {
        main_call
    };

    Ok((StorageBalance { total: deposit_amount, available: 0 }, op))
}

/// Withdrawal: takes the requested amount (or everything available) out of
/// the caller's available allocation, leaves the total untouched, and
/// issues a direct refund when the amount is positive. Requires the exact
/// proof-of-intent payment.
pub fn storage_withdraw(
    state: &mut FtWrapperContractState,
    caller: AccountId,
    attached_deposit: u128,
    token: AccountId,
    amount: Option<u128>,
) -> (r: Result<(StorageBalance, PendingOp), FtWrapperError>)
    requires
        old(state).wf(),
    ensures
        final(state).wf(),
        old(state).paused ==> (r matches Err(e) && e == FtWrapperError::ContractPaused
            && same_state(*old(state), *final(state))),
        !old(state).paused && !old(state).spec_supports(token) ==> (r matches Err(e) && e
            == FtWrapperError::TokenNotSupported && same_state(*old(state), *final(state))),
        !old(state).paused && old(state).spec_supports(token) && attached_deposit != 1 ==> (
        r matches Err(e) && e == FtWrapperError::InvalidDeposit && same_state(
            *old(state),
            *final(state),
        )),
        !old(state).paused && old(state).spec_supports(token) && attached_deposit == 1 && old(
            state,
        ).storage_balances.spec_get((token, caller)) is None ==> (r matches Err(e) && e
            == FtWrapperError::AccountNotRegistered && same_state(*old(state), *final(state))),
        !old(state).paused && old(state).spec_supports(token) && attached_deposit == 1 && old(
            state,
        ).storage_balances.spec_get((token, caller)) is Some ==> ({
            let b = old(state).storage_balances.spec_get((token, caller))->Some_0;
            let w = requested_withdraw(amount, b.available);
            &&& w > b.available ==> (r matches Err(e) && e
                == FtWrapperError::InsufficientStorageBalance && same_state(
                *old(state),
                *final(state),
            ))
            &&& w <= b.available ==> ({
                let nb = StorageBalance { total: b.total, available: (b.available - w) as u128 };
                &&& r == Ok::<(StorageBalance, PendingOp), FtWrapperError>(
                    (nb, refund_op(caller, w)),
                )
                &&& final(state).storage_balances.spec_get((token, caller)) == Some(nb)
                &&& forall|k: (AccountId, AccountId)|
                    k != (token, caller) ==> final(state).storage_balances.spec_get(k) == old(
                        state,
                    ).storage_balances.spec_get(k)
                &&& config_unchanged(*old(state), *final(state))
                &&& event_pushed(
                    *old(state),
                    *final(state),
                    FtWrapperEvent::StorageWithdrawn { token, account_id: caller, amount: w },
                )
            })
        }),
{
    if state.paused {
        return Err(FtWrapperError::ContractPaused);
    }
    if !state.supported_tokens.contains(token) {
        return Err(FtWrapperError::TokenNotSupported);
    }
    if attached_deposit != 1 {
        return Err(FtWrapperError::InvalidDeposit);
    }

    let balance = match state.storage_balances.get(token, caller) {
        Some(b) => b,
        None => {
            return Err(FtWrapperError::AccountNotRegistered);
        },
    };
    proof {
        crate::mirror::lemma_get_balance_wf(state.storage_balances, (token, caller));
    }

    let available = balance.available;
    let withdraw_amount = match amount {
        Some(a) => a,
        None => available,
    };
    if withdraw_amount > available {
        return Err(FtWrapperError::InsufficientStorageBalance);
    }

    let new_balance = StorageBalance { total: balance.total, available: available - withdraw_amount };
    state.storage_balances.insert(token, caller, new_balance);

    let op = if withdraw_amount > 0 {
        PendingOp::Remote(
            RemoteCall::NativeTransfer { receiver_id: caller, amount: withdraw_amount },
        )
    } else {
        PendingOp::NoOp
    };

    state.events.push(
        FtWrapperEvent::StorageWithdrawn { token, account_id: caller, amount: withdraw_amount },
    );

    Ok((new_balance, op))
}

/// Unregistration. Without a record this is a no-op returning false. With
/// force it refunds the whole total, deletes the record and reports true
/// synchronously. Without force it only starts a remote balance check —
/// the record is left untouched and the synchronous false is not the true
/// outcome, which arrives at the balance-check stage.
pub fn storage_unregister(
    state: &mut FtWrapperContractState,
    caller: AccountId,
    attached_deposit: u128,
    token: AccountId,
    force: Option<bool>,
) -> (r: Result<(bool, PendingOp), FtWrapperError>)
    requires
        old(state).wf(),
    ensures
        final(state).wf(),
        old(state).paused ==> (r matches Err(e) && e == FtWrapperError::ContractPaused
            && same_state(*old(state), *final(state))),
        !old(state).paused && !old(state).spec_supports(token) ==> (r matches Err(e) && e
            == FtWrapperError::TokenNotSupported && same_state(*old(state), *final(state))),
        !old(state).paused && old(state).spec_supports(token) && attached_deposit != 1 ==> (
        r matches Err(e) && e == FtWrapperError::InvalidDeposit && same_state(
            *old(state),
            *final(state),
        )),
        !old(state).paused && old(state).spec_supports(token) && attached_deposit == 1 && old(
            state,
        ).storage_balances.spec_get((token, caller)) is None ==> (r == Ok::<
            (bool, PendingOp),
            FtWrapperError,
        >((false, PendingOp::NoOp)) && same_state(*old(state), *final(state))),
        !old(state).paused && old(state).spec_supports(token) && attached_deposit == 1 && old(
            state,
        ).storage_balances.spec_get((token, caller)) is Some && force == Some(true) ==> {
            let b = old(state).storage_balances.spec_get((token, caller))->Some_0;
            &&& r == Ok::<(bool, PendingOp), FtWrapperError>((true, refund_op(caller, b.total)))
            &&& final(state).storage_balances.spec_get((token, caller)) is None
            &&& forall|k: (AccountId, AccountId)|
                k != (token, caller) ==> final(state).storage_balances.spec_get(k) == old(
                    state,
                ).storage_balances.spec_get(k)
            &&& config_unchanged(*old(state), *final(state))
            &&& event_pushed(
                *old(state),
                *final(state),
                FtWrapperEvent::StorageUnregistered { token, account_id: caller },
            )
        },
        !old(state).paused && old(state).spec_supports(token) && attached_deposit == 1 && old(
            state,
        ).storage_balances.spec_get((token, caller)) is Some && force != Some(true) ==> (r == Ok::<
            (bool, PendingOp),
            FtWrapperError,
        >((false, balance_check_chain(token, caller))) && same_state(*old(state), *final(state))),
{
    if state.paused {
        return Err(FtWrapperError::ContractPaused);
    }
    if !state.supported_tokens.contains(token) {
        return Err(FtWrapperError::TokenNotSupported);
    }
    if attached_deposit != 1 {
        return Err(FtWrapperError::InvalidDeposit);
    }

    let balance = match state.storage_balances.get(token, caller) {
        Some(b) => b,
        None => {
            return Ok((false, PendingOp::NoOp));
        },
    };
    let force_flag = match force {
        Some(b) => b,
        None => false,
    };

    if !force_flag {
        // safety first: never delete a registration while external funds may
        // remain — confirm the remote balance is zero and defer to the
        // balance-check stage
        return Ok(
            (
                false,
                PendingOp::AndThen(
                    Box::new(
                        PendingOp::Remote(RemoteCall::FtBalanceOf { token, account_id: caller }),
                    ),
                    Box::new(
                        PendingOp::Callback(
                            Continuation::HandleBalanceCheck { token, account_id: caller },
                        ),
                    ),
                ),
            ),
        );
    }

    let op = if balance.total > 0 {
        PendingOp::Remote(RemoteCall::NativeTransfer { receiver_id: caller, amount: balance.total })
    } else {
        PendingOp::NoOp
    };
    state.storage_balances.remove(token, caller);
    state.events.push(FtWrapperEvent::StorageUnregistered { token, account_id: caller });
    Ok((true, op))
}

/// The balance-check stage of a deferred unregistration. A nonzero remote
/// balance aborts with no mutation — the record is never deleted while
/// external funds remain. A zero balance completes the unregistration:
/// the record is deleted and exactly its total refunded.
pub fn handle_balance_check(
    state: &mut FtWrapperContractState,
    token: AccountId,
    account_id: AccountId,
    balance: u128,
) -> (r: (bool, PendingOp))
    requires
        old(state).wf(),
    ensures
        final(state).wf(),
        balance != 0 ==> (r == (false, PendingOp::NoOp) && same_state(*old(state), *final(state))),
        balance == 0 && old(state).storage_balances.spec_get((token, account_id)) is None ==> (r
            == (false, PendingOp::NoOp) && same_state(*old(state), *final(state))),
        balance == 0 && old(state).storage_balances.spec_get((token, account_id)) is Some ==> {
            let b = old(state).storage_balances.spec_get((token, account_id))->Some_0;
            &&& r == (true, refund_op(account_id, b.total))
            &&& final(state).storage_balances.spec_get((token, account_id)) is None
            &&& forall|k: (AccountId, AccountId)|
                k != (token, account_id) ==> final(state).storage_balances.spec_get(k) == old(
                    state,
                ).storage_balances.spec_get(k)
            &&& config_unchanged(*old(state), *final(state))
            &&& event_pushed(
                *old(state),
                *final(state),
                FtWrapperEvent::StorageUnregistered { token, account_id },
            )
        },
{
    if balance != 0 {
        return (false, PendingOp::NoOp);
    }

    match state.storage_balances.get(token, account_id) {
        Some(b) => {
            let op = if b.total > 0 {
                PendingOp::Remote(
                    RemoteCall::NativeTransfer { receiver_id: account_id, amount: b.total },
                )
            } else {
                PendingOp::NoOp
            };
            state.storage_balances.remove(token, account_id);
            state.events.push(FtWrapperEvent::StorageUnregistered { token, account_id });
            (true, op)
        },
        None => (false, PendingOp::NoOp),
    }
}

/// The relay forwarder for chain-signature requests: guarantee the sender's
/// registration only, then forward to the configured relayer with no
/// attached payment.
pub fn request_chain_signature(
    state: &mut FtWrapperContractState,
    sender_id: AccountId,
    args: RequestChainSignatureArgs,
) -> (r: Result<PendingOp, FtWrapperError>)
    requires
        old(state).wf(),
    ensures
        final(state).wf(),
        same_state(*old(state), *final(state)),
        old(state).paused ==> (r matches Err(e) && e == FtWrapperError::ContractPaused),
        !old(state).paused && !old(state).spec_supports(args.token) ==> (r matches Err(e) && e
            == FtWrapperError::TokenNotSupported),
        !old(state).paused && old(state).spec_supports(args.token) ==> r == Ok::<
            PendingOp,
            FtWrapperError,
        >(
            relay_op(
                args.token,
                sender_id,
                old(state).relayer_contract,
                0,
                old(state).cross_contract_gas,
            ),
        ),
{
    if state.paused {
        return Err(FtWrapperError::ContractPaused);
    }
    let chain = match ensure_registered(state, args.token, sender_id) {
        Ok(p) => p,
        Err(e) => {
            return Err(e);
        },
    };
    Ok(
        PendingOp::AndThen(
            Box::new(chain),
            Box::new(
                PendingOp::Remote(
                    RemoteCall::RelayerForward {
                        relayer: state.relayer_contract,
                        attached: 0,
                        gas: state.cross_contract_gas,
                    },
                ),
            ),
        ),
    )
}

/// The relay forwarder for bridge transfers: as for chain signatures, but
/// the amount must be nonzero and the attached payment is carried along.
pub fn bridge_transfer(
    state: &mut FtWrapperContractState,
    sender_id: AccountId,
    attached_deposit: u128,
    args: BridgeTransferArgs,
) -> (r: Result<PendingOp, FtWrapperError>)
    requires
        old(state).wf(),
    ensures
        final(state).wf(),
        same_state(*old(state), *final(state)),
        old(state).paused ==> (r matches Err(e) && e == FtWrapperError::ContractPaused),
        !old(state).paused && !old(state).spec_supports(args.token) ==> (r matches Err(e) && e
            == FtWrapperError::TokenNotSupported),
        !old(state).paused && old(state).spec_supports(args.token) && args.amount == 0 ==> (
        r matches Err(e) && e == FtWrapperError::AmountTooLow),
        !old(state).paused && old(state).spec_supports(args.token) && args.amount > 0 ==> r == Ok::<
            PendingOp,
            FtWrapperError,
        >(
            relay_op(
                args.token,
                sender_id,
                old(state).relayer_contract,
                attached_deposit,
                old(state).cross_contract_gas,
            ),
        ),
{
    if state.paused {
        return Err(FtWrapperError::ContractPaused);
    }
    if !state.supported_tokens.contains(args.token) {
        return Err(FtWrapperError::TokenNotSupported);
    }
    if args.amount == 0 {
        return Err(FtWrapperError::AmountTooLow);
    }
    let chain = match ensure_registered(state, args.token, sender_id) {
        Ok(p) => p,
        Err(e) => {
            return Err(e);
        },
    };
    Ok(
        PendingOp::AndThen(
            Box::new(chain),
            Box::new(
                PendingOp::Remote(
                    RemoteCall::RelayerForward {
                        relayer: state.relayer_contract,
                        attached: attached_deposit,
                        gas: state.cross_contract_gas,
                    },
                ),
            ),
        ),
    )
}

/// The remote query for an account's token balance on a supported ledger.
pub fn ft_balance_of(
    state: &FtWrapperContractState,
    token: AccountId,
    account_id: AccountId,
) -> (r: PendingOp)
    requires
        state.spec_supports(token),
    ensures
        r == PendingOp::Remote(RemoteCall::FtBalanceOf { token, account_id }),
{
    PendingOp::Remote(RemoteCall::FtBalanceOf { token, account_id })
}

/// The remote query for an account's storage allocation on a supported
/// ledger.
pub fn storage_balance_of(
    state: &FtWrapperContractState,
    token: AccountId,
    account_id: AccountId,
) -> (r: PendingOp)
    requires
        state.spec_supports(token),
    ensures
        r == PendingOp::Remote(RemoteCall::StorageBalanceOf { token, account_id }),
{
    PendingOp::Remote(RemoteCall::StorageBalanceOf { token, account_id })
}

/// The remote query for a supported ledger's allocation bounds.
pub fn storage_balance_bounds(state: &FtWrapperContractState, token: AccountId) -> (r: PendingOp)
    requires
        state.spec_supports(token),
    ensures
        r == PendingOp::Remote(RemoteCall::StorageBalanceBounds { token }),
{
    PendingOp::Remote(RemoteCall::StorageBalanceBounds { token })
}

} // verus!
