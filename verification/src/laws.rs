//! Laws the library states of itself, proved from the same spec functions
//! its operations' contracts use.

use vstd::prelude::*;
use crate::errors::FtWrapperError;
use crate::ft::{deposit_amount_of, deposit_outcome_ok, registration_stage_result};
use crate::mirror::lemma_get_balance_wf;
use crate::state::FtWrapperContractState;
use crate::types::{AccountId, PendingOp, StorageBalance, registration_chain};

verus! {

/// Law: in a well-formed state, every record the mirror answers with keeps
/// its available amount within `[0, total]`. Every operation preserves
/// well-formedness, so this holds after every operation.
pub proof fn lemma_available_within_total(s: FtWrapperContractState, key: (AccountId, AccountId))
    requires
        s.wf(),
        s.storage_balances.spec_get(key) is Some,
    ensures
        s.storage_balances.spec_get(key)->Some_0.available <= s.storage_balances.spec_get(
            key,
        )->Some_0.total,
{
    lemma_get_balance_wf(s.storage_balances, key);
}

/// Law: the registration guarantor issues no allocation request for an
/// already-registered account. The chain it starts holds only the existence
/// check, and the stage handling the response returns the no-op for a
/// registered account; since that stage leaves the state unchanged, an
/// immediate second invocation for the same account decides the same way.
pub proof fn lemma_registered_account_gets_no_allocation(
    s: FtWrapperContractState,
    token: AccountId,
    account_id: AccountId,
)
    requires
        s.storage_balances.spec_contains((token, account_id)),
    ensures
        !registration_chain(token, account_id).issues_allocation(),
        registration_stage_result(s, token, account_id) == PendingOp::NoOp,
        !registration_stage_result(s, token, account_id).issues_allocation(),
{
    reveal_with_fuel(PendingOp::issues_allocation, 3);
}

/// Law: a deposit followed immediately by a balance query answers with
/// `total` equal to the deposited amount. In any state a successful deposit
/// leaves behind, the mirror — which is exactly what the balance query
/// reads — resolves the account to the optimistic record the deposit
/// returned.
pub proof fn lemma_deposit_then_query(
    pre: FtWrapperContractState,
    post: FtWrapperContractState,
    caller: AccountId,
    attached: u128,
    token: AccountId,
    account: AccountId,
    reg_only: bool,
    r: Result<(StorageBalance, PendingOp), FtWrapperError>,
)
    requires
        deposit_outcome_ok(pre, post, caller, attached, token, account, reg_only, r),
    ensures
        post.storage_balances.spec_get((token, account)) == Some(
            (StorageBalance {
                total: deposit_amount_of(reg_only, attached, pre.storage_deposit),
                available: 0,
            }),
        ),
        r->Ok_0.0.total == deposit_amount_of(reg_only, attached, pre.storage_deposit),
{
}

} // verus!
