//! The admin surface: allow-list maintenance and the resource-budget setter.
//! Every mutation is gated on membership in the admin set and fails with
//! `Unauthorized`, with no effect, for anyone else.

use vstd::prelude::*;
use crate::errors::FtWrapperError;
use crate::events::FtWrapperEvent;
use crate::state::{FtWrapperContractState, event_pushed, mirror_unchanged, same_state};
use crate::types::AccountId;

verus! {

/// Puts a ledger on the allow-list. Only admins may; the event is emitted
/// even when the ledger was already listed.
pub fn add_supported_token(
    state: &mut FtWrapperContractState,
    caller: AccountId,
    token: AccountId,
) -> (r: Result<(), FtWrapperError>)
    requires
        old(state).wf(),
    ensures
        final(state).wf(),
        r is Err <==> !old(state).spec_is_admin(caller),
        r is Err ==> r->Err_0 == FtWrapperError::Unauthorized && same_state(
            *old(state),
            *final(state),
        ),
        r is Ok ==> {
            &&& forall|t: AccountId|
                final(state).spec_supports(t) <==> (old(state).spec_supports(t) || t == token)
            &&& final(state).admins.members@ == old(state).admins.members@
            &&& final(state).relayer_contract == old(state).relayer_contract
            &&& final(state).storage_deposit == old(state).storage_deposit
            &&& final(state).paused == old(state).paused
            &&& final(state).cross_contract_gas == old(state).cross_contract_gas
            &&& final(state).min_balance == old(state).min_balance
            &&& final(state).max_balance == old(state).max_balance
            &&& mirror_unchanged(*old(state), *final(state))
            &&& event_pushed(
                *old(state),
                *final(state),
                FtWrapperEvent::TokenAdded { token },
            )
        },
{
    if !state.is_admin(&caller) {
        return Err(FtWrapperError::Unauthorized);
    }
    state.supported_tokens.insert(token);
    state.events.push(FtWrapperEvent::TokenAdded { token });
    Ok(())
}

/// Takes a ledger off the allow-list. Only admins may; a ledger that was
/// not listed is reported as `TokenNotSupported`, with no effect.
pub fn remove_supported_token(
    state: &mut FtWrapperContractState,
    caller: AccountId,
    token: AccountId,
) -> (r: Result<(), FtWrapperError>)
    requires
        old(state).wf(),
    ensures
        final(state).wf(),
        !old(state).spec_is_admin(caller) ==> (r matches Err(e) && e
            == FtWrapperError::Unauthorized && same_state(*old(state), *final(state))),
        old(state).spec_is_admin(caller) && !old(state).spec_supports(token) ==> (r matches Err(e)
            && e == FtWrapperError::TokenNotSupported && same_state(*old(state), *final(state))),
        old(state).spec_is_admin(caller) && old(state).spec_supports(token) ==> {
            &&& r is Ok
            &&& forall|t: AccountId|
                final(state).spec_supports(t) <==> (old(state).spec_supports(t) && t != token)
            &&& final(state).admins.members@ == old(state).admins.members@
            &&& final(state).relayer_contract == old(state).relayer_contract
            &&& final(state).storage_deposit == old(state).storage_deposit
            &&& final(state).paused == old(state).paused
            &&& final(state).cross_contract_gas == old(state).cross_contract_gas
            &&& final(state).min_balance == old(state).min_balance
            &&& final(state).max_balance == old(state).max_balance
            &&& mirror_unchanged(*old(state), *final(state))
            &&& event_pushed(
                *old(state),
                *final(state),
                FtWrapperEvent::TokenRemoved { token },
            )
        },
{
    if !state.is_admin(&caller) {
        return Err(FtWrapperError::Unauthorized);
    }
    if state.supported_tokens.remove(token) {
        state.events.push(FtWrapperEvent::TokenRemoved { token });
        Ok(())
    } else {
        Err(FtWrapperError::TokenNotSupported)
    }
}

/// Sets the per-call resource budget, given in whole teragas. Only admins
/// may. The product must fit the machine word the budget is held in.
pub fn set_cross_contract_gas(
    state: &mut FtWrapperContractState,
    caller: AccountId,
    gas_tgas: u64,
) -> (r: Result<(), FtWrapperError>)
    requires
        old(state).wf(),
        gas_tgas * 1_000_000_000_000 <= u64::MAX,
    ensures
        final(state).wf(),
        r is Err <==> !old(state).spec_is_admin(caller),
        r is Err ==> r->Err_0 == FtWrapperError::Unauthorized && same_state(
            *old(state),
            *final(state),
        ),
        r is Ok ==> {
            &&& final(state).cross_contract_gas == gas_tgas * 1_000_000_000_000
            &&& final(state).admins.members@ == old(state).admins.members@
            &&& final(state).relayer_contract == old(state).relayer_contract
            &&& final(state).supported_tokens.members@ == old(state).supported_tokens.members@
            &&& final(state).storage_deposit == old(state).storage_deposit
            &&& final(state).paused == old(state).paused
            &&& final(state).min_balance == old(state).min_balance
            &&& final(state).max_balance == old(state).max_balance
            &&& mirror_unchanged(*old(state), *final(state))
            &&& event_pushed(
                *old(state),
                *final(state),
                FtWrapperEvent::GasUpdated { gas_tgas },
            )
        },
{
    if !state.is_admin(&caller) {
        return Err(FtWrapperError::Unauthorized);
    }
    state.cross_contract_gas = gas_tgas * 1_000_000_000_000;
    state.events.push(FtWrapperEvent::GasUpdated { gas_tgas });
    Ok(())
}

} // verus!
