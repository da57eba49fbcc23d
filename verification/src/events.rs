//! The observability surface: an append-only stream of events. The core
//! appends them to the state's event log; the shell hands the log to
//! whatever sink it serves, fire-and-forget.

use vstd::prelude::*;
use crate::types::AccountId;

verus! {

/// One entry of the event stream.
#[derive(Clone, Copy, PartialEq, Eq, Structural, Debug)]
pub enum FtWrapperEvent {
    /// A ledger was added to the allow-list.
    TokenAdded { token: AccountId },
    /// A ledger was removed from the allow-list.
    TokenRemoved { token: AccountId },
    /// A transfer was dispatched. This is a notification of intent, emitted
    /// before the transfer's own result is known.
    FtTransfer { token: AccountId, sender: AccountId, receiver: AccountId, amount: u128 },
    /// An allocation request was issued for the account.
    StorageDeposited { token: AccountId, account_id: AccountId, amount: u128 },
    /// Part of an account's available allocation was withdrawn.
    StorageWithdrawn { token: AccountId, account_id: AccountId, amount: u128 },
    /// The account's record was deleted and its total refunded.
    StorageUnregistered { token: AccountId, account_id: AccountId },
    /// The per-call resource budget was changed.
    GasUpdated { gas_tgas: u64 },
    /// The orchestrator's native balance fell below its floor.
    LowBalance { balance: u128 },
    /// The default allocation amount was changed.
    StorageDepositUpdated { storage_deposit: u128 },
}

} // verus!
