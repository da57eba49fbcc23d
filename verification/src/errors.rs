//! The error taxonomy. Every precondition failure is detected synchronously,
//! before any remote call, and reported through one of these variants.

use vstd::prelude::*;

verus! {

/// Why an operation was refused. All of these are raised before any remote
/// call is issued and before any state is mutated.
#[derive(Clone, Copy, PartialEq, Eq, Structural, Debug)]
pub enum FtWrapperError {
    /// The ledger is not on the admin-controlled allow-list.
    TokenNotSupported,
    /// A transfer of zero was requested.
    AmountTooLow,
    /// The pause flag is set; all mutation is gated off.
    ContractPaused,
    /// The attached proof-of-intent payment is not the required one.
    InvalidDeposit,
    /// The account has no record in the storage mirror.
    AccountNotRegistered,
    /// More was requested than the record's available amount.
    InsufficientStorageBalance,
    /// A deferred unregistration found a nonzero remote token balance.
    NonZeroBalance,
    /// The caller is not in the admin set.
    Unauthorized,
    /// The orchestrator's own native balance is below its floor.
    LowBalance,
}

impl FtWrapperError {
    /// The human-readable description of each variant.
    pub open spec fn spec_message(self) -> Seq<char> {
        match self {
            FtWrapperError::TokenNotSupported => "Token not supported"@,
            FtWrapperError::AmountTooLow => "Amount too low"@,
            FtWrapperError::ContractPaused => "Contract is paused"@,
            FtWrapperError::InvalidDeposit => "Invalid deposit amount"@,
            FtWrapperError::AccountNotRegistered => "Account not registered"@,
            FtWrapperError::InsufficientStorageBalance => "Insufficient storage balance"@,
            FtWrapperError::NonZeroBalance => "Non-zero token balance"@,
            FtWrapperError::Unauthorized => "Unauthorized access"@,
            FtWrapperError::LowBalance => "Account balance too low"@,
        }
    }

    /// The message an entry point aborts with when the error reaches its rim.
    pub fn message(&self) -> (r: &'static str)
        ensures
            r@ == self.spec_message(),
    {
        match self {
            FtWrapperError::TokenNotSupported => "Token not supported",
            FtWrapperError::AmountTooLow => "Amount too low",
            FtWrapperError::ContractPaused => "Contract is paused",
            FtWrapperError::InvalidDeposit => "Invalid deposit amount",
            FtWrapperError::AccountNotRegistered => "Account not registered",
            FtWrapperError::InsufficientStorageBalance => "Insufficient storage balance",
            FtWrapperError::NonZeroBalance => "Non-zero token balance",
            FtWrapperError::Unauthorized => "Unauthorized access",
            FtWrapperError::LowBalance => "Account balance too low",
        }
    }
}

} // verus!
