//! Plain data the orchestration core works on: account identifiers, storage
//! allocations, request arguments, and the explicit representation of pending
//! asynchronous work.

use vstd::prelude::*;

verus! {

/// Opaque identifier of a participant account or of an external ledger
/// (which is itself addressed by an account). The core only ever compares
/// identifiers, so they are carried as plain numbers; the shell around the
/// library maps real account names to them.
#[derive(Clone, Copy, PartialEq, Eq, Structural, Debug, Hash)]
pub struct AccountId(pub u64);

/// Prepaid storage allocation an account holds with an external ledger:
/// `available` can be withdrawn, `total` is refunded on unregistration.
#[derive(Clone, Copy, PartialEq, Eq, Structural, Debug)]
pub struct StorageBalance {
    pub total: u128,
    pub available: u128,
}

impl StorageBalance {
    /// The allocation invariant: nothing more than the total can be available.
    pub open spec fn wf(self) -> bool {
        self.available <= self.total
    }
}

/// Arguments of a value transfer between two accounts on one ledger.
#[derive(Debug)]
pub struct FtTransferArgs {
    pub token: AccountId,
    pub receiver_id: AccountId,
    pub amount: u128,
    pub memo: Option<String>,
}

/// Arguments of a chain-signature request forwarded to the relayer.
#[derive(Clone, Copy, Debug)]
pub struct RequestChainSignatureArgs {
    pub token: AccountId,
}

/// Arguments of a bridge transfer forwarded to the relayer.
#[derive(Clone, Copy, Debug)]
pub struct BridgeTransferArgs {
    pub token: AccountId,
    pub amount: u128,
}

/// One remote call the core asks the shell to issue.
#[derive(PartialEq, Debug)]
pub enum RemoteCall {
    /// Existence check: ask a ledger for an account's storage allocation.
    StorageBalanceOf { token: AccountId, account_id: AccountId },
    /// Ask a ledger for its minimum and maximum storage allocation.
    StorageBalanceBounds { token: AccountId },
    /// Allocation request: prepay `attached` of storage for an account.
    StorageDeposit {
        token: AccountId,
        account_id: AccountId,
        registration_only: bool,
        attached: u128,
    },
    /// The value transfer itself.
    FtTransfer {
        token: AccountId,
        receiver_id: AccountId,
        amount: u128,
        memo: Option<String>,
    },
    /// Ask a ledger for an account's token balance.
    FtBalanceOf { token: AccountId, account_id: AccountId },
    /// Direct payment of the native token, used for refunds.
    NativeTransfer { receiver_id: AccountId, amount: u128 },
    /// Forward a request to the configured downstream relayer, carrying an
    /// attached payment and a resource budget.
    RelayerForward { relayer: AccountId, attached: u128, gas: u64 },
}

/// A continuation stage: the core re-enters here once the remote call ahead
/// of it has resolved.
#[derive(Clone, Copy, PartialEq, Eq, Structural, Debug)]
pub enum Continuation {
    /// Handles the existence-check response of the registration guarantor.
    HandleRegistration { token: AccountId, account_id: AccountId },
    /// Issues the allocation request and records it in the mirror.
    HandleStorageDeposit { token: AccountId, account_id: AccountId },
    /// Handles the balance-check response of a deferred unregistration.
    HandleBalanceCheck { token: AccountId, account_id: AccountId },
}

/// Pending asynchronous work, as an explicit combinator tree: remote calls
/// and continuation stages composed by sequencing and by a join barrier.
/// The shell schedules it; the core only ever builds and inspects it.
#[derive(PartialEq, Debug)]
pub enum PendingOp {
    /// Nothing left to do.
    NoOp,
    /// Issue one remote call.
    Remote(RemoteCall),
    /// Re-enter the core at a continuation stage.
    Callback(Continuation),
    /// Run the first part, and once it has fully resolved, the second.
    AndThen(Box<PendingOp>, Box<PendingOp>),
    /// Run both parts independently; the join resolves only when both have,
    /// whichever order they finish in.
    Join(Box<PendingOp>, Box<PendingOp>),
}

impl PendingOp {
    /// Whether the given remote call occurs anywhere in this tree.
    pub open spec fn issues(self, call: RemoteCall) -> bool
        decreases self,
    {
        match self {
            PendingOp::NoOp => false,
            PendingOp::Remote(c) => c == call,
            PendingOp::Callback(_) => false,
            PendingOp::AndThen(a, b) => a.issues(call) || b.issues(call),
            PendingOp::Join(a, b) => a.issues(call) || b.issues(call),
        }
    }

    /// Whether an allocation request (a storage deposit call) occurs
    /// anywhere in this tree.
    pub open spec fn issues_allocation(self) -> bool
        decreases self,
    {
        match self {
            PendingOp::NoOp => false,
            PendingOp::Remote(c) => c is StorageDeposit,
            PendingOp::Callback(_) => false,
            PendingOp::AndThen(a, b) => a.issues_allocation() || b.issues_allocation(),
            PendingOp::Join(a, b) => a.issues_allocation() || b.issues_allocation(),
        }
    }

    /// Whether any remote call at all occurs in this tree.
    pub open spec fn issues_any_remote(self) -> bool
        decreases self,
    {
        match self {
            PendingOp::NoOp => false,
            PendingOp::Remote(_) => true,
            PendingOp::Callback(_) => false,
            PendingOp::AndThen(a, b) => a.issues_any_remote() || b.issues_any_remote(),
            PendingOp::Join(a, b) => a.issues_any_remote() || b.issues_any_remote(),
        }
    }
}

/// The chain the registration guarantor starts: an existence check on the
/// ledger, whose response the registration stage handles.
pub open spec fn registration_chain(token: AccountId, account_id: AccountId) -> PendingOp {
    PendingOp::AndThen(
        Box::new(PendingOp::Remote(RemoteCall::StorageBalanceOf { token, account_id })),
        Box::new(PendingOp::Callback(Continuation::HandleRegistration { token, account_id })),
    )
}

} // verus!
