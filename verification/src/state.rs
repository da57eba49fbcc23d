//! The orchestrator's owned state: admin set, allow-list, configuration
//! scalars, the storage mirror, and the append-only event log. Every
//! operation receives it by exclusive mutable reference; there are no
//! ambient globals.

use vstd::prelude::*;
use crate::account_set::AccountSet;
use crate::errors::FtWrapperError;
use crate::events::FtWrapperEvent;
use crate::mirror::Mirror;
use crate::types::AccountId;

verus! {

/// The per-call resource budget a fresh state starts with.
pub const DEFAULT_CROSS_CONTRACT_GAS: u64 = 100_000_000_000_000;

/// The native-balance floor a fresh state starts with.
pub const DEFAULT_MIN_BALANCE: u128 = 10_000_000_000_000_000_000_000_000;

/// The native-balance ceiling a fresh state starts with.
pub const DEFAULT_MAX_BALANCE: u128 = 1_000_000_000_000_000_000_000_000_000;

/// The whole mutable state of the orchestration core.
#[derive(Debug)]
pub struct FtWrapperContractState {
    /// Accounts allowed to mutate the configuration.
    pub admins: AccountSet,
    /// The one downstream relayer requests are forwarded to.
    pub relayer_contract: AccountId,
    /// The allow-list of external ledgers.
    pub supported_tokens: AccountSet,
    /// The default storage-allocation amount funded per registration.
    pub storage_deposit: u128,
    /// When set, every mutating operation is refused.
    pub paused: bool,
    /// The resource budget attached to each remote call.
    pub cross_contract_gas: u64,
    /// The local mirror of storage-allocation records.
    pub storage_balances: Mirror,
    /// The orchestrator's native-balance floor.
    pub min_balance: u128,
    /// The orchestrator's native-balance ceiling.
    pub max_balance: u128,
    /// The append-only event stream produced so far.
    pub events: Vec<FtWrapperEvent>,
}

impl FtWrapperContractState {
    /// Well-formedness: both sets are duplicate-free and every mirror record
    /// keeps its available amount within its total.
    pub open spec fn wf(self) -> bool {
        &&& self.admins.wf()
        &&& self.supported_tokens.wf()
        &&& self.storage_balances.wf()
    }

    /// Whether the account may mutate the configuration.
    pub open spec fn spec_is_admin(self, a: AccountId) -> bool {
        self.admins.spec_contains(a)
    }

    /// Whether the ledger is on the allow-list.
    pub open spec fn spec_supports(self, token: AccountId) -> bool {
        self.supported_tokens.spec_contains(token)
    }

    /// A fresh state: the given admins, no supported ledger, not paused,
    /// empty mirror, empty event stream, default budgets.
    pub fn new(admins: Vec<AccountId>, relayer_contract: AccountId, storage_deposit: u128) -> (r:
        Self)
        ensures
            r.wf(),
            forall|a: AccountId| r.spec_is_admin(a) <==> admins@.contains(a),
            r.relayer_contract == relayer_contract,
            forall|t: AccountId| !r.spec_supports(t),
            r.storage_deposit == storage_deposit,
            !r.paused,
            r.cross_contract_gas == DEFAULT_CROSS_CONTRACT_GAS,
            r.storage_balances.entries@.len() == 0,
            forall|k: (AccountId, AccountId)| r.storage_balances.spec_get(k) is None,
            r.min_balance == DEFAULT_MIN_BALANCE,
            r.max_balance == DEFAULT_MAX_BALANCE,
            r.events@.len() == 0,
    {
        let mut admin_set = AccountSet::new();
        let n = admins.len();
        let mut i: usize = 0;
        while i < n
            invariant
                i <= n,
                n == admins@.len(),
                admin_set.wf(),
                forall|a: AccountId|
                    admin_set.spec_contains(a) <==> admins@.subrange(0, i as int).contains(a),
            decreases n - i,
        {
            let ghost pre = admin_set;
            admin_set.insert(admins[i]);
            proof {
                let part = admins@.subrange(0, i as int);
                let part1 = admins@.subrange(0, i as int + 1);
                assert(part1 =~= part.push(admins@[i as int]));
                assert forall|a: AccountId| admin_set.spec_contains(a) <==> part1.contains(a) by {
                    if part1.contains(a) {
                        let j = choose|j: int| 0 <= j < part1.len() && part1[j] == a;
                        if j < part.len() {
                            assert(part[j] == a);
                            assert(part.contains(a));
                        }
                    }
                    if part.contains(a) {
                        let j = choose|j: int| 0 <= j < part.len() && part[j] == a;
                        assert(part1[j] == a);
                        assert(part1.contains(a));
                    }
                    if a == admins@[i as int] {
                        assert(part1[part.len() as int] == a);
                        assert(part1.contains(a));
                    }
                }
            }
            i = i + 1;
        }
        proof {
            assert(admins@.subrange(0, n as int) =~= admins@);
        }
        FtWrapperContractState {
            admins: admin_set,
            relayer_contract,
            supported_tokens: AccountSet::new(),
            storage_deposit,
            paused: false,
            cross_contract_gas: DEFAULT_CROSS_CONTRACT_GAS,
            storage_balances: Mirror::new(),
            min_balance: DEFAULT_MIN_BALANCE,
            max_balance: DEFAULT_MAX_BALANCE,
            events: Vec::new(),
        }
    }

    /// Whether the account is in the admin set.
    pub fn is_admin(&self, account_id: &AccountId) -> (r: bool)
        ensures
            r == self.spec_is_admin(*account_id),
    {
        self.admins.contains(*account_id)
    }

    /// The pause guard: refuses with `ContractPaused` while the flag is set.
    pub fn assert_not_paused(&self) -> (r: Result<(), FtWrapperError>)
        ensures
            r is Err <==> self.paused,
            r is Err ==> r->Err_0 == FtWrapperError::ContractPaused,
    {
        if self.paused {
            Err(FtWrapperError::ContractPaused)
        } else {
            Ok(())
        }
    }

    /// The native-balance guard: refuses with `LowBalance` when the given
    /// balance is below the configured floor.
    pub fn assert_balance(&self, balance: u128) -> (r: Result<(), FtWrapperError>)
        ensures
            r is Err <==> balance < self.min_balance,
            r is Err ==> r->Err_0 == FtWrapperError::LowBalance,
    {
        if balance < self.min_balance {
            Err(FtWrapperError::LowBalance)
        } else {
            Ok(())
        }
    }

    /// The allow-list, as a list of ledger accounts.
    pub fn get_supported_tokens(&self) -> (r: Vec<AccountId>)
        ensures
            r@ == self.supported_tokens.members@,
    {
        self.supported_tokens.to_vec()
    }
}

/// That two states have the same configuration: the admin set, allow-list
/// and every scalar agree; only the mirror and the event stream may differ.
pub open spec fn config_unchanged(pre: FtWrapperContractState, post: FtWrapperContractState) -> bool {
    &&& post.admins.members@ == pre.admins.members@
    &&& post.relayer_contract == pre.relayer_contract
    &&& post.supported_tokens.members@ == pre.supported_tokens.members@
    &&& post.storage_deposit == pre.storage_deposit
    &&& post.paused == pre.paused
    &&& post.cross_contract_gas == pre.cross_contract_gas
    &&& post.min_balance == pre.min_balance
    &&& post.max_balance == pre.max_balance
}

/// That the mirror holds exactly the records it held before.
pub open spec fn mirror_unchanged(pre: FtWrapperContractState, post: FtWrapperContractState) -> bool {
    post.storage_balances.entries@ == pre.storage_balances.entries@
}

/// That exactly one event was appended to the stream; nothing already
/// emitted is ever altered.
pub open spec fn event_pushed(
    pre: FtWrapperContractState,
    post: FtWrapperContractState,
    ev: FtWrapperEvent,
) -> bool {
    post.events@ == pre.events@.push(ev)
}

/// That nothing observable changed: configuration, mirror and event stream
/// all hold what they held before.
pub open spec fn same_state(pre: FtWrapperContractState, post: FtWrapperContractState) -> bool {
    &&& config_unchanged(pre, post)
    &&& mirror_unchanged(pre, post)
    &&& post.events@ == pre.events@
}

} // verus!
