//! The storage ledger mirror: the core's local map from (ledger, account) to
//! the allocation record it believes that account holds. It answers queries
//! instantly and backs withdrawal and unregistration.

use vstd::prelude::*;
use crate::types::{AccountId, StorageBalance};

verus! {

/// One record of the mirror.
#[derive(Clone, Copy, PartialEq, Eq, Structural, Debug)]
pub struct MirrorEntry {
    pub token: AccountId,
    pub account_id: AccountId,
    pub balance: StorageBalance,
}

/// The (ledger, account) pair a record is keyed by.
pub open spec fn entry_key(e: MirrorEntry) -> (AccountId, AccountId) {
    (e.token, e.account_id)
}

/// First-match lookup in a sequence of records.
pub open spec fn lookup(s: Seq<MirrorEntry>, key: (AccountId, AccountId)) -> Option<StorageBalance>
    decreases s.len(),
{
    if s.len() == 0 {
        None
    } else if entry_key(s[0]) == key {
        Some(s[0].balance)
    } else {
        lookup(s.drop_first(), key)
    }
}

/// A key matched by no record is not found.
proof fn lemma_lookup_absent(s: Seq<MirrorEntry>, key: (AccountId, AccountId))
    requires
        forall|i: int| 0 <= i < s.len() ==> entry_key(s[i]) != key,
    ensures
        lookup(s, key) is None,
    decreases s.len(),
{
    if s.len() > 0 {
        assert(forall|i: int| 0 <= i < s.drop_first().len() ==> s.drop_first()[i] == s[i + 1]);
        lemma_lookup_absent(s.drop_first(), key);
    }
}

/// The first record whose key matches is the one found.
proof fn lemma_lookup_present(s: Seq<MirrorEntry>, key: (AccountId, AccountId), i: int)
    requires
        0 <= i < s.len(),
        entry_key(s[i]) == key,
        forall|j: int| 0 <= j < i ==> entry_key(s[j]) != key,
    ensures
        lookup(s, key) == Some(s[i].balance),
    decreases i,
{
    if i > 0 {
        assert(forall|j: int| 0 <= j < s.drop_first().len() ==> s.drop_first()[j] == s[j + 1]);
        lemma_lookup_present(s.drop_first(), key, i - 1);
    }
}

/// A key that is not found matches no record.
proof fn lemma_lookup_none_no_match(s: Seq<MirrorEntry>, key: (AccountId, AccountId))
    requires
        lookup(s, key) is None,
    ensures
        forall|i: int| 0 <= i < s.len() ==> entry_key(s[i]) != key,
    decreases s.len(),
{
    if s.len() > 0 {
        lemma_lookup_none_no_match(s.drop_first(), key);
        assert(forall|i: int| 1 <= i < s.len() ==> s[i] == s.drop_first()[i - 1]);
    }
}

/// A key that is found names the balance of some matching record.
proof fn lemma_lookup_some_in_entries(s: Seq<MirrorEntry>, key: (AccountId, AccountId))
    requires
        lookup(s, key) is Some,
    ensures
        exists|i: int|
            0 <= i < s.len() && entry_key(s[i]) == key && s[i].balance == lookup(s, key)->Some_0,
    decreases s.len(),
{
    if s.len() > 0 && entry_key(s[0]) != key {
        lemma_lookup_some_in_entries(s.drop_first(), key);
        let j = choose|j: int|
            0 <= j < s.drop_first().len() && entry_key(s.drop_first()[j]) == key
                && s.drop_first()[j].balance == lookup(s.drop_first(), key)->Some_0;
        assert(s[j + 1] == s.drop_first()[j]);
    }
}

/// Lookup over a concatenation: the left part is consulted first.
proof fn lemma_lookup_concat(s1: Seq<MirrorEntry>, s2: Seq<MirrorEntry>, key: (AccountId, AccountId))
    ensures
        lookup(s1 + s2, key) == if lookup(s1, key) is Some {
            lookup(s1, key)
        } else {
            lookup(s2, key)
        },
    decreases s1.len(),
{
    if s1.len() == 0 {
        assert(s1 + s2 =~= s2);
    } else {
        assert((s1 + s2)[0] == s1[0]);
        if entry_key(s1[0]) != key {
            assert((s1 + s2).drop_first() =~= s1.drop_first() + s2);
            lemma_lookup_concat(s1.drop_first(), s2, key);
        }
    }
}

/// Lookup after a record is put at the front.
proof fn lemma_lookup_push_front(s: Seq<MirrorEntry>, e: MirrorEntry, key: (AccountId, AccountId))
    ensures
        lookup(s.insert(0, e), key) == if entry_key(e) == key {
            Some(e.balance)
        } else {
            lookup(s, key)
        },
{
    let t = s.insert(0, e);
    assert(t[0] == e);
    if entry_key(e) != key {
        assert(t.drop_first() =~= s);
    }
}

/// The mirror itself: a list of records with pairwise-distinct keys.
#[derive(Debug)]
pub struct Mirror {
    pub entries: Vec<MirrorEntry>,
}

impl Mirror {
    /// The record held for a key, if any.
    pub open spec fn spec_get(self, key: (AccountId, AccountId)) -> Option<StorageBalance> {
        lookup(self.entries@, key)
    }

    /// Whether a record is held for the key.
    pub open spec fn spec_contains(self, key: (AccountId, AccountId)) -> bool {
        self.spec_get(key) is Some
    }

    /// No two records share a key.
    pub open spec fn keys_distinct(self) -> bool {
        forall|i: int, j: int|
            0 <= i < j < self.entries@.len() ==> entry_key(self.entries@[i]) != entry_key(
                self.entries@[j],
            )
    }

    /// Every record satisfies the allocation invariant.
    pub open spec fn balances_wf(self) -> bool {
        forall|i: int| 0 <= i < self.entries@.len() ==> self.entries@[i].balance.wf()
    }

    /// Well-formedness of the whole mirror.
    pub open spec fn wf(self) -> bool {
        self.keys_distinct() && self.balances_wf()
    }

    /// An empty mirror.
    pub fn new() -> (r: Mirror)
        ensures
            r.wf(),
            r.entries@.len() == 0,
            forall|k: (AccountId, AccountId)| r.spec_get(k) is None,
    {
        let r = Mirror { entries: Vec::new() };
        proof {
            assert(forall|k: (AccountId, AccountId)| lookup(r.entries@, k) is None);
        }
        r
    }

    /// The position of the record for the key, if any.
    fn find_index(&self, token: AccountId, account_id: AccountId) -> (r: Option<usize>)
        ensures
            match r {
                Some(i) => i < self.entries@.len() && entry_key(self.entries@[i as int]) == (
                    token,
                    account_id,
                ) && forall|j: int| 0 <= j < i ==> entry_key(self.entries@[j]) != (token, account_id),
                None => forall|j: int|
                    0 <= j < self.entries@.len() ==> entry_key(self.entries@[j]) != (
                        token,
                        account_id,
                    ),
            },
    {
        let n = self.entries.len();
        let mut i: usize = 0;
        while i < n
            invariant
                i <= n,
                n == self.entries@.len(),
                forall|j: int| 0 <= j < i ==> entry_key(self.entries@[j]) != (token, account_id),
            decreases n - i,
        {
            let e = self.entries[i];
            if e.token == token && e.account_id == account_id {
                return Some(i);
            }
            i = i + 1;
        }
        None
    }

    /// The record held for (token, account), if any.
    pub fn get(&self, token: AccountId, account_id: AccountId) -> (r: Option<StorageBalance>)
        ensures
            r == self.spec_get((token, account_id)),
    {
        match self.find_index(token, account_id) {
            Some(i) => {
                proof {
                    lemma_lookup_present(self.entries@, (token, account_id), i as int);
                }
                Some(self.entries[i].balance)
            },
            None => {
                proof {
                    lemma_lookup_absent(self.entries@, (token, account_id));
                }
                None
            },
        }
    }

    /// Deletes the record for (token, account); reports whether one existed.
    /// All other records are kept as they were.
    pub fn remove(&mut self, token: AccountId, account_id: AccountId) -> (r: bool)
        requires
            old(self).keys_distinct(),
        ensures
            r == old(self).spec_contains((token, account_id)),
            final(self).spec_get((token, account_id)) is None,
            forall|k: (AccountId, AccountId)|
                k != (token, account_id) ==> final(self).spec_get(k) == old(self).spec_get(k),
            final(self).keys_distinct(),
            old(self).balances_wf() ==> final(self).balances_wf(),
    {
        let key = (token, account_id);
        match self.find_index(token, account_id) {
            None => {
                proof {
                    lemma_lookup_absent(self.entries@, key);
                }
                false
            },
            Some(i) => {
                proof {
                    lemma_lookup_present(self.entries@, key, i as int);
                }
                let ghost s = self.entries@;
                self.entries.remove(i);
                proof {
                    let ii = i as int;
                    let a = s.subrange(0, ii);
                    let b = s.subrange(ii + 1, s.len() as int);
                    assert(self.entries@ =~= a + b);
                    // no other record matches the removed key
                    assert(forall|j: int| 0 <= j < a.len() ==> a[j] == s[j]);
                    assert(forall|j: int| 0 <= j < b.len() ==> b[j] == s[j + ii + 1]);
                    lemma_lookup_absent(a, key);
                    lemma_lookup_absent(b, key);
                    lemma_lookup_concat(a, b, key);
                    // every other key sees the same records
                    assert(s =~= a + (seq![s[ii]] + b));
                    assert forall|k: (AccountId, AccountId)| k != key implies lookup(a + b, k)
                        == lookup(s, k) by {
                        lemma_lookup_concat(a, b, k);
                        lemma_lookup_concat(a, seq![s[ii]] + b, k);
                        assert((seq![s[ii]] + b)[0] == s[ii]);
                        assert((seq![s[ii]] + b).drop_first() =~= b);
                    }
                }
                true
            },
        }
    }

    /// Sets the record for (token, account), replacing any existing one.
    /// All other records are kept as they were.
    pub fn insert(&mut self, token: AccountId, account_id: AccountId, balance: StorageBalance)
        requires
            old(self).keys_distinct(),
        ensures
            final(self).spec_get((token, account_id)) == Some(balance),
            forall|k: (AccountId, AccountId)|
                k != (token, account_id) ==> final(self).spec_get(k) == old(self).spec_get(k),
            final(self).keys_distinct(),
            old(self).balances_wf() && balance.wf() ==> final(self).balances_wf(),
    {
        let key = (token, account_id);
        self.remove(token, account_id);
        let ghost mid = self.entries@;
        let e = MirrorEntry { token, account_id, balance };
        self.entries.insert(0, e);
        proof {
            assert(self.entries@ == mid.insert(0, e));
            lemma_lookup_none_no_match(mid, key);
            assert forall|k: (AccountId, AccountId)| true implies lookup(self.entries@, k) == (
                if k == key {
                    Some(balance)
                } else {
                    lookup(mid, k)
                }) by {
                lemma_lookup_push_front(mid, e, k);
            }
            // distinctness: the new front record's key occurs nowhere in the rest
            assert forall|i: int, j: int|
                0 <= i < j < self.entries@.len() implies entry_key(self.entries@[i]) != entry_key(
                self.entries@[j]) by {
                assert(self.entries@[0] == e);
                assert(forall|p: int|
                    1 <= p < self.entries@.len() ==> self.entries@[p] == mid[p - 1]);
            }
        }
    }

    /// How many records the mirror holds.
    pub fn len(&self) -> (r: usize)
        ensures
            r == self.entries@.len(),
    {
        self.entries.len()
    }
}

/// In a well-formed mirror every record that a lookup returns satisfies the
/// allocation invariant: what is available never exceeds the total.
pub proof fn lemma_get_balance_wf(m: Mirror, key: (AccountId, AccountId))
    requires
        m.balances_wf(),
        m.spec_get(key) is Some,
    ensures
        m.spec_get(key)->Some_0.wf(),
{
    lemma_lookup_some_in_entries(m.entries@, key);
}

} // verus!
