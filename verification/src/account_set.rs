//! A small set of account identifiers, used for the admin set and for the
//! allow-list of supported ledgers.

use vstd::prelude::*;
use crate::types::AccountId;

verus! {

/// A set of accounts, held as a duplicate-free list.
#[derive(Debug)]
pub struct AccountSet {
    pub members: Vec<AccountId>,
}

impl AccountSet {
    /// Membership.
    pub open spec fn spec_contains(self, a: AccountId) -> bool {
        self.members@.contains(a)
    }

    /// No member occurs twice.
    pub open spec fn wf(self) -> bool {
        forall|i: int, j: int|
            0 <= i < j < self.members@.len() ==> self.members@[i] != self.members@[j]
    }

    /// The empty set.
    pub fn new() -> (r: AccountSet)
        ensures
            r.wf(),
            r.members@.len() == 0,
            forall|a: AccountId| !r.spec_contains(a),
    {
        AccountSet { members: Vec::new() }
    }

    /// The position of a member, if present.
    fn find_index(&self, a: AccountId) -> (r: Option<usize>)
        ensures
            match r {
                Some(i) => i < self.members@.len() && self.members@[i as int] == a,
                None => !self.spec_contains(a),
            },
    {
        let n = self.members.len();
        let mut i: usize = 0;
        while i < n
            invariant
                i <= n,
                n == self.members@.len(),
                forall|j: int| 0 <= j < i ==> self.members@[j] != a,
            decreases n - i,
        {
            if self.members[i] == a {
                return Some(i);
            }
            i = i + 1;
        }
        proof {
            assert(forall|j: int| 0 <= j < self.members@.len() ==> self.members@[j] != a);
        }
        None
    }

    /// Membership test.
    pub fn contains(&self, a: AccountId) -> (r: bool)
        ensures
            r == self.spec_contains(a),
    {
        match self.find_index(a) {
            Some(i) => {
                proof {
                    assert(self.members@[i as int] == a);
                }
                true
            },
            None => false,
        }
    }

    /// Adds an account; a no-op when it is already a member.
    pub fn insert(&mut self, a: AccountId)
        requires
            old(self).wf(),
        ensures
            final(self).wf(),
            forall|b: AccountId|
                final(self).spec_contains(b) <==> (old(self).spec_contains(b) || b == a),
            old(self).spec_contains(a) ==> final(self).members@ == old(self).members@,
            !old(self).spec_contains(a) ==> final(self).members@ == old(self).members@.push(a),
    {
        if !self.contains(a) {
            let ghost s = self.members@;
            self.members.push(a);
            proof {
                let t = self.members@;
                assert(forall|j: int| 0 <= j < s.len() ==> t[j] == s[j]);
                assert(t[s.len() as int] == a);
                assert(forall|j: int| 0 <= j < s.len() ==> s[j] != a);
                assert forall|b: AccountId| t.contains(b) <==> (s.contains(b) || b == a) by {
                    if t.contains(b) {
                        let i = choose|i: int| 0 <= i < t.len() && t[i] == b;
                        if i < s.len() {
                            assert(s[i] == b);
                        }
                    }
                    if s.contains(b) {
                        let i = choose|i: int| 0 <= i < s.len() && s[i] == b;
                        assert(t[i] == b);
                    }
                    if b == a {
                        assert(t[s.len() as int] == b);
                    }
                }
            }
        }
    }

    /// Deletes an account; reports whether it was a member.
    pub fn remove(&mut self, a: AccountId) -> (r: bool)
        requires
            old(self).wf(),
        ensures
            final(self).wf(),
            r == old(self).spec_contains(a),
            forall|b: AccountId|
                final(self).spec_contains(b) <==> (old(self).spec_contains(b) && b != a),
            !r ==> final(self).members@ == old(self).members@,
    {
        match self.find_index(a) {
            None => false,
            Some(i) => {
                let ghost s = self.members@;
                self.members.remove(i);
                proof {
                    let ii = i as int;
                    let t = self.members@;
                    assert(t =~= s.subrange(0, ii) + s.subrange(ii + 1, s.len() as int));
                    assert(forall|p: int| 0 <= p < ii ==> t[p] == s[p]);
                    assert(forall|p: int| ii <= p < t.len() ==> t[p] == s[p + 1]);
                    assert(s.contains(a)) by {
                        assert(s[ii] == a);
                    }
                    assert forall|b: AccountId| t.contains(b) <==> (s.contains(b) && b != a) by {
                        if t.contains(b) {
                            let p = choose|p: int| 0 <= p < t.len() && t[p] == b;
                            if p < ii {
                                assert(s[p] == b);
                                assert(b != a);
                            } else {
                                assert(s[p + 1] == b);
                                assert(b != a);
                            }
                            assert(s.contains(b));
                        }
                        if s.contains(b) && b != a {
                            let p = choose|p: int| 0 <= p < s.len() && s[p] == b;
                            if p < ii {
                                assert(t[p] == b);
                            } else {
                                assert(p != ii);
                                assert(t[p - 1] == b);
                            }
                            assert(t.contains(b));
                        }
                    }
                }
                true
            },
        }
    }

    /// The members, as a list.
    pub fn to_vec(&self) -> (r: Vec<AccountId>)
        ensures
            r@ == self.members@,
    {
        let n = self.members.len();
        let mut r: Vec<AccountId> = Vec::new();
        let mut i: usize = 0;
        while i < n
            invariant
                i <= n,
                n == self.members@.len(),
                r@ == self.members@.subrange(0, i as int),
            decreases n - i,
        {
            r.push(self.members[i]);
            proof {
                assert(r@ =~= self.members@.subrange(0, i as int + 1));
            }
            i = i + 1;
        }
        proof {
            assert(self.members@.subrange(0, n as int) =~= self.members@);
        }
        r
    }

    /// How many members the set holds.
    pub fn len(&self) -> (r: usize)
        ensures
            r == self.members@.len(),
    {
        self.members.len()
    }
}

} // verus!
