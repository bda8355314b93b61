//! An explicit keyed ledger: the external, transactionally consistent
//! store the pipeline's records live in.
//!
//! The store is a flat list of entries with pairwise distinct addresses;
//! its mathematical image is a map from address to account.  All pipeline
//! functions are written against that map.

use vstd::prelude::*;

use crate::addresses::Address;
use crate::model::{Account, AccountV};

verus! {

/// One entry of the ledger.
#[derive(Debug)]
pub struct LedgerEntry {
    pub address: Address,
    pub account: Account,
}

/// The ledger itself.
#[derive(Debug)]
pub struct Ledger {
    entries: Vec<LedgerEntry>,
}

impl View for Ledger {
    type V = Map<Address, AccountV>;

    closed spec fn view(&self) -> Map<Address, AccountV> {
        Map::new(
            |a: Address|
                exists|i: int| 0 <= i < self.entries@.len() && self.entries@[i].address == a,
            |a: Address|
                {
                    let i = choose|i: int|
                        0 <= i < self.entries@.len() && self.entries@[i].address == a;
                    self.entries@[i].account@
                },
        )
    }
}

impl Ledger {
    /// Every address occurs at most once.
    pub closed spec fn wf(&self) -> bool {
        forall|i: int, j: int|
            0 <= i < j < self.entries@.len() ==> self.entries@[i].address != self.entries@[j].address
    }

    proof fn lemma_at_index(&self, i: int)
        requires
            self.wf(),
            0 <= i < self.entries@.len(),
        ensures
            self@.dom().contains(self.entries@[i].address),
            self@[self.entries@[i].address] == self.entries@[i].account@,
    {
        let a = self.entries@[i].address;
        assert(exists|k: int| 0 <= k < self.entries@.len() && self.entries@[k].address == a);
        let k = choose|k: int| 0 <= k < self.entries@.len() && self.entries@[k].address == a;
        assert(k == i);
    }

    proof fn lemma_absent(&self, a: Address)
        requires
            forall|i: int|
                0 <= i < self.entries@.len() ==> self.entries@[i].address != a,
        ensures
            !self@.dom().contains(a),
    {
    }

    /// The empty ledger.
    pub fn new() -> (r: Ledger)
        ensures
            r.wf(),
            r@ == Map::<Address, AccountV>::empty(),
    {
        let r = Ledger { entries: Vec::new() };
        proof {
            assert(r@ =~= Map::<Address, AccountV>::empty());
        }
        r
    }

    fn find(&self, a: Address) -> (r: Option<usize>)
        requires
            self.wf(),
        ensures
            match r {
                Some(i) => {
                    &&& i < self.entries@.len()
                    &&& self.entries@[i as int].address == a
                    &&& self@.dom().contains(a)
                    &&& self@[a] == self.entries@[i as int].account@
                },
                None => {
                    &&& !self@.dom().contains(a)
                    &&& forall|k: int|
                        0 <= k < self.entries@.len() ==> self.entries@[k].address != a
                },
            },
    {
        let mut i: usize = 0;
        while i < self.entries.len()
            invariant
                self.wf(),
                i <= self.entries@.len(),
                forall|k: int| 0 <= k < i ==> self.entries@[k].address != a,
            decreases self.entries@.len() - i,
        {
            if self.entries[i].address == a {
                proof {
                    self.lemma_at_index(i as int);
                }
                return Some(i);
            }
            i = i + 1;
        }
        proof {
            self.lemma_absent(a);
        }
        None
    }

    /// Whether any account sits at `a`.
    pub fn contains_address(&self, a: Address) -> (r: bool)
        requires
            self.wf(),
        ensures
            r == self@.dom().contains(a),
    {
        match self.find(a) {
            Some(_) => true,
            None => false,
        }
    }

    /// The account at `a`, if any.
    pub fn account_at(&self, a: Address) -> (r: Option<&Account>)
        requires
            self.wf(),
        ensures
            match r {
                Some(acc) => self@.dom().contains(a) && acc@ == self@[a],
                None => !self@.dom().contains(a),
            },
    {
        match self.find(a) {
            Some(i) => Some(&self.entries[i].account),
            None => None,
        }
    }

    /// A structural copy of the whole ledger.
    pub fn dup(&self) -> (r: Ledger)
        requires
            self.wf(),
        ensures
            r.wf(),
            r@ == self@,
    {
        let mut out: Vec<LedgerEntry> = Vec::new();
        let mut i: usize = 0;
        while i < self.entries.len()
            invariant
                self.wf(),
                i <= self.entries@.len(),
                out@.len() == i,
                forall|k: int|
                    0 <= k < i ==> #[trigger] out@[k].address == self.entries@[k].address,
                forall|k: int|
                    0 <= k < i ==> #[trigger] out@[k].account@ == self.entries@[k].account@,
            decreases self.entries@.len() - i,
        {
            let e = &self.entries[i];
            out.push(LedgerEntry { address: e.address, account: e.account.dup() });
            i = i + 1;
        }
        let r = Ledger { entries: out };
        proof {
            assert forall|p: int, q: int|
                0 <= p < q < r.entries@.len() implies r.entries@[p].address
                != r.entries@[q].address by {
                assert(r.entries@[p].address == self.entries@[p].address);
                assert(r.entries@[q].address == self.entries@[q].address);
            }
            assert forall|b: Address| true implies #[trigger] r@.contains_key(b)
                == self@.contains_key(b) && (r@.contains_key(b) ==> r@[b] == self@[b]) by {
                if self@.contains_key(b) {
                    let k = choose|k: int|
                        0 <= k < self.entries@.len() && self.entries@[k].address == b;
                    assert(r.entries@[k].address == b);
                    r.lemma_at_index(k);
                    self.lemma_at_index(k);
                } else {
                    assert forall|k: int|
                        0 <= k < r.entries@.len() implies r.entries@[k].address != b by {
                        self.lemma_at_index(k);
                    }
                    r.lemma_absent(b);
                }
            }
            assert(r@ =~= self@);
        }
        r
    }

    /// A copy of the ledger with `account` stored at `a`, replacing
    /// whatever sat there before.  The store itself is left untouched:
    /// callers that buffer writes commit by adopting the returned ledger.
    pub fn put(&self, a: Address, account: Account) -> (r: Ledger)
        requires
            self.wf(),
        ensures
            r.wf(),
            r@ == self@.insert(a, account@),
    {
        let ghost old_map = self@;
        let found = self.find(a);
        let mut out: Vec<LedgerEntry> = Vec::new();
        let mut i: usize = 0;
        while i < self.entries.len()
            invariant
                self.wf(),
                i <= self.entries@.len(),
                out@.len() == i,
                forall|k: int|
                    0 <= k < i ==> #[trigger] out@[k].address == self.entries@[k].address,
                forall|k: int|
                    0 <= k < i ==> #[trigger] out@[k].account@ == self.entries@[k].account@,
            decreases self.entries@.len() - i,
        {
            let e = &self.entries[i];
            out.push(LedgerEntry { address: e.address, account: e.account.dup() });
            i = i + 1;
        }
        match found {
            Some(idx) => {
                out[idx] = LedgerEntry { address: a, account };
                let r = Ledger { entries: out };
                proof {
                    assert forall|p: int, q: int|
                        0 <= p < q < r.entries@.len() implies r.entries@[p].address
                        != r.entries@[q].address by {
                        assert(r.entries@[p].address == self.entries@[p].address);
                        assert(r.entries@[q].address == self.entries@[q].address);
                    }
                    assert forall|b: Address| true implies #[trigger] r@.contains_key(b)
                        == old_map.insert(a, account@).contains_key(b) && (r@.contains_key(b)
                        ==> r@[b] == old_map.insert(a, account@)[b]) by {
                        if b == a {
                            r.lemma_at_index(idx as int);
                        } else {
                            if old_map.contains_key(b) {
                                let k = choose|k: int|
                                    0 <= k < self.entries@.len() && self.entries@[k].address == b;
                                assert(r.entries@[k].address == b);
                                r.lemma_at_index(k);
                                self.lemma_at_index(k);
                            } else {
                                assert forall|k: int|
                                    0 <= k < r.entries@.len() implies r.entries@[k].address
                                    != b by {
                                    if k != idx {
                                        assert(r.entries@[k].address == self.entries@[k].address);
                                        self.lemma_at_index(k);
                                    }
                                }
                                r.lemma_absent(b);
                            }
                        }
                    }
                    assert(r@ =~= old_map.insert(a, account@));
                }
                r
            },
            None => {
                out.push(LedgerEntry { address: a, account });
                let r = Ledger { entries: out };
                proof {
                    let n = self.entries@.len() as int;
                    assert forall|p: int, q: int|
                        0 <= p < q < r.entries@.len() implies r.entries@[p].address
                        != r.entries@[q].address by {
                        if q < n {
                            assert(r.entries@[p].address == self.entries@[p].address);
                            assert(r.entries@[q].address == self.entries@[q].address);
                        } else {
                            assert(r.entries@[p].address == self.entries@[p].address);
                            assert(r.entries@[q].address == a);
                        }
                    }
                    assert forall|b: Address| true implies #[trigger] r@.contains_key(b)
                        == old_map.insert(a, account@).contains_key(b) && (r@.contains_key(b)
                        ==> r@[b] == old_map.insert(a, account@)[b]) by {
                        if b == a {
                            r.lemma_at_index(n);
                        } else {
                            if old_map.contains_key(b) {
                                let k = choose|k: int|
                                    0 <= k < self.entries@.len() && self.entries@[k].address == b;
                                assert(r.entries@[k].address == b);
                                r.lemma_at_index(k);
                                self.lemma_at_index(k);
                            } else {
                                assert forall|k: int|
                                    0 <= k < r.entries@.len() implies r.entries@[k].address
                                    != b by {
                                    if k < n {
                                        self.lemma_at_index(k);
                                    }
                                }
                                r.lemma_absent(b);
                            }
                        }
                    }
                    assert(r@ =~= old_map.insert(a, account@));
                }
                r
            },
        }
    }
}

} // verus!
