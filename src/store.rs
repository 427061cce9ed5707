//! The record store: at most one asset control record per derived address,
//! allocated only where none exists.

use vstd::prelude::*;

use crate::address::Address;
use crate::token::TokenManager;

verus! {

/// A record together with the address it lives at.
#[derive(Clone, Debug)]
pub struct StoredRecord {
    pub address: Address,
    pub manager: TokenManager,
}

/// The records in `s`, by address.
pub open spec fn records_map(s: Seq<StoredRecord>) -> Map<Seq<u8>, TokenManager>
    decreases s.len(),
{
    if s.len() == 0 {
        Map::empty()
    } else {
        records_map(s.drop_last()).insert(s.last().address@, s.last().manager)
    }
}

proof fn lemma_records_map_keys(s: Seq<StoredRecord>, k: Seq<u8>)
    ensures
        records_map(s).contains_key(k) <==> exists|i: int| 0 <= i < s.len() && s[i].address@ == k,
    decreases s.len(),
{
    if s.len() > 0 {
        lemma_records_map_keys(s.drop_last(), k);
        if records_map(s.drop_last()).contains_key(k) {
            let i = choose|i: int| 0 <= i < s.drop_last().len() && s.drop_last()[i].address@ == k;
            assert(s[i] == s.drop_last()[i]);
        }
        if exists|i: int| 0 <= i < s.len() && s[i].address@ == k {
            let i = choose|i: int| 0 <= i < s.len() && s[i].address@ == k;
            if i < s.len() - 1 {
                assert(s.drop_last()[i] == s[i]);
            }
        }
    }
}

proof fn lemma_records_map_value(s: Seq<StoredRecord>, i: int)
    requires
        0 <= i < s.len(),
        forall|j: int, l: int|
            0 <= j < s.len() && 0 <= l < s.len() && j != l ==> s[j].address@ != s[l].address@,
    ensures
        records_map(s).contains_key(s[i].address@),
        records_map(s)[s[i].address@] == s[i].manager,
    decreases s.len(),
{
    lemma_records_map_keys(s, s[i].address@);
    if i < s.len() - 1 {
        let t = s.drop_last();
        assert(t[i] == s[i]);
        assert forall|j: int, l: int|
            0 <= j < t.len() && 0 <= l < t.len() && j != l implies t[j].address@ != t[l].address@ by {
            assert(t[j] == s[j]);
            assert(t[l] == s[l]);
        }
        lemma_records_map_value(t, i);
        assert(s.last().address@ != s[i].address@);
    }
}

/// Every asset control record held, keyed by its derived address.
#[derive(Debug)]
pub struct RecordStore {
    entries: Vec<StoredRecord>,
}

impl RecordStore {
    pub closed spec fn view(&self) -> Map<Seq<u8>, TokenManager> {
        records_map(self.entries@)
    }

    /// Addresses are unique and every record keeps its invariant.
    pub closed spec fn wf(&self) -> bool {
        &&& forall|j: int, l: int|
            0 <= j < self.entries@.len() && 0 <= l < self.entries@.len() && j != l
                ==> self.entries@[j].address@ != self.entries@[l].address@
        &&& forall|j: int| 0 <= j < self.entries@.len() ==> (#[trigger] self.entries@[j]).manager.wf()
    }

    /// Every record in a well-formed store keeps the record invariant, among
    /// it that the supply never exceeds the maximum.
    pub proof fn lemma_records_wf(&self, a: Seq<u8>)
        requires
            self.wf(),
            self@.contains_key(a),
        ensures
            self@[a].wf(),
            self@[a].current_supply <= self@[a].max_supply,
    {
        lemma_records_map_keys(self.entries@, a);
        let i = choose|i: int| 0 <= i < self.entries@.len() && self.entries@[i].address@ == a;
        lemma_records_map_value(self.entries@, i);
    }

    pub fn new() -> (r: RecordStore)
        ensures
            r.wf(),
            r@ == Map::<Seq<u8>, TokenManager>::empty(),
    {
        RecordStore { entries: Vec::new() }
    }

    fn position(&self, address: &Address) -> (r: Option<usize>)
        ensures
            r matches Some(i) ==> i < self.entries@.len() && self.entries@[i as int].address@
                == address@,
            r is None ==> !self@.contains_key(address@),
    {
        let mut i: usize = 0;
        while i < self.entries.len()
            invariant
                0 <= i <= self.entries@.len(),
                forall|j: int| 0 <= j < i ==> self.entries@[j].address@ != address@,
            decreases self.entries@.len() - i,
        {
            if self.entries[i].address == *address {
                return Some(i);
            }
            i = i + 1;
        }
        proof {
            lemma_records_map_keys(self.entries@, address@);
        }
        None
    }

    /// Whether a record lives at `address`.
    pub fn contains(&self, address: &Address) -> (r: bool)
        requires
            self.wf(),
        ensures
            r == self@.contains_key(address@),
    {
        proof {
            lemma_records_map_keys(self.entries@, address@);
        }
        self.position(address).is_some()
    }

    /// The record at `address`, if any.
    pub fn get(&self, address: &Address) -> (r: Option<&TokenManager>)
        requires
            self.wf(),
        ensures
            r matches Some(m) ==> self@.contains_key(address@) && self@[address@] == *m,
            r is None ==> !self@.contains_key(address@),
    {
        match self.position(address) {
            Some(i) => {
                proof {
                    lemma_records_map_value(self.entries@, i as int);
                }
                Some(&self.entries[i].manager)
            },
            None => None,
        }
    }

    /// Number of records held.
    pub fn len(&self) -> (r: usize)
        requires
            self.wf(),
        ensures
            r == self@.len(),
    {
        proof {
            self.lemma_len();
        }
        self.entries.len()
    }

    proof fn lemma_len(&self)
        requires
            self.wf(),
        ensures
            self@.dom().finite(),
            self@.len() == self.entries@.len(),
    {
        lemma_unique_len(self.entries@);
    }

    /// Allocates `manager` at `address` where nothing lives yet; otherwise
    /// fails with `AlreadyExists` and leaves the store as it was.
    pub fn allocate(&mut self, address: Address, manager: TokenManager) -> (r: Result<(), crate::token::TokenError>)
        requires
            old(self).wf(),
            manager.wf(),
        ensures
            final(self).wf(),
            old(self)@.contains_key(address@) ==> r == Err::<(), _>(
                crate::token::TokenError::AlreadyExists,
            ) && final(self)@ == old(self)@,
            !old(self)@.contains_key(address@) ==> r is Ok && final(self)@ == old(self)@.insert(
                address@,
                manager,
            ),
    {
        if self.position(&address).is_some() {
            proof {
                lemma_records_map_keys(self.entries@, address@);
            }
            return Err(crate::token::TokenError::AlreadyExists);
        }
        proof {
            lemma_records_map_keys(self.entries@, address@);
        }
        let ghost before = self.entries@;
        self.entries.push(StoredRecord { address, manager });
        assert(self.entries@.drop_last() =~= before);
        assert forall|j: int, l: int|
            0 <= j < self.entries@.len() && 0 <= l < self.entries@.len() && j != l
                implies self.entries@[j].address@ != self.entries@[l].address@ by {
            if j < before.len() && l < before.len() {
                assert(self.entries@[j] == before[j]);
                assert(self.entries@[l] == before[l]);
            } else if j < before.len() {
                assert(self.entries@[j] == before[j]);
            } else {
                assert(self.entries@[l] == before[l]);
            }
        }
        assert forall|j: int| 0 <= j < self.entries@.len() implies (#[trigger] self.entries@[j]).manager.wf() by {
            if j < before.len() {
                assert(self.entries@[j] == before[j]);
            }
        }
        Ok(())
    }
}

proof fn lemma_unique_len(s: Seq<StoredRecord>)
    requires
        forall|j: int, l: int|
            0 <= j < s.len() && 0 <= l < s.len() && j != l ==> s[j].address@ != s[l].address@,
    ensures
        records_map(s).dom().finite(),
        records_map(s).len() == s.len(),
    decreases s.len(),
{
    if s.len() > 0 {
        let t = s.drop_last();
        assert forall|j: int, l: int|
            0 <= j < t.len() && 0 <= l < t.len() && j != l implies t[j].address@ != t[l].address@ by {
            assert(t[j] == s[j]);
            assert(t[l] == s[l]);
        }
        lemma_unique_len(t);
        lemma_records_map_keys(t, s.last().address@);
        if records_map(t).contains_key(s.last().address@) {
            let i = choose|i: int| 0 <= i < t.len() && t[i].address@ == s.last().address@;
            assert(t[i] == s[i]);
        }
    }
}

} // verus!
