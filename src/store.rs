//! The read side of the "wasm" contract-metadata partition: contract records
//! keyed by contract address.
use vstd::prelude::*;

verus! {

/// What the store knows of one deployed contract.
pub struct ContractData {
    pub code_id: u64,
    pub code_hash: Vec<u8>,
}

/// The mathematical value of a [`ContractData`].
pub struct ContractInfo {
    pub code_id: u64,
    pub code_hash: Seq<u8>,
}

impl View for ContractData {
    type V = ContractInfo;

    open spec fn view(&self) -> ContractInfo {
        ContractInfo { code_id: self.code_id, code_hash: self.code_hash@ }
    }
}

/// Contract records keyed by address; each address appears at most once.
pub struct ContractStore {
    entries: Vec<(String, ContractData)>,
}

impl ContractStore {
    /// No address is recorded twice.
    pub closed spec fn wf(&self) -> bool {
        forall|i: int, j: int|
            0 <= i < j < self.entries@.len() ==> #[trigger] self.entries@[i].0@
                != #[trigger] self.entries@[j].0@
    }

    spec fn has_at(&self, address: Seq<char>, i: int) -> bool {
        0 <= i < self.entries@.len() && self.entries@[i].0@ == address
    }

    /// The store as a map from contract address to contract record.
    pub closed spec fn view(&self) -> Map<Seq<char>, ContractInfo> {
        Map::new(
            |a: Seq<char>| exists|i: int| self.has_at(a, i),
            |a: Seq<char>| self.entries@[choose|i: int| self.has_at(a, i)].1@,
        )
    }

    proof fn lemma_at(&self, address: Seq<char>, i: int)
        requires
            self.wf(),
            self.has_at(address, i),
        ensures
            self.view().contains_key(address),
            self.view()[address] == self.entries@[i].1@,
    {
        let j = choose|j: int| self.has_at(address, j);
        assert(self.has_at(address, j));
        if i < j {
            assert(self.entries@[i].0@ != self.entries@[j].0@);
        } else if j < i {
            assert(self.entries@[j].0@ != self.entries@[i].0@);
        }
    }

    /// An empty store.
    pub fn new() -> (r: ContractStore)
        ensures
            r.wf(),
            r.view() == Map::<Seq<char>, ContractInfo>::empty(),
    {
        let r = ContractStore { entries: Vec::new() };
        assert(r.view() =~= Map::<Seq<char>, ContractInfo>::empty());
        r
    }

    /// The position of `address` among the entries, if it is recorded.
    fn position(&self, address: &String) -> (r: Option<usize>)
        requires
            self.wf(),
        ensures
            r matches Some(i) ==> self.has_at(address@, i as int),
            r is None ==> !self.view().contains_key(address@),
    {
        let mut i: usize = 0;
        while i < self.entries.len()
            invariant
                i <= self.entries@.len(),
                forall|k: int| 0 <= k < i ==> self.entries@[k].0@ != address@,
            decreases self.entries@.len() - i,
        {
            if self.entries[i].0 == *address {
                return Some(i);
            }
            i = i + 1;
        }
        None
    }

    /// The record stored for `address`, or `None` where no contract is
    /// registered under it.
    pub fn load(&self, address: &String) -> (r: Option<&ContractData>)
        requires
            self.wf(),
        ensures
            r is Some <==> self.view().contains_key(address@),
            r matches Some(d) ==> d@ == self.view()[address@],
    {
        match self.position(address) {
            Some(i) => {
                proof {
                    self.lemma_at(address@, i as int);
                }
                Some(&self.entries[i].1)
            },
            None => None,
        }
    }

    /// Records `data` for `address`, replacing what was recorded for it.
    pub fn save(&mut self, address: String, data: ContractData)
        requires
            old(self).wf(),
        ensures
            final(self).wf(),
            final(self).view() == old(self).view().insert(address@, data@),
    {
        let pos = self.position(&address);
        let ghost a = address@;
        let ghost d = data@;
        let ghost before = *self;
        match pos {
            Some(i) => {
                self.entries.set(i, (address, data));
                assert forall|k: int| #![auto] 0 <= k < self.entries@.len() && k != i implies
                    self.entries@[k] == before.entries@[k] by {}
                assert(self.has_at(a, i as int));
                proof {
                    self.lemma_at(a, i as int);
                }
                assert forall|x: Seq<char>| x != a implies (self.view().contains_key(x)
                    == before.view().contains_key(x)) by {
                    if self.view().contains_key(x) {
                        let k = choose|k: int| self.has_at(x, k);
                        assert(before.has_at(x, k));
                    }
                    if before.view().contains_key(x) {
                        let k = choose|k: int| before.has_at(x, k);
                        assert(self.has_at(x, k));
                    }
                }
                assert forall|x: Seq<char>| x != a && self.view().contains_key(x) implies
                    self.view()[x] == before.view()[x] by {
                    let k = choose|k: int| self.has_at(x, k);
                    assert(before.has_at(x, k));
                    self.lemma_at(x, k);
                    before.lemma_at(x, k);
                }
                assert(self.view() =~= before.view().insert(a, d));
            },
            None => {
                self.entries.push((address, data));
                let ghost n = before.entries@.len() as int;
                assert forall|k: int| 0 <= k < n implies self.entries@[k] == before.entries@[k]
                    && !before.has_at(a, k) by {}
                assert forall|i: int, j: int|
                    0 <= i < j < self.entries@.len() implies #[trigger] self.entries@[i].0@
                    != #[trigger] self.entries@[j].0@ by {
                    if j < n {
                        assert(before.entries@[i].0@ != before.entries@[j].0@);
                    } else {
                        assert(self.entries@[i] == before.entries@[i]);
                        assert(!before.has_at(a, i));
                    }
                }
                assert(self.has_at(a, n));
                proof {
                    self.lemma_at(a, n);
                }
                assert forall|x: Seq<char>| x != a implies (self.view().contains_key(x)
                    == before.view().contains_key(x)) by {
                    if self.view().contains_key(x) {
                        let k = choose|k: int| self.has_at(x, k);
                        assert(before.has_at(x, k));
                    }
                    if before.view().contains_key(x) {
                        let k = choose|k: int| before.has_at(x, k);
                        assert(self.has_at(x, k));
                    }
                }
                assert forall|x: Seq<char>| x != a && self.view().contains_key(x) implies
                    self.view()[x] == before.view()[x] by {
                    let k = choose|k: int| self.has_at(x, k);
                    assert(before.has_at(x, k));
                    self.lemma_at(x, k);
                    before.lemma_at(x, k);
                }
                assert(self.view() =~= before.view().insert(a, d));
            },
        }
    }
}

} // verus!
