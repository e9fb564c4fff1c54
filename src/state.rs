use vstd::prelude::*;
use vstd::slice::slice_to_vec;

use crate::digest::{contract_id, Digest};
use crate::table::{
    assoc_map, keys_unique, lemma_assoc_absent, lemma_assoc_lookup, lemma_assoc_push,
    lemma_assoc_push_unique, lemma_assoc_remove, lemma_assoc_update,
};
use crate::types::{bytes_eq, H256};

verus! {

/// Copies a byte vector.
pub fn copy_bytes(v: &Vec<u8>) -> (r: Vec<u8>)
    ensures
        r@ == v@,
{
    slice_to_vec(v.as_slice())
}

/// The key/value pairs of a storage, as byte strings.
pub open spec fn storage_pairs(s: Seq<(Vec<u8>, Vec<u8>)>) -> Seq<(Seq<u8>, Seq<u8>)> {
    s.map_values(|e: (Vec<u8>, Vec<u8>)| (e.0@, e.1@))
}

/// A contract's persistent key/value storage.
pub struct Storage {
    entries: Vec<(Vec<u8>, Vec<u8>)>,
}

impl View for Storage {
    type V = Map<Seq<u8>, Seq<u8>>;

    closed spec fn view(&self) -> Map<Seq<u8>, Seq<u8>> {
        assoc_map(storage_pairs(self.entries@))
    }
}

impl Storage {
    pub closed spec fn wf(&self) -> bool {
        keys_unique(storage_pairs(self.entries@))
    }

    /// An empty storage.
    pub fn new() -> (r: Storage)
        ensures
            r.wf(),
            r@ == Map::<Seq<u8>, Seq<u8>>::empty(),
    {
        let r = Storage { entries: Vec::new() };
        assert(storage_pairs(r.entries@) =~= Seq::empty());
        r
    }

    fn find(&self, key: &[u8]) -> (r: Option<usize>)
        requires
            self.wf(),
        ensures
            r matches Some(i) ==> i < self.entries@.len() && self.entries@[i as int].0@ == key@,
            r is None ==> forall|i: int|
                0 <= i < self.entries@.len() ==> #[trigger] self.entries@[i].0@ != key@,
            r is Some <==> self@.contains_key(key@),
    {
        let mut i: usize = 0;
        while i < self.entries.len()
            invariant
                self.wf(),
                i <= self.entries@.len(),
                forall|j: int| 0 <= j < i ==> #[trigger] self.entries@[j].0@ != key@,
            decreases self.entries@.len() - i,
        {
            if bytes_eq(self.entries[i].0.as_slice(), key) {
                proof {
                    lemma_assoc_lookup(storage_pairs(self.entries@), i as int);
                }
                return Some(i);
            }
            i = i + 1;
        }
        proof {
            let p = storage_pairs(self.entries@);
            assert forall|j: int| 0 <= j < p.len() implies p[j].0 != key@ by {
                assert(self.entries@[j].0@ != key@);
            }
            lemma_assoc_absent(p, key@);
        }
        None
    }

    /// The value stored under `key`, if any.
    pub fn get(&self, key: &[u8]) -> (r: Option<Vec<u8>>)
        requires
            self.wf(),
        ensures
            r is Some <==> self@.contains_key(key@),
            r matches Some(v) ==> v@ == self@[key@],
    {
        match self.find(key) {
            Some(i) => {
                proof {
                    lemma_assoc_lookup(storage_pairs(self.entries@), i as int);
                }
                Some(copy_bytes(&self.entries[i].1))
            },
            None => None,
        }
    }

    /// Stores `value` under `key`, replacing what was there.
    pub fn insert(&mut self, key: Vec<u8>, value: Vec<u8>)
        requires
            old(self).wf(),
        ensures
            final(self).wf(),
            final(self)@ == old(self)@.insert(key@, value@),
    {
        let ghost p = storage_pairs(self.entries@);
        match self.find(key.as_slice()) {
            Some(i) => {
                self.entries.set(i, (key, value));
                proof {
                    lemma_assoc_update(p, i as int, value@);
                    assert(storage_pairs(self.entries@) =~= p.update(i as int, (p[i as int].0, value@)));
                }
            },
            None => {
                let ghost k = key@;
                self.entries.push((key, value));
                proof {
                    assert(storage_pairs(self.entries@) =~= p.push((k, value@)));
                    assert forall|j: int| 0 <= j < p.len() implies p[j].0 != k by {
                        assert(old(self).entries@[j].0@ != k);
                    }
                    lemma_assoc_push_unique(p, k, value@);
                    lemma_assoc_push(p, k, value@);
                }
            },
        }
    }

    /// Removes what is stored under `key`.
    pub fn remove(&mut self, key: &[u8])
        requires
            old(self).wf(),
        ensures
            final(self).wf(),
            final(self)@ == old(self)@.remove(key@),
    {
        let ghost p = storage_pairs(self.entries@);
        match self.find(key) {
            Some(i) => {
                self.entries.remove(i);
                proof {
                    lemma_assoc_remove(p, i as int);
                    assert(storage_pairs(self.entries@) =~= p.remove(i as int));
                }
            },
            None => {
                assert(self@ =~= old(self)@.remove(key@));
            },
        }
    }

    /// A copy of this storage.
    pub fn duplicate(&self) -> (r: Storage)
        requires
            self.wf(),
        ensures
            r.wf(),
            r@ == self@,
    {
        let mut entries: Vec<(Vec<u8>, Vec<u8>)> = Vec::new();
        let mut i: usize = 0;
        while i < self.entries.len()
            invariant
                i <= self.entries@.len(),
                storage_pairs(entries@) == storage_pairs(self.entries@).subrange(0, i as int),
            decreases self.entries@.len() - i,
        {
            let k = copy_bytes(&self.entries[i].0);
            let v = copy_bytes(&self.entries[i].1);
            let ghost before = entries@;
            entries.push((k, v));
            assert(storage_pairs(entries@) =~= storage_pairs(self.entries@).subrange(0, i + 1)) by {
                assert(entries@ == before.push((k, v)));
                assert(storage_pairs(before.push((k, v))) =~= storage_pairs(before).push((k@, v@)));
                assert(storage_pairs(self.entries@)[i as int] == (k@, v@));
            }
            i = i + 1;
        }
        assert(storage_pairs(self.entries@).subrange(0, i as int) =~= storage_pairs(self.entries@));
        Storage { entries }
    }
}

/// What a contract's state stands for: its code, its balance and its
/// storage as a map.
pub struct ContractView {
    pub code: Seq<u8>,
    pub balance: u128,
    pub storage: Map<Seq<u8>, Seq<u8>>,
}

/// A deployed contract: its bytecode, balance and persistent storage.
pub struct ContractState {
    code: Vec<u8>,
    balance: u128,
    storage: Storage,
}

impl View for ContractState {
    type V = ContractView;

    closed spec fn view(&self) -> ContractView {
        ContractView { code: self.code@, balance: self.balance, storage: self.storage@ }
    }
}

impl ContractState {
    pub closed spec fn wf(&self) -> bool {
        self.storage.wf()
    }

    /// A fresh contract with the given code and balance and empty storage.
    pub fn new(code: Vec<u8>, balance: u128) -> (r: ContractState)
        ensures
            r.wf(),
            r@ == (ContractView { code: code@, balance, storage: Map::empty() }),
    {
        ContractState { code, balance, storage: Storage::new() }
    }

    /// The contract's bytecode.
    pub fn code(&self) -> (r: &[u8])
        ensures
            r@ == self@.code,
    {
        self.code.as_slice()
    }

    /// The contract's balance.
    pub fn balance(&self) -> (r: u128)
        ensures
            r == self@.balance,
    {
        self.balance
    }

    /// The value stored under `key`, if any.
    pub fn get(&self, key: &[u8]) -> (r: Option<Vec<u8>>)
        requires
            self.wf(),
        ensures
            r is Some <==> self@.storage.contains_key(key@),
            r matches Some(v) ==> v@ == self@.storage[key@],
    {
        self.storage.get(key)
    }

    /// A copy of this contract's state.
    pub fn duplicate(&self) -> (r: ContractState)
        requires
            self.wf(),
        ensures
            r.wf(),
            r@ == self@,
    {
        ContractState {
            code: copy_bytes(&self.code),
            balance: self.balance,
            storage: self.storage.duplicate(),
        }
    }
}

/// The network after deploying `code`: unchanged when its id is taken,
/// else with a fresh contract under that id.
pub open spec fn after_deploy(state: Map<Seq<u8>, ContractView>, code: Seq<u8>) -> Map<
    Seq<u8>,
    ContractView,
> {
    if state.contains_key(contract_id(code)) {
        state
    } else {
        state.insert(
            contract_id(code),
            ContractView { code, balance: 0, storage: Map::empty() },
        )
    }
}

/// Deploying the same bytecode twice yields the same id, and the second
/// deployment changes nothing.
pub proof fn lemma_deploy_twice(state: Map<Seq<u8>, ContractView>, a: Seq<u8>, b: Seq<u8>)
    requires
        a == b,
    ensures
        contract_id(a) == contract_id(b),
        after_deploy(after_deploy(state, a), b) == after_deploy(state, a),
{
}

/// The contracts of a network as (id, state) pairs.
pub open spec fn network_pairs(s: Seq<(H256, ContractState)>) -> Seq<(Seq<u8>, ContractView)> {
    s.map_values(|e: (H256, ContractState)| (e.0@, e.1@))
}

/// The state of the network: every deployed contract under its id.
pub struct NetworkState {
    contracts: Vec<(H256, ContractState)>,
    genesis: Option<H256>,
}

impl View for NetworkState {
    type V = Map<Seq<u8>, ContractView>;

    closed spec fn view(&self) -> Map<Seq<u8>, ContractView> {
        assoc_map(network_pairs(self.contracts@))
    }
}

impl NetworkState {
    pub closed spec fn wf(&self) -> bool {
        &&& keys_unique(network_pairs(self.contracts@))
        &&& forall|i: int| 0 <= i < self.contracts@.len() ==> (#[trigger] self.contracts@[i]).1.wf()
    }

    /// The id of the genesis contract, if the network was started with one.
    pub closed spec fn genesis_spec(&self) -> Option<Seq<u8>> {
        match self.genesis {
            Some(id) => Some(id@),
            None => None,
        }
    }

    /// A network with no contracts.
    pub fn new() -> (r: NetworkState)
        ensures
            r.wf(),
            r@ == Map::<Seq<u8>, ContractView>::empty(),
            r.genesis_spec() is None,
    {
        let r = NetworkState { contracts: Vec::new(), genesis: None };
        assert(network_pairs(r.contracts@) =~= Seq::empty());
        r
    }

    /// A network holding one contract, the genesis contract, endowed with
    /// `endowment`.
    pub fn genesis(code: Vec<u8>, endowment: u128) -> (r: NetworkState)
        ensures
            r.wf(),
            r.genesis_spec() == Some(contract_id(code@)),
            r@ == Map::<Seq<u8>, ContractView>::empty().insert(
                contract_id(code@),
                ContractView { code: code@, balance: endowment, storage: Map::empty() },
            ),
    {
        let mut r = NetworkState::new();
        let id = code.digest();
        let ghost c = code@;
        r.add(id, ContractState::new(code, endowment));
        r.genesis = Some(id);
        assert(r@ =~= Map::<Seq<u8>, ContractView>::empty().insert(
            contract_id(c),
            ContractView { code: c, balance: endowment, storage: Map::empty() },
        ));
        r
    }

    /// The id of the genesis contract, if any.
    pub fn genesis_id(&self) -> (r: Option<H256>)
        ensures
            r matches Some(id) ==> self.genesis_spec() == Some(id@),
            r is None ==> self.genesis_spec() is None,
    {
        self.genesis
    }

    fn find(&self, id: &H256) -> (r: Option<usize>)
        requires
            self.wf(),
        ensures
            r matches Some(i) ==> i < self.contracts@.len() && self.contracts@[i as int].0@ == id@,
            r is None ==> forall|i: int|
                0 <= i < self.contracts@.len() ==> #[trigger] self.contracts@[i].0@ != id@,
            r is Some <==> self@.contains_key(id@),
    {
        let mut i: usize = 0;
        while i < self.contracts.len()
            invariant
                self.wf(),
                i <= self.contracts@.len(),
                forall|j: int| 0 <= j < i ==> #[trigger] self.contracts@[j].0@ != id@,
            decreases self.contracts@.len() - i,
        {
            if self.contracts[i].0 == *id {
                proof {
                    lemma_assoc_lookup(network_pairs(self.contracts@), i as int);
                }
                return Some(i);
            }
            i = i + 1;
        }
        proof {
            let p = network_pairs(self.contracts@);
            assert forall|j: int| 0 <= j < p.len() implies p[j].0 != id@ by {
                assert(self.contracts@[j].0@ != id@);
            }
            lemma_assoc_absent(p, id@);
        }
        None
    }

    fn add(&mut self, id: H256, c: ContractState)
        requires
            old(self).wf(),
            c.wf(),
            !old(self)@.contains_key(id@),
        ensures
            final(self).wf(),
            final(self)@ == old(self)@.insert(id@, c@),
            final(self).genesis_spec() == old(self).genesis_spec(),
    {
        let ghost p = network_pairs(self.contracts@);
        let ghost cv = c@;
        proof {
            assert forall|j: int| 0 <= j < p.len() implies p[j].0 != id@ by {
                if p[j].0 == id@ {
                    lemma_assoc_lookup(p, j);
                }
            }
            lemma_assoc_push_unique(p, id@, cv);
            lemma_assoc_push(p, id@, cv);
        }
        self.contracts.push((id, c));
        assert(network_pairs(self.contracts@) =~= p.push((id@, cv)));
    }

    /// Deploys `code` under its content id and returns the id. Deploying code
    /// that is already deployed changes nothing.
    pub fn deploy(&mut self, code: Vec<u8>) -> (r: H256)
        requires
            old(self).wf(),
        ensures
            final(self).wf(),
            r@ == contract_id(code@),
            final(self)@ == after_deploy(old(self)@, code@),
            final(self).genesis_spec() == old(self).genesis_spec(),
            old(self)@.contains_key(r@) ==> final(self)@ == old(self)@,
            !old(self)@.contains_key(r@) ==> final(self)@ == old(self)@.insert(
                r@,
                ContractView { code: code@, balance: 0, storage: Map::empty() },
            ),
    {
        let id = code.digest();
        match self.find(&id) {
            Some(_) => {},
            None => {
                self.add(id, ContractState::new(code, 0));
            },
        }
        id
    }

    /// The state of the contract deployed under `id`, if any.
    pub fn get_contract_state(&self, id: &H256) -> (r: Option<&ContractState>)
        requires
            self.wf(),
        ensures
            r is Some <==> self@.contains_key(id@),
            r matches Some(c) ==> c@ == self@[id@] && c.wf(),
    {
        match self.find(id) {
            Some(i) => {
                proof {
                    lemma_assoc_lookup(network_pairs(self.contracts@), i as int);
                }
                Some(&self.contracts[i].1)
            },
            None => None,
        }
    }

    /// Replaces the storage entry `key` of the contract under `id`; `None`
    /// removes it.
    pub fn write_storage(&mut self, id: &H256, key: Vec<u8>, value: Option<Vec<u8>>)
        requires
            old(self).wf(),
            old(self)@.contains_key(id@),
        ensures
            final(self).wf(),
            final(self).genesis_spec() == old(self).genesis_spec(),
            final(self)@ == old(self)@.insert(
                id@,
                ContractView {
                    storage: match value {
                        Some(v) => old(self)@[id@].storage.insert(key@, v@),
                        None => old(self)@[id@].storage.remove(key@),
                    },
                    ..old(self)@[id@]
                },
            ),
    {
        let i = match self.find(id) {
            Some(i) => i,
            None => { return; },
        };
        let ghost p = network_pairs(self.contracts@);
        proof {
            lemma_assoc_lookup(p, i as int);
        }
        let mut entry = self.contracts.remove(i);
        assert(entry.1.wf());
        match value {
            Some(v) => entry.1.storage.insert(key, v),
            None => entry.1.storage.remove(key.as_slice()),
        }
        let ghost cv = entry.1@;
        self.contracts.insert(i, entry);
        proof {
            assert(network_pairs(self.contracts@) =~= p.update(i as int, (p[i as int].0, cv)));
            lemma_assoc_update(p, i as int, cv);
            assert forall|j: int| 0 <= j < self.contracts@.len() implies (#[trigger] self.contracts@[j]).1.wf() by {
                if j != i {
                    assert(self.contracts@[j] == old(self).contracts@[j]);
                }
            }
        }
        assert(self@ =~= old(self)@.insert(
            id@,
            ContractView {
                storage: match value {
                    Some(v) => old(self)@[id@].storage.insert(key@, v@),
                    None => old(self)@[id@].storage.remove(key@),
                },
                ..old(self)@[id@]
            },
        ));
    }

    /// A copy of the whole network state.
    pub fn duplicate(&self) -> (r: NetworkState)
        requires
            self.wf(),
        ensures
            r.wf(),
            r@ == self@,
            r.genesis_spec() == self.genesis_spec(),
    {
        let mut contracts: Vec<(H256, ContractState)> = Vec::new();
        let mut i: usize = 0;
        while i < self.contracts.len()
            invariant
                self.wf(),
                i <= self.contracts@.len(),
                network_pairs(contracts@) == network_pairs(self.contracts@).subrange(0, i as int),
                forall|j: int| 0 <= j < contracts@.len() ==> (#[trigger] contracts@[j]).1.wf(),
            decreases self.contracts@.len() - i,
        {
            let id = self.contracts[i].0;
            let c = self.contracts[i].1.duplicate();
            let ghost before = contracts@;
            contracts.push((id, c));
            assert(network_pairs(contracts@) =~= network_pairs(self.contracts@).subrange(0, i + 1)) by {
                assert(contracts@ == before.push((id, c)));
                assert(network_pairs(before.push((id, c))) =~= network_pairs(before).push((id@, c@)));
                assert(network_pairs(self.contracts@)[i as int] == (id@, c@));
            }
            i = i + 1;
        }
        assert(network_pairs(self.contracts@).subrange(0, i as int) =~= network_pairs(self.contracts@));
        NetworkState { contracts, genesis: self.genesis }
    }
}

} // verus!
