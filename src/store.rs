//! The contract's ledger state: the owner, the admin set and the nonce
//! counters, held in one explicit store value.

use vstd::prelude::*;

use crate::identity::Identifier;

verus! {

/// The entries of the ledger store.
#[derive(Clone, Copy, Debug)]
pub enum DataStoreKey {
    /// The set-once owner identity.
    Owner,
    /// The set of admin identities.
    Admins,
    /// The nonce counter of one identity.
    Nonce(Identifier),
}

/// The state of one contract instance, with the scope its signed messages
/// are bound to.
pub struct Env {
    contract_id: [u8; 32],
    network: Vec<u8>,
    owner: Option<Identifier>,
    admins: Vec<Identifier>,
    nonces: Vec<(Identifier, u64)>,
}

impl Env {
    /// No identity appears twice among the admins or the nonce entries.
    pub closed spec fn wf(&self) -> bool {
        &&& forall|i: int, j: int|
            0 <= i < j < self.admins@.len() ==> self.admins@[i]@ != self.admins@[j]@
        &&& forall|i: int, j: int|
            0 <= i < j < self.nonces@.len() ==> self.nonces@[i].0@ != self.nonces@[j].0@
    }

    /// The identifier of the contract.
    pub closed spec fn contract_id(&self) -> Seq<u8> {
        self.contract_id@
    }

    /// The identifier of the network.
    pub closed spec fn network(&self) -> Seq<u8> {
        self.network@
    }

    /// The owner's identity, once set.
    pub closed spec fn owner(&self) -> Option<Seq<u8>> {
        match self.owner {
            Some(id) => Some(id@),
            None => None,
        }
    }

    /// The identities of the admins.
    pub closed spec fn admins(&self) -> Set<Seq<u8>> {
        Set::new(|k: Seq<u8>| exists|i: int| 0 <= i < self.admins@.len() && self.admins@[i]@ == k)
    }

    /// Whether a nonce counter has been stored for `id`.
    pub closed spec fn has_nonce(&self, id: Seq<u8>) -> bool {
        exists|i: int| 0 <= i < self.nonces@.len() && self.nonces@[i].0@ == id
    }

    /// The nonce counter of `id`: zero until one is stored.
    pub closed spec fn nonce_of(&self, id: Seq<u8>) -> u64 {
        if self.has_nonce(id) {
            self.nonces@[choose|i: int| 0 <= i < self.nonces@.len() && self.nonces@[i].0@ == id].1
        } else {
            0
        }
    }

    /// Whether `other` holds the same nonce counters as `self`.
    pub open spec fn same_nonces(&self, other: &Env) -> bool {
        forall|k: Seq<u8>|
            self.nonce_of(k) == other.nonce_of(k) && self.has_nonce(k) == other.has_nonce(k)
    }

    /// Whether `other` is bound to the same contract and network as `self`.
    pub open spec fn same_scope(&self, other: &Env) -> bool {
        self.contract_id() == other.contract_id() && self.network() == other.network()
    }

    proof fn lemma_nonce_at(&self, i: int)
        requires
            self.wf(),
            0 <= i < self.nonces@.len(),
        ensures
            self.has_nonce(self.nonces@[i].0@),
            self.nonce_of(self.nonces@[i].0@) == self.nonces@[i].1,
    {
        let k = self.nonces@[i].0@;
        assert(self.has_nonce(k));
        let j = choose|j: int| 0 <= j < self.nonces@.len() && self.nonces@[j].0@ == k;
        if j < i {
            assert(self.nonces@[j].0@ != self.nonces@[i].0@);
        } else if i < j {
            assert(self.nonces@[i].0@ != self.nonces@[j].0@);
        }
    }

    proof fn lemma_same_entries(&self, other: &Env)
        requires
            self.nonces@ == other.nonces@,
        ensures
            self.same_nonces(other),
    {
        assert forall|k: Seq<u8>|
            self.nonce_of(k) == other.nonce_of(k) && self.has_nonce(k) == other.has_nonce(k) by {
            if self.has_nonce(k) {
                let j = choose|j: int| 0 <= j < self.nonces@.len() && self.nonces@[j].0@ == k;
                assert(other.nonces@[j].0@ == k);
            }
            if other.has_nonce(k) {
                let j = choose|j: int| 0 <= j < other.nonces@.len() && other.nonces@[j].0@ == k;
                assert(self.nonces@[j].0@ == k);
            }
        }
    }

    /// An empty store for the contract `contract_id` on the network `network`.
    pub fn new(contract_id: [u8; 32], network: Vec<u8>) -> (r: Env)
        ensures
            r.wf(),
            r.contract_id() == contract_id@,
            r.network() == network@,
            r.owner() is None,
            r.admins() == Set::<Seq<u8>>::empty(),
            forall|k: Seq<u8>| !r.has_nonce(k) && r.nonce_of(k) == 0,
    {
        let r = Env { contract_id, network, owner: None, admins: Vec::new(), nonces: Vec::new() };
        assert(r.admins() =~= Set::<Seq<u8>>::empty());
        r
    }

    /// The identifier of the contract.
    pub fn contract(&self) -> (r: [u8; 32])
        ensures
            r@ == self.contract_id(),
    {
        self.contract_id
    }

    /// A copy of the network identifier.
    pub fn network_passphrase(&self) -> (r: Vec<u8>)
        ensures
            r@ == self.network(),
    {
        let mut r: Vec<u8> = Vec::new();
        let mut i: usize = 0;
        while i < self.network.len()
            invariant
                0 <= i <= self.network@.len(),
                r@ == self.network@.subrange(0, i as int),
            decreases self.network@.len() - i,
        {
            r.push(self.network[i]);
            assert(r@ =~= self.network@.subrange(0, i + 1));
            i = i + 1;
        }
        assert(r@ =~= self.network@);
        r
    }

    /// The stored owner.
    pub fn read_owner(&self) -> (r: Option<Identifier>)
        ensures
            match r {
                Some(id) => self.owner() == Some(id@),
                None => self.owner() is None,
            },
    {
        self.owner
    }

    /// Stores `id` as the owner; an owner, once stored, is never overwritten.
    pub fn write_owner(&mut self, id: Identifier)
        requires
            old(self).wf(),
            old(self).owner() is None,
        ensures
            final(self).wf(),
            final(self).owner() == Some(id@),
            final(self).admins() == old(self).admins(),
            final(self).same_nonces(old(self)),
            final(self).same_scope(old(self)),
    {
        let ghost pre = *self;
        self.owner = Some(id);
        assert(self.admins() =~= pre.admins());
        proof {
            self.lemma_same_entries(&pre);
        }
    }

    fn find_nonce(&self, id: &Identifier) -> (r: Option<usize>)
        ensures
            match r {
                Some(i) => i < self.nonces@.len() && self.nonces@[i as int].0@ == id@,
                None => !self.has_nonce(id@),
            },
    {
        let mut i: usize = 0;
        while i < self.nonces.len()
            invariant
                0 <= i <= self.nonces@.len(),
                forall|j: int| 0 <= j < i ==> self.nonces@[j].0@ != id@,
            decreases self.nonces@.len() - i,
        {
            if self.nonces[i].0.same_as(id) {
                return Some(i);
            }
            i = i + 1;
        }
        None
    }

    /// The nonce counter of `id`, zero if none is stored.
    pub fn read_nonce(&self, id: &Identifier) -> (r: u64)
        requires
            self.wf(),
        ensures
            r == self.nonce_of(id@),
    {
        match self.find_nonce(id) {
            Some(i) => {
                proof {
                    self.lemma_nonce_at(i as int);
                }
                self.nonces[i].1
            },
            None => 0,
        }
    }

    /// Stores `n` as the nonce counter of `id`; a counter never goes back.
    pub fn write_nonce(&mut self, id: Identifier, n: u64)
        requires
            old(self).wf(),
            old(self).nonce_of(id@) <= n,
        ensures
            final(self).wf(),
            final(self).has_nonce(id@),
            final(self).nonce_of(id@) == n,
            forall|k: Seq<u8>|
                k != id@ ==> final(self).has_nonce(k) == old(self).has_nonce(k)
                    && final(self).nonce_of(k) == old(self).nonce_of(k),
            final(self).owner() == old(self).owner(),
            final(self).admins() == old(self).admins(),
            final(self).same_scope(old(self)),
    {
        let ghost pre = *self;
        match self.find_nonce(&id) {
            Some(i) => {
                self.nonces.set(i, (id, n));
                proof {
                    assert(self.nonces@ == pre.nonces@.update(i as int, (id, n)));
                    self.lemma_nonce_at(i as int);
                    assert forall|k: Seq<u8>| k != id@ implies self.has_nonce(k) == pre.has_nonce(k)
                        && self.nonce_of(k) == pre.nonce_of(k) by {
                        if pre.has_nonce(k) {
                            let j = choose|j: int|
                                0 <= j < pre.nonces@.len() && pre.nonces@[j].0@ == k;
                            pre.lemma_nonce_at(j);
                            self.lemma_nonce_at(j);
                        }
                        if self.has_nonce(k) {
                            let j = choose|j: int|
                                0 <= j < self.nonces@.len() && self.nonces@[j].0@ == k;
                            assert(pre.nonces@[j].0@ == k);
                        }
                    }
                }
            },
            None => {
                self.nonces.push((id, n));
                proof {
                    let last = pre.nonces@.len() as int;
                    assert(self.nonces@[last] == (id, n));
                    self.lemma_nonce_at(last);
                    assert forall|k: Seq<u8>| k != id@ implies self.has_nonce(k) == pre.has_nonce(k)
                        && self.nonce_of(k) == pre.nonce_of(k) by {
                        if pre.has_nonce(k) {
                            let j = choose|j: int|
                                0 <= j < pre.nonces@.len() && pre.nonces@[j].0@ == k;
                            pre.lemma_nonce_at(j);
                            assert(self.nonces@[j] == pre.nonces@[j]);
                            self.lemma_nonce_at(j);
                        }
                        if self.has_nonce(k) {
                            let j = choose|j: int|
                                0 <= j < self.nonces@.len() && self.nonces@[j].0@ == k;
                            assert(j != last);
                            assert(pre.nonces@[j].0@ == k);
                        }
                    }
                }
            },
        }
        assert(self.admins() =~= pre.admins());
    }

    /// Whether the admin set holds `id`.
    pub fn is_admin(&self, id: &Identifier) -> (r: bool)
        ensures
            r == self.admins().contains(id@),
    {
        let mut i: usize = 0;
        while i < self.admins.len()
            invariant
                0 <= i <= self.admins@.len(),
                forall|j: int| 0 <= j < i ==> self.admins@[j]@ != id@,
            decreases self.admins@.len() - i,
        {
            if self.admins[i].same_as(id) {
                return true;
            }
            i = i + 1;
        }
        false
    }

    /// Adds `id` to the admin set; adding an admin twice changes nothing.
    pub fn insert_admin(&mut self, id: Identifier)
        requires
            old(self).wf(),
        ensures
            final(self).wf(),
            final(self).admins() == old(self).admins().insert(id@),
            final(self).owner() == old(self).owner(),
            final(self).same_nonces(old(self)),
            final(self).same_scope(old(self)),
    {
        let ghost pre = *self;
        if !self.is_admin(&id) {
            self.admins.push(id);
            proof {
                let last = pre.admins@.len() as int;
                assert(self.admins@[last] == id);
                assert forall|k: Seq<u8>|
                    pre.admins().insert(id@).contains(k) implies self.admins().contains(k) by {
                    if pre.admins().contains(k) {
                        let j = choose|j: int|
                            0 <= j < pre.admins@.len() && pre.admins@[j]@ == k;
                        assert(self.admins@[j] == pre.admins@[j]);
                    } else {
                        assert(self.admins@[last]@ == k);
                    }
                }
                assert forall|k: Seq<u8>|
                    self.admins().contains(k) implies pre.admins().insert(id@).contains(k) by {
                    let j = choose|j: int| 0 <= j < self.admins@.len() && self.admins@[j]@ == k;
                    if j < last {
                        assert(pre.admins@[j]@ == k);
                    }
                }
            }
        }
        assert(self.admins() =~= pre.admins().insert(id@));
        proof {
            self.lemma_same_entries(&pre);
        }
    }

    /// The admins, each once.
    pub fn admin_list(&self) -> (r: Vec<Identifier>)
        requires
            self.wf(),
        ensures
            forall|i: int, j: int| 0 <= i < j < r@.len() ==> r@[i]@ != r@[j]@,
            forall|k: Seq<u8>|
                self.admins().contains(k) <==> exists|i: int| 0 <= i < r@.len() && r@[i]@ == k,
    {
        let mut r: Vec<Identifier> = Vec::new();
        let mut i: usize = 0;
        while i < self.admins.len()
            invariant
                0 <= i <= self.admins@.len(),
                r@ == self.admins@.subrange(0, i as int),
            decreases self.admins@.len() - i,
        {
            r.push(self.admins[i]);
            assert(r@ =~= self.admins@.subrange(0, i + 1));
            i = i + 1;
        }
        assert(r@ =~= self.admins@);
        r
    }

    /// Whether the store holds an entry under `key`.
    pub fn has(&self, key: &DataStoreKey) -> (r: bool)
        ensures
            r == match key {
                DataStoreKey::Owner => self.owner() is Some,
                DataStoreKey::Admins => !self.admins().is_empty(),
                DataStoreKey::Nonce(id) => self.has_nonce(id@),
            },
    {
        match key {
            DataStoreKey::Owner => self.owner.is_some(),
            DataStoreKey::Admins => {
                if self.admins.len() > 0 {
                    assert(self.admins().contains(self.admins@[0]@));
                    true
                } else {
                    assert(self.admins() =~= Set::<Seq<u8>>::empty());
                    false
                }
            },
            DataStoreKey::Nonce(id) => self.find_nonce(id).is_some(),
        }
    }
}

} // verus!
