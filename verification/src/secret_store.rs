//! Secret stores that live in this library: one that refuses everything
//! (no provider configured) and one that keeps secrets in memory.

use vstd::prelude::*;
use crate::key_store::{SecretStore, StoreError};
use crate::keyed::{find_key, keyed_match, lemma_remove_keyed, put_keyed, Keyed};

verus! {

/// Secret store used when no provider is configured: every operation fails.
pub struct NullSecretStore;

impl NullSecretStore {
    fn refusal() -> (e: StoreError)
        ensures
            e.message@ == "no secret store is configured"@,
    {
        StoreError { message: String::from_str("no secret store is configured") }
    }
}

impl SecretStore for NullSecretStore {
    open spec fn entries(&self) -> Map<Seq<char>, Seq<u8>> {
        Map::empty()
    }

    open spec fn never_fails(&self) -> bool {
        false
    }

    fn put(&mut self, path: &str, value: &[u8]) -> (r: Result<(), StoreError>)
        ensures
            r matches Err(e) && e.message@ == "no secret store is configured"@,
    {
        Err(Self::refusal())
    }

    fn get(&self, path: &str) -> (r: Result<Option<Vec<u8>>, StoreError>)
        ensures
            r matches Err(e) && e.message@ == "no secret store is configured"@,
    {
        Err(Self::refusal())
    }

    fn delete(&mut self, path: &str) -> (r: Result<(), StoreError>)
        ensures
            r matches Err(e) && e.message@ == "no secret store is configured"@,
    {
        Err(Self::refusal())
    }
}

/// How a stored value appears in the model: its bytes.
spec fn value_view() -> spec_fn(Vec<u8>) -> Seq<u8> {
    |v: Vec<u8>| v@
}

/// Secret store that keeps its entries in memory; it never fails.
pub struct MemorySecretStore {
    slots: Vec<Keyed<Vec<u8>>>,
    model: Ghost<Map<Seq<char>, Seq<u8>>>,
}

impl MemorySecretStore {
    #[verifier::type_invariant]
    spec fn wf(&self) -> bool {
        keyed_match(self.slots@, self.model@, value_view())
    }

    /// An empty store.
    pub fn new() -> (r: Self)
        ensures
            r.entries() == Map::<Seq<char>, Seq<u8>>::empty(),
    {
        MemorySecretStore { slots: Vec::new(), model: Ghost(Map::empty()) }
    }

    /// Every path held by the store, each once.
    pub fn paths(&self) -> (r: Vec<String>)
        ensures
            forall|i: int, j: int| 0 <= i < j < r@.len() ==> #[trigger] r@[i]@ != #[trigger] r@[j]@,
            forall|i: int| 0 <= i < r@.len() ==> self.entries().contains_key(#[trigger] r@[i]@),
            forall|k: Seq<char>| #[trigger] self.entries().contains_key(k) ==> exists|i: int|
                0 <= i < r@.len() && #[trigger] r@[i]@ == k,
    {
        proof {
            use_type_invariant(self);
        }
        let mut out: Vec<String> = Vec::new();
        let mut i: usize = 0;
        while i < self.slots.len()
            invariant
                keyed_match(self.slots@, self.model@, value_view()),
                i <= self.slots@.len(),
                out@.len() == i,
                forall|j: int| 0 <= j < i ==> #[trigger] out@[j]@ == self.slots@[j].key@,
            decreases self.slots@.len() - i,
        {
            out.push(self.slots[i].key.clone());
            i = i + 1;
        }
        proof {
            assert forall|k: Seq<char>| #[trigger] self.entries().contains_key(k) implies exists|j: int|
                0 <= j < out@.len() && #[trigger] out@[j]@ == k by {
                let j = choose|j: int| 0 <= j < self.slots@.len() && #[trigger] self.slots@[j].key@ == k;
                assert(out@[j]@ == k);
            }
        }
        out
    }
}

impl SecretStore for MemorySecretStore {
    closed spec fn entries(&self) -> Map<Seq<char>, Seq<u8>> {
        self.model@
    }

    open spec fn never_fails(&self) -> bool {
        true
    }

    fn put(&mut self, path: &str, value: &[u8]) -> (r: Result<(), StoreError>)
        ensures
            r is Ok,
    {
        let mut me = MemorySecretStore::new();
        std::mem::swap(&mut me, self);
        proof {
            use_type_invariant(&me);
        }
        let MemorySecretStore { slots, model } = me;
        let mut slots = slots;
        let stored = vstd::slice::slice_to_vec(value);
        proof {
            assert(value_view()(stored) == value@);
        }
        put_keyed(&mut slots, String::from_str(path), stored, model, Ghost(value_view()));
        *self = MemorySecretStore { slots, model: Ghost(model@.insert(path@, value@)) };
        Ok(())
    }

    fn get(&self, path: &str) -> (r: Result<Option<Vec<u8>>, StoreError>)
        ensures
            r is Ok,
    {
        proof {
            use_type_invariant(self);
        }
        match find_key(&self.slots, path, self.model, Ghost(value_view())) {
            Some(i) => Ok(Some(self.slots[i].value.clone())),
            None => Ok(None),
        }
    }

    fn delete(&mut self, path: &str) -> (r: Result<(), StoreError>)
        ensures
            r is Ok,
    {
        let mut me = MemorySecretStore::new();
        std::mem::swap(&mut me, self);
        proof {
            use_type_invariant(&me);
        }
        let MemorySecretStore { slots, model } = me;
        let mut slots = slots;
        match find_key(&slots, path, model, Ghost(value_view())) {
            Some(i) => {
                proof {
                    lemma_remove_keyed(slots@, model@, value_view(), i as int);
                }
                let _gone = slots.remove(i);
                *self = MemorySecretStore { slots, model: Ghost(model@.remove(path@)) };
            },
            None => {
                proof {
                    assert(model@.remove(path@) =~= model@);
                }
                *self = MemorySecretStore { slots, model: Ghost(model@.remove(path@)) };
            },
        }
        Ok(())
    }
}

} // verus!
