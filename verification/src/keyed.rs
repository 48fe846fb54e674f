//! A vector of entries keyed by text, held in step with a map model: each key
//! occurs once, and the map sends each key to the view of its entry's value.
//! The secret store and the pending imports keep their contents this way.

use vstd::prelude::*;

verus! {

/// One entry: its key and its value.
pub struct Keyed<V> {
    pub key: String,
    pub value: V,
}

/// One entry per key, each agreeing with the model through `f`.
pub open spec fn keyed_match<V, W>(entries: Seq<Keyed<V>>, model: Map<Seq<char>, W>, f: spec_fn(V) -> W) -> bool {
    &&& forall|i: int, j: int|
        0 <= i < j < entries.len() ==> #[trigger] entries[i].key@ != #[trigger] entries[j].key@
    &&& forall|i: int|
        0 <= i < entries.len() ==> model.contains_key(#[trigger] entries[i].key@)
            && model[entries[i].key@] == f(entries[i].value)
    &&& forall|k: Seq<char>|
        #[trigger] model.contains_key(k) ==> exists|i: int| 0 <= i < entries.len() && #[trigger] entries[i].key@ == k
}

/// The position of the entry with key `key`, if there is one.
pub fn find_key<V, W>(entries: &Vec<Keyed<V>>, key: &str, Ghost(model): Ghost<Map<Seq<char>, W>>, Ghost(f): Ghost<spec_fn(V) -> W>) -> (r: Option<usize>)
    requires
        keyed_match(entries@, model, f),
    ensures
        r matches Some(i) ==> i < entries@.len() && entries@[i as int].key@ == key@,
        r is None ==> !model.contains_key(key@),
{
    let mut i: usize = 0;
    while i < entries.len()
        invariant
            keyed_match(entries@, model, f),
            i <= entries@.len(),
            forall|j: int| 0 <= j < i ==> #[trigger] entries@[j].key@ != key@,
        decreases entries@.len() - i,
    {
        if crate::text::str_eq(entries[i].key.as_str(), key) {
            return Some(i);
        }
        i = i + 1;
    }
    None
}

/// Removing the entry at `i` removes its key from the model.
pub proof fn lemma_remove_keyed<V, W>(before: Seq<Keyed<V>>, model: Map<Seq<char>, W>, f: spec_fn(V) -> W, i: int)
    requires
        keyed_match(before, model, f),
        0 <= i < before.len(),
    ensures
        keyed_match(before.remove(i), model.remove(before[i].key@), f),
{
    let after = before.remove(i);
    let k = before[i].key@;
    let m = model.remove(k);
    assert forall|a: int, b: int| 0 <= a < b < after.len() implies #[trigger] after[a].key@ != #[trigger] after[b].key@ by {
        let a2 = if a < i { a } else { a + 1 };
        let b2 = if b < i { b } else { b + 1 };
        assert(after[a] == before[a2]);
        assert(after[b] == before[b2]);
    }
    assert forall|j: int| 0 <= j < after.len() implies m.contains_key(#[trigger] after[j].key@)
        && m[after[j].key@] == f(after[j].value) by {
        let j2 = if j < i { j } else { j + 1 };
        assert(after[j] == before[j2]);
        assert(before[j2].key@ != k);
    }
    assert forall|kk: Seq<char>| #[trigger] m.contains_key(kk) implies exists|j: int| 0 <= j < after.len() && #[trigger] after[j].key@ == kk by {
        let j2 = choose|j2: int| 0 <= j2 < before.len() && #[trigger] before[j2].key@ == kk;
        assert(j2 != i);
        let j = if j2 < i { j2 } else { j2 - 1 };
        assert(after[j] == before[j2]);
    }
}

/// Replacing the entry at `i`, under the same key, updates that key's value
/// in the model.
pub proof fn lemma_replace_keyed<V, W>(before: Seq<Keyed<V>>, after: Seq<Keyed<V>>, model: Map<Seq<char>, W>, f: spec_fn(V) -> W, i: int, k: Seq<char>, v: W)
    requires
        keyed_match(before, model, f),
        0 <= i < before.len(),
        before[i].key@ == k,
        after.len() == before.len(),
        after[i].key@ == k,
        f(after[i].value) == v,
        forall|j: int| 0 <= j < after.len() && j != i ==> #[trigger] after[j] == before[j],
    ensures
        keyed_match(after, model.insert(k, v), f),
{
    let m = model.insert(k, v);
    assert forall|a: int, b: int| 0 <= a < b < after.len() implies #[trigger] after[a].key@ != #[trigger] after[b].key@ by {
        if a != i && b != i {
            assert(after[a] == before[a]);
            assert(after[b] == before[b]);
        } else if a == i {
            assert(after[b] == before[b]);
        } else {
            assert(after[a] == before[a]);
        }
    }
    assert forall|j: int| 0 <= j < after.len() implies m.contains_key(#[trigger] after[j].key@)
        && m[after[j].key@] == f(after[j].value) by {
        if j != i {
            assert(after[j] == before[j]);
            assert(before[j].key@ != before[i].key@);
        }
    }
    assert forall|kk: Seq<char>| #[trigger] m.contains_key(kk) implies exists|j: int| 0 <= j < after.len() && #[trigger] after[j].key@ == kk by {
        if kk == k {
            assert(after[i].key@ == kk);
        } else {
            let j = choose|j: int| 0 <= j < before.len() && #[trigger] before[j].key@ == kk;
            assert(after[j] == before[j]);
        }
    }
}

/// Appending an entry under a new key adds that key to the model.
pub proof fn lemma_push_keyed<V, W>(before: Seq<Keyed<V>>, after: Seq<Keyed<V>>, model: Map<Seq<char>, W>, f: spec_fn(V) -> W, k: Seq<char>, v: W)
    requires
        keyed_match(before, model, f),
        !model.contains_key(k),
        after.len() == before.len() + 1,
        after[before.len() as int].key@ == k,
        f(after[before.len() as int].value) == v,
        forall|j: int| 0 <= j < before.len() ==> #[trigger] after[j] == before[j],
    ensures
        keyed_match(after, model.insert(k, v), f),
{
    let m = model.insert(k, v);
    let last = before.len() as int;
    assert forall|a: int, b: int| 0 <= a < b < after.len() implies #[trigger] after[a].key@ != #[trigger] after[b].key@ by {
        assert(after[a] == before[a]);
        if b < last {
            assert(after[b] == before[b]);
        } else {
            assert(model.contains_key(before[a].key@));
        }
    }
    assert forall|j: int| 0 <= j < after.len() implies m.contains_key(#[trigger] after[j].key@)
        && m[after[j].key@] == f(after[j].value) by {
        if j < last {
            assert(after[j] == before[j]);
            assert(model.contains_key(before[j].key@));
        }
    }
    assert forall|kk: Seq<char>| #[trigger] m.contains_key(kk) implies exists|j: int| 0 <= j < after.len() && #[trigger] after[j].key@ == kk by {
        if kk == k {
            assert(after[last].key@ == kk);
        } else {
            let j = choose|j: int| 0 <= j < before.len() && #[trigger] before[j].key@ == kk;
            assert(after[j] == before[j]);
        }
    }
}

/// Putting `value` under `key`: the entry for the key is replaced when there
/// is one, otherwise a new entry is appended; the model maps the key to the
/// value's view.
pub fn put_keyed<V, W>(entries: &mut Vec<Keyed<V>>, key: String, value: V, Ghost(model): Ghost<Map<Seq<char>, W>>, Ghost(f): Ghost<spec_fn(V) -> W>)
    requires
        keyed_match(old(entries)@, model, f),
    ensures
        keyed_match(final(entries)@, model.insert(key@, f(value)), f),
{
    let ghost before = entries@;
    let ghost k = key@;
    let ghost v = f(value);
    let found = find_key::<V, W>(entries, key.as_str(), Ghost(model), Ghost(f));
    let entry = Keyed { key, value };
    match found {
        Some(i) => {
            let _replaced = entries.remove(i);
            entries.insert(i, entry);
            proof {
                lemma_replace_keyed(before, entries@, model, f, i as int, k, v);
            }
        },
        None => {
            entries.push(entry);
            proof {
                lemma_push_keyed(before, entries@, model, f, k, v);
            }
        },
    }
}

} // verus!
