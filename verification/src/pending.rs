//! Imports waiting for confirmation, keyed by preview token.
//!
//! A preview caches the decrypted bundle under a fresh token; applying the
//! import consumes the token. Tokens expire a fixed time after they were
//! issued, and every new preview first drops the expired ones.

use vstd::prelude::*;
use crate::keyed::{find_key, keyed_match, lemma_remove_keyed, put_keyed, Keyed};

verus! {

/// How long a preview token remains valid: five minutes, in nanoseconds.
pub const PREVIEW_TOKEN_TTL_NANOS: u128 = 300_000_000_000;

/// Time elapsed from `created` to `now`, or zero when `now` is earlier.
pub open spec fn elapsed(created: u128, now: u128) -> int {
    if now >= created {
        now - created
    } else {
        0
    }
}

/// Whether a token issued at `created` is still valid at `now`.
pub open spec fn is_fresh(created: u128, now: u128) -> bool {
    elapsed(created, now) < PREVIEW_TOKEN_TTL_NANOS
}

/// The pending imports that are still valid at `now`.
pub open spec fn pruned<T>(m: Map<Seq<char>, (u128, T)>, now: u128) -> Map<Seq<char>, (u128, T)> {
    Map::new(|k: Seq<char>| m.contains_key(k) && is_fresh(m[k].0, now), |k: Seq<char>| m[k])
}

/// The validity window of a preview token is five minutes.
pub proof fn lemma_token_window_is_five_minutes()
    ensures
        PREVIEW_TOKEN_TTL_NANOS == 5 * 60 * 1_000_000_000,
{
}

/// Pruning keeps exactly the imports still fresh, each as it was: a token
/// younger than the validity window survives every prune, an older one is
/// dropped, and nothing is added.
pub proof fn lemma_prune_keeps_fresh<T>(m: Map<Seq<char>, (u128, T)>, now: u128)
    ensures
        forall|k: Seq<char>| m.contains_key(k) && (now < m[k].0 || now - m[k].0 < PREVIEW_TOKEN_TTL_NANOS)
            ==> #[trigger] pruned(m, now).contains_key(k) && pruned(m, now)[k] == m[k],
        forall|k: Seq<char>| #[trigger] pruned(m, now).contains_key(k) ==> m.contains_key(k)
            && pruned(m, now)[k] == m[k],
        forall|k: Seq<char>| m.contains_key(k) && now >= m[k].0 && now - m[k].0 >= PREVIEW_TOKEN_TTL_NANOS
            ==> !(#[trigger] pruned(m, now).contains_key(k)),
{
}

/// A new preview does not disturb the others: taking a token issued at
/// `issued` gives the same answer after another token was previewed at
/// `later`, as long as the first token was still fresh at `later`.
pub proof fn lemma_new_preview_keeps_earlier<T>(
    m: Map<Seq<char>, (u128, T)>,
    token: Seq<char>,
    other: Seq<char>,
    later: u128,
    now: u128,
    value: T,
)
    requires
        token != other,
        m.contains_key(token),
        m[token].0 <= later,
        later - m[token].0 < PREVIEW_TOKEN_TTL_NANOS,
    ensures
        take_outcome(pruned(m, later).insert(other, (later, value)), token, now) == take_outcome(m, token, now),
{
    lemma_prune_keeps_fresh(m, later);
}

/// Why a pending import could not be taken.
#[derive(Clone, Copy, Debug, PartialEq, Eq)]
pub enum PendingImportError {
    /// No import is pending under the token (never issued, already
    /// consumed, or dropped when expired).
    UnknownToken,
    /// The token was issued longer ago than the validity window.
    Expired,
}

/// What taking `token` at `now` yields from the pending imports `m`.
pub open spec fn take_outcome<T>(m: Map<Seq<char>, (u128, T)>, token: Seq<char>, now: u128) -> Result<T, PendingImportError> {
    if !m.contains_key(token) {
        Err(PendingImportError::UnknownToken)
    } else if is_fresh(m[token].0, now) {
        Ok(m[token].1)
    } else {
        Err(PendingImportError::Expired)
    }
}

/// An import previewed at `issued` can be applied with its token up to the
/// end of the validity window, and yields what the preview cached.
pub proof fn lemma_preview_then_apply<T>(m: Map<Seq<char>, (u128, T)>, token: Seq<char>, issued: u128, applied: u128, value: T)
    requires
        issued <= applied,
        applied - issued < PREVIEW_TOKEN_TTL_NANOS,
    ensures
        take_outcome(pruned(m, issued).insert(token, (issued, value)), token, applied) == Ok::<T, PendingImportError>(value),
{
}

/// Once the validity window has passed, the token is refused as expired.
pub proof fn lemma_expired_token_refused<T>(m: Map<Seq<char>, (u128, T)>, token: Seq<char>, issued: u128, applied: u128, value: T)
    requires
        issued <= applied,
        applied - issued >= PREVIEW_TOKEN_TTL_NANOS,
    ensures
        take_outcome(pruned(m, issued).insert(token, (issued, value)), token, applied) == Err::<T, PendingImportError>(PendingImportError::Expired),
{
}

/// A token is consumed by its first use: after taking it, whatever the
/// outcome, taking it again finds nothing.
pub proof fn lemma_token_single_use<T>(m: Map<Seq<char>, (u128, T)>, token: Seq<char>, now: u128)
    ensures
        take_outcome(m.remove(token), token, now) == Err::<T, PendingImportError>(PendingImportError::UnknownToken),
{
}

/// Taking one token leaves the other pending imports as they were.
pub proof fn lemma_take_keeps_others<T>(m: Map<Seq<char>, (u128, T)>, token: Seq<char>, other: Seq<char>, now: u128)
    requires
        token != other,
    ensures
        take_outcome(m.remove(token), other, now) == take_outcome(m, other, now),
{
}

/// How a pending entry appears in the model: as stored.
spec fn entry_view<T>() -> spec_fn((u128, T)) -> (u128, T) {
    |v: (u128, T)| v
}

fn prune_entries<T>(entries: Vec<Keyed<(u128, T)>>, Ghost(model): Ghost<Map<Seq<char>, (u128, T)>>, now: u128) -> (r: (Vec<Keyed<(u128, T)>>, Ghost<Map<Seq<char>, (u128, T)>>))
    requires
        keyed_match(entries@, model, entry_view()),
    ensures
        keyed_match(r.0@, r.1@, entry_view()),
        r.1@ == pruned(model, now),
{
    let mut entries = entries;
    let ghost mut m = model;
    let mut i: usize = 0;
    while i < entries.len()
        invariant
            keyed_match(entries@, m, entry_view()),
            i <= entries@.len(),
            forall|k: Seq<char>| #[trigger] m.contains_key(k) ==> model.contains_key(k) && m[k] == model[k],
            forall|k: Seq<char>| #[trigger] model.contains_key(k) && is_fresh(model[k].0, now) ==> m.contains_key(k),
            forall|j: int| 0 <= j < i ==> is_fresh(#[trigger] entries@[j].value.0, now),
        decreases entries@.len() - i,
    {
        let created = entries[i].value.0;
        let age: u128 = if now >= created { now - created } else { 0 };
        if age >= PREVIEW_TOKEN_TTL_NANOS {
            let ghost before = entries@;
            proof {
                lemma_remove_keyed(before, m, entry_view(), i as int);
                m = m.remove(before[i as int].key@);
            }
            let _expired = entries.remove(i);
            proof {
                assert forall|j: int| 0 <= j < i implies is_fresh(#[trigger] entries@[j].value.0, now) by {
                    assert(entries@[j] == before[j]);
                }
            }
        } else {
            i = i + 1;
        }
    }
    proof {
        assert forall|k: Seq<char>| #[trigger] m.contains_key(k) implies is_fresh(m[k].0, now) by {
            let j = choose|j: int| 0 <= j < entries@.len() && #[trigger] entries@[j].key@ == k;
            assert(is_fresh(entries@[j].value.0, now));
        }
        assert(m =~= pruned(model, now));
    }
    (entries, Ghost(m))
}

/// Imports waiting for the operator to confirm, by preview token.
pub struct PendingImports<T> {
    entries: Vec<Keyed<(u128, T)>>,
    model: Ghost<Map<Seq<char>, (u128, T)>>,
}

impl<T> PendingImports<T> {
    #[verifier::type_invariant]
    spec fn wf(&self) -> bool {
        keyed_match(self.entries@, self.model@, entry_view())
    }

    /// The pending imports: for each token, when it was issued and what it holds.
    pub closed spec fn view(&self) -> Map<Seq<char>, (u128, T)> {
        self.model@
    }

    /// No import is pending.
    pub fn new() -> (r: Self)
        ensures
            r@ == Map::<Seq<char>, (u128, T)>::empty(),
    {
        PendingImports { entries: Vec::new(), model: Ghost(Map::empty()) }
    }

    /// Drop every import whose token has expired at `now`.
    pub fn prune(&mut self, now: u128)
        ensures
            final(self)@ == pruned(old(self)@, now),
    {
        let mut me = PendingImports::new();
        std::mem::swap(&mut me, self);
        proof {
            use_type_invariant(&me);
        }
        let PendingImports { entries, model } = me;
        let (entries, model) = prune_entries(entries, model, now);
        *self = PendingImports { entries, model };
    }

    /// Drop expired imports, then record `value` under `token`, issued at `now`
    /// (replacing any import already under that token).
    pub fn insert(&mut self, token: String, now: u128, value: T)
        ensures
            final(self)@ == pruned(old(self)@, now).insert(token@, (now, value)),
    {
        let mut me = PendingImports::new();
        std::mem::swap(&mut me, self);
        proof {
            use_type_invariant(&me);
        }
        let PendingImports { entries, model } = me;
        let (entries, model) = prune_entries(entries, model, now);
        let mut entries = entries;
        let ghost k = token@;
        let ghost v = (now, value);
        proof {
            assert(entry_view()(v) == v);
        }
        put_keyed(&mut entries, token, (now, value), model, Ghost(entry_view()));
        *self = PendingImports { entries, model: Ghost(model@.insert(k, v)) };
    }

    /// Remove the import under `token` and return it if its token is still
    /// valid at `now`; the token is consumed whatever the outcome.
    pub fn take(&mut self, token: &str, now: u128) -> (r: Result<T, PendingImportError>)
        ensures
            final(self)@ == old(self)@.remove(token@),
            r == take_outcome(old(self)@, token@, now),
    {
        let mut me = PendingImports::new();
        std::mem::swap(&mut me, self);
        proof {
            use_type_invariant(&me);
        }
        let PendingImports { entries, model } = me;
        let mut entries = entries;
        match find_key(&entries, token, model, Ghost(entry_view())) {
            None => {
                proof {
                    assert(model@.remove(token@) =~= model@);
                }
                *self = PendingImports { entries, model: Ghost(model@.remove(token@)) };
                Err(PendingImportError::UnknownToken)
            },
            Some(i) => {
                proof {
                    lemma_remove_keyed(entries@, model@, entry_view(), i as int);
                }
                let entry = entries.remove(i);
                *self = PendingImports { entries, model: Ghost(model@.remove(token@)) };
                let Keyed { key: _, value: (created_at, value) } = entry;
                let age: u128 = if now >= created_at { now - created_at } else { 0 };
                if age >= PREVIEW_TOKEN_TTL_NANOS {
                    Err(PendingImportError::Expired)
                } else {
                    Ok(value)
                }
            },
        }
    }
}

} // verus!
