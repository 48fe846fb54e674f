//! WireGuard private keys kept in the general-purpose secret store.
//!
//! Keys live at `wireguard/<tunnel-uuid>.key` inside a [`SecretStore`]; the
//! adapter only exposes what tunnels need: save, load and delete, keyed by
//! tunnel id.

use vstd::prelude::*;
use vstd::string::StringSliceAdditionalSpecFns;
use crate::text::{push_char, push_str};

verus! {

/// Namespace used for WireGuard private keys inside the secret store.
pub const WIREGUARD_NAMESPACE: &'static str = "wireguard";

/// The `count` lowest hexadecimal digits of `n`, most significant first.
pub open spec fn hex_digits(n: nat, count: nat) -> Seq<char>
    decreases count,
{
    if count == 0 {
        Seq::empty()
    } else {
        hex_digits(n / 16, (count - 1) as nat).push(crate::text::hex_digit(n % 16))
    }
}

/// Hyphenated lowercase text of a UUID given by its 128-bit value:
/// 32 hex digits grouped 8-4-4-4-12.
pub open spec fn uuid_text(id: u128) -> Seq<char> {
    let d = hex_digits(id as nat, 32);
    d.subrange(0, 8) + seq!['-'] + d.subrange(8, 12) + seq!['-'] + d.subrange(12, 16) + seq!['-']
        + d.subrange(16, 20) + seq!['-'] + d.subrange(20, 32)
}

/// Where the private key of a tunnel is stored.
pub open spec fn key_path(tunnel_id: u128) -> Seq<char> {
    WIREGUARD_NAMESPACE@ + seq!['/'] + uuid_text(tunnel_id) + ".key"@
}

/// `uuid::Uuid::from_u128(id).hyphenated().to_string()`: the 16 big-endian
/// bytes of `id` as lowercase hex, in groups of 8-4-4-4-12 digits joined by `-`.
#[verifier::external_body]
fn uuid_hyphenated(id: u128) -> (s: String)
    ensures
        s@ == uuid_text(id),
{
    uuid::Uuid::from_u128(id).hyphenated().to_string()
}

/// What `String::from_utf8` reports about bytes that are not valid UTF-8.
pub uninterp spec fn utf8_error_text(bytes: Seq<u8>) -> Seq<char>;

/// `String::from_utf8`: succeeds exactly on valid UTF-8, with the decoded
/// characters; otherwise returns the display text of the error.
#[verifier::external_body]
pub(crate) fn string_from_utf8(bytes: Vec<u8>) -> (r: Result<String, String>)
    ensures
        r is Ok <==> vstd::utf8::valid_utf8(bytes@),
        r matches Ok(s) ==> s@ == vstd::utf8::decode_utf8(bytes@),
        r matches Err(e) ==> e@ == utf8_error_text(bytes@),
{
    match String::from_utf8(bytes) {
        Ok(s) => Ok(s),
        Err(e) => Err(e.to_string()),
    }
}

/// Failure reported by a secret store.
#[derive(Clone, Debug, PartialEq, Eq)]
pub struct StoreError {
    pub message: String,
}

/// General-purpose secret storage, keyed by relative slash-separated paths.
///
/// Its contents are modelled as a map from path to bytes. An operation may
/// fail (for instance a store with no provider configured refuses
/// everything, and a store on disk fails with the disk); an operation that
/// succeeds behaves as stated. A store that declares itself `never_fails`
/// (such as the in-memory store) succeeds at every operation.
pub trait SecretStore {
    /// The paths held by the store and the bytes stored at each.
    spec fn entries(&self) -> Map<Seq<char>, Seq<u8>>;

    /// Whether every operation of this store succeeds.
    spec fn never_fails(&self) -> bool;

    /// Store `value` at `path`, replacing any previous value.
    fn put(&mut self, path: &str, value: &[u8]) -> (r: Result<(), StoreError>)
        ensures
            r is Ok ==> final(self).entries() == old(self).entries().insert(path@, value@),
            old(self).never_fails() ==> r is Ok,
            final(self).never_fails() == old(self).never_fails();

    /// Read the value at `path`; `None` when nothing is stored there.
    fn get(&self, path: &str) -> (r: Result<Option<Vec<u8>>, StoreError>)
        ensures
            r matches Ok(Some(v)) ==> self.entries().contains_key(path@) && self.entries()[path@] == v@,
            r matches Ok(None) ==> !self.entries().contains_key(path@),
            self.never_fails() ==> r is Ok;

    /// Remove the value at `path`; removing a missing path succeeds.
    fn delete(&mut self, path: &str) -> (r: Result<(), StoreError>)
        ensures
            r is Ok ==> final(self).entries() == old(self).entries().remove(path@),
            old(self).never_fails() ==> r is Ok,
            final(self).never_fails() == old(self).never_fails();
}

/// Why a key operation failed.
#[derive(Clone, Debug, PartialEq, Eq)]
pub enum KeyStoreError {
    /// No key is stored for the tunnel.
    NotFound { tunnel_id: u128 },
    /// The stored key is not valid UTF-8; `detail` is the decoder's message.
    NotUtf8 { tunnel_id: u128, detail: String },
    /// The secret store itself failed.
    Store(StoreError),
}

impl KeyStoreError {
    /// The display text of this error.
    pub fn message(&self) -> (r: String)
        ensures
            r@ == match *self {
                KeyStoreError::NotFound { tunnel_id } =>
                    "private key not found for tunnel_id="@ + uuid_text(tunnel_id),
                KeyStoreError::NotUtf8 { tunnel_id, detail } =>
                    "private key is not valid utf-8: tunnel_id="@ + uuid_text(tunnel_id) + ": "@ + detail@,
                KeyStoreError::Store(e) => e.message@,
            },
    {
        match self {
            KeyStoreError::NotFound { tunnel_id } => {
                let mut r = String::new();
                push_str(&mut r, "private key not found for tunnel_id=");
                let id = uuid_hyphenated(*tunnel_id);
                push_str(&mut r, id.as_str());
                proof {
                    assert(Seq::<char>::empty() + "private key not found for tunnel_id="@ =~= "private key not found for tunnel_id="@);
                }
                r
            },
            KeyStoreError::NotUtf8 { tunnel_id, detail } => {
                let mut r = String::new();
                push_str(&mut r, "private key is not valid utf-8: tunnel_id=");
                let id = uuid_hyphenated(*tunnel_id);
                push_str(&mut r, id.as_str());
                push_str(&mut r, ": ");
                push_str(&mut r, detail.as_str());
                proof {
                    assert(Seq::<char>::empty() + "private key is not valid utf-8: tunnel_id="@ =~= "private key is not valid utf-8: tunnel_id="@);
                }
                r
            },
            KeyStoreError::Store(e) => e.message.clone(),
        }
    }
}

/// The key text stored for a tunnel, if there is one and it is valid UTF-8.
pub open spec fn stored_key(entries: Map<Seq<char>, Seq<u8>>, tunnel_id: u128) -> Option<Seq<char>> {
    let p = key_path(tunnel_id);
    if entries.contains_key(p) && vstd::utf8::valid_utf8(entries[p]) {
        Some(vstd::utf8::decode_utf8(entries[p]))
    } else {
        None
    }
}

/// What a key operation that only writes to the store answers, given the
/// store's own answer: success on success, the store's error otherwise.
pub fn store_outcome(got: Result<(), StoreError>) -> (r: Result<(), KeyStoreError>)
    ensures
        match got {
            Ok(()) => r == Ok::<(), KeyStoreError>(()),
            Err(e) => r == Err::<(), KeyStoreError>(KeyStoreError::Store(e)),
        },
{
    match got {
        Ok(()) => Ok(()),
        Err(e) => Err(KeyStoreError::Store(e)),
    }
}

/// The key a load answers, given what the store returned for the key's
/// path: the store's error as is, not-found for a missing entry, the text
/// of bytes that are valid UTF-8, and the decoder's error otherwise.
pub fn key_from_store(tunnel_id: u128, got: Result<Option<Vec<u8>>, StoreError>) -> (r: Result<String, KeyStoreError>)
    ensures
        match got {
            Err(e) => r == Err::<String, KeyStoreError>(KeyStoreError::Store(e)),
            Ok(None) => r == Err::<String, KeyStoreError>(KeyStoreError::NotFound { tunnel_id }),
            Ok(Some(b)) => if vstd::utf8::valid_utf8(b@) {
                r matches Ok(s) && s@ == vstd::utf8::decode_utf8(b@) && vstd::utf8::encode_utf8(s@) == b@
            } else {
                r matches Err(KeyStoreError::NotUtf8 { tunnel_id: t, detail }) && t == tunnel_id
                    && detail@ == utf8_error_text(b@)
            },
        },
{
    match got {
        Err(e) => Err(KeyStoreError::Store(e)),
        Ok(None) => Err(KeyStoreError::NotFound { tunnel_id }),
        Ok(Some(bytes)) => {
            let ghost b = bytes@;
            match string_from_utf8(bytes) {
                Ok(s) => {
                    proof {
                        vstd::utf8::decode_utf8_encode_utf8(b);
                    }
                    Ok(s)
                },
                Err(detail) => Err(KeyStoreError::NotUtf8 { tunnel_id, detail }),
            }
        },
    }
}

/// Sixteen to the power `n`.
pub open spec fn pow16(n: nat) -> nat
    decreases n,
{
    if n == 0 {
        1
    } else {
        16 * pow16((n - 1) as nat)
    }
}

proof fn lemma_hex_digit_injective(a: nat, b: nat)
    requires
        a < 16,
        b < 16,
        crate::text::hex_digit(a) == crate::text::hex_digit(b),
    ensures
        a == b,
{
    assert(crate::text::hex_digit(a) as u32 == crate::text::hex_digit(b) as u32);
}

proof fn lemma_hex_digits_len(n: nat, count: nat)
    ensures
        hex_digits(n, count).len() == count,
    decreases count,
{
    if count > 0 {
        lemma_hex_digits_len(n / 16, (count - 1) as nat);
    }
}

proof fn lemma_hex_digits_injective(a: nat, b: nat, count: nat)
    requires
        a < pow16(count),
        b < pow16(count),
        hex_digits(a, count) == hex_digits(b, count),
    ensures
        a == b,
    decreases count,
{
    if count == 0 {
    } else {
        let c = (count - 1) as nat;
        lemma_hex_digits_len(a / 16, c);
        lemma_hex_digits_len(b / 16, c);
        let da = hex_digits(a, count);
        let db = hex_digits(b, count);
        assert(da.last() == crate::text::hex_digit(a % 16));
        assert(db.last() == crate::text::hex_digit(b % 16));
        lemma_hex_digit_injective(a % 16, b % 16);
        assert(hex_digits(a / 16, c) =~= da.drop_last());
        assert(hex_digits(b / 16, c) =~= db.drop_last());
        assert(a / 16 < pow16(c)) by (nonlinear_arith)
            requires
                a < 16 * pow16(c),
        ;
        assert(b / 16 < pow16(c)) by (nonlinear_arith)
            requires
                b < 16 * pow16(c),
        ;
        lemma_hex_digits_injective(a / 16, b / 16, c);
        assert(a == 16 * (a / 16) + a % 16) by (nonlinear_arith);
        assert(b == 16 * (b / 16) + b % 16) by (nonlinear_arith);
    }
}

proof fn lemma_pow16_32()
    ensures
        pow16(32) == 0x1_0000_0000_0000_0000_0000_0000_0000_0000nat,
{
    reveal_with_fuel(pow16, 33);
}

/// Distinct tunnels have distinct UUID texts.
pub proof fn lemma_uuid_text_injective(a: u128, b: u128)
    requires
        uuid_text(a) == uuid_text(b),
    ensures
        a == b,
{
    let da = hex_digits(a as nat, 32);
    let db = hex_digits(b as nat, 32);
    lemma_hex_digits_len(a as nat, 32);
    lemma_hex_digits_len(b as nat, 32);
    let ta = uuid_text(a);
    let tb = uuid_text(b);
    assert(ta.len() == 36);
    assert forall|i: int| 0 <= i < 32 implies da[i] == db[i] by {
        let j = if i < 8 { i } else if i < 12 { i + 1 } else if i < 16 { i + 2 } else if i < 20 { i + 3 } else { i + 4 };
        assert(ta[j] == da[i]);
        assert(tb[j] == db[i]);
    }
    assert(da =~= db);
    lemma_pow16_32();
    lemma_hex_digits_injective(a as nat, b as nat, 32);
}

/// Distinct tunnels keep their keys at distinct paths.
pub proof fn lemma_key_path_injective(a: u128, b: u128)
    requires
        key_path(a) == key_path(b),
    ensures
        a == b,
{
    reveal_strlit("wireguard");
    reveal_strlit(".key");
    lemma_hex_digits_len(a as nat, 32);
    lemma_hex_digits_len(b as nat, 32);
    let pa = key_path(a);
    let pb = key_path(b);
    assert(pa.subrange(10, 46) =~= uuid_text(a));
    assert(pb.subrange(10, 46) =~= uuid_text(b));
    lemma_uuid_text_injective(a, b);
}

/// A key that was saved loads back unchanged.
pub proof fn lemma_saved_key_loads_back(entries: Map<Seq<char>, Seq<u8>>, tunnel_id: u128, key: Seq<char>)
    ensures
        stored_key(entries.insert(key_path(tunnel_id), vstd::utf8::encode_utf8(key)), tunnel_id) == Some(key),
{
    vstd::utf8::encode_utf8_valid_utf8(key);
    vstd::utf8::encode_utf8_decode_utf8(key);
}

/// Saving the key of one tunnel leaves the key of every other tunnel as it was.
pub proof fn lemma_save_keeps_other_keys(
    entries: Map<Seq<char>, Seq<u8>>,
    saved: u128,
    other: u128,
    key: Seq<char>,
)
    requires
        saved != other,
    ensures
        stored_key(entries.insert(key_path(saved), vstd::utf8::encode_utf8(key)), other) == stored_key(entries, other),
{
    if key_path(saved) == key_path(other) {
        lemma_key_path_injective(saved, other);
    }
}

/// After a delete, no key is stored for the tunnel.
pub proof fn lemma_deleted_key_is_gone(entries: Map<Seq<char>, Seq<u8>>, tunnel_id: u128)
    ensures
        !entries.remove(key_path(tunnel_id)).contains_key(key_path(tunnel_id)),
        stored_key(entries.remove(key_path(tunnel_id)), tunnel_id) is None,
{
}

/// Adapts a [`SecretStore`] to the narrow interface tunnels use for their
/// private keys.
pub struct KeyStoreAdapter<S: SecretStore> {
    store: S,
}

impl<S: SecretStore> KeyStoreAdapter<S> {
    /// The wrapped secret store.
    pub closed spec fn store(&self) -> S {
        self.store
    }

    /// Wrap a secret store.
    pub fn new(store: S) -> (r: Self)
        ensures
            r.store() == store,
    {
        KeyStoreAdapter { store }
    }

    /// Give back the wrapped secret store.
    pub fn into_inner(self) -> (r: S)
        ensures
            r == self.store(),
    {
        self.store
    }

    /// The secret-store path of a tunnel's private key.
    pub fn path(tunnel_id: u128) -> (p: String)
        ensures
            p@ == key_path(tunnel_id),
    {
        let mut p = String::new();
        push_str(&mut p, WIREGUARD_NAMESPACE);
        push_char(&mut p, '/');
        let id = uuid_hyphenated(tunnel_id);
        push_str(&mut p, id.as_str());
        push_str(&mut p, ".key");
        p
    }

    /// Save the private key of a tunnel, as its UTF-8 bytes.
    pub fn save_key(&mut self, tunnel_id: u128, private_key: &str) -> (r: Result<(), KeyStoreError>)
        ensures
            r is Ok ==> final(self).store().entries() == old(self).store().entries().insert(
                key_path(tunnel_id),
                vstd::utf8::encode_utf8(private_key@),
            ),
            r matches Err(e) ==> e is Store,
            old(self).store().never_fails() ==> r is Ok,
            final(self).store().never_fails() == old(self).store().never_fails(),
    {
        let path = Self::path(tunnel_id);
        store_outcome(self.store.put(path.as_str(), private_key.as_bytes()))
    }

    /// Load the private key of a tunnel. When the store answers, the answer
    /// is exact: the key when one is stored as valid UTF-8, not-found when
    /// nothing is stored, not-UTF-8 otherwise; a store error comes only from
    /// a store that can fail.
    pub fn load_key(&self, tunnel_id: u128) -> (r: Result<String, KeyStoreError>)
        ensures
            r matches Ok(k) ==> stored_key(self.store().entries(), tunnel_id) == Some(k@),
            r matches Err(KeyStoreError::NotFound { tunnel_id: t }) ==> t == tunnel_id
                && !self.store().entries().contains_key(key_path(tunnel_id)),
            r matches Err(KeyStoreError::NotUtf8 { tunnel_id: t, detail }) ==> {
                let bytes = self.store().entries()[key_path(tunnel_id)];
                &&& t == tunnel_id
                &&& self.store().entries().contains_key(key_path(tunnel_id))
                &&& !vstd::utf8::valid_utf8(bytes)
                &&& detail@ == utf8_error_text(bytes)
            },
            self.store().never_fails() ==> !(r matches Err(KeyStoreError::Store(_))),
    {
        let path = Self::path(tunnel_id);
        key_from_store(tunnel_id, self.store.get(path.as_str()))
    }

    /// Delete the private key of a tunnel; deleting a missing key succeeds.
    pub fn delete_key(&mut self, tunnel_id: u128) -> (r: Result<(), KeyStoreError>)
        ensures
            r is Ok ==> final(self).store().entries() == old(self).store().entries().remove(
                key_path(tunnel_id),
            ),
            r matches Err(e) ==> e is Store,
            old(self).store().never_fails() ==> r is Ok,
            final(self).store().never_fails() == old(self).store().never_fails(),
    {
        let path = Self::path(tunnel_id);
        store_outcome(self.store.delete(path.as_str()))
    }
}

} // verus!
