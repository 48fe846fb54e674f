//! Release artefact verification: SHA-256 digest and minisign signature.

use vstd::prelude::*;
use sha2::Digest;
use crate::text::{push_str, to_ascii_lowercase, trim_str};
use crate::key_store::string_from_utf8;

verus! {

/// The SHA-256 digest of `data`.
pub uninterp spec fn sha256(data: Seq<u8>) -> Seq<u8>;

/// `sha2::Sha256::digest`: the SHA-256 digest of `data`, 32 bytes long.
#[verifier::external_body]
fn sha256_digest(data: &[u8]) -> (d: Vec<u8>)
    ensures
        d@ == sha256(data@),
        d@.len() == 32,
{
    sha2::Sha256::digest(data).to_vec()
}

/// Lowercase hexadecimal text of `bytes`, two digits per byte, high nibble first.
pub open spec fn hex_lower(bytes: Seq<u8>) -> Seq<char>
    decreases bytes.len(),
{
    if bytes.len() == 0 {
        Seq::empty()
    } else {
        hex_lower(bytes.drop_last()).push(crate::text::hex_digit((bytes.last() / 16) as nat)).push(
            crate::text::hex_digit((bytes.last() % 16) as nat),
        )
    }
}

/// `hex::encode`: each byte as two lowercase hex digits, high nibble first.
#[verifier::external_body]
fn hex_encode(bytes: &[u8]) -> (s: String)
    ensures
        s@ == hex_lower(bytes@),
{
    hex::encode(bytes)
}

/// Whether minisign accepts `text` as a public key.
pub uninterp spec fn public_key_decodes(text: Seq<char>) -> bool;

/// The message of minisign's error for a public key text it refuses.
pub uninterp spec fn public_key_error(text: Seq<char>) -> Seq<char>;

/// Whether minisign accepts `text` as a signature.
pub uninterp spec fn signature_decodes(text: Seq<char>) -> bool;

/// The message of minisign's error for a signature text it refuses.
pub uninterp spec fn signature_error(text: Seq<char>) -> Seq<char>;

/// Whether minisign, in non-legacy mode, accepts the signature as a signature
/// of `data` under the public key.
pub uninterp spec fn signature_verifies(key: Seq<char>, signature: Seq<char>, data: Seq<u8>) -> bool;

/// The message of minisign's error when it rejects a signature of `data`.
pub uninterp spec fn verification_error(key: Seq<char>, signature: Seq<char>, data: Seq<u8>) -> Seq<char>;

/// `minisign_verify::PublicKey::decode`: whether the text decodes as a
/// public key, with the display text of the error when it does not.
#[verifier::external_body]
fn decode_public_key(text: &str) -> (r: Result<(), String>)
    ensures
        r is Ok <==> public_key_decodes(text@),
        r matches Err(e) ==> e@ == public_key_error(text@),
{
    match minisign_verify::PublicKey::decode(text) {
        Ok(_) => Ok(()),
        Err(e) => Err(e.to_string()),
    }
}

/// `minisign_verify::Signature::decode`: whether the text decodes as a
/// signature, with the display text of the error when it does not.
#[verifier::external_body]
fn decode_signature(text: &str) -> (r: Result<(), String>)
    ensures
        r is Ok <==> signature_decodes(text@),
        r matches Err(e) ==> e@ == signature_error(text@),
{
    match minisign_verify::Signature::decode(text) {
        Ok(_) => Ok(()),
        Err(e) => Err(e.to_string()),
    }
}

/// `minisign_verify::PublicKey::verify` with `allow_legacy` false. Its
/// arguments are given as the texts the key and the signature decode from
/// (both known to decode): it accepts exactly when minisign verifies the
/// signature over `data`, and otherwise returns the display text of
/// minisign's error.
#[verifier::external_body]
fn verify_minisign(key: &str, signature: &str, data: &[u8]) -> (r: Result<(), String>)
    requires
        public_key_decodes(key@),
        signature_decodes(signature@),
    ensures
        r is Ok <==> signature_verifies(key@, signature@, data@),
        r matches Err(e) ==> e@ == verification_error(key@, signature@, data@),
{
    let pk = match minisign_verify::PublicKey::decode(key) {
        Ok(pk) => pk,
        Err(e) => return Err(e.to_string()),
    };
    let sig = match minisign_verify::Signature::decode(signature) {
        Ok(sig) => sig,
        Err(e) => return Err(e.to_string()),
    };
    match pk.verify(data, &sig, false) {
        Ok(()) => Ok(()),
        Err(e) => Err(e.to_string()),
    }
}

/// Why a release artefact was refused.
#[derive(Clone, Debug, PartialEq, Eq)]
pub enum ReleaseVerifyError {
    /// The tarball's digest differs from the published one.
    Sha256Mismatch { expected: String, actual: String },
    /// The embedded public key is not a minisign public key.
    InvalidPublicKey { detail: String },
    /// The signature file is not UTF-8 text.
    SignatureNotUtf8 { detail: String },
    /// The signature file is not a minisign signature.
    InvalidSignatureFormat { detail: String },
    /// The signature does not verify against the tarball.
    SignatureRejected { detail: String },
}

impl ReleaseVerifyError {
    /// The display text of this error.
    pub fn message(&self) -> (r: String)
        ensures
            r@ == match *self {
                ReleaseVerifyError::Sha256Mismatch { expected, actual } =>
                    "sha256 mismatch: expected="@ + expected@ + ", actual="@ + actual@,
                ReleaseVerifyError::InvalidPublicKey { detail } => "invalid embedded public key: "@ + detail@,
                ReleaseVerifyError::SignatureNotUtf8 { detail } => "signature is not utf-8: "@ + detail@,
                ReleaseVerifyError::InvalidSignatureFormat { detail } => "invalid signature format: "@ + detail@,
                ReleaseVerifyError::SignatureRejected { detail } => "signature verification failed: "@ + detail@,
            },
    {
        let mut r = String::new();
        match self {
            ReleaseVerifyError::Sha256Mismatch { expected, actual } => {
                push_str(&mut r, "sha256 mismatch: expected=");
                push_str(&mut r, expected.as_str());
                push_str(&mut r, ", actual=");
                push_str(&mut r, actual.as_str());
            },
            ReleaseVerifyError::InvalidPublicKey { detail } => {
                push_str(&mut r, "invalid embedded public key: ");
                push_str(&mut r, detail.as_str());
            },
            ReleaseVerifyError::SignatureNotUtf8 { detail } => {
                push_str(&mut r, "signature is not utf-8: ");
                push_str(&mut r, detail.as_str());
            },
            ReleaseVerifyError::InvalidSignatureFormat { detail } => {
                push_str(&mut r, "invalid signature format: ");
                push_str(&mut r, detail.as_str());
            },
            ReleaseVerifyError::SignatureRejected { detail } => {
                push_str(&mut r, "signature verification failed: ");
                push_str(&mut r, detail.as_str());
            },
        }
        r
    }
}

/// Verifies a downloaded release tarball against its expected digest and
/// signature.
pub trait ReleaseVerifier {
    /// Verify the SHA-256 digest of the tarball against the expected value.
    fn verify_sha256(&self, tarball: &[u8], expected_hex: &str) -> Result<(), ReleaseVerifyError>;

    /// Verify the minisign signature of the tarball.
    fn verify_signature(&self, tarball: &[u8], signature: &[u8]) -> Result<(), ReleaseVerifyError>;
}

/// The digest text a sidecar file must hold: its content without surrounding
/// whitespace, compared case-insensitively for ASCII letters.
pub open spec fn normalized_digest(expected: Seq<char>) -> Seq<char> {
    crate::text::ascii_lowercase(crate::text::trim(expected))
}

/// A character that `hex_lower` may produce.
pub open spec fn is_lower_hex_char(c: char) -> bool {
    ('0' <= c <= '9') || ('a' <= c <= 'f')
}

proof fn lemma_hex_lower_chars(bytes: Seq<u8>)
    ensures
        forall|i: int| 0 <= i < hex_lower(bytes).len() ==> is_lower_hex_char(#[trigger] hex_lower(bytes)[i]),
        hex_lower(bytes).len() == 2 * bytes.len(),
    decreases bytes.len(),
{
    if bytes.len() > 0 {
        lemma_hex_lower_chars(bytes.drop_last());
        let b = bytes.last();
        assert(b / 16 < 16 && b % 16 < 16);
        let prev = hex_lower(bytes.drop_last());
        let cur = hex_lower(bytes);
        assert forall|i: int| 0 <= i < cur.len() implies is_lower_hex_char(#[trigger] cur[i]) by {
            if i < prev.len() {
                assert(cur[i] == prev[i]);
            }
        }
    }
}

proof fn lemma_trim_start_whitespace_prefix(pre: Seq<char>, x: Seq<char>)
    requires
        forall|i: int| 0 <= i < pre.len() ==> crate::text::is_unicode_whitespace(#[trigger] pre[i]),
    ensures
        crate::text::trim_start(pre + x) == crate::text::trim_start(x),
    decreases pre.len(),
{
    if pre.len() > 0 {
        assert((pre + x)[0] == pre[0]);
        assert((pre + x).drop_first() =~= pre.drop_first() + x);
        lemma_trim_start_whitespace_prefix(pre.drop_first(), x);
    } else {
        assert(pre + x =~= x);
    }
}

proof fn lemma_trim_end_whitespace_suffix(x: Seq<char>, post: Seq<char>)
    requires
        forall|i: int| 0 <= i < post.len() ==> crate::text::is_unicode_whitespace(#[trigger] post[i]),
    ensures
        crate::text::trim_end(x + post) == crate::text::trim_end(x),
    decreases post.len(),
{
    if post.len() > 0 {
        assert((x + post).last() == post.last());
        assert((x + post).drop_last() =~= x + post.drop_last());
        lemma_trim_end_whitespace_suffix(x, post.drop_last());
    } else {
        assert(x + post =~= x);
    }
}

/// A published digest is accepted whatever whitespace surrounds it in the
/// sidecar file: the hex text of a digest, padded with whitespace on either
/// side, normalizes to that hex text.
pub proof fn lemma_padded_digest_normalizes(digest: Seq<u8>, before: Seq<char>, after: Seq<char>)
    requires
        forall|i: int| 0 <= i < before.len() ==> crate::text::is_unicode_whitespace(#[trigger] before[i]),
        forall|i: int| 0 <= i < after.len() ==> crate::text::is_unicode_whitespace(#[trigger] after[i]),
    ensures
        normalized_digest(before + hex_lower(digest) + after) == hex_lower(digest),
{
    let h = hex_lower(digest);
    lemma_hex_lower_chars(digest);
    assert(before + h + after =~= before + (h + after));
    lemma_trim_start_whitespace_prefix(before, h + after);
    if h.len() > 0 {
        assert((h + after)[0] == h[0]);
        assert(is_lower_hex_char(h[0]));
    } else {
        assert(h + after =~= after);
        assert(crate::text::trim_start(after) == crate::text::trim_start(h + after));
        lemma_trim_start_whitespace_prefix(after, Seq::<char>::empty());
        assert(after + Seq::<char>::empty() =~= after);
    }
    if h.len() > 0 {
        assert(crate::text::trim_start(h + after) == h + after);
        lemma_trim_end_whitespace_suffix(h, after);
        assert(is_lower_hex_char(h.last()));
        assert(crate::text::trim_end(h) == h);
    } else {
        assert(crate::text::trim_start(after) == Seq::<char>::empty());
        assert(crate::text::trim_end(Seq::<char>::empty()) == Seq::<char>::empty());
    }
    assert(crate::text::ascii_lowercase(h) =~= h) by {
        assert forall|i: int| 0 <= i < h.len() implies #[trigger] crate::text::ascii_lowercase(h)[i] == h[i] by {
            assert(is_lower_hex_char(h[i]));
        }
    }
}

/// A sidecar holding the digest followed by a line ending, CRLF or LF, is
/// accepted: the line ending is trimmed away.
pub proof fn lemma_line_ending_trimmed(digest: Seq<u8>)
    ensures
        normalized_digest(hex_lower(digest) + seq!['\r', '\n']) == hex_lower(digest),
        normalized_digest(hex_lower(digest) + seq!['\n']) == hex_lower(digest),
{
    crate::text::lemma_whitespace_characters();
    lemma_padded_digest_normalizes(digest, Seq::empty(), seq!['\r', '\n']);
    lemma_padded_digest_normalizes(digest, Seq::empty(), seq!['\n']);
    assert(Seq::<char>::empty() + hex_lower(digest) + seq!['\r', '\n'] =~= hex_lower(digest) + seq!['\r', '\n']);
    assert(Seq::<char>::empty() + hex_lower(digest) + seq!['\n'] =~= hex_lower(digest) + seq!['\n']);
}

/// A tarball passes the digest check against its own lowercase hex SHA-256,
/// with any whitespace around it.
pub proof fn lemma_own_digest_accepted(tarball: Seq<u8>, before: Seq<char>, after: Seq<char>)
    requires
        forall|i: int| 0 <= i < before.len() ==> crate::text::is_unicode_whitespace(#[trigger] before[i]),
        forall|i: int| 0 <= i < after.len() ==> crate::text::is_unicode_whitespace(#[trigger] after[i]),
    ensures
        hex_lower(sha256(tarball)) == normalized_digest(before + hex_lower(sha256(tarball)) + after),
{
    lemma_padded_digest_normalizes(sha256(tarball), before, after);
}

/// Verifies tarballs against their SHA-256 sidecar and a minisign signature
/// made with the key given at construction (normally embedded in the binary).
pub struct Sha256MinisignVerifier {
    public_key_text: &'static str,
}

impl Sha256MinisignVerifier {
    /// The public key text this verifier checks signatures with.
    pub closed spec fn key_text(&self) -> Seq<char> {
        self.public_key_text@
    }

    /// Construct a verifier bound to the given public key text.
    pub fn new(public_key_text: &'static str) -> (r: Self)
        ensures
            r.key_text() == public_key_text@,
    {
        Sha256MinisignVerifier { public_key_text }
    }
}

impl ReleaseVerifier for Sha256MinisignVerifier {
    /// Accepts exactly when the lowercase hex SHA-256 of the tarball equals the
    /// expected text, trimmed and with ASCII letters lowered.
    fn verify_sha256(&self, tarball: &[u8], expected_hex: &str) -> (r: Result<(), ReleaseVerifyError>)
        ensures
            r is Ok <==> hex_lower(sha256(tarball@)) == normalized_digest(expected_hex@),
            r matches Err(e) ==> e matches ReleaseVerifyError::Sha256Mismatch { expected, actual }
                && expected@ == normalized_digest(expected_hex@)
                && actual@ == hex_lower(sha256(tarball@)),
    {
        let digest = sha256_digest(tarball);
        let actual = hex_encode(digest.as_slice());
        let expected = to_ascii_lowercase(trim_str(expected_hex));
        if actual != expected {
            return Err(ReleaseVerifyError::Sha256Mismatch { expected, actual });
        }
        Ok(())
    }

    /// The key is decoded first, then the signature bytes are read as UTF-8
    /// text and decoded, then the signature is checked against the tarball;
    /// the first step that fails decides the error.
    fn verify_signature(&self, tarball: &[u8], signature: &[u8]) -> (r: Result<(), ReleaseVerifyError>)
        ensures
            ({
                let key = crate::text::trim(self.key_text());
                match r {
                    Ok(()) => public_key_decodes(key)
                        && vstd::utf8::valid_utf8(signature@)
                        && signature_decodes(vstd::utf8::decode_utf8(signature@))
                        && signature_verifies(key, vstd::utf8::decode_utf8(signature@), tarball@),
                    Err(ReleaseVerifyError::InvalidPublicKey { detail }) => !public_key_decodes(key)
                        && detail@ == public_key_error(key),
                    Err(ReleaseVerifyError::SignatureNotUtf8 { detail }) => public_key_decodes(key)
                        && !vstd::utf8::valid_utf8(signature@)
                        && detail@ == crate::key_store::utf8_error_text(signature@),
                    Err(ReleaseVerifyError::InvalidSignatureFormat { detail }) => public_key_decodes(key)
                        && vstd::utf8::valid_utf8(signature@)
                        && !signature_decodes(vstd::utf8::decode_utf8(signature@))
                        && detail@ == signature_error(vstd::utf8::decode_utf8(signature@)),
                    Err(ReleaseVerifyError::SignatureRejected { detail }) => public_key_decodes(key)
                        && vstd::utf8::valid_utf8(signature@)
                        && signature_decodes(vstd::utf8::decode_utf8(signature@))
                        && !signature_verifies(key, vstd::utf8::decode_utf8(signature@), tarball@)
                        && detail@ == verification_error(key, vstd::utf8::decode_utf8(signature@), tarball@),
                    Err(ReleaseVerifyError::Sha256Mismatch { .. }) => false,
                }
            }),
    {
        let key = trim_str(self.public_key_text);
        if let Err(detail) = decode_public_key(key) {
            return Err(ReleaseVerifyError::InvalidPublicKey { detail });
        }
        let text = match string_from_utf8(vstd::slice::slice_to_vec(signature)) {
            Ok(t) => t,
            Err(detail) => return Err(ReleaseVerifyError::SignatureNotUtf8 { detail }),
        };
        if let Err(detail) = decode_signature(text.as_str()) {
            return Err(ReleaseVerifyError::InvalidSignatureFormat { detail });
        }
        match verify_minisign(key, text.as_str(), tarball) {
            Ok(()) => Ok(()),
            Err(detail) => Err(ReleaseVerifyError::SignatureRejected { detail }),
        }
    }
}

} // verus!
