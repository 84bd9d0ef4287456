//! Signing and verification: a keyed BLAKE3 hash as a symmetric signer, and
//! Ed25519 as an asymmetric signer, behind one tag-dispatched entry point
//! per capability.

use crate::cli::SignatureFormat;
use crate::process::{bytes_result_view, bytes_equal, random_key_bytes, CryptoError};
use vstd::prelude::*;
use vstd::slice::{slice_subrange, slice_to_vec};

verus! {

/// The keyed BLAKE3 digest of `msg` under the 32-byte key `key`.
pub uninterp spec fn blake3_keyed(key: Seq<u8>, msg: Seq<u8>) -> Seq<u8>;

/// The 32-byte Ed25519 public key derived from a 32-byte private seed.
pub uninterp spec fn ed25519_public_of(seed: Seq<u8>) -> Seq<u8>;

/// The 64-byte Ed25519 signature over `msg` by the seed `seed`.
pub uninterp spec fn ed25519_signature(seed: Seq<u8>, msg: Seq<u8>) -> Seq<u8>;

/// Whether the 32 bytes `vk` are a valid Ed25519 public-key encoding.
pub uninterp spec fn ed25519_valid_key(vk: Seq<u8>) -> bool;

/// Whether Ed25519 accepts `sig` as a signature over `msg` by the public
/// key `vk`.
pub uninterp spec fn ed25519_accepts(vk: Seq<u8>, msg: Seq<u8>, sig: Seq<u8>) -> bool;

/// Relies on blake3::keyed_hash: a 32-byte digest determined by the key and
/// the message alone.
#[verifier::external_body]
fn blake3_keyed_hash(key: &[u8], msg: &[u8]) -> (digest: Vec<u8>)
    requires
        key@.len() == 32,
    ensures
        digest@ == blake3_keyed(key@, msg@),
        digest@.len() == 32,
{
    let key: &[u8; 32] = key.try_into().unwrap();
    blake3::keyed_hash(key, msg).as_bytes().to_vec()
}

/// Relies on ed25519_dalek::SigningKey::verifying_key: the public key is
/// determined by the seed alone, and its 32-byte encoding is accepted back
/// by ed25519_dalek::VerifyingKey::from_bytes.
#[verifier::external_body]
fn ed25519_derive_public(seed: &[u8]) -> (vk: Vec<u8>)
    requires
        seed@.len() == 32,
    ensures
        vk@ == ed25519_public_of(seed@),
        vk@.len() == 32,
        ed25519_valid_key(vk@),
{
    let seed: &[u8; 32] = seed.try_into().unwrap();
    let key = ed25519_dalek::SigningKey::from_bytes(seed);
    key.verifying_key().to_bytes().to_vec()
}

/// Relies on ed25519_dalek::SigningKey::sign (RFC 8032, deterministic): a
/// 64-byte signature determined by the seed and the message alone, which
/// ed25519_dalek::VerifyingKey::verify accepts under the derived public key.
#[verifier::external_body]
fn ed25519_sign_bytes(seed: &[u8], msg: &[u8]) -> (sig: Vec<u8>)
    requires
        seed@.len() == 32,
    ensures
        sig@ == ed25519_signature(seed@, msg@),
        sig@.len() == 64,
        ed25519_accepts(ed25519_public_of(seed@), msg@, sig@),
{
    let seed: &[u8; 32] = seed.try_into().unwrap();
    let key = ed25519_dalek::SigningKey::from_bytes(seed);
    let sig = ed25519_dalek::Signer::sign(&key, msg);
    sig.to_vec()
}

/// Relies on ed25519_dalek::VerifyingKey::from_bytes: whether it succeeds is
/// determined by the 32 bytes alone.
#[verifier::external_body]
fn ed25519_check_key(vk: &[u8]) -> (ok: bool)
    requires
        vk@.len() == 32,
    ensures
        ok == ed25519_valid_key(vk@),
{
    let vk: &[u8; 32] = vk.try_into().unwrap();
    ed25519_dalek::VerifyingKey::from_bytes(vk).is_ok()
}

/// Relies on ed25519_dalek::VerifyingKey::verify: accepts or rejects,
/// determined by the public key, the message and the signature alone.
#[verifier::external_body]
fn ed25519_verify_bytes(vk: &[u8], msg: &[u8], sig: &[u8]) -> (ok: bool)
    requires
        vk@.len() == 32,
        ed25519_valid_key(vk@),
        sig@.len() == 64,
    ensures
        ok == ed25519_accepts(vk@, msg@, sig@),
{
    let vk: &[u8; 32] = vk.try_into().unwrap();
    let vk = ed25519_dalek::VerifyingKey::from_bytes(vk).unwrap();
    let sig: &[u8; 64] = sig.try_into().unwrap();
    let sig = ed25519_dalek::Signature::from_bytes(sig);
    ed25519_dalek::Verifier::verify(&vk, msg, &sig).is_ok()
}

/// The keyed-hash signer and verifier: one 32-byte key for both sides.
pub struct Blake3 {
    key: Vec<u8>,
}

impl View for Blake3 {
    type V = Seq<u8>;

    closed spec fn view(&self) -> Seq<u8> {
        self.key@
    }
}

impl Blake3 {
    /// The key has the length every operation relies on.
    pub open spec fn wf(&self) -> bool {
        self@.len() == 32
    }

    /// Wrap a 32-byte key.
    pub fn new(key: [u8; 32]) -> (s: Self)
        ensures
            s@ == key@,
            s.wf(),
    {
        Blake3 { key: slice_to_vec(key.as_slice()) }
    }

    /// Accept key material of exactly 32 bytes; refuse anything else.
    pub fn try_new(key: &[u8]) -> (r: Result<Self, CryptoError>)
        ensures
            key@.len() == 32 <==> r is Ok,
            r is Ok ==> r->Ok_0@ == key@ && r->Ok_0.wf(),
            r is Err ==> r->Err_0 == CryptoError::KeyFormat,
    {
        if key.len() != 32 {
            return Err(CryptoError::KeyFormat);
        }
        Ok(Blake3 { key: slice_to_vec(key) })
    }

    /// The raw 32-byte keyed digest of `msg`.
    pub fn sign(&self, msg: &[u8]) -> (sig: Vec<u8>)
        requires
            self.wf(),
        ensures
            sig@ == blake3_keyed(self@, msg@),
            sig@.len() == 32,
    {
        blake3_keyed_hash(self.key.as_slice(), msg)
    }

    /// Recompute the digest and compare byte for byte; any length or content
    /// mismatch is `false`, never an error.
    pub fn verify(&self, msg: &[u8], sig: &[u8]) -> (ok: bool)
        requires
            self.wf(),
        ensures
            ok == (blake3_keyed(self@, msg@) == sig@),
    {
        let digest = blake3_keyed_hash(self.key.as_slice(), msg);
        bytes_equal(digest.as_slice(), sig)
    }

    /// One fresh uniformly random 32-byte key, under its canonical artifact
    /// name.
    pub fn generate() -> (out: Vec<(String, Vec<u8>)>)
        ensures
            out@.len() == 1,
            out@[0].0@ == "blake3.key"@,
            out@[0].1@.len() == 32,
    {
        let key = random_key_bytes();
        let mut out: Vec<(String, Vec<u8>)> = Vec::new();
        out.push(("blake3.key".to_owned(), key));
        out
    }
}

/// The asymmetric signer: holds a 32-byte private seed.
pub struct Ed25519Signer {
    key: Vec<u8>,
}

impl View for Ed25519Signer {
    type V = Seq<u8>;

    closed spec fn view(&self) -> Seq<u8> {
        self.key@
    }
}

impl Ed25519Signer {
    /// The seed has the length every operation relies on.
    pub open spec fn wf(&self) -> bool {
        self@.len() == 32
    }

    /// Wrap a 32-byte private seed.
    pub fn new(key: &[u8; 32]) -> (s: Self)
        ensures
            s@ == key@,
            s.wf(),
    {
        Ed25519Signer { key: slice_to_vec(key.as_slice()) }
    }

    /// Accept a seed of exactly 32 bytes; refuse anything else. Every
    /// 32-byte value is a valid seed.
    pub fn try_new(key: &[u8]) -> (r: Result<Self, CryptoError>)
        ensures
            key@.len() == 32 <==> r is Ok,
            r is Ok ==> r->Ok_0@ == key@ && r->Ok_0.wf(),
            r is Err ==> r->Err_0 == CryptoError::KeyFormat,
    {
        if key.len() != 32 {
            return Err(CryptoError::KeyFormat);
        }
        Ok(Ed25519Signer { key: slice_to_vec(key) })
    }

    /// The 64-byte signature over `msg`; it verifies under the public key
    /// derived from this seed.
    pub fn sign(&self, msg: &[u8]) -> (sig: Vec<u8>)
        requires
            self.wf(),
        ensures
            sig@ == ed25519_signature(self@, msg@),
            sig@.len() == 64,
            ed25519_accepts(ed25519_public_of(self@), msg@, sig@),
    {
        ed25519_sign_bytes(self.key.as_slice(), msg)
    }

    /// The public key paired with this seed.
    pub fn verifying_key(&self) -> (vk: Vec<u8>)
        requires
            self.wf(),
        ensures
            vk@ == ed25519_public_of(self@),
            vk@.len() == 32,
            ed25519_valid_key(vk@),
    {
        ed25519_derive_public(self.key.as_slice())
    }

    /// A fresh keypair from a uniformly random seed: the private seed and
    /// its derived public key, under their canonical artifact names.
    pub fn generate() -> (out: Vec<(String, Vec<u8>)>)
        ensures
            out@.len() == 2,
            out@[0].0@ == "ed25519.sk"@,
            out@[0].1@.len() == 32,
            out@[1].0@ == "ed25519.vk"@,
            out@[1].1@.len() == 32,
            out@[1].1@ == ed25519_public_of(out@[0].1@),
            ed25519_valid_key(out@[1].1@),
    {
        let seed = random_key_bytes();
        let vk = ed25519_derive_public(seed.as_slice());
        let mut out: Vec<(String, Vec<u8>)> = Vec::new();
        out.push(("ed25519.sk".to_owned(), seed));
        out.push(("ed25519.vk".to_owned(), vk));
        out
    }
}

/// The asymmetric verifier: holds a 32-byte public key of valid encoding.
pub struct Ed25519Verifier {
    key: Vec<u8>,
}

impl View for Ed25519Verifier {
    type V = Seq<u8>;

    closed spec fn view(&self) -> Seq<u8> {
        self.key@
    }
}

impl Ed25519Verifier {
    /// The key has the right length and is a valid curve encoding.
    pub open spec fn wf(&self) -> bool {
        self@.len() == 32 && ed25519_valid_key(self@)
    }

    /// Accept a 32-byte public key of valid encoding; refuse a wrong length
    /// or an invalid encoding alike.
    pub fn try_new(key: &[u8]) -> (r: Result<Self, CryptoError>)
        ensures
            (key@.len() == 32 && ed25519_valid_key(key@)) <==> r is Ok,
            r is Ok ==> r->Ok_0@ == key@ && r->Ok_0.wf(),
            r is Err ==> r->Err_0 == CryptoError::KeyFormat,
    {
        if key.len() != 32 {
            return Err(CryptoError::KeyFormat);
        }
        if !ed25519_check_key(key) {
            return Err(CryptoError::KeyFormat);
        }
        Ok(Ed25519Verifier { key: slice_to_vec(key) })
    }

    /// Check the first 64 bytes of `sig` over `msg`; a shorter candidate is
    /// refused outright, before any cryptographic comparison.
    pub fn verify(&self, msg: &[u8], sig: &[u8]) -> (r: Result<bool, CryptoError>)
        requires
            self.wf(),
        ensures
            sig@.len() >= 64 <==> r is Ok,
            r is Ok ==> r->Ok_0 == ed25519_accepts(self@, msg@, sig@.take(64)),
            r is Err ==> r->Err_0 == CryptoError::CryptoFailure,
    {
        if sig.len() < 64 {
            return Err(CryptoError::CryptoFailure);
        }
        let head = slice_subrange(sig, 0, 64);
        Ok(ed25519_verify_bytes(self.key.as_slice(), msg, head))
    }
}

/// How `process_sign` answers, as a function of its inputs: the signature
/// bytes for a 32-byte key, a key-format failure otherwise.
pub open spec fn spec_process_sign(key: Seq<u8>, msg: Seq<u8>, format: SignatureFormat) -> Result<
    Seq<u8>,
    CryptoError,
> {
    if key.len() != 32 {
        Err(CryptoError::KeyFormat)
    } else {
        match format {
            SignatureFormat::Blake3 => Ok(blake3_keyed(key, msg)),
            SignatureFormat::Ed25519 => Ok(ed25519_signature(key, msg)),
        }
    }
}

/// How `process_verify` answers, as a function of its inputs. A failed
/// check is `Ok(false)`: the operation ran and the signature did not match.
/// Errors are reserved for unusable keys and, for the asymmetric family, a
/// candidate signature shorter than 64 bytes.
pub open spec fn spec_process_verify(
    key: Seq<u8>,
    msg: Seq<u8>,
    sig: Seq<u8>,
    format: SignatureFormat,
) -> Result<bool, CryptoError> {
    if key.len() != 32 {
        Err(CryptoError::KeyFormat)
    } else {
        match format {
            SignatureFormat::Blake3 => Ok(blake3_keyed(key, msg) == sig),
            SignatureFormat::Ed25519 => if !ed25519_valid_key(key) {
                Err(CryptoError::KeyFormat)
            } else if sig.len() < 64 {
                Err(CryptoError::CryptoFailure)
            } else {
                Ok(ed25519_accepts(key, msg, sig.take(64)))
            },
        }
    }
}

/// Sign the buffered message with key material of exactly 32 bytes: the raw
/// keyed digest for the keyed-hash family, the raw 64-byte signature for the
/// asymmetric family. The caller applies any wire-text encoding.
pub fn process_sign(data: &[u8], key: &[u8], format: SignatureFormat) -> (r: Result<
    Vec<u8>,
    CryptoError,
>)
    ensures
        bytes_result_view(r) == spec_process_sign(key@, data@, format),
        r is Ok && format == SignatureFormat::Blake3 ==> r->Ok_0@.len() == 32,
        r is Ok && format == SignatureFormat::Ed25519 ==> r->Ok_0@.len() == 64
            && ed25519_accepts(ed25519_public_of(key@), data@, r->Ok_0@),
{
    match format {
        SignatureFormat::Blake3 => match Blake3::try_new(key) {
            Ok(signer) => Ok(signer.sign(data)),
            Err(e) => Err(e),
        },
        SignatureFormat::Ed25519 => match Ed25519Signer::try_new(key) {
            Ok(signer) => Ok(signer.sign(data)),
            Err(e) => Err(e),
        },
    }
}

/// Check a candidate signature over the buffered message. A mismatch is
/// `Ok(false)`; only an unusable key, or a too-short asymmetric candidate,
/// is an error.
pub fn process_verify(data: &[u8], key: &[u8], sig: &[u8], format: SignatureFormat) -> (r: Result<
    bool,
    CryptoError,
>)
    ensures
        r == spec_process_verify(key@, data@, sig@, format),
{
    match format {
        SignatureFormat::Blake3 => match Blake3::try_new(key) {
            Ok(verifier) => Ok(verifier.verify(data, sig)),
            Err(e) => Err(e),
        },
        SignatureFormat::Ed25519 => match Ed25519Verifier::try_new(key) {
            Ok(verifier) => verifier.verify(data, sig),
            Err(e) => Err(e),
        },
    }
}

/// Generate key material for the chosen signing family: one keyed-hash key,
/// or a private seed with its paired public key, each of exactly 32 bytes,
/// under canonical artifact names for the caller to persist.
pub fn process_generate(format: SignatureFormat) -> (out: Vec<(String, Vec<u8>)>)
    ensures
        forall|i: int| 0 <= i < out@.len() ==> (#[trigger] out@[i]).1@.len() == 32,
        format == SignatureFormat::Blake3 ==> out@.len() == 1 && out@[0].0@ == "blake3.key"@,
        format == SignatureFormat::Ed25519 ==> out@.len() == 2 && out@[0].0@ == "ed25519.sk"@
            && out@[1].0@ == "ed25519.vk"@ && out@[1].1@ == ed25519_public_of(out@[0].1@)
            && ed25519_valid_key(out@[1].1@),
{
    match format {
        SignatureFormat::Blake3 => Blake3::generate(),
        SignatureFormat::Ed25519 => Ed25519Signer::generate(),
    }
}

/// A signature just produced by the keyed-hash family verifies under the
/// same key: for every 32-byte key and every message, checking the digest
/// that signing returns yields `Ok(true)`.
pub proof fn lemma_keyed_hash_round_trip(key: Seq<u8>, msg: Seq<u8>)
    requires
        key.len() == 32,
    ensures
        spec_process_sign(key, msg, SignatureFormat::Blake3) matches Ok(sig)
            && spec_process_verify(key, msg, sig, SignatureFormat::Blake3) == Ok::<
            bool,
            CryptoError,
        >(true),
{
}

/// The keyed-hash family accepts nothing but the exact digest: for every
/// 32-byte key, checking any candidate other than the digest of `msg` under
/// `key` yields `Ok(false)`.
pub proof fn lemma_keyed_hash_rejects_other_digest(key: Seq<u8>, msg: Seq<u8>, sig: Seq<u8>)
    requires
        key.len() == 32,
        sig != blake3_keyed(key, msg),
    ensures
        spec_process_verify(key, msg, sig, SignatureFormat::Blake3) == Ok::<bool, CryptoError>(
            false,
        ),
{
}

} // verus!
