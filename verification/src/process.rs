//! The cryptographic core: signing, verification, authenticated encryption
//! and key generation, dispatched over the algorithm tags of [`crate::cli`].

mod chacha;
mod text;

pub use chacha::{
    chacha_open, chacha_seal, lemma_open_pins_plaintext, process_chacha_generate, process_decrypt,
    process_encrypt, spec_process_decrypt, ChaCha20Poly1305,
};
pub use text::{
    blake3_keyed, ed25519_accepts, ed25519_public_of, ed25519_signature, ed25519_valid_key,
    lemma_keyed_hash_rejects_other_digest, lemma_keyed_hash_round_trip, process_generate,
    process_sign, process_verify, spec_process_sign, spec_process_verify, Blake3, Ed25519Signer,
    Ed25519Verifier,
};

use vstd::prelude::*;

verus! {

/// Why a cryptographic operation was refused.
///
/// Failures carry no further detail on purpose: callers learn that an
/// operation failed, not which internal check failed first.
#[derive(Debug, Clone, Copy, PartialEq, Eq, Structural)]
pub enum CryptoError {
    /// Key material of the wrong length, or an invalid public-key encoding.
    KeyFormat,
    /// An algorithm tag that is declared only as an extension point.
    UnsupportedAlgorithm,
    /// The underlying primitive rejected the input: a failed seal or open,
    /// or a malformed signature.
    CryptoFailure,
}

impl CryptoError {
    pub open spec fn spec_message(self) -> Seq<char> {
        match self {
            CryptoError::KeyFormat => "invalid key format"@,
            CryptoError::UnsupportedAlgorithm => "unsupported algorithm"@,
            CryptoError::CryptoFailure => "cryptographic operation failed"@,
        }
    }

    /// A short description of the failure, for callers that report it.
    pub fn message(&self) -> (s: &'static str)
        ensures
            s@ == self.spec_message(),
    {
        match self {
            CryptoError::KeyFormat => "invalid key format",
            CryptoError::UnsupportedAlgorithm => "unsupported algorithm",
            CryptoError::CryptoFailure => "cryptographic operation failed",
        }
    }
}

/// The byte-level result of an operation, seen abstractly: the payload of a
/// successful outcome as a sequence, the error unchanged.
pub open spec fn bytes_result_view(r: Result<Vec<u8>, CryptoError>) -> Result<Seq<u8>, CryptoError> {
    match r {
        Ok(v) => Ok(v@),
        Err(e) => Err(e),
    }
}

/// Relies on rand::rngs::OsRng (through rand::RngCore::fill_bytes): 32 fresh
/// bytes from the operating system's entropy source. Nothing is promised of
/// their values.
#[verifier::external_body]
pub(crate) fn random_key_bytes() -> (out: Vec<u8>)
    ensures
        out@.len() == 32,
{
    let mut buf = vec![0u8; 32];
    rand::RngCore::fill_bytes(&mut rand::rngs::OsRng, &mut buf);
    buf
}

/// Byte-for-byte comparison of two slices.
pub fn bytes_equal(a: &[u8], b: &[u8]) -> (r: bool)
    ensures
        r == (a@ == b@),
{
    if a.len() != b.len() {
        assert(a@ != b@);
        return false;
    }
    let n = a.len();
    let mut i: usize = 0;
    while i < n
        invariant
            n == a@.len(),
            n == b@.len(),
            i <= n,
            forall|j: int| 0 <= j < i ==> a@[j] == b@[j],
        decreases n - i,
    {
        if a[i] != b[i] {
            assert(a@[i as int] != b@[i as int]);
            return false;
        }
        i = i + 1;
    }
    assert(a@ =~= b@);
    true
}

} // verus!
