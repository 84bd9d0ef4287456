//! Authenticated encryption: ChaCha20-Poly1305 with a 32-byte key, a fresh
//! 12-byte nonce per encryption and a 16-byte authentication tag. The three
//! sibling tags are declared extension points and are refused at run time.

use crate::cli::ChachaFormat;
use crate::process::{bytes_result_view, random_key_bytes, CryptoError};
use vstd::prelude::*;
use vstd::slice::slice_to_vec;

verus! {

/// The sealed bytes (ciphertext plus 16-byte tag) for a key, a nonce and a
/// plaintext.
pub uninterp spec fn chacha_seal(key: Seq<u8>, nonce: Seq<u8>, pt: Seq<u8>) -> Seq<u8>;

/// The outcome of opening sealed bytes under a key and a nonce: the
/// plaintext if the tag authenticates, nothing otherwise.
pub uninterp spec fn chacha_open(key: Seq<u8>, nonce: Seq<u8>, ct: Seq<u8>) -> Option<Seq<u8>>;

/// Relies on chacha20poly1305::ChaCha20Poly1305 (aead::Aead::encrypt):
/// ciphertext plus tag determined by key, nonce and plaintext alone, opening
/// back to the plaintext under the same key and nonce; it fails exactly on a
/// plaintext of 2^32 - 1 or more whole cipher blocks of 64 bytes.
#[verifier::external_body]
fn chacha_seal_bytes(key: &[u8], nonce: &[u8], pt: &[u8]) -> (r: Option<Vec<u8>>)
    requires
        key@.len() == 32,
        nonce@.len() == 12,
    ensures
        r is Some <==> pt@.len() < 274877906880,
        r is Some ==> r->0@ == chacha_seal(key@, nonce@, pt@),
        r is Some ==> r->0@.len() == pt@.len() + 16,
        r is Some ==> chacha_open(key@, nonce@, r->0@) == Some(pt@),
{
    let key = chacha20poly1305::Key::from_slice(key);
    let cipher = <chacha20poly1305::ChaCha20Poly1305 as chacha20poly1305::KeyInit>::new(key);
    let nonce = chacha20poly1305::Nonce::from_slice(nonce);
    chacha20poly1305::aead::Aead::encrypt(&cipher, nonce, pt).ok()
}

/// Relies on chacha20poly1305::ChaCha20Poly1305 (aead::Aead::decrypt):
/// whether the tag authenticates, and the recovered plaintext, are
/// determined by key, nonce and sealed bytes alone; a recovered plaintext
/// is 16 bytes shorter than the sealed bytes.
#[verifier::external_body]
fn chacha_open_bytes(key: &[u8], nonce: &[u8], ct: &[u8]) -> (r: Option<Vec<u8>>)
    requires
        key@.len() == 32,
        nonce@.len() == 12,
    ensures
        r is Some <==> chacha_open(key@, nonce@, ct@) is Some,
        r is Some ==> Some(r->0@) == chacha_open(key@, nonce@, ct@),
        r is Some ==> r->0@.len() + 16 == ct@.len(),
{
    let key = chacha20poly1305::Key::from_slice(key);
    let cipher = <chacha20poly1305::ChaCha20Poly1305 as chacha20poly1305::KeyInit>::new(key);
    let nonce = chacha20poly1305::Nonce::from_slice(nonce);
    chacha20poly1305::aead::Aead::decrypt(&cipher, nonce, ct).ok()
}

/// Relies on chacha20poly1305::ChaCha20Poly1305 (aead::AeadCore::
/// generate_nonce) over the operating system's entropy source: 12 fresh
/// random bytes. Nothing is promised of their values.
#[verifier::external_body]
fn chacha_generate_nonce() -> (nonce: Vec<u8>)
    ensures
        nonce@.len() == 12,
{
    let nonce = <chacha20poly1305::ChaCha20Poly1305 as chacha20poly1305::AeadCore>::generate_nonce(
        &mut chacha20poly1305::aead::OsRng,
    );
    nonce.to_vec()
}

/// The implemented AEAD: one 32-byte key for sealing and opening.
pub struct ChaCha20Poly1305 {
    key: Vec<u8>,
}

impl View for ChaCha20Poly1305 {
    type V = Seq<u8>;

    closed spec fn view(&self) -> Seq<u8> {
        self.key@
    }
}

impl ChaCha20Poly1305 {
    /// The key has the length every operation relies on.
    pub open spec fn wf(&self) -> bool {
        self@.len() == 32
    }

    /// Wrap a 32-byte key.
    pub fn new(key: [u8; 32]) -> (s: Self)
        ensures
            s@ == key@,
            s.wf(),
    {
        ChaCha20Poly1305 { key: slice_to_vec(key.as_slice()) }
    }

    /// Accept key material of exactly 32 bytes; refuse anything else.
    pub fn try_new(key: &[u8]) -> (r: Result<Self, CryptoError>)
        ensures
            key@.len() == 32 <==> r is Ok,
            r is Ok ==> r->Ok_0@ == key@ && r->Ok_0.wf(),
            r is Err ==> r->Err_0 == CryptoError::KeyFormat,
    {
        if key.len() != 32 {
            return Err(CryptoError::KeyFormat);
        }
        Ok(ChaCha20Poly1305 { key: slice_to_vec(key) })
    }

    /// Seal the buffered plaintext under a fresh random 12-byte nonce with
    /// empty associated data; return the sealed bytes and the nonce. The
    /// sealed bytes are 16 bytes longer than the plaintext and open back to
    /// it under the same key and nonce.
    pub fn encrypt(&self, data: &[u8]) -> (r: Result<(Vec<u8>, Vec<u8>), CryptoError>)
        requires
            self.wf(),
        ensures
            r is Ok <==> data@.len() < 274877906880,
            r is Err ==> r->Err_0 == CryptoError::CryptoFailure,
            r is Ok ==> r->Ok_0.1@.len() == 12,
            r is Ok ==> r->Ok_0.0@ == chacha_seal(self@, r->Ok_0.1@, data@),
            r is Ok ==> r->Ok_0.0@.len() == data@.len() + 16,
            r is Ok ==> chacha_open(self@, r->Ok_0.1@, r->Ok_0.0@) == Some(data@),
    {
        let nonce = chacha_generate_nonce();
        match chacha_seal_bytes(self.key.as_slice(), nonce.as_slice(), data) {
            Some(ct) => Ok((ct, nonce)),
            None => Err(CryptoError::CryptoFailure),
        }
    }

    /// Open buffered sealed bytes under a 12-byte nonce. Every failure — a
    /// wrong-length nonce, a bad tag, malformed sealed bytes — is the one
    /// generic cryptographic failure, so that the cause cannot be probed.
    pub fn decrypt(&self, data: &[u8], nonce: &[u8]) -> (r: Result<Vec<u8>, CryptoError>)
        requires
            self.wf(),
        ensures
            r is Ok <==> nonce@.len() == 12 && chacha_open(self@, nonce@, data@) is Some,
            r is Ok ==> Some(r->Ok_0@) == chacha_open(self@, nonce@, data@),
            r is Err ==> r->Err_0 == CryptoError::CryptoFailure,
    {
        if nonce.len() != 12 {
            return Err(CryptoError::CryptoFailure);
        }
        match chacha_open_bytes(self.key.as_slice(), nonce, data) {
            Some(pt) => Ok(pt),
            None => Err(CryptoError::CryptoFailure),
        }
    }

    /// One fresh uniformly random 32-byte key, under its canonical artifact
    /// name.
    pub fn generate() -> (out: Vec<(String, Vec<u8>)>)
        ensures
            out@.len() == 1,
            out@[0].0@ == "ChaCha20Poly1305.txt"@,
            out@[0].1@.len() == 32,
    {
        let key = random_key_bytes();
        let mut out: Vec<(String, Vec<u8>)> = Vec::new();
        out.push(("ChaCha20Poly1305.txt".to_owned(), key));
        out
    }
}

/// How `process_decrypt` answers, as a function of its inputs: the reserved
/// tags are refused as unsupported, key material must be exactly 32 bytes,
/// the nonce exactly 12, and then opening either recovers the plaintext or
/// fails with the one generic cryptographic failure.
pub open spec fn spec_process_decrypt(
    key: Seq<u8>,
    nonce: Seq<u8>,
    ct: Seq<u8>,
    format: ChachaFormat,
) -> Result<Seq<u8>, CryptoError> {
    if format != ChachaFormat::ChaCha20Poly1305 {
        Err(CryptoError::UnsupportedAlgorithm)
    } else if key.len() != 32 {
        Err(CryptoError::KeyFormat)
    } else if nonce.len() != 12 {
        Err(CryptoError::CryptoFailure)
    } else {
        match chacha_open(key, nonce, ct) {
            Some(pt) => Ok(pt),
            None => Err(CryptoError::CryptoFailure),
        }
    }
}

/// Encrypt the buffered plaintext: a fresh random 12-byte nonce is drawn,
/// the plaintext is sealed under it, and both the sealed bytes and the
/// nonce are returned for the caller to encode. Decrypting the sealed bytes
/// with the same key and nonce recovers the plaintext exactly.
pub fn process_encrypt(data: &[u8], key: &[u8], format: ChachaFormat) -> (r: Result<
    (Vec<u8>, Vec<u8>),
    CryptoError,
>)
    ensures
        format != ChachaFormat::ChaCha20Poly1305 ==> r == Err::<(Vec<u8>, Vec<u8>), CryptoError>(
            CryptoError::UnsupportedAlgorithm,
        ),
        format == ChachaFormat::ChaCha20Poly1305 && key@.len() != 32 ==> r == Err::<
            (Vec<u8>, Vec<u8>),
            CryptoError,
        >(CryptoError::KeyFormat),
        format == ChachaFormat::ChaCha20Poly1305 && key@.len() == 32 ==> (r is Ok <==> data@.len()
            < 274877906880),
        r is Ok ==> r->Ok_0.1@.len() == 12,
        r is Ok ==> r->Ok_0.0@ == chacha_seal(key@, r->Ok_0.1@, data@),
        r is Ok ==> r->Ok_0.0@.len() == data@.len() + 16,
        r is Ok ==> chacha_open(key@, r->Ok_0.1@, r->Ok_0.0@) == Some(data@),
{
    match format {
        ChachaFormat::ChaCha20Poly1305 => match ChaCha20Poly1305::try_new(key) {
            Ok(cipher) => cipher.encrypt(data),
            Err(e) => Err(e),
        },
        ChachaFormat::XChaCha20Poly1305
        | ChachaFormat::ChaCha12Poly1305
        | ChachaFormat::ChaCha8Poly1305 => Err(CryptoError::UnsupportedAlgorithm),
    }
}

/// Decrypt buffered binary sealed bytes (already stripped of any wire-text
/// encoding by the caller) under the supplied key and 12-byte nonce. A bad
/// tag or malformed input fails with the one generic cryptographic failure;
/// no partial plaintext is ever returned.
pub fn process_decrypt(data: &[u8], key: &[u8], nonce: &[u8], format: ChachaFormat) -> (r: Result<
    Vec<u8>,
    CryptoError,
>)
    ensures
        bytes_result_view(r) == spec_process_decrypt(key@, nonce@, data@, format),
{
    match format {
        ChachaFormat::ChaCha20Poly1305 => match ChaCha20Poly1305::try_new(key) {
            Ok(cipher) => cipher.decrypt(data, nonce),
            Err(e) => Err(e),
        },
        ChachaFormat::XChaCha20Poly1305
        | ChachaFormat::ChaCha12Poly1305
        | ChachaFormat::ChaCha8Poly1305 => Err(CryptoError::UnsupportedAlgorithm),
    }
}

/// Generate key material for the chosen AEAD tag: one 32-byte key for the
/// implemented variant, a refusal for the reserved ones.
pub fn process_chacha_generate(format: ChachaFormat) -> (r: Result<
    Vec<(String, Vec<u8>)>,
    CryptoError,
>)
    ensures
        r is Ok <==> format == ChachaFormat::ChaCha20Poly1305,
        r is Err ==> r->Err_0 == CryptoError::UnsupportedAlgorithm,
        r is Ok ==> r->Ok_0@.len() == 1 && r->Ok_0@[0].0@ == "ChaCha20Poly1305.txt"@
            && r->Ok_0@[0].1@.len() == 32,
{
    match format {
        ChachaFormat::ChaCha20Poly1305 => Ok(ChaCha20Poly1305::generate()),
        ChachaFormat::XChaCha20Poly1305
        | ChachaFormat::ChaCha12Poly1305
        | ChachaFormat::ChaCha8Poly1305 => Err(CryptoError::UnsupportedAlgorithm),
    }
}

/// Whatever decrypts to a plaintext under a key and nonce is returned
/// exactly: if opening `ct` yields `m` — as it does for the sealed bytes
/// that encryption returns — then `process_decrypt` answers `Ok(m)`, never
/// an altered plaintext.
pub proof fn lemma_open_pins_plaintext(key: Seq<u8>, nonce: Seq<u8>, ct: Seq<u8>, m: Seq<u8>)
    requires
        key.len() == 32,
        nonce.len() == 12,
        chacha_open(key, nonce, ct) == Some(m),
    ensures
        spec_process_decrypt(key, nonce, ct, ChachaFormat::ChaCha20Poly1305) == Ok::<
            Seq<u8>,
            CryptoError,
        >(m),
{
}

} // verus!
