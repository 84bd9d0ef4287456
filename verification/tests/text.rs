use base64::engine::general_purpose::URL_SAFE_NO_PAD;
use base64::Engine;
use rcli::{process_generate, process_sign, process_verify, CryptoError, Ed25519Signer,
    SignatureFormat};

const SEED: &[u8; 32] = b"0123456789abcdef0123456789abcdef";
const OTHER_SEED: &[u8; 32] = b"fedcba9876543210fedcba9876543210";

// The deterministic Ed25519 signature over "hello" by SEED, in URL-safe
// base64 without padding.
const HELLO_SIG: &str =
    "QrL0xsE5lUpBzn7d_nmbqtyLZUBEdVlm6YClHQvfbml4e2u4-m_HJbPB06pX3hrswP5ott74g5Nzuhi4uqBYDA";

#[test]
fn test_process_sign() {
    let data = "hello".as_bytes();
    let format = SignatureFormat::Ed25519;
    let key: &[u8] = SEED;
    let ret = process_sign(data, key, format).unwrap();
    let ret = URL_SAFE_NO_PAD.encode(ret);
    println!("{:?}", ret);
    assert_eq!(ret, HELLO_SIG);
}

#[test]
fn test_process_verify() {
    let data = "hello".as_bytes();
    let format = SignatureFormat::Ed25519;
    let signer = Ed25519Signer::try_new(SEED).unwrap();
    let key = signer.verifying_key();
    let sig = URL_SAFE_NO_PAD.decode(HELLO_SIG).unwrap();
    let ret = process_verify(data, &key, &sig, format).unwrap();
    assert!(ret);
}

#[test]
fn test_ed25519_fixed_seed_scenario() {
    // Signing "hello" with a fixed seed gives one specific 64-byte
    // signature; it verifies under the paired public key and under no
    // unrelated one.
    let data = "hello".as_bytes();
    let sig = process_sign(data, SEED, SignatureFormat::Ed25519).unwrap();
    assert_eq!(sig.len(), 64);
    assert_eq!(URL_SAFE_NO_PAD.encode(&sig), HELLO_SIG);

    let vk = Ed25519Signer::try_new(SEED).unwrap().verifying_key();
    assert_eq!(vk.len(), 32);
    assert_eq!(
        process_verify(data, &vk, &sig, SignatureFormat::Ed25519).unwrap(),
        true
    );

    let unrelated = Ed25519Signer::try_new(OTHER_SEED).unwrap().verifying_key();
    assert_eq!(
        process_verify(data, &unrelated, &sig, SignatureFormat::Ed25519).unwrap(),
        false
    );
}

#[test]
fn test_ed25519_rejects_altered_message() {
    let sig = process_sign("hello".as_bytes(), SEED, SignatureFormat::Ed25519).unwrap();
    let vk = Ed25519Signer::try_new(SEED).unwrap().verifying_key();
    let ret = process_verify("hello!".as_bytes(), &vk, &sig, SignatureFormat::Ed25519).unwrap();
    assert!(!ret);
}

#[test]
fn test_ed25519_short_signature_is_error() {
    let vk = Ed25519Signer::try_new(SEED).unwrap().verifying_key();
    let short = vec![0u8; 63];
    let ret = process_verify("hello".as_bytes(), &vk, &short, SignatureFormat::Ed25519);
    assert_eq!(ret, Err(CryptoError::CryptoFailure));
}

#[test]
fn test_ed25519_invalid_public_key_encoding() {
    // Little-endian 2 is not the y-coordinate of any curve point, so this
    // 32-byte value is rejected as key material, not merely as a mismatch.
    let mut bad = [0u8; 32];
    bad[0] = 2;
    let sig = vec![0u8; 64];
    let ret = process_verify("hello".as_bytes(), &bad, &sig, SignatureFormat::Ed25519);
    assert_eq!(ret, Err(CryptoError::KeyFormat));
}

#[test]
fn test_blake3_round_trip() {
    // Keyed-hash: a signature just produced verifies under the same key.
    let key: &[u8] = SEED;
    let data = "hello".as_bytes();
    let sig = process_sign(data, key, SignatureFormat::Blake3).unwrap();
    assert_eq!(sig.len(), 32);
    assert_ne!(&sig[..], data);
    assert_eq!(process_verify(data, key, &sig, SignatureFormat::Blake3).unwrap(), true);
}

#[test]
fn test_blake3_wrong_key_rejects() {
    // Keyed-hash with a different key does not verify.
    let data = "hello".as_bytes();
    let sig = process_sign(data, SEED, SignatureFormat::Blake3).unwrap();
    let ret = process_verify(data, OTHER_SEED, &sig, SignatureFormat::Blake3).unwrap();
    assert!(!ret);
}

#[test]
fn test_blake3_length_mismatch_is_false_not_error() {
    let data = "hello".as_bytes();
    let short = vec![0u8; 5];
    let ret = process_verify(data, SEED, &short, SignatureFormat::Blake3);
    assert_eq!(ret, Ok(false));
}

#[test]
fn test_sign_key_length_is_strict() {
    let data = "hello".as_bytes();
    let short = vec![7u8; 31];
    let long = vec![7u8; 33];
    for format in [SignatureFormat::Blake3, SignatureFormat::Ed25519] {
        assert_eq!(process_sign(data, &short, format), Err(CryptoError::KeyFormat));
        assert_eq!(process_sign(data, &long, format), Err(CryptoError::KeyFormat));
        assert_eq!(
            process_verify(data, &short, &[0u8; 64], format),
            Err(CryptoError::KeyFormat)
        );
        assert_eq!(
            process_verify(data, &long, &[0u8; 64], format),
            Err(CryptoError::KeyFormat)
        );
    }
}

#[test]
fn test_generate_round_trip() {
    // Generate a fresh keyed-hash key, sign, verify with the same key;
    // a second fresh key does not verify the same signature.
    let first = process_generate(SignatureFormat::Blake3);
    assert_eq!(first.len(), 1);
    let (name, key1) = &first[0];
    assert_eq!(name, "blake3.key");

    let data = "hello".as_bytes();
    let sig = process_sign(data, key1, SignatureFormat::Blake3).unwrap();
    assert_eq!(process_verify(data, key1, &sig, SignatureFormat::Blake3).unwrap(), true);

    let second = process_generate(SignatureFormat::Blake3);
    let (_, key2) = &second[0];
    assert_ne!(key1, key2);
    assert_eq!(process_verify(data, key2, &sig, SignatureFormat::Blake3).unwrap(), false);
}

#[test]
fn test_generate_ed25519_keypair() {
    // The generated artifacts are a 32-byte seed and its paired public key,
    // and a signature by the seed verifies under that public key.
    let out = process_generate(SignatureFormat::Ed25519);
    assert_eq!(out.len(), 2);
    assert_eq!(out[0].0, "ed25519.sk");
    assert_eq!(out[1].0, "ed25519.vk");
    assert_eq!(out[0].1.len(), 32);
    assert_eq!(out[1].1.len(), 32);

    let data = "hello".as_bytes();
    let sig = process_sign(data, &out[0].1, SignatureFormat::Ed25519).unwrap();
    let ret = process_verify(data, &out[1].1, &sig, SignatureFormat::Ed25519).unwrap();
    assert!(ret);
}
