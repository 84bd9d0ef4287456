use rcli::{
    parse_base64_format, parse_chacha_format, parse_output_format, parse_signature_format,
    verify_file_exists, Base64Format, ChachaFormat, CryptoError, OutputFormat, SignatureFormat,
};

#[test]
fn test_parse_signature_format_names() {
    assert_eq!(parse_signature_format("blake3"), Some(SignatureFormat::Blake3));
    assert_eq!(parse_signature_format("ed25519"), Some(SignatureFormat::Ed25519));
    assert_eq!(parse_signature_format("BLAKE3"), Some(SignatureFormat::Blake3));
    assert_eq!(parse_signature_format("Ed25519"), Some(SignatureFormat::Ed25519));
    assert_eq!(parse_signature_format("sha256"), None);
    assert_eq!(parse_signature_format(""), None);
    assert_eq!(parse_signature_format("blake"), None);
}

#[test]
fn test_parse_chacha_format_names() {
    assert_eq!(
        parse_chacha_format("chacha20poly1305"),
        Some(ChachaFormat::ChaCha20Poly1305)
    );
    assert_eq!(
        parse_chacha_format("ChaCha20Poly1305"),
        Some(ChachaFormat::ChaCha20Poly1305)
    );
    assert_eq!(
        parse_chacha_format("XChaCha20Poly1305"),
        Some(ChachaFormat::XChaCha20Poly1305)
    );
    assert_eq!(
        parse_chacha_format("chacha12poly1305"),
        Some(ChachaFormat::ChaCha12Poly1305)
    );
    assert_eq!(
        parse_chacha_format("chacha8poly1305"),
        Some(ChachaFormat::ChaCha8Poly1305)
    );
    assert_eq!(parse_chacha_format("aes256gcm"), None);
}

#[test]
fn test_parse_base64_format_names() {
    assert_eq!(parse_base64_format("standard"), Some(Base64Format::Standard));
    assert_eq!(parse_base64_format("URLSAFE"), Some(Base64Format::UrlSafe));
    assert_eq!(parse_base64_format("url-safe"), None);
}

#[test]
fn test_parse_output_format_names() {
    assert_eq!(parse_output_format("json"), Some(OutputFormat::Json));
    assert_eq!(parse_output_format("Yaml"), Some(OutputFormat::Yaml));
    assert_eq!(parse_output_format("toml"), None);
}

#[test]
fn test_format_names_round_trip() {
    for format in [SignatureFormat::Blake3, SignatureFormat::Ed25519] {
        assert_eq!(parse_signature_format(format.name()), Some(format));
    }
    for format in [
        ChachaFormat::ChaCha20Poly1305,
        ChachaFormat::XChaCha20Poly1305,
        ChachaFormat::ChaCha12Poly1305,
        ChachaFormat::ChaCha8Poly1305,
    ] {
        assert_eq!(parse_chacha_format(format.name()), Some(format));
    }
}

#[test]
fn test_error_messages() {
    assert_eq!(CryptoError::KeyFormat.message(), "invalid key format");
    assert_eq!(CryptoError::UnsupportedAlgorithm.message(), "unsupported algorithm");
    assert_eq!(
        CryptoError::CryptoFailure.message(),
        "cryptographic operation failed"
    );
}

#[test]
fn test_verify_file_exists() {
    assert_eq!(verify_file_exists("-"), Ok("-".into()));
    assert_eq!(verify_file_exists("*"), Err("File does not exists"));
    // The harness runs tests beside the sources without a Cargo.toml, so an
    // existing source file stands in for it here.
    assert_eq!(verify_file_exists("src/lib.rs"), Ok("src/lib.rs".into()));
    assert_eq!(verify_file_exists("not-exist"), Err("File does not exists"));
}

