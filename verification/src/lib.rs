//! Polymorphic cryptographic operation layer: runtime dispatch among
//! keyed-hash and asymmetric signing algorithms and authenticated-encryption
//! algorithms, over byte buffers and raw key material.
//!
//! The caller is responsible for acquiring input bytes and key bytes and for
//! any wire-text encoding of the results; this crate works on plain bytes.

pub mod cli;
pub mod process;

pub use cli::{
    parse_base64_format, parse_chacha_format, parse_output_format, parse_signature_format,
    verify_file_exists, verify_path, Base64DecodeOpts, Base64EncodeOpts, Base64Format,
    Base64SubCommand, ChachaFormat, ChachaSubCommand, CsvOpts, DecryptOpts, EncryptOpts,
    GenerateOpts, GenpassOpts, HttpServeOpts, HttpSubCommand, JwtSignOpts, JwtSubCommand,
    JwtVerifyOpts, Opts, OutputFormat, SignatureFormat, SubCommand, TextGenerateOpts, TextSignOpts,
    TextSubCommand, TextVerifyOpts,
};
pub use process::{
    process_chacha_generate, process_decrypt, process_encrypt, process_generate, process_sign,
    process_verify, Blake3, ChaCha20Poly1305, CryptoError, Ed25519Signer, Ed25519Verifier,
};
