//! Encryption subcommands and the AEAD algorithm tag.

use super::{ascii_lower_matches, matches_keyword};
use vstd::prelude::*;

verus! {

/// The stream-cipher subcommands.
#[derive(Debug, Clone)]
pub enum ChachaSubCommand {
    Encrypt(EncryptOpts),
    Decrypt(DecryptOpts),
    Generate(GenerateOpts),
}

/// Encrypt the bytes of `input` under the key in the file named by `key`.
#[derive(Debug, Clone)]
pub struct EncryptOpts {
    pub input: String,
    pub key: String,
    pub format: ChachaFormat,
}

/// Decrypt the bytes of `input` under `key`, with the wire-text `nonce`.
#[derive(Debug, Clone)]
pub struct DecryptOpts {
    pub input: String,
    pub key: String,
    pub nonce: String,
    pub format: ChachaFormat,
}

/// Generate an AEAD key and write it under `output`.
#[derive(Debug, Clone)]
pub struct GenerateOpts {
    pub format: ChachaFormat,
    pub output: String,
}

/// The AEAD variants. Only the first is implemented; the other three are
/// declared as extension points and refused at run time.
#[derive(Debug, Clone, Copy, PartialEq, Eq, Structural)]
pub enum ChachaFormat {
    ChaCha20Poly1305,
    XChaCha20Poly1305,
    ChaCha12Poly1305,
    ChaCha8Poly1305,
}

impl ChachaFormat {
    pub open spec fn spec_name(self) -> Seq<char> {
        match self {
            ChachaFormat::ChaCha20Poly1305 => "chacha20poly1305"@,
            ChachaFormat::XChaCha20Poly1305 => "xchacha20poly1305"@,
            ChachaFormat::ChaCha12Poly1305 => "chacha12poly1305"@,
            ChachaFormat::ChaCha8Poly1305 => "chacha8poly1305"@,
        }
    }

    /// The canonical lower-case name of the tag.
    pub fn name(&self) -> (s: &'static str)
        ensures
            s@ == self.spec_name(),
    {
        match self {
            ChachaFormat::ChaCha20Poly1305 => "chacha20poly1305",
            ChachaFormat::XChaCha20Poly1305 => "xchacha20poly1305",
            ChachaFormat::ChaCha12Poly1305 => "chacha12poly1305",
            ChachaFormat::ChaCha8Poly1305 => "chacha8poly1305",
        }
    }
}

/// Which tag, if any, the text `s` names, up to ASCII case.
pub open spec fn spec_parse_chacha_format(s: Seq<char>) -> Option<ChachaFormat> {
    if ascii_lower_matches(s, "chacha20poly1305"@) {
        Some(ChachaFormat::ChaCha20Poly1305)
    } else if ascii_lower_matches(s, "xchacha20poly1305"@) {
        Some(ChachaFormat::XChaCha20Poly1305)
    } else if ascii_lower_matches(s, "chacha12poly1305"@) {
        Some(ChachaFormat::ChaCha12Poly1305)
    } else if ascii_lower_matches(s, "chacha8poly1305"@) {
        Some(ChachaFormat::ChaCha8Poly1305)
    } else {
        None
    }
}

/// Parse an AEAD algorithm tag, ignoring ASCII case.
pub fn parse_chacha_format(s: &str) -> (r: Option<ChachaFormat>)
    ensures
        r == spec_parse_chacha_format(s@),
{
    if matches_keyword(s, "chacha20poly1305") {
        Some(ChachaFormat::ChaCha20Poly1305)
    } else if matches_keyword(s, "xchacha20poly1305") {
        Some(ChachaFormat::XChaCha20Poly1305)
    } else if matches_keyword(s, "chacha12poly1305") {
        Some(ChachaFormat::ChaCha12Poly1305)
    } else if matches_keyword(s, "chacha8poly1305") {
        Some(ChachaFormat::ChaCha8Poly1305)
    } else {
        None
    }
}

} // verus!
