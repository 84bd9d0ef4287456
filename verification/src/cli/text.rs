//! Signing subcommands and the signing algorithm tag.

use super::{ascii_lower_matches, matches_keyword};
use vstd::prelude::*;

verus! {

/// The text-signature subcommands.
#[derive(Debug, Clone)]
pub enum TextSubCommand {
    Sign(TextSignOpts),
    Verify(TextVerifyOpts),
    Generate(TextGenerateOpts),
}

/// Sign the bytes of `input` with the key in the file named by `key`.
#[derive(Debug, Clone)]
pub struct TextSignOpts {
    pub input: String,
    pub key: String,
    pub format: SignatureFormat,
}

/// Check the signature `sig` over the bytes of `input` against `key`.
#[derive(Debug, Clone)]
pub struct TextVerifyOpts {
    pub input: String,
    pub key: String,
    pub sig: String,
    pub format: SignatureFormat,
}

/// Generate key material and write it under `output`.
#[derive(Debug, Clone)]
pub struct TextGenerateOpts {
    pub format: SignatureFormat,
    pub output: String,
}

/// The signing families: a keyed hash, or an asymmetric signature.
#[derive(Debug, Clone, Copy, PartialEq, Eq, Structural)]
pub enum SignatureFormat {
    Blake3,
    Ed25519,
}

impl SignatureFormat {
    pub open spec fn spec_name(self) -> Seq<char> {
        match self {
            SignatureFormat::Blake3 => "blake3"@,
            SignatureFormat::Ed25519 => "ed25519"@,
        }
    }

    /// The canonical lower-case name of the tag.
    pub fn name(&self) -> (s: &'static str)
        ensures
            s@ == self.spec_name(),
    {
        match self {
            SignatureFormat::Blake3 => "blake3",
            SignatureFormat::Ed25519 => "ed25519",
        }
    }
}

/// Which tag, if any, the text `s` names, up to ASCII case.
pub open spec fn spec_parse_signature_format(s: Seq<char>) -> Option<SignatureFormat> {
    if ascii_lower_matches(s, "blake3"@) {
        Some(SignatureFormat::Blake3)
    } else if ascii_lower_matches(s, "ed25519"@) {
        Some(SignatureFormat::Ed25519)
    } else {
        None
    }
}

/// Parse a signing algorithm tag, ignoring ASCII case.
pub fn parse_signature_format(s: &str) -> (r: Option<SignatureFormat>)
    ensures
        r == spec_parse_signature_format(s@),
{
    if matches_keyword(s, "blake3") {
        Some(SignatureFormat::Blake3)
    } else if matches_keyword(s, "ed25519") {
        Some(SignatureFormat::Ed25519)
    } else {
        None
    }
}

} // verus!
