//! Base64 subcommands and the alphabet tag.
//!
//! Encoding and decoding themselves are wire-text work done by the caller;
//! the library only describes the commands and parses the alphabet tag.

use super::{ascii_lower_matches, matches_keyword};
use vstd::prelude::*;

verus! {

/// The base64 subcommands.
#[derive(Debug, Clone)]
pub enum Base64SubCommand {
    Encode(Base64EncodeOpts),
    Decode(Base64DecodeOpts),
}

/// Encode the bytes of `input` as base64 text.
#[derive(Debug, Clone)]
pub struct Base64EncodeOpts {
    pub input: String,
    pub format: Base64Format,
}

/// Decode the base64 text of `input` back to bytes.
#[derive(Debug, Clone)]
pub struct Base64DecodeOpts {
    pub input: String,
    pub format: Base64Format,
}

/// Which base64 alphabet to use.
#[derive(Debug, Clone, Copy, PartialEq, Eq, Structural)]
pub enum Base64Format {
    Standard,
    UrlSafe,
}

impl Base64Format {
    pub open spec fn spec_name(self) -> Seq<char> {
        match self {
            Base64Format::Standard => "standard"@,
            Base64Format::UrlSafe => "urlsafe"@,
        }
    }

    /// The canonical lower-case name of the tag.
    pub fn name(&self) -> (s: &'static str)
        ensures
            s@ == self.spec_name(),
    {
        match self {
            Base64Format::Standard => "standard",
            Base64Format::UrlSafe => "urlsafe",
        }
    }
}

/// Which tag, if any, the text `s` names, up to ASCII case.
pub open spec fn spec_parse_base64_format(s: Seq<char>) -> Option<Base64Format> {
    if ascii_lower_matches(s, "standard"@) {
        Some(Base64Format::Standard)
    } else if ascii_lower_matches(s, "urlsafe"@) {
        Some(Base64Format::UrlSafe)
    } else {
        None
    }
}

/// Parse a base64 alphabet tag, ignoring ASCII case.
pub fn parse_base64_format(s: &str) -> (r: Option<Base64Format>)
    ensures
        r == spec_parse_base64_format(s@),
{
    if matches_keyword(s, "standard") {
        Some(Base64Format::Standard)
    } else if matches_keyword(s, "urlsafe") {
        Some(Base64Format::UrlSafe)
    } else {
        None
    }
}

} // verus!
