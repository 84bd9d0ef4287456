//! JSON web token subcommands: descriptions only, the token work is a
//! caller-side concern.

use vstd::prelude::*;

verus! {

/// The token subcommands.
#[derive(Debug, Clone)]
pub enum JwtSubCommand {
    Sign(JwtSignOpts),
    Verify(JwtVerifyOpts),
}

/// Issue a token for `sub` and `aud` that expires after the duration `exp`.
#[derive(Debug, Clone)]
pub struct JwtSignOpts {
    pub sub: String,
    pub aud: String,
    pub exp: String,
}

/// Check a token.
#[derive(Debug, Clone)]
pub struct JwtVerifyOpts {
    pub token: String,
}

} // verus!
