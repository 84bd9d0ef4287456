//! Password generation subcommand: description only.

use vstd::prelude::*;

verus! {

/// Generate a password of `length` characters, drawing from every character
/// class that is not switched off.
#[derive(Debug, Clone, Copy)]
pub struct GenpassOpts {
    pub length: u8,
    pub no_uppercase: bool,
    pub no_lowercace: bool,
    pub no_number: bool,
    pub no_symbol: bool,
}

} // verus!
