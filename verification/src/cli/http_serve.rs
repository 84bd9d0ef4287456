//! Static file serving subcommand: description only.

use vstd::prelude::*;

verus! {

/// The HTTP subcommands.
#[derive(Debug, Clone)]
pub enum HttpSubCommand {
    Serve(HttpServeOpts),
}

/// Serve the directory named by `dirtory` on `port`.
#[derive(Debug, Clone)]
pub struct HttpServeOpts {
    pub dirtory: String,
    pub port: u16,
}

} // verus!
