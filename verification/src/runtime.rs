//! A thin holder for the parsed configuration a client lifecycle runs with.
//! Executing the lifecycle — sockets, prompts, exit codes — happens outside
//! the core.

use vstd::prelude::*;
use crate::cli::Cli;

verus! {

/// High-level wrapper that carries the parsed CLI arguments through one
/// client invocation.
#[derive(Debug)]
pub struct Runtime {
    cli: Cli,
}

impl Runtime {
    /// The configuration the runtime was built from.
    pub closed spec fn spec_cli(&self) -> Cli {
        self.cli
    }

    /// Construct a new [`Runtime`] from parsed CLI arguments.
    pub fn new(cli: Cli) -> (r: Self)
        ensures
            r.spec_cli() == cli,
    {
        Runtime { cli }
    }

    /// Hands the configuration back to the driver of the lifecycle.
    pub fn into_cli(self) -> (r: Cli)
        ensures
            r == self.spec_cli(),
    {
        self.cli
    }
}

} // verus!
