//! The parsed command-line configuration the client runs with. Argument
//! parsing itself happens outside the core; this is the plain data it
//! produces.

use vstd::prelude::*;

verus! {

/// Command-line arguments for the HYRCON client.
#[derive(Debug, Clone)]
pub struct Cli {
    /// Hostname or IP address of the server.
    pub host: String,
    /// TCP port exposed by the server.
    pub port: u16,
    /// Password used for the AUTH handshake.
    pub password: Option<String>,
    /// I/O timeout in milliseconds.
    pub timeout_ms: u64,
    /// Logging verbosity; each step raises the level.
    pub verbose: u8,
    /// Disable ANSI color output.
    pub plain: bool,
    /// One-shot command executed instead of starting the REPL.
    pub command: Vec<String>,
}

} // verus!
