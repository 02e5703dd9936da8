//! The command-line surface of the hub, as plain data: the subcommand and
//! the flags of `start`. Argument parsing itself happens outside the
//! library and hands over one of these values.

use vstd::prelude::*;

verus! {

/// The subcommands of the hub binary.
pub enum Commands {
    /// Start the hub.
    Start {
        /// Stay in the foreground instead of daemonizing.
        foreground: bool,
        /// Log to this file instead of standard output.
        log_file: Option<String>,
        /// Serve the HTTP transport too.
        enable_http: bool,
        /// The HTTP port.
        http_port: u16,
        /// The HTTP host.
        http_host: String,
    },
    /// Stop the running hub.
    Stop,
    /// Report whether the hub runs, and what it serves.
    Status,
    /// List the configured children.
    Servers,
}

/// One parsed command line.
pub struct Cli {
    pub command: Commands,
}

} // verus!
