//! Test-harness library for launching and supervising a `bitcoind` node.
//!
//! The crate holds the decision logic of the node's lifecycle: it
//! validates the caller's configuration, resolves the work directory and
//! the executable, records the ephemeral ports a node is given, builds
//! the daemon's command line and connection record, and decides every
//! step of the spawn-retry and readiness-polling loop, up to the teardown
//! owed to each directory mode.  The parts that touch the operating
//! system — spawning the process, binding sockets, creating directories,
//! the RPC traffic itself — live with the caller, which performs each
//! decided action and feeds the outcome back in as a plain value.

pub mod args;
pub mod config;
pub mod endpoint;
pub mod errors;
pub mod exe;
pub mod gate;
pub mod params;
pub mod ports;
pub mod text;
pub mod workdir;

pub use config::validate_args;
pub use config::Conf;
pub use config::P2P;
pub use errors::Error;
pub use errors::ExitStatus;
pub use exe::downloaded_exe_path;
pub use exe::resolve_exe_path;
pub use params::ConnectParams;
pub use params::CookieValues;
pub use workdir::DataDir;
