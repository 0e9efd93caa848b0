//! The error values this crate surfaces, and the text each one carries.

use crate::text::i32_to_string;
use crate::text::int_digits;
use vstd::prelude::*;

verus! {

/// The exit status of the daemon process as the supervisor observed it:
/// its exit code, or nothing when the process was ended by a signal.
#[derive(Debug, Clone, Copy, PartialEq, Eq)]
pub struct ExitStatus {
    pub code: Option<i32>,
}

/// All the possible errors of this crate.
#[derive(Debug, Clone, PartialEq, Eq)]
pub enum Error {
    /// An input/output failure; the value itself stays with the caller
    /// that performed the operation.
    Io,
    /// A failure of the node's RPC interface; the value itself stays with
    /// the caller that made the call.
    Rpc,
    /// A method needing a compiled-in executable was called, but none was
    /// compiled in.
    NoFeature,
    /// A method needing the `BITCOIND_EXE` environment variable was
    /// called, but the variable is not set.
    NoEnvVar,
    /// No `bitcoind` executable could be resolved from any source.
    NoBitcoindExecutableFound,
    /// The daemon process exited before its RPC interface came up, with
    /// the attempt budget already spent.
    EarlyExit(ExitStatus),
    /// Both a temporary and a persistent work directory were requested.
    BothDirsSpecified,
    /// A `-rpcuser` or `-rpcpassword` argument was supplied; cookie-file
    /// or `-rpcauth` authentication must be used instead.
    RpcUserAndPasswordUsed,
}

/// The text of an exit status: its code in decimal, or `unknown`.
pub open spec fn exit_status_text(s: ExitStatus) -> Seq<char> {
    match s.code {
        Option::Some(c) => int_digits(c as int),
        Option::None => "unknown"@,
    }
}

/// The message each error variant carries.
pub open spec fn error_text(e: Error) -> Seq<char> {
    match e {
        Error::Io => "io::Error"@,
        Error::Rpc => "bitcoin_rpc::Error"@,
        Error::NoFeature => "Called a method requiring a feature to be set, but it's not"@,
        Error::NoEnvVar => "Called a method requiring env var `BITCOIND_EXE` to be set, but it's not"@,
        Error::NoBitcoindExecutableFound => "`bitcoind` executable is required, provide it with one of the following: set env var `BITCOIND_EXE` or use a feature like \"22_1\" or have `bitcoind` executable in the `PATH`"@,
        Error::EarlyExit(
            s,
        ) => "The bitcoind process terminated early with exit code "@ + exit_status_text(s),
        Error::BothDirsSpecified => "tempdir and staticdir cannot be enabled at same time in configuration options"@,
        Error::RpcUserAndPasswordUsed => "`-rpcuser` and `-rpcpassword` cannot be used, it will be deprecated soon and it's recommended to use `-rpcauth` instead which works alongside with the default cookie authentication"@,
    }
}

impl ExitStatus {
    /// Renders the status as text.
    pub fn to_text(&self) -> (r: String)
        ensures
            r@ == exit_status_text(*self),
    {
        match self.code {
            Option::Some(c) => i32_to_string(c),
            Option::None => "unknown".to_owned(),
        }
    }
}

impl Error {
    /// The diagnostic message for this error.
    pub fn message(&self) -> (r: String)
        ensures
            r@ == error_text(*self),
    {
        match self {
            Error::Io => "io::Error".to_owned(),
            Error::Rpc => "bitcoin_rpc::Error".to_owned(),
            Error::NoFeature => "Called a method requiring a feature to be set, but it's not".to_owned(),
            Error::NoEnvVar => "Called a method requiring env var `BITCOIND_EXE` to be set, but it's not".to_owned(),
            Error::NoBitcoindExecutableFound => "`bitcoind` executable is required, provide it with one of the following: set env var `BITCOIND_EXE` or use a feature like \"22_1\" or have `bitcoind` executable in the `PATH`".to_owned(),
            Error::EarlyExit(s) => {
                let mut m = "The bitcoind process terminated early with exit code ".to_owned();
                m.append(s.to_text().as_str());
                m
            },
            Error::BothDirsSpecified => "tempdir and staticdir cannot be enabled at same time in configuration options".to_owned(),
            Error::RpcUserAndPasswordUsed => "`-rpcuser` and `-rpcpassword` cannot be used, it will be deprecated soon and it's recommended to use `-rpcauth` instead which works alongside with the default cookie authentication".to_owned(),
        }
    }
}

} // verus!
