//! Caller-supplied configuration for a node, and the validation of the
//! pass-through command-line arguments.

use crate::endpoint::SocketAddrV4;
use crate::errors::Error;
use crate::text::has_prefix;
use crate::text::str_has_prefix;
use vstd::prelude::*;

verus! {

/// How the node's peer-to-peer port is set up.
#[derive(Debug, PartialEq, Eq, Clone)]
pub enum P2P {
    /// The node doesn't open a p2p port and works in standalone mode.
    No,
    /// The node opens a p2p port.
    Yes,
    /// The node opens a p2p port and also connects to the given address;
    /// the `bool` tells whether the node accepts inbound connections too.
    Connect(SocketAddrV4, bool),
}

/// The node configuration parameters, with a convenient [`Default`] for
/// the most common use.
///
/// `#[non_exhaustive]` allows adding new parameters without breaking
/// downstream users: the struct is created via `default()` and the fields
/// are then set one by one.
#[non_exhaustive]
#[derive(Debug, PartialEq, Eq, Clone)]
pub struct Conf<'a> {
    /// Command-line arguments passed through to the daemon, each without
    /// embedded spaces, like `vec!["-dbcache=300", "-regtest"]`.  The
    /// tokens `port`, `rpcport`, `connect`, `datadir` and `listen` cannot
    /// be used because they are injected by the launcher.
    pub args: Vec<&'a str>,
    /// If `true`, the daemon's standard output is not suppressed.
    pub view_stdout: bool,
    /// Whether to open the p2p port or connect to another node.
    pub p2p: P2P,
    /// Must match the network selected in `args` (without dashes); it
    /// names the subdirectory holding the cookie file.
    pub network: &'a str,
    /// Base path under which a temporary work directory is created.
    /// Cannot be combined with `staticdir`.
    pub tmpdir: Option<String>,
    /// Path of a persistent, caller-owned work directory.  Cannot be
    /// combined with `tmpdir`.
    pub staticdir: Option<String>,
    /// How many times to spawn the process again after an early exit,
    /// presumed to come from a port conflict.
    pub attempts: u8,
    /// Enable the ZMQ event interface.
    pub enable_zmq: bool,
}

impl Default for Conf<'_> {
    fn default() -> (r: Self)
        ensures
            r.args@.len() == 2,
            r.args@[0]@ == "-regtest"@,
            r.args@[1]@ == "-fallbackfee=0.0001"@,
            r.view_stdout == false,
            r.p2p == P2P::No,
            r.network@ == "regtest"@,
            r.tmpdir is None,
            r.staticdir is None,
            r.attempts == 3,
            r.enable_zmq == false,
    {
        Conf {
            args: vec!["-regtest", "-fallbackfee=0.0001"],
            view_stdout: false,
            p2p: P2P::No,
            network: "regtest",
            tmpdir: None,
            staticdir: None,
            attempts: 3,
            enable_zmq: false,
        }
    }
}

/// An argument token that the validation refuses: the deprecated raw
/// authentication flags, which conflict with cookie authentication.
pub open spec fn is_forbidden_arg(a: Seq<char>) -> bool {
    has_prefix(a, "-rpcuser"@) || has_prefix(a, "-rpcpassword"@)
}

/// Checks the pass-through arguments for unavailable or deprecated
/// tokens, and hands them back unchanged when none is present.
pub fn validate_args<'a>(args: Vec<&'a str>) -> (r: Result<Vec<&'a str>, Error>)
    ensures
        (r is Err) <==> (exists|i: int|
            0 <= i < args.deep_view().len() && is_forbidden_arg(#[trigger] args.deep_view()[i])),
        r matches Err(e) ==> e == Error::RpcUserAndPasswordUsed,
        r matches Ok(v) ==> v.deep_view() == args.deep_view(),
{
    let n = args.len();
    let mut i: usize = 0;
    while i < n
        invariant
            i <= n,
            n == args@.len(),
            forall|j: int| 0 <= j < i ==> !is_forbidden_arg(#[trigger] args.deep_view()[j]),
        decreases n - i,
    {
        let arg = args[i];
        if str_has_prefix(arg, "-rpcuser") || str_has_prefix(arg, "-rpcpassword") {
            proof {
                assert(is_forbidden_arg(args.deep_view()[i as int]));
            }
            return Err(Error::RpcUserAndPasswordUsed);
        }
        i += 1;
    }
    Ok(args)
}

} // verus!
