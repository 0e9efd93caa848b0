//! Building the daemon's command line and connection record from the
//! validated configuration and the resolved ports and paths.  The
//! mandatory tokens are appended after the caller's own tokens, so that
//! under the daemon's last-token-wins reading no user token can silently
//! override them.

use crate::config::is_forbidden_arg;
use crate::config::Conf;
use crate::config::P2P;
use crate::endpoint::is_local_ip;
use crate::endpoint::socket_text;
use crate::endpoint::Ipv4Addr;
use crate::endpoint::SocketAddrV4;
use crate::errors::Error;
use crate::params::ConnectParams;
use crate::text::dec_digits;
use crate::text::str_has_prefix;
use crate::text::u64_to_string;
use vstd::prelude::*;

verus! {

/// The token fixing the node's data directory.
pub open spec fn datadir_token(dir: Seq<char>) -> Seq<char> {
    "-datadir="@ + dir
}

/// The token fixing the node's RPC port.
pub open spec fn rpcport_token(port: u16) -> Seq<char> {
    "-rpcport="@ + dec_digits(port as nat)
}

/// The token fixing the node's p2p port.
pub open spec fn port_token(port: u16) -> Seq<char> {
    "-port="@ + dec_digits(port as nat)
}

/// The token telling the node to connect out to the given peer.
pub open spec fn connect_token(sa: SocketAddrV4) -> Seq<char> {
    "-connect="@ + socket_text(sa)
}

/// The token disabling inbound peer listening.
pub open spec fn listen_disabled_token() -> Seq<char> {
    "-listen=0"@
}

/// The token re-enabling inbound peer listening (a connect target alone
/// would leave it disabled).
pub open spec fn listen_enabled_token() -> Seq<char> {
    "-listen=1"@
}

/// The token publishing raw transactions over ZMQ on the given port.
pub open spec fn zmq_raw_tx_token(port: u16) -> Seq<char> {
    "-zmqpubrawtx=tcp://0.0.0.0:"@ + dec_digits(port as nat)
}

/// The token publishing raw blocks over ZMQ on the given port.
pub open spec fn zmq_raw_block_token(port: u16) -> Seq<char> {
    "-zmqpubrawblock=tcp://0.0.0.0:"@ + dec_digits(port as nat)
}

/// The tokens one peer mode produces: standalone mode disables listening;
/// an open port sets it; a connect target sets the port, names the peer,
/// and re-enables listening only when inbound connections are accepted.
pub open spec fn p2p_tokens(p2p: P2P, port: Option<u16>) -> Seq<Seq<char>> {
    match (p2p, port) {
        (P2P::No, _) => seq![listen_disabled_token()],
        (P2P::Yes, Option::Some(p)) => seq![port_token(p)],
        (P2P::Connect(sa, listen), Option::Some(p)) => if listen {
            seq![port_token(p), connect_token(sa), listen_enabled_token()]
        } else {
            seq![port_token(p), connect_token(sa)]
        },
        _ => seq![],
    }
}

/// The tokens of the ZMQ event interface, when it is enabled.
pub open spec fn zmq_tokens(ports: Option<(u16, u16)>) -> Seq<Seq<char>> {
    match ports {
        Option::Some((tx, blk)) => seq![zmq_raw_tx_token(tx), zmq_raw_block_token(blk)],
        Option::None => seq![],
    }
}

/// All the tokens the launcher itself injects, in order: data directory,
/// RPC port, peer-mode tokens, and the ZMQ tokens when enabled.
pub open spec fn mandatory_tokens(
    workdir: Seq<char>,
    rpc_port: u16,
    p2p: P2P,
    p2p_port: Option<u16>,
    zmq_ports: Option<(u16, u16)>,
) -> Seq<Seq<char>> {
    seq![datadir_token(workdir), rpcport_token(rpc_port)] + p2p_tokens(p2p, p2p_port) + zmq_tokens(
        zmq_ports,
    )
}

/// With a connect target, the injected tokens always name that target,
/// and they hold a listen-enabling token exactly when inbound connections
/// are accepted: a connect-only command line would otherwise leave
/// listening disabled, while without acceptance none of the injected
/// tokens re-enables it.
pub proof fn lemma_connect_target_tokens(
    workdir: Seq<char>,
    rpc_port: u16,
    ep: SocketAddrV4,
    port: u16,
    zmq_ports: Option<(u16, u16)>,
    accept: bool,
)
    ensures
        mandatory_tokens(workdir, rpc_port, P2P::Connect(ep, accept), Some(port), zmq_ports)
            .contains(connect_token(ep)),
        accept ==> mandatory_tokens(
            workdir,
            rpc_port,
            P2P::Connect(ep, accept),
            Some(port),
            zmq_ports,
        ).contains(listen_enabled_token()),
        !accept ==> !mandatory_tokens(
            workdir,
            rpc_port,
            P2P::Connect(ep, accept),
            Some(port),
            zmq_ports,
        ).contains(listen_enabled_token()),
{
    reveal_strlit("-datadir=");
    reveal_strlit("-rpcport=");
    reveal_strlit("-port=");
    reveal_strlit("-connect=");
    reveal_strlit("-listen=1");
    reveal_strlit("-zmqpubrawtx=tcp://0.0.0.0:");
    reveal_strlit("-zmqpubrawblock=tcp://0.0.0.0:");
    let m = mandatory_tokens(workdir, rpc_port, P2P::Connect(ep, accept), Some(port), zmq_ports);
    assert(m[3] == connect_token(ep));
    assert(m.contains(connect_token(ep)));
    if accept {
        assert(m[4] == listen_enabled_token());
        assert(m.contains(listen_enabled_token()));
    } else {
        assert(listen_enabled_token()[1] == 'l');
        assert(datadir_token(workdir)[1] == 'd');
        assert(rpcport_token(rpc_port)[1] == 'r');
        assert(port_token(port)[1] == 'p');
        assert(connect_token(ep)[1] == 'c');
        assert(m[0] == datadir_token(workdir));
        assert(m[1] == rpcport_token(rpc_port));
        assert(m[2] == port_token(port));
        match zmq_ports {
            Option::Some((tx, blk)) => {
                assert(zmq_raw_tx_token(tx)[1] == 'z');
                assert(zmq_raw_block_token(blk)[1] == 'z');
                assert(m.len() == 6);
                assert(m[4] == zmq_raw_tx_token(tx));
                assert(m[5] == zmq_raw_block_token(blk));
            },
            Option::None => {
                assert(m.len() == 4);
            },
        }
        assert(forall|k: int| 0 <= k < m.len() ==> m[k] != listen_enabled_token());
        if m.contains(listen_enabled_token()) {
            let k = choose|k: int| 0 <= k < m.len() && m[k] == listen_enabled_token();
            assert(false);
        }
    }
}

/// Where the daemon writes its cookie file: in the per-network
/// subdirectory of the work directory.
pub open spec fn cookie_file_text(workdir: Seq<char>, network: Seq<char>) -> Seq<char> {
    workdir + "/"@ + network + "/.cookie"@
}

/// Everything the spawn needs: the full command line, the connection
/// record the handle will carry, and the stdout policy.
pub struct LaunchPlan {
    /// The daemon's arguments: the caller's tokens first, the mandatory
    /// tokens appended after them.
    pub argv: Vec<String>,
    /// The connection record for this launch.
    pub params: ConnectParams,
    /// The child inherits standard output instead of discarding it.
    pub inherit_stdout: bool,
}

fn prefixed_number_token(prefix: &'static str, port: u16) -> (r: String)
    ensures
        r@ == prefix@ + dec_digits(port as nat),
{
    let mut s = prefix.to_owned();
    s.append(u64_to_string(port as u64).as_str());
    s
}

/// Composes the command line and the connection record from the
/// configuration and the resolved bindings: the work directory path, the
/// RPC port, the p2p port (present exactly when a peer mode asks for
/// one), and the two ZMQ ports (present exactly when the event interface
/// is enabled).  A caller token carrying a raw authentication flag is
/// refused before anything is composed.
pub fn plan_launch(
    conf: &Conf,
    workdir_path: &str,
    rpc_port: u16,
    p2p_port: Option<u16>,
    zmq_ports: Option<(u16, u16)>,
) -> (r: Result<LaunchPlan, Error>)
    requires
        (conf.p2p is No) == (p2p_port is None),
        conf.enable_zmq == (zmq_ports is Some),
    ensures
        (r is Err) <==> (exists|i: int|
            0 <= i < conf.args.deep_view().len() && is_forbidden_arg(
                #[trigger] conf.args.deep_view()[i],
            )),
        r matches Err(e) ==> e == Error::RpcUserAndPasswordUsed,
        r matches Ok(plan) ==> {
            &&& plan.argv.deep_view() == conf.args.deep_view() + mandatory_tokens(
                workdir_path@,
                rpc_port,
                conf.p2p,
                p2p_port,
                zmq_ports,
            )
            &&& plan.params.rpc_socket.port == rpc_port
            &&& is_local_ip(plan.params.rpc_socket.ip)
            &&& match p2p_port {
                Option::Some(p) => plan.params.p2p_socket matches Option::Some(sa) && sa.port == p
                    && is_local_ip(sa.ip),
                Option::None => plan.params.p2p_socket is None,
            }
            &&& match zmq_ports {
                Option::Some((tx, blk)) => {
                    &&& plan.params.zmq_pub_raw_tx_socket matches Option::Some(t) && t.port == tx
                        && is_local_ip(t.ip)
                    &&& plan.params.zmq_pub_raw_block_socket matches Option::Some(b) && b.port
                        == blk && is_local_ip(b.ip)
                },
                Option::None => plan.params.zmq_pub_raw_tx_socket is None
                    && plan.params.zmq_pub_raw_block_socket is None,
            }
            &&& plan.params.cookie_file@ == cookie_file_text(workdir_path@, conf.network@)
            &&& plan.inherit_stdout == conf.view_stdout
        },
{
    let ghost user_args = conf.args.deep_view();
    let n = conf.args.len();
    let mut i: usize = 0;
    while i < n
        invariant
            i <= n,
            n == conf.args@.len(),
            user_args == conf.args.deep_view(),
            forall|j: int| 0 <= j < i ==> !is_forbidden_arg(#[trigger] user_args[j]),
        decreases n - i,
    {
        let arg = conf.args[i];
        if str_has_prefix(arg, "-rpcuser") || str_has_prefix(arg, "-rpcpassword") {
            proof {
                assert(is_forbidden_arg(user_args[i as int]));
            }
            return Err(Error::RpcUserAndPasswordUsed);
        }
        i += 1;
    }

    let mut argv: Vec<String> = Vec::new();
    let mut i: usize = 0;
    while i < n
        invariant
            i <= n,
            n == conf.args@.len(),
            user_args == conf.args.deep_view(),
            argv.deep_view() == user_args.subrange(0, i as int),
        decreases n - i,
    {
        let ghost prev = argv.deep_view();
        argv.push(conf.args[i].to_owned());
        proof {
            assert(argv.deep_view() =~= prev.push(user_args[i as int]));
            assert(argv.deep_view() =~= user_args.subrange(0, i + 1 as int));
        }
        i += 1;
    }
    proof {
        assert(argv.deep_view() =~= user_args);
    }

    let mut datadir_arg = "-datadir=".to_owned();
    datadir_arg.append(workdir_path);
    argv.push(datadir_arg);
    argv.push(prefixed_number_token("-rpcport=", rpc_port));
    proof {
        assert(argv.deep_view() =~= user_args + seq![
            datadir_token(workdir_path@),
            rpcport_token(rpc_port),
        ]);
    }

    let ghost before_p2p = argv.deep_view();
    let p2p_socket: Option<SocketAddrV4> = match (&conf.p2p, p2p_port) {
        (P2P::No, _) => {
            argv.push("-listen=0".to_owned());
            Option::None
        },
        (P2P::Yes, Option::Some(p)) => {
            argv.push(prefixed_number_token("-port=", p));
            Option::Some(SocketAddrV4::new(Ipv4Addr::localhost(), p))
        },
        (P2P::Connect(sa, listen), Option::Some(p)) => {
            argv.push(prefixed_number_token("-port=", p));
            let mut connect_arg = "-connect=".to_owned();
            connect_arg.append(sa.to_text().as_str());
            argv.push(connect_arg);
            if *listen {
                argv.push("-listen=1".to_owned());
            }
            Option::Some(SocketAddrV4::new(Ipv4Addr::localhost(), p))
        },
        _ => {
            proof {
                assert(false);
            }
            Option::None
        },
    };
    proof {
        assert(argv.deep_view() =~= before_p2p + p2p_tokens(conf.p2p, p2p_port));
    }

    let ghost before_zmq = argv.deep_view();
    let (zmq_tx_socket, zmq_block_socket): (Option<SocketAddrV4>, Option<SocketAddrV4>) =
        match zmq_ports {
        Option::Some((tx, blk)) => {
            argv.push(prefixed_number_token("-zmqpubrawtx=tcp://0.0.0.0:", tx));
            argv.push(prefixed_number_token("-zmqpubrawblock=tcp://0.0.0.0:", blk));
            (
                Option::Some(SocketAddrV4::new(Ipv4Addr::localhost(), tx)),
                Option::Some(SocketAddrV4::new(Ipv4Addr::localhost(), blk)),
            )
        },
        Option::None => (Option::None, Option::None),
    };
    proof {
        assert(argv.deep_view() =~= before_zmq + zmq_tokens(zmq_ports));
        assert(argv.deep_view() =~= user_args + mandatory_tokens(
            workdir_path@,
            rpc_port,
            conf.p2p,
            p2p_port,
            zmq_ports,
        ));
    }

    let mut cookie_file = workdir_path.to_owned();
    cookie_file.append("/");
    cookie_file.append(conf.network);
    cookie_file.append("/.cookie");

    let params = ConnectParams {
        cookie_file,
        rpc_socket: SocketAddrV4::new(Ipv4Addr::localhost(), rpc_port),
        p2p_socket,
        zmq_pub_raw_block_socket: zmq_block_socket,
        zmq_pub_raw_tx_socket: zmq_tx_socket,
    };
    Ok(LaunchPlan { argv, params, inherit_stdout: conf.view_stdout })
}

} // verus!
