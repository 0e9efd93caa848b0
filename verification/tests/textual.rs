//! Text-level behaviour: addresses, URLs, cookie parsing, decimal
//! rendering, error messages, and executable resolution.

use bitcoind::endpoint::Ipv4Addr;
use bitcoind::endpoint::SocketAddrV4;
use bitcoind::text::i32_to_string;
use bitcoind::text::u64_to_string;
use bitcoind::Conf;
use bitcoind::ConnectParams;
use bitcoind::Error;
use bitcoind::ExitStatus;
use bitcoind::P2P;

#[test]
fn test_local_ip() {
    let local_ip = Ipv4Addr::localhost();
    assert_eq!("127.0.0.1", local_ip.to_text());
    let port = 34567;
    let socket = SocketAddrV4::new(local_ip, port);
    assert_eq!(format!("127.0.0.1:{}", port), socket.to_text());
}

#[test]
fn test_get_cookie_user_and_pass() {
    let user: &str = "bitcoind_user";
    let password: &str = "bitcoind_password";

    let content = format!("{}:{}", user, password);
    let result_values = ConnectParams::parse_cookie(content).unwrap();

    assert_eq!(user, result_values.user);
    assert_eq!(password, result_values.password);
}

#[test]
fn cookie_round_trip_alice_secret() {
    let values = ConnectParams::parse_cookie("alice:secret".to_string()).unwrap();
    assert_eq!(values.user, "alice");
    assert_eq!(values.password, "secret");
}

#[test]
fn cookie_without_colon_is_refused() {
    assert!(ConnectParams::parse_cookie("no separator here".to_string()).is_none());
    assert!(ConnectParams::parse_cookie(String::new()).is_none());
}

#[test]
fn cookie_splits_at_first_colon_only() {
    let values = ConnectParams::parse_cookie("a:b:c".to_string()).unwrap();
    assert_eq!(values.user, "a");
    assert_eq!(values.password, "b:c");

    let empty_user = ConnectParams::parse_cookie(":pw".to_string()).unwrap();
    assert_eq!(empty_user.user, "");
    assert_eq!(empty_user.password, "pw");

    let empty_password = ConnectParams::parse_cookie("user:".to_string()).unwrap();
    assert_eq!(empty_password.user, "user");
    assert_eq!(empty_password.password, "");
}

#[test]
fn decimal_rendering() {
    assert_eq!(u64_to_string(0), "0");
    assert_eq!(u64_to_string(7), "7");
    assert_eq!(u64_to_string(210000), "210000");
    assert_eq!(u64_to_string(65535), "65535");
    assert_eq!(i32_to_string(-7), "-7");
    assert_eq!(i32_to_string(0), "0");
    assert_eq!(i32_to_string(i32::MIN), "-2147483648");
}

#[test]
fn p2p_connect_of_node_with_p2p_port() {
    let sa = SocketAddrV4::new(Ipv4Addr::localhost(), 18444);
    let params = ConnectParams {
        cookie_file: "/tmp/wd/regtest/.cookie".to_string(),
        rpc_socket: SocketAddrV4::new(Ipv4Addr::localhost(), 9000),
        p2p_socket: Some(sa),
        zmq_pub_raw_block_socket: None,
        zmq_pub_raw_tx_socket: None,
    };
    assert_eq!(params.p2p_connect(false), Some(P2P::Connect(sa, false)));
    assert_eq!(params.p2p_connect(true), Some(P2P::Connect(sa, true)));

    let standalone = ConnectParams { p2p_socket: None, ..params };
    assert_eq!(standalone.p2p_connect(true), None);
}

#[test]
fn conf_default_values() {
    let conf = Conf::default();
    assert_eq!(conf.args, vec!["-regtest", "-fallbackfee=0.0001"]);
    assert!(!conf.view_stdout);
    assert_eq!(conf.p2p, P2P::No);
    assert_eq!(conf.network, "regtest");
    assert!(conf.tmpdir.is_none());
    assert!(conf.staticdir.is_none());
    assert_eq!(conf.attempts, 3);
    assert!(!conf.enable_zmq);
}

#[test]
fn downloaded_exe_path_reports_missing_feature() {
    assert_eq!(bitcoind::downloaded_exe_path().err().unwrap(), Error::NoFeature);
}

#[test]
fn exe_resolution_precedence() {
    // the environment override wins over everything
    assert_eq!(
        bitcoind::resolve_exe_path(
            Some("/env/bitcoind".to_string()),
            Ok("/dl/bitcoind".to_string()),
            Some("/path/bitcoind".to_string()),
        )
        .unwrap(),
        "/env/bitcoind"
    );
    // then the downloaded executable
    assert_eq!(
        bitcoind::resolve_exe_path(
            None,
            Ok("/dl/bitcoind".to_string()),
            Some("/path/bitcoind".to_string()),
        )
        .unwrap(),
        "/dl/bitcoind"
    );
    // then the PATH lookup
    assert_eq!(
        bitcoind::resolve_exe_path(None, Err(Error::NoFeature), Some("/path/bitcoind".to_string()))
            .unwrap(),
        "/path/bitcoind"
    );
    // and nothing at all is its own error
    assert_eq!(
        bitcoind::resolve_exe_path(None, Err(Error::NoFeature), None).err().unwrap(),
        Error::NoBitcoindExecutableFound
    );
}

#[test]
fn error_messages() {
    assert_eq!(
        Error::BothDirsSpecified.message(),
        "tempdir and staticdir cannot be enabled at same time in configuration options"
    );
    assert_eq!(
        Error::NoFeature.message(),
        "Called a method requiring a feature to be set, but it's not"
    );
    assert_eq!(
        Error::NoEnvVar.message(),
        "Called a method requiring env var `BITCOIND_EXE` to be set, but it's not"
    );
    assert_eq!(Error::Io.message(), "io::Error");
    assert_eq!(Error::Rpc.message(), "bitcoin_rpc::Error");
    assert!(Error::NoBitcoindExecutableFound.message().contains("BITCOIND_EXE"));
    assert!(Error::RpcUserAndPasswordUsed.message().contains("-rpcauth"));
    assert_eq!(
        Error::EarlyExit(ExitStatus { code: Some(101) }).message(),
        "The bitcoind process terminated early with exit code 101"
    );
    assert_eq!(
        Error::EarlyExit(ExitStatus { code: None }).message(),
        "The bitcoind process terminated early with exit code unknown"
    );
}
