//! Everything another process needs to connect to a supervised node, and
//! the parser for the daemon's cookie credential file.

use crate::config::P2P;
use crate::endpoint::socket_text;
use crate::endpoint::SocketAddrV4;
use vstd::prelude::*;

verus! {

/// The two fields of the cookie credential file.
pub struct CookieValues {
    pub user: String,
    pub password: String,
}

/// All the information needed to connect to a node.
#[derive(Debug, Clone)]
pub struct ConnectParams {
    /// Path of the node's cookie file, which other clients read to
    /// authenticate against the node.
    pub cookie_file: String,
    /// Address of the node's RPC interface.
    pub rpc_socket: SocketAddrV4,
    /// Address of the p2p port; present iff the node opened one.
    pub p2p_socket: Option<SocketAddrV4>,
    /// Address publishing raw blocks; present iff ZMQ is enabled.
    pub zmq_pub_raw_block_socket: Option<SocketAddrV4>,
    /// Address publishing raw transactions; present iff ZMQ is enabled.
    pub zmq_pub_raw_tx_socket: Option<SocketAddrV4>,
}

/// `i` points at the first colon of `s`.
pub open spec fn is_first_colon(s: Seq<char>, i: int) -> bool {
    &&& 0 <= i < s.len()
    &&& s[i] == ':'
    &&& forall|j: int| 0 <= j < i ==> s[j] != ':'
}

/// `s` holds a colon somewhere.
pub open spec fn has_colon(s: Seq<char>) -> bool {
    exists|i: int| 0 <= i < s.len() && s[i] == ':'
}

/// The index of the first colon of `s` (meaningful only when one exists).
pub open spec fn first_colon_of(s: Seq<char>) -> int {
    choose|i: int| is_first_colon(s, i)
}

/// What the cookie parser yields: the text before the first colon and the
/// text after it, or nothing when no colon is present.
pub open spec fn spec_parse_cookie(s: Seq<char>) -> Option<(Seq<char>, Seq<char>)> {
    if has_colon(s) {
        let i = first_colon_of(s);
        Option::Some((s.subrange(0, i), s.subrange(i + 1, s.len() as int)))
    } else {
        Option::None
    }
}

/// Where some colon stands in `s`, a first one does.
proof fn lemma_first_colon_exists(s: Seq<char>, k: int)
    requires
        0 <= k < s.len(),
        s[k] == ':',
    ensures
        is_first_colon(s, first_colon_of(s)),
    decreases k,
{
    if forall|j: int| 0 <= j < k ==> s[j] != ':' {
        assert(is_first_colon(s, k));
    } else {
        let j = choose|j: int| 0 <= j < k && s[j] == ':';
        lemma_first_colon_exists(s, j);
    }
    let w = choose|i: int| is_first_colon(s, i);
    assert(is_first_colon(s, w));
}

/// Two first colons are the same colon.
proof fn lemma_first_colon_unique(s: Seq<char>, i1: int, i2: int)
    requires
        is_first_colon(s, i1),
        is_first_colon(s, i2),
    ensures
        i1 == i2,
{
    if i1 < i2 {
        assert(s[i1] != ':');
    } else if i2 < i1 {
        assert(s[i2] != ':');
    }
}

/// Splitting a user name free of colons, a colon, and a password back
/// apart through the cookie parser recovers the two fields exactly.
pub proof fn lemma_cookie_round_trip(user: Seq<char>, password: Seq<char>)
    requires
        forall|j: int| 0 <= j < user.len() ==> user[j] != ':',
    ensures
        spec_parse_cookie(user + seq![':'] + password) == Option::Some((user, password)),
{
    let line = user + seq![':'] + password;
    assert(line[user.len() as int] == ':');
    assert(is_first_colon(line, user.len() as int));
    lemma_first_colon_exists(line, user.len() as int);
    lemma_first_colon_unique(line, first_colon_of(line), user.len() as int);
    assert(line.subrange(0, user.len() as int) =~= user);
    assert(line.subrange(user.len() as int + 1, line.len() as int) =~= password);
}

impl ConnectParams {
    /// Parses the content of the cookie file: the text before the first
    /// colon is the user, the text after it the password.
    pub fn parse_cookie(content: String) -> (r: Option<CookieValues>)
        ensures
            match r {
                Option::Some(cv) => spec_parse_cookie(content@) matches Option::Some(p)
                    && cv.user@ == p.0 && cv.password@ == p.1,
                Option::None => spec_parse_cookie(content@) is None,
            },
    {
        let s = content.as_str();
        let n = s.unicode_len();
        let mut i: usize = 0;
        while i < n
            invariant
                i <= n,
                n == s@.len(),
                content@ == s@,
                forall|j: int| 0 <= j < i ==> s@[j] != ':',
            decreases n - i,
        {
            if s.get_char(i) == ':' {
                proof {
                    assert(is_first_colon(s@, i as int));
                    lemma_first_colon_exists(s@, i as int);
                    lemma_first_colon_unique(s@, first_colon_of(s@), i as int);
                    assert(has_colon(s@));
                    assert(first_colon_of(s@) == i as int);
                    assert(spec_parse_cookie(content@) is Some);
                }
                let user = s.substring_char(0, i).to_owned();
                let password = s.substring_char(i + 1, n).to_owned();
                return Option::Some(CookieValues { user, password });
            }
            i += 1;
        }
        Option::None
    }

    /// The p2p settings with which another node connects to this one, if
    /// this node opened a p2p port.
    pub fn p2p_connect(&self, listen: bool) -> (r: Option<P2P>)
        ensures
            match self.p2p_socket {
                Option::Some(sa) => r == Option::Some(P2P::Connect(sa, listen)),
                Option::None => r is None,
            },
    {
        match self.p2p_socket {
            Option::Some(sa) => Option::Some(P2P::Connect(sa, listen)),
            Option::None => Option::None,
        }
    }

    /// The RPC URL including the scheme, e.g. `http://127.0.0.1:44842`.
    pub fn rpc_url(&self) -> (r: String)
        ensures
            r@ == rpc_url_text(self.rpc_socket),
    {
        let mut s = "http://".to_owned();
        s.append(self.rpc_socket.to_text().as_str());
        s
    }

    /// The RPC URL of one wallet, e.g. `http://127.0.0.1:44842/wallet/w`.
    pub fn rpc_url_with_wallet(&self, wallet_name: &str) -> (r: String)
        ensures
            r@ == wallet_url_text(self.rpc_socket, wallet_name@),
    {
        let mut s = self.rpc_url();
        s.append("/wallet/");
        s.append(wallet_name);
        s
    }
}

/// The RPC URL of a node whose RPC interface listens on `sa`.
pub open spec fn rpc_url_text(sa: SocketAddrV4) -> Seq<char> {
    "http://"@ + socket_text(sa)
}

/// The RPC URL of one wallet of that node.
pub open spec fn wallet_url_text(sa: SocketAddrV4, wallet_name: Seq<char>) -> Seq<char> {
    rpc_url_text(sa) + "/wallet/"@ + wallet_name
}

} // verus!
