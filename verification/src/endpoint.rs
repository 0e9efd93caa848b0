//! Network endpoints as plain values: an IPv4 address held as its four
//! octets, and a socket address pairing it with a port.  The daemon is
//! always bound on the loopback address, so the library only ever builds
//! addresses of that shape; rendering to text is what the command line
//! and the RPC URLs need.

use crate::text::dec_digits;
use crate::text::u64_to_string;
use vstd::prelude::*;

verus! {

/// An IPv4 address, held as its four octets.
#[derive(Debug, Clone, Copy, PartialEq, Eq)]
pub struct Ipv4Addr {
    pub octets: [u8; 4],
}

/// The loopback address 127.0.0.1, on which every supervised node listens.
pub open spec fn is_local_ip(ip: Ipv4Addr) -> bool {
    ip.octets[0] == 127 && ip.octets[1] == 0 && ip.octets[2] == 0 && ip.octets[3] == 1
}

/// The dotted-decimal rendering of an address, as in `127.0.0.1`.
pub open spec fn ipv4_text(ip: Ipv4Addr) -> Seq<char> {
    dec_digits(ip.octets[0] as nat) + "."@ + dec_digits(ip.octets[1] as nat) + "."@ + dec_digits(
        ip.octets[2] as nat,
    ) + "."@ + dec_digits(ip.octets[3] as nat)
}

impl Ipv4Addr {
    pub fn new(a: u8, b: u8, c: u8, d: u8) -> (r: Ipv4Addr)
        ensures
            r.octets[0] == a,
            r.octets[1] == b,
            r.octets[2] == c,
            r.octets[3] == d,
    {
        Ipv4Addr { octets: [a, b, c, d] }
    }

    /// The loopback address used for every channel of a supervised node.
    pub fn localhost() -> (r: Ipv4Addr)
        ensures
            is_local_ip(r),
    {
        Ipv4Addr::new(127, 0, 0, 1)
    }

    /// Renders the address in dotted-decimal form.
    pub fn to_text(&self) -> (r: String)
        ensures
            r@ == ipv4_text(*self),
    {
        let mut s = u64_to_string(self.octets[0] as u64);
        s.append(".");
        s.append(u64_to_string(self.octets[1] as u64).as_str());
        s.append(".");
        s.append(u64_to_string(self.octets[2] as u64).as_str());
        s.append(".");
        s.append(u64_to_string(self.octets[3] as u64).as_str());
        s
    }
}

/// An IPv4 socket address: an address and a port.
#[derive(Debug, Clone, Copy, PartialEq, Eq)]
pub struct SocketAddrV4 {
    pub ip: Ipv4Addr,
    pub port: u16,
}

/// The usual `address:port` rendering of a socket address.
pub open spec fn socket_text(sa: SocketAddrV4) -> Seq<char> {
    ipv4_text(sa.ip) + ":"@ + dec_digits(sa.port as nat)
}

impl SocketAddrV4 {
    pub fn new(ip: Ipv4Addr, port: u16) -> (r: SocketAddrV4)
        ensures
            r.ip == ip,
            r.port == port,
    {
        SocketAddrV4 { ip, port }
    }

    /// Renders the socket address as `address:port`.
    pub fn to_text(&self) -> (r: String)
        ensures
            r@ == socket_text(*self),
    {
        let mut s = self.ip.to_text();
        s.append(":");
        s.append(u64_to_string(self.port as u64).as_str());
        s
    }
}

} // verus!
