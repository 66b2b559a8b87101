//! Network primitives: addresses, transport protocols, tunnel protocols,
//! and the generic endpoint descriptor shared by both tunnel types.

use vstd::prelude::*;

verus! {

/// An IPv4 address, stored as its four octets in network order.
#[derive(Clone, Copy, PartialEq, Eq, Debug)]
pub struct Ipv4Address {
    pub octets: [u8; 4],
}

/// An IPv6 address, stored as its eight 16-bit segments in network order.
#[derive(Clone, Copy, PartialEq, Eq, Debug)]
pub struct Ipv6Address {
    pub segments: [u16; 8],
}

/// An IP address of either family.
#[derive(Clone, Copy, PartialEq, Eq, Debug)]
pub enum IpAddress {
    V4(Ipv4Address),
    V6(Ipv6Address),
}

/// An IP address together with a transport port.
#[derive(Clone, Copy, PartialEq, Eq, Debug)]
pub struct SocketAddress {
    pub ip: IpAddress,
    pub port: u16,
}

/// The transport-layer protocol an endpoint is reached over.
#[derive(Clone, Copy, PartialEq, Eq, Debug)]
pub enum TransportProtocol {
    Udp,
    Tcp,
}

/// The IP address family a caller may pin a connection to.
#[derive(Clone, Copy, PartialEq, Eq, Debug)]
pub enum IpVersion {
    V4,
    V6,
}

/// The tunnel protocol spoken with a relay.
#[derive(Clone, Copy, PartialEq, Eq, Debug)]
pub enum TunnelType {
    OpenVpn,
    Wireguard,
}

/// A CIDR block: all addresses sharing the first `prefix` bits of `address`.
#[derive(Clone, Copy, PartialEq, Eq, Debug)]
pub struct IpNetwork {
    pub address: IpAddress,
    pub prefix: u8,
}

/// A WireGuard public key.
#[derive(Clone, Copy, PartialEq, Eq, Debug)]
pub struct PublicKey {
    pub bytes: [u8; 32],
}

/// A WireGuard pre-shared key.
#[derive(Clone, Copy, PartialEq, Eq, Debug)]
pub struct PresharedKey {
    pub bytes: [u8; 32],
}

/// A connectable address/port pair with its transport protocol, as used by
/// OpenVPN endpoints.
#[derive(Clone, Copy, PartialEq, Eq, Debug)]
pub struct Endpoint {
    pub address: SocketAddress,
    pub protocol: TransportProtocol,
}

impl Endpoint {
    /// Build an endpoint from its parts.
    pub fn new(ip: IpAddress, port: u16, protocol: TransportProtocol) -> (r: Endpoint)
        ensures
            r == (Endpoint { address: SocketAddress { ip, port }, protocol }),
    {
        Endpoint { address: SocketAddress { ip, port }, protocol }
    }
}

/// Whether an IPv4 address is the all-zero (unspecified) address.
pub open spec fn is_unspecified_v4(a: Ipv4Address) -> bool {
    a.octets@ == seq![0u8, 0u8, 0u8, 0u8]
}

/// Whether an IPv6 address is the all-zero (unspecified) address.
pub open spec fn is_unspecified_v6(a: Ipv6Address) -> bool {
    a.segments@ == seq![0u16, 0u16, 0u16, 0u16, 0u16, 0u16, 0u16, 0u16]
}

/// Whether a network is a default route: an all-zero base address of the
/// given family with a zero prefix length.
pub open spec fn is_default_route_v4(n: IpNetwork) -> bool {
    match n.address {
        IpAddress::V4(a) => is_unspecified_v4(a) && n.prefix == 0,
        IpAddress::V6(_) => false,
    }
}

/// Whether a network is the IPv6 default route.
pub open spec fn is_default_route_v6(n: IpNetwork) -> bool {
    match n.address {
        IpAddress::V4(_) => false,
        IpAddress::V6(a) => is_unspecified_v6(a) && n.prefix == 0,
    }
}

/// The route set that admits all traffic: the IPv4 default route followed by
/// the IPv6 default route.
pub open spec fn allows_all_traffic(routes: Seq<IpNetwork>) -> bool {
    routes.len() == 2 && is_default_route_v4(routes[0]) && is_default_route_v6(routes[1])
}

/// The "allow every destination" route set used for tunnel peers: `0.0.0.0/0`
/// and `::/0`.
pub fn all_of_the_internet() -> (r: Vec<IpNetwork>)
    ensures
        allows_all_traffic(r@),
{
    let v4 = IpNetwork {
        address: IpAddress::V4(Ipv4Address { octets: [0u8, 0u8, 0u8, 0u8] }),
        prefix: 0,
    };
    let v6 = IpNetwork {
        address: IpAddress::V6(Ipv6Address {
            segments: [0u16, 0u16, 0u16, 0u16, 0u16, 0u16, 0u16, 0u16],
        }),
        prefix: 0,
    };
    let mut r: Vec<IpNetwork> = Vec::new();
    r.push(v4);
    r.push(v6);
    r
}

/// Settings for reaching a relay through a proxy.
#[derive(Clone, PartialEq, Eq, Debug)]
pub enum ProxySettings {
    Shadowsocks(ShadowsocksProxySettings),
}

/// Connection parameters for a Shadowsocks proxy.
#[derive(Clone, PartialEq, Eq, Debug)]
pub struct ShadowsocksProxySettings {
    pub peer: SocketAddress,
    pub password: String,
    pub cipher: String,
}

} // verus!
