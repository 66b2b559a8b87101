//! The relay catalog: the list of relay servers a client may connect to,
//! together with the catalog-wide endpoint data for each tunnel protocol.

use vstd::pervasive::unreached;
use vstd::prelude::*;

use crate::net::{
    IpAddress, Ipv4Address, Ipv6Address, ProxySettings, PublicKey, ShadowsocksProxySettings,
    SocketAddress, TransportProtocol,
};

verus! {

/// Where a relay sits in the location hierarchy: its country and city codes.
#[derive(PartialEq, Eq, Debug)]
pub struct Location {
    pub country: String,
    pub city: String,
}

impl Clone for Location {
    fn clone(&self) -> (r: Self)
        ensures
            r == *self,
    {
        Location { country: self.country.clone(), city: self.city.clone() }
    }
}

/// Relay-specific endpoint data. The variant decides which tunnel protocol
/// the relay can serve: a relay is never valid for more than one.
#[derive(Clone, Copy, PartialEq, Eq, Debug)]
pub enum RelayEndpointData {
    Openvpn,
    Bridge,
    Wireguard(WireguardRelayEndpointData),
}

impl RelayEndpointData {
    /// The WireGuard peer data of a relay known to be a WireGuard relay.
    pub fn unwrap_wireguard_ref(&self) -> (r: &WireguardRelayEndpointData)
        requires
            self is Wireguard,
        ensures
            *self == RelayEndpointData::Wireguard(*r),
    {
        match self {
            RelayEndpointData::Wireguard(data) => data,
            _ => unreached(),
        }
    }
}

/// Per-relay WireGuard data: the public key that addresses this peer.
#[derive(Clone, Copy, PartialEq, Eq, Debug)]
pub struct WireguardRelayEndpointData {
    pub public_key: PublicKey,
}

/// One relay server of the catalog.
#[derive(PartialEq, Eq, Debug)]
pub struct Relay {
    pub hostname: String,
    pub ipv4_addr_in: Ipv4Address,
    pub ipv6_addr_in: Option<Ipv6Address>,
    pub include_in_country: bool,
    pub active: bool,
    pub owned: bool,
    pub provider: String,
    pub weight: u64,
    pub endpoint_data: RelayEndpointData,
    pub location: Option<Location>,
}

impl Clone for Relay {
    fn clone(&self) -> (r: Self)
        ensures
            r == *self,
    {
        Relay {
            hostname: self.hostname.clone(),
            ipv4_addr_in: self.ipv4_addr_in,
            ipv6_addr_in: self.ipv6_addr_in,
            include_in_country: self.include_in_country,
            active: self.active,
            owned: self.owned,
            provider: self.provider.clone(),
            weight: self.weight,
            endpoint_data: self.endpoint_data,
            location: match &self.location {
                Some(l) => Some(l.clone()),
                None => None,
            },
        }
    }
}

/// One (port, protocol) pair on which OpenVPN relays accept connections.
#[derive(Clone, Copy, PartialEq, Eq, Debug)]
pub struct OpenVpnEndpoint {
    pub port: u16,
    pub protocol: TransportProtocol,
}

/// Catalog-wide data needed to connect to OpenVPN endpoints.
#[derive(PartialEq, Eq, Debug)]
pub struct OpenVpnEndpointData {
    pub ports: Vec<OpenVpnEndpoint>,
}

impl Clone for OpenVpnEndpointData {
    fn clone(&self) -> (r: Self)
        ensures
            r.ports@ == self.ports@,
    {
        let r = OpenVpnEndpointData { ports: self.ports.clone() };
        proof {
            assert(r.ports@ =~= self.ports@);
        }
        r
    }
}

impl Default for OpenVpnEndpointData {
    fn default() -> (r: Self)
        ensures
            r.ports@ == Seq::<OpenVpnEndpoint>::empty(),
    {
        let r = OpenVpnEndpointData { ports: Vec::new() };
        proof {
            assert(r.ports@ =~= Seq::<OpenVpnEndpoint>::empty());
        }
        r
    }
}

/// Catalog-wide data needed to connect to WireGuard endpoints: the inclusive
/// port ranges relays listen on, and the in-tunnel gateway addresses.
#[derive(PartialEq, Eq, Debug)]
pub struct WireguardEndpointData {
    /// Inclusive `(low, high)` ranges of ports to connect to.
    pub port_ranges: Vec<(u16, u16)>,
    /// Gateways to be used with the tunnel.
    pub ipv4_gateway: Ipv4Address,
    pub ipv6_gateway: Ipv6Address,
}

impl Clone for WireguardEndpointData {
    fn clone(&self) -> (r: Self)
        ensures
            r.port_ranges@ == self.port_ranges@,
            r.ipv4_gateway == self.ipv4_gateway,
            r.ipv6_gateway == self.ipv6_gateway,
    {
        let mut port_ranges: Vec<(u16, u16)> = Vec::new();
        let mut i: usize = 0;
        while i < self.port_ranges.len()
            invariant
                0 <= i <= self.port_ranges@.len(),
                port_ranges@ == self.port_ranges@.take(i as int),
            decreases self.port_ranges@.len() - i,
        {
            port_ranges.push(self.port_ranges[i]);
            i = i + 1;
            proof {
                assert(port_ranges@ =~= self.port_ranges@.take(i as int));
            }
        }
        proof {
            assert(port_ranges@ =~= self.port_ranges@);
        }
        WireguardEndpointData {
            port_ranges,
            ipv4_gateway: self.ipv4_gateway,
            ipv6_gateway: self.ipv6_gateway,
        }
    }
}

impl Default for WireguardEndpointData {
    fn default() -> (r: Self)
        ensures
            r.port_ranges@ == Seq::<(u16, u16)>::empty(),
            crate::net::is_unspecified_v4(r.ipv4_gateway),
            crate::net::is_unspecified_v6(r.ipv6_gateway),
    {
        let r = WireguardEndpointData {
            port_ranges: Vec::new(),
            ipv4_gateway: Ipv4Address { octets: [0u8, 0u8, 0u8, 0u8] },
            ipv6_gateway: Ipv6Address {
                segments: [0u16, 0u16, 0u16, 0u16, 0u16, 0u16, 0u16, 0u16],
            },
        };
        proof {
            assert(r.port_ranges@ =~= Seq::<(u16, u16)>::empty());
            assert(r.ipv4_gateway.octets@ =~= seq![0u8, 0u8, 0u8, 0u8]);
            assert(r.ipv6_gateway.segments@ =~= seq![
                0u16, 0u16, 0u16, 0u16, 0u16, 0u16, 0u16, 0u16,
            ]);
        }
        r
    }
}

/// Data needed to connect to a Shadowsocks bridge endpoint.
#[derive(PartialEq, Eq, Debug)]
pub struct ShadowsocksEndpointData {
    pub port: u16,
    pub cipher: String,
    pub password: String,
    pub protocol: TransportProtocol,
}

impl Clone for ShadowsocksEndpointData {
    fn clone(&self) -> (r: Self)
        ensures
            r == *self,
    {
        ShadowsocksEndpointData {
            port: self.port,
            cipher: self.cipher.clone(),
            password: self.password.clone(),
            protocol: self.protocol,
        }
    }
}

impl ShadowsocksEndpointData {
    /// Proxy settings that reach this bridge endpoint at the given address.
    pub fn to_proxy_settings(&self, addr: IpAddress) -> (r: ProxySettings)
        ensures
            r == ProxySettings::Shadowsocks((ShadowsocksProxySettings {
                peer: (SocketAddress { ip: addr, port: self.port }),
                password: self.password,
                cipher: self.cipher,
            })),
    {
        ProxySettings::Shadowsocks(ShadowsocksProxySettings {
            peer: SocketAddress { ip: addr, port: self.port },
            password: self.password.clone(),
            cipher: self.cipher.clone(),
        })
    }
}

/// Catalog-wide data for bridge (proxy) endpoints.
#[derive(PartialEq, Eq, Debug)]
pub struct BridgeEndpointData {
    pub shadowsocks: Vec<ShadowsocksEndpointData>,
}

impl Default for BridgeEndpointData {
    fn default() -> (r: Self)
        ensures
            r.shadowsocks@ == Seq::<ShadowsocksEndpointData>::empty(),
    {
        let r = BridgeEndpointData { shadowsocks: Vec::new() };
        proof {
            assert(r.shadowsocks@ =~= Seq::<ShadowsocksEndpointData>::empty());
        }
        r
    }
}

/// Data needed to connect to a UDP-over-TCP obfuscation endpoint.
#[derive(Clone, Copy, PartialEq, Eq, Debug)]
pub struct Udp2TcpEndpointData {
    pub port: u16,
}

/// Catalog-wide data for obfuscation endpoints.
#[derive(PartialEq, Eq, Debug)]
pub struct ObfuscatorEndpointData {
    pub udp2tcp: Vec<Udp2TcpEndpointData>,
}

impl Default for ObfuscatorEndpointData {
    fn default() -> (r: Self)
        ensures
            r.udp2tcp@ == Seq::<Udp2TcpEndpointData>::empty(),
    {
        let r = ObfuscatorEndpointData { udp2tcp: Vec::new() };
        proof {
            assert(r.udp2tcp@ =~= Seq::<Udp2TcpEndpointData>::empty());
        }
        r
    }
}

/// A list of relays within one city.
#[derive(PartialEq, Eq, Debug)]
pub struct RelayListCity {
    pub name: String,
    pub code: String,
    pub relays: Vec<Relay>,
}

/// A list of cities with relays within one country.
#[derive(PartialEq, Eq, Debug)]
pub struct RelayListCountry {
    pub name: String,
    pub code: String,
    pub cities: Vec<RelayListCity>,
}

/// The whole relay catalog: the per-country relay hierarchy, plus the
/// catalog-wide endpoint data for each protocol.
#[derive(PartialEq, Eq, Debug)]
pub struct RelayList {
    pub etag: Option<String>,
    pub countries: Vec<RelayListCountry>,
    pub openvpn: OpenVpnEndpointData,
    pub bridges: BridgeEndpointData,
    pub wireguard: WireguardEndpointData,
    pub obfuscators: ObfuscatorEndpointData,
}

impl RelayList {
    /// A catalog with no relays and no endpoint data.
    pub fn empty() -> (r: Self)
        ensures
            r.etag is None,
            r.countries@ == Seq::<RelayListCountry>::empty(),
            r.openvpn.ports@ == Seq::<OpenVpnEndpoint>::empty(),
            r.bridges.shadowsocks@ == Seq::<ShadowsocksEndpointData>::empty(),
            r.wireguard.port_ranges@ == Seq::<(u16, u16)>::empty(),
            r.obfuscators.udp2tcp@ == Seq::<Udp2TcpEndpointData>::empty(),
    {
        let r = RelayList {
            etag: None,
            countries: Vec::new(),
            openvpn: Default::default(),
            bridges: Default::default(),
            wireguard: Default::default(),
            obfuscators: Default::default(),
        };
        proof {
            assert(r.countries@ =~= Seq::<RelayListCountry>::empty());
        }
        r
    }
}

} // verus!
