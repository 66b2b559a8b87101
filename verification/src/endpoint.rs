//! The fully resolved, connectable endpoint descriptors handed to tunnel
//! establishment.

use vstd::prelude::*;

use crate::net::{Endpoint, IpNetwork, Ipv4Address, Ipv6Address, PresharedKey, PublicKey,
    SocketAddress};

verus! {

/// The configuration of one WireGuard peer: its key, where to reach it, the
/// routes allowed through it, and an optional pre-shared key.
#[derive(PartialEq, Eq, Debug)]
pub struct PeerConfig {
    pub public_key: PublicKey,
    pub endpoint: SocketAddress,
    pub allowed_ips: Vec<IpNetwork>,
    pub psk: Option<PresharedKey>,
}

/// A resolved WireGuard endpoint: the entry peer, an optional exit peer for
/// multihop, and the in-tunnel gateway addresses.
#[derive(PartialEq, Eq, Debug)]
pub struct MullvadWireguardEndpoint {
    pub peer: PeerConfig,
    pub exit_peer: Option<PeerConfig>,
    pub ipv4_gateway: Ipv4Address,
    pub ipv6_gateway: Ipv6Address,
}

/// A resolved endpoint for either tunnel protocol.
#[derive(PartialEq, Eq, Debug)]
pub enum MullvadEndpoint {
    OpenVpn(Endpoint),
    Wireguard(MullvadWireguardEndpoint),
}

} // verus!
