//! Endpoint construction for both tunnel protocols, and the catalog types.

use relay_selector::endpoint::MullvadEndpoint;
use relay_selector::matcher::{
    AnyTunnelMatcher, OpenVpnMatcher, RelayMatcher, TunnelMatcher, WireguardMatcher,
};
use relay_selector::net::{
    all_of_the_internet, Endpoint, IpAddress, Ipv4Address, Ipv6Address, ProxySettings, PublicKey,
    SocketAddress, TransportProtocol,
};
use relay_selector::relay_constraints::{
    Constraint, Match, OpenVpnConstraints, RelayConstraints, TransportPort, WireguardConstraints,
};
use relay_selector::net::IpVersion;
use relay_selector::relay_list::{
    Location, OpenVpnEndpoint, OpenVpnEndpointData, Relay, RelayEndpointData, RelayList,
    ShadowsocksEndpointData, WireguardEndpointData, WireguardRelayEndpointData,
};

fn relay_se1() -> Relay {
    Relay {
        hostname: "se1".to_string(),
        ipv4_addr_in: Ipv4Address { octets: [1, 2, 3, 4] },
        ipv6_addr_in: None,
        include_in_country: true,
        active: true,
        owned: true,
        provider: "provider1".to_string(),
        weight: 1,
        endpoint_data: RelayEndpointData::Wireguard(WireguardRelayEndpointData {
            public_key: PublicKey { bytes: [7u8; 32] },
        }),
        location: Some(Location { country: "se".to_string(), city: "sto".to_string() }),
    }
}

fn se1_catalog() -> WireguardEndpointData {
    WireguardEndpointData {
        port_ranges: vec![(51820, 51820)],
        ipv4_gateway: Ipv4Address { octets: [10, 0, 0, 1] },
        ipv6_gateway: Ipv6Address { segments: [0xfd00, 0, 0, 0, 0, 0, 0, 1] },
    }
}

#[test]
fn end_to_end_wireguard_endpoint_resolution() {
    let matcher = RelayMatcher::new(
        RelayConstraints {
            location: Constraint::Any,
            providers: Constraint::Any,
            ownership: Constraint::Any,
            tunnel_protocol: Constraint::Any,
            wireguard_constraints: WireguardConstraints {
                port: Constraint::Any,
                ip_version: Constraint::Any,
            },
            openvpn_constraints: OpenVpnConstraints { port: Constraint::Any },
        },
        OpenVpnEndpointData::default(),
        se1_catalog(),
    );
    let relay = relay_se1();
    let filtered = matcher.filter_matching_relay(&relay).expect("relay should pass");
    assert_eq!(filtered, relay);

    match matcher.mullvad_endpoint(&relay) {
        Some(MullvadEndpoint::Wireguard(endpoint)) => {
            assert_eq!(
                endpoint.peer.endpoint,
                SocketAddress {
                    ip: IpAddress::V4(Ipv4Address { octets: [1, 2, 3, 4] }),
                    port: 51820,
                },
            );
            assert_eq!(endpoint.peer.public_key, PublicKey { bytes: [7u8; 32] });
            assert_eq!(endpoint.peer.psk, None);
            assert_eq!(endpoint.peer.allowed_ips, all_of_the_internet());
            assert_eq!(endpoint.exit_peer, None);
            assert_eq!(endpoint.ipv4_gateway, Ipv4Address { octets: [10, 0, 0, 1] });
            assert_eq!(
                endpoint.ipv6_gateway,
                Ipv6Address { segments: [0xfd00, 0, 0, 0, 0, 0, 0, 1] },
            );
        },
        other => panic!("a WireGuard endpoint was expected, got {:?}", other),
    }
}

#[test]
fn ipv6_constraint_without_ipv6_address_fails_endpoint_construction() {
    let matcher = WireguardMatcher::new(
        WireguardConstraints {
            port: Constraint::Any,
            ip_version: Constraint::Only(IpVersion::V6),
        },
        se1_catalog(),
    );
    let relay = relay_se1();
    assert!(matcher.filter_matching_endpoints(&relay).is_some());
    assert!(matcher.mullvad_endpoint(&relay).is_none());
}

#[test]
fn ipv6_constraint_with_ipv6_address_uses_it() {
    let matcher = WireguardMatcher::new(
        WireguardConstraints {
            port: Constraint::Any,
            ip_version: Constraint::Only(IpVersion::V6),
        },
        se1_catalog(),
    );
    let mut relay = relay_se1();
    let v6 = Ipv6Address { segments: [0x2001, 0xdb8, 0, 0, 0, 0, 0, 1] };
    relay.ipv6_addr_in = Some(v6);
    match matcher.mullvad_endpoint(&relay) {
        Some(MullvadEndpoint::Wireguard(endpoint)) => {
            assert_eq!(endpoint.peer.endpoint.ip, IpAddress::V6(v6));
        },
        other => panic!("a WireGuard endpoint was expected, got {:?}", other),
    }
}

#[test]
fn openvpn_endpoint_uses_first_pair_allowed_by_constraint() {
    let data = OpenVpnEndpointData {
        ports: vec![
            OpenVpnEndpoint { port: 1194, protocol: TransportProtocol::Udp },
            OpenVpnEndpoint { port: 443, protocol: TransportProtocol::Tcp },
        ],
    };
    let relay = Relay { endpoint_data: RelayEndpointData::Openvpn, ..relay_se1() };

    let unconstrained =
        OpenVpnMatcher::new(OpenVpnConstraints { port: Constraint::Any }, data.clone());
    match unconstrained.mullvad_endpoint(&relay) {
        Some(MullvadEndpoint::OpenVpn(endpoint)) => {
            assert_eq!(
                endpoint,
                Endpoint {
                    address: SocketAddress {
                        ip: IpAddress::V4(Ipv4Address { octets: [1, 2, 3, 4] }),
                        port: 1194,
                    },
                    protocol: TransportProtocol::Udp,
                },
            );
        },
        other => panic!("an OpenVPN endpoint was expected, got {:?}", other),
    }

    let tcp_only = OpenVpnMatcher::new(
        OpenVpnConstraints {
            port: Constraint::Only(TransportPort {
                protocol: TransportProtocol::Tcp,
                port: Constraint::Any,
            }),
        },
        data.clone(),
    );
    match tcp_only.mullvad_endpoint(&relay) {
        Some(MullvadEndpoint::OpenVpn(endpoint)) => {
            assert_eq!(endpoint.address.port, 443);
            assert_eq!(endpoint.protocol, TransportProtocol::Tcp);
        },
        other => panic!("an OpenVPN endpoint was expected, got {:?}", other),
    }

    let impossible = OpenVpnMatcher::new(
        OpenVpnConstraints {
            port: Constraint::Only(TransportPort {
                protocol: TransportProtocol::Udp,
                port: Constraint::Only(53),
            }),
        },
        data,
    );
    assert!(impossible.mullvad_endpoint(&relay).is_none());
}

#[test]
fn openvpn_endpoint_with_empty_catalog_fails() {
    let matcher = OpenVpnMatcher::new(
        OpenVpnConstraints { port: Constraint::Any },
        OpenVpnEndpointData::default(),
    );
    let relay = Relay { endpoint_data: RelayEndpointData::Openvpn, ..relay_se1() };
    assert!(matcher.mullvad_endpoint(&relay).is_none());
}

#[test]
fn openvpn_constraint_predicate_matches_catalog_pairs() {
    let data = OpenVpnEndpointData {
        ports: vec![
            OpenVpnEndpoint { port: 1194, protocol: TransportProtocol::Udp },
            OpenVpnEndpoint { port: 443, protocol: TransportProtocol::Tcp },
        ],
    };
    let any = OpenVpnMatcher::new(OpenVpnConstraints { port: Constraint::Any }, data.clone());
    assert!(any.matches(&any.data));

    let udp_1194 = OpenVpnMatcher::new(
        OpenVpnConstraints {
            port: Constraint::Only(TransportPort {
                protocol: TransportProtocol::Udp,
                port: Constraint::Only(1194),
            }),
        },
        data.clone(),
    );
    assert!(udp_1194.matches(&udp_1194.data));

    let tcp_1194 = OpenVpnMatcher::new(
        OpenVpnConstraints {
            port: Constraint::Only(TransportPort {
                protocol: TransportProtocol::Tcp,
                port: Constraint::Only(1194),
            }),
        },
        data,
    );
    assert!(!tcp_1194.matches(&tcp_1194.data));
}

#[test]
fn any_tunnel_endpoint_prefers_openvpn_and_falls_back_to_wireguard() {
    let openvpn_data = OpenVpnEndpointData {
        ports: vec![OpenVpnEndpoint { port: 1194, protocol: TransportProtocol::Udp }],
    };
    let with_openvpn = AnyTunnelMatcher {
        wireguard: WireguardMatcher::from_endpoint(se1_catalog()),
        openvpn: OpenVpnMatcher::new(
            OpenVpnConstraints { port: Constraint::Any },
            openvpn_data,
        ),
        tunnel_type: Constraint::Any,
    };
    let relay = relay_se1();
    match with_openvpn.mullvad_endpoint(&relay) {
        Some(MullvadEndpoint::OpenVpn(_)) => {},
        other => panic!("the OpenVPN endpoint is preferred, got {:?}", other),
    }

    let without_openvpn = AnyTunnelMatcher {
        wireguard: WireguardMatcher::from_endpoint(se1_catalog()),
        openvpn: OpenVpnMatcher::new(
            OpenVpnConstraints { port: Constraint::Any },
            OpenVpnEndpointData::default(),
        ),
        tunnel_type: Constraint::Any,
    };
    match without_openvpn.mullvad_endpoint(&relay) {
        Some(MullvadEndpoint::Wireguard(_)) => {},
        other => panic!("the WireGuard endpoint is the fallback, got {:?}", other),
    }
}

#[test]
fn all_of_the_internet_is_both_default_routes() {
    let routes = all_of_the_internet();
    assert_eq!(routes.len(), 2);
    assert_eq!(routes[0].address, IpAddress::V4(Ipv4Address { octets: [0, 0, 0, 0] }));
    assert_eq!(routes[0].prefix, 0);
    assert_eq!(
        routes[1].address,
        IpAddress::V6(Ipv6Address { segments: [0, 0, 0, 0, 0, 0, 0, 0] }),
    );
    assert_eq!(routes[1].prefix, 0);
}

#[test]
fn empty_relay_list_has_nothing() {
    let list = RelayList::empty();
    assert!(list.etag.is_none());
    assert!(list.countries.is_empty());
    assert!(list.openvpn.ports.is_empty());
    assert!(list.bridges.shadowsocks.is_empty());
    assert!(list.wireguard.port_ranges.is_empty());
    assert!(list.obfuscators.udp2tcp.is_empty());
}

#[test]
fn default_wireguard_endpoint_data_has_zero_gateways() {
    let data = WireguardEndpointData::default();
    assert!(data.port_ranges.is_empty());
    assert_eq!(data.ipv4_gateway, Ipv4Address { octets: [0, 0, 0, 0] });
    assert_eq!(data.ipv6_gateway, Ipv6Address { segments: [0, 0, 0, 0, 0, 0, 0, 0] });
}

#[test]
fn wireguard_relay_data_exposes_its_public_key() {
    let relay = relay_se1();
    let data = relay.endpoint_data.unwrap_wireguard_ref();
    assert_eq!(data.public_key, PublicKey { bytes: [7u8; 32] });
}

#[test]
fn shadowsocks_data_turns_into_proxy_settings() {
    let data = ShadowsocksEndpointData {
        port: 443,
        cipher: "aes-256-gcm".to_string(),
        password: "mullvad".to_string(),
        protocol: TransportProtocol::Tcp,
    };
    let addr = IpAddress::V4(Ipv4Address { octets: [192, 0, 2, 1] });
    let ProxySettings::Shadowsocks(settings) = data.to_proxy_settings(addr);
    assert_eq!(settings.peer, SocketAddress { ip: addr, port: 443 });
    assert_eq!(settings.password, "mullvad");
    assert_eq!(settings.cipher, "aes-256-gcm");
}
