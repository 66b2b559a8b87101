//! Port selection over disjoint inclusive ranges.

use relay_selector::endpoint::MullvadEndpoint;
use relay_selector::matcher::{port_for_index, TunnelMatcher, WireguardMatcher};
use relay_selector::net::{Ipv4Address, PublicKey};
use relay_selector::relay_constraints::{Constraint, WireguardConstraints};
use relay_selector::relay_list::{
    Relay, RelayEndpointData, WireguardEndpointData, WireguardRelayEndpointData,
};

fn wireguard_relay() -> Relay {
    Relay {
        hostname: "se9".to_string(),
        ipv4_addr_in: Ipv4Address { octets: [10, 0, 0, 9] },
        ipv6_addr_in: None,
        include_in_country: true,
        active: true,
        owned: false,
        provider: "provider9".to_string(),
        weight: 1,
        endpoint_data: RelayEndpointData::Wireguard(WireguardRelayEndpointData {
            public_key: PublicKey { bytes: [9u8; 32] },
        }),
        location: None,
    }
}

fn matcher_with(port: Constraint<u16>, ranges: Vec<(u16, u16)>) -> WireguardMatcher {
    let mut data = WireguardEndpointData::default();
    data.port_ranges = ranges;
    WireguardMatcher::new(
        WireguardConstraints { port, ip_version: Constraint::Any },
        data,
    )
}

fn resolved_port(matcher: &WireguardMatcher) -> Option<u16> {
    match matcher.mullvad_endpoint(&wireguard_relay()) {
        Some(MullvadEndpoint::Wireguard(endpoint)) => Some(endpoint.peer.endpoint.port),
        Some(MullvadEndpoint::OpenVpn(_)) => panic!("wireguard endpoint expected"),
        None => None,
    }
}

#[test]
fn pinned_port_inside_range_is_returned() {
    let matcher = matcher_with(Constraint::Only(15), vec![(10, 20)]);
    assert_eq!(resolved_port(&matcher), Some(15));
}

#[test]
fn pinned_port_at_range_edges_is_returned() {
    let low = matcher_with(Constraint::Only(10), vec![(10, 20)]);
    assert_eq!(resolved_port(&low), Some(10));
    let high = matcher_with(Constraint::Only(20), vec![(10, 20)]);
    assert_eq!(resolved_port(&high), Some(20));
}

#[test]
fn pinned_port_outside_every_range_fails() {
    let below = matcher_with(Constraint::Only(9), vec![(10, 20)]);
    assert_eq!(resolved_port(&below), None);
    let above = matcher_with(Constraint::Only(21), vec![(10, 20)]);
    assert_eq!(resolved_port(&above), None);
}

#[test]
fn no_ranges_means_no_port() {
    let matcher = matcher_with(Constraint::Any, vec![]);
    assert_eq!(resolved_port(&matcher), None);
}

#[test]
fn random_port_is_always_inside_a_range() {
    let matcher = matcher_with(Constraint::Any, vec![(1, 2), (10, 10)]);
    for _ in 0..500 {
        let port = resolved_port(&matcher).expect("three ports are available");
        assert!(port == 1 || port == 2 || port == 10);
    }
}

#[test]
fn random_port_covers_all_ports_roughly_uniformly() {
    let matcher = matcher_with(Constraint::Any, vec![(1, 2), (10, 10)]);
    let trials = 3000usize;
    let mut counts = [0usize; 3];
    for _ in 0..trials {
        match resolved_port(&matcher).expect("three ports are available") {
            1 => counts[0] += 1,
            2 => counts[1] += 1,
            10 => counts[2] += 1,
            other => panic!("port {} is outside every range", other),
        }
    }
    // Each of the three ports is expected a third of the time; allow a
    // generous tolerance so the check stays stable.
    for &count in counts.iter() {
        assert!(count > trials / 6, "count {} is far below the expected third", count);
        assert!(count < trials / 2, "count {} is far above the expected third", count);
    }
}

#[test]
fn index_walk_maps_indices_to_ports_in_catalog_order() {
    let ranges: Vec<(u16, u16)> = vec![(1, 2), (10, 10)];
    assert_eq!(port_for_index(&ranges, 0), 1);
    assert_eq!(port_for_index(&ranges, 1), 2);
    assert_eq!(port_for_index(&ranges, 2), 10);

    let single: Vec<(u16, u16)> = vec![(51820, 51830)];
    assert_eq!(port_for_index(&single, 0), 51820);
    assert_eq!(port_for_index(&single, 10), 51830);
}

#[test]
fn full_port_space_range_is_handled() {
    let matcher = matcher_with(Constraint::Any, vec![(0, 65535)]);
    assert!(resolved_port(&matcher).is_some());
}
