//! The relay-matching and endpoint-construction engine.
//!
//! A [`RelayMatcher`] first holds a relay against the relay-level
//! constraints (location, provider, ownership), then hands it to a
//! tunnel-matching strategy which filters on the relay's endpoint data and,
//! separately, resolves a concrete connectable endpoint for it.

use vstd::pervasive::unreached;
use vstd::prelude::*;
use vstd::set_lib::{lemma_int_range, lemma_len_subset, lemma_set_disjoint_lens, set_int_range};

use rand::RngExt;

use crate::endpoint::{MullvadEndpoint, MullvadWireguardEndpoint, PeerConfig};
use crate::net::{
    all_of_the_internet, allows_all_traffic, Endpoint, IpAddress, IpVersion, PublicKey,
    SocketAddress, TransportProtocol, TunnelType,
};
use crate::relay_constraints::{
    Constraint, LocationConstraint, Match, OpenVpnConstraints, Ownership, Providers,
    RelayConstraints, TransportPort, WireguardConstraints,
};
use crate::relay_list::{
    OpenVpnEndpoint, OpenVpnEndpointData, Relay, RelayEndpointData, WireguardEndpointData,
};

verus! {

// ------------------------------------------------------------------
// Port ranges
// ------------------------------------------------------------------

/// Whether a transport port lies in the inclusive range `(low, high)`.
pub open spec fn port_in_range(range: (u16, u16), port: u16) -> bool {
    range.0 <= port && port <= range.1
}

/// Whether a transport port lies in one of the given inclusive ranges.
pub open spec fn port_in_ranges(ranges: Seq<(u16, u16)>, port: u16) -> bool {
    exists|i: int| 0 <= i < ranges.len() && port_in_range(ranges[i], port)
}

/// The number of ports in one inclusive range.
pub open spec fn range_size(range: (u16, u16)) -> int {
    range.1 - range.0 + 1
}

/// The number of ports in a list of inclusive ranges, counted per range.
pub open spec fn total_ports(ranges: Seq<(u16, u16)>) -> int
    decreases ranges.len(),
{
    if ranges.len() == 0 {
        0
    } else {
        range_size(ranges[0]) + total_ports(ranges.skip(1))
    }
}

/// Whether two inclusive ranges share no port.
pub open spec fn ranges_disjoint(a: (u16, u16), b: (u16, u16)) -> bool {
    a.1 < b.0 || b.1 < a.0
}

/// The well-formedness the catalog promises of a port-range list: every
/// range is inclusive with `low <= high`, and no two ranges overlap.
pub open spec fn ranges_wf(ranges: Seq<(u16, u16)>) -> bool {
    &&& forall|i: int| 0 <= i < ranges.len() ==> (#[trigger] ranges[i]).0 <= ranges[i].1
    &&& forall|i: int, j: int|
        0 <= i < j < ranges.len() ==> ranges_disjoint(#[trigger] ranges[i], #[trigger] ranges[j])
}

/// The port that index `idx` denotes: indices walk the ranges in catalog
/// order, `range_size` indices per range, low port first.
pub open spec fn spec_port_for_index(ranges: Seq<(u16, u16)>, idx: int) -> int
    decreases ranges.len(),
{
    if ranges.len() == 0 {
        0
    } else if idx < range_size(ranges[0]) {
        ranges[0].0 + idx
    } else {
        spec_port_for_index(ranges.skip(1), idx - range_size(ranges[0]))
    }
}

/// The set of ports one inclusive range covers.
pub open spec fn range_ports(range: (u16, u16)) -> Set<int> {
    set_int_range(range.0 as int, range.1 + 1)
}

/// The set of ports a list of ranges covers.
pub open spec fn ranges_ports(ranges: Seq<(u16, u16)>) -> Set<int>
    decreases ranges.len(),
{
    if ranges.len() == 0 {
        Set::empty()
    } else {
        range_ports(ranges[0]) + ranges_ports(ranges.skip(1))
    }
}

/// Dropping the first `k` ranges keeps the list well formed.
proof fn lemma_ranges_wf_skip(ranges: Seq<(u16, u16)>, k: int)
    requires
        ranges_wf(ranges),
        0 <= k <= ranges.len(),
    ensures
        ranges_wf(ranges.skip(k)),
{
    let rest = ranges.skip(k);
    assert forall|i: int| 0 <= i < rest.len() implies (#[trigger] rest[i]).0 <= rest[i].1 by {
        assert(rest[i] == ranges[i + k]);
    }
    assert forall|i: int, j: int| 0 <= i < j < rest.len() implies ranges_disjoint(
        #[trigger] rest[i],
        #[trigger] rest[j],
    ) by {
        assert(rest[i] == ranges[i + k]);
        assert(rest[j] == ranges[j + k]);
    }
}

/// A port is covered by a range list exactly when one of its ranges holds it.
proof fn lemma_ranges_ports_char(ranges: Seq<(u16, u16)>, p: int)
    ensures
        ranges_ports(ranges).contains(p) <==> exists|i: int|
            0 <= i < ranges.len() && (#[trigger] ranges[i]).0 <= p <= ranges[i].1,
    decreases ranges.len(),
{
    if ranges.len() > 0 {
        lemma_ranges_ports_char(ranges.skip(1), p);
        if ranges_ports(ranges).contains(p) {
            if range_ports(ranges[0]).contains(p) {
                assert(ranges[0].0 <= p <= ranges[0].1);
            } else {
                let i = choose|i: int|
                    0 <= i < ranges.skip(1).len() && (#[trigger] ranges.skip(1)[i]).0 <= p
                        <= ranges.skip(1)[i].1;
                assert(ranges.skip(1)[i] == ranges[i + 1]);
                assert(ranges[i + 1].0 <= p <= ranges[i + 1].1);
            }
        }
        if exists|i: int| 0 <= i < ranges.len() && (#[trigger] ranges[i]).0 <= p <= ranges[i].1 {
            let i = choose|i: int|
                0 <= i < ranges.len() && (#[trigger] ranges[i]).0 <= p <= ranges[i].1;
            if i == 0 {
                assert(range_ports(ranges[0]).contains(p));
            } else {
                assert(ranges.skip(1)[i - 1] == ranges[i]);
                assert(ranges_ports(ranges.skip(1)).contains(p));
            }
        }
    }
}

/// For a well-formed range list, the per-range count agrees with the size
/// of the set of covered ports: no port is counted twice.
pub proof fn lemma_total_ports_card(ranges: Seq<(u16, u16)>)
    requires
        ranges_wf(ranges),
    ensures
        ranges_ports(ranges).finite(),
        ranges_ports(ranges).len() == total_ports(ranges),
        total_ports(ranges) >= 0,
    decreases ranges.len(),
{
    if ranges.len() == 0 {
        assert(ranges_ports(ranges) =~= Set::<int>::empty());
    } else {
        let head = ranges[0];
        let rest = ranges.skip(1);
        lemma_ranges_wf_skip(ranges, 1);
        lemma_total_ports_card(rest);
        assert(head.0 <= head.1);
        lemma_int_range(head.0 as int, head.1 + 1);
        assert forall|p: int| range_ports(head).contains(p) implies !ranges_ports(rest).contains(
            p,
        ) by {
            lemma_ranges_ports_char(rest, p);
            if ranges_ports(rest).contains(p) {
                let i = choose|i: int|
                    0 <= i < rest.len() && (#[trigger] rest[i]).0 <= p <= rest[i].1;
                assert(rest[i] == ranges[i + 1]);
                assert(ranges_disjoint(ranges[0], ranges[i + 1]));
            }
        }
        assert(range_ports(head).disjoint(ranges_ports(rest)));
        lemma_set_disjoint_lens(range_ports(head), ranges_ports(rest));
    }
}

/// No well-formed range list covers more ports than the port space holds.
pub proof fn lemma_total_ports_bound(ranges: Seq<(u16, u16)>)
    requires
        ranges_wf(ranges),
    ensures
        0 <= total_ports(ranges) <= 0x10000,
{
    lemma_total_ports_card(ranges);
    lemma_int_range(0, 0x10000);
    assert forall|p: int| ranges_ports(ranges).contains(p) implies set_int_range(
        0,
        0x10000,
    ).contains(p) by {
        lemma_ranges_ports_char(ranges, p);
        let i = choose|i: int|
            0 <= i < ranges.len() && (#[trigger] ranges[i]).0 <= p <= ranges[i].1;
        assert(0 <= ranges[i].0 && ranges[i].1 <= 0xffff);
    }
    assert(ranges_ports(ranges).subset_of(set_int_range(0, 0x10000)));
    lemma_len_subset(ranges_ports(ranges), set_int_range(0, 0x10000));
}

/// Counting from the `k`-th range onward takes one step per range.
proof fn lemma_total_ports_skip_unfold(ranges: Seq<(u16, u16)>, k: int)
    requires
        0 <= k < ranges.len(),
    ensures
        total_ports(ranges.skip(k)) == range_size(ranges[k]) + total_ports(ranges.skip(k + 1)),
{
    assert(ranges.skip(k).skip(1) =~= ranges.skip(k + 1));
    assert(ranges.skip(k)[0] == ranges[k]);
}

/// Indexing from the `k`-th range onward takes one step per range.
proof fn lemma_port_for_index_skip_unfold(ranges: Seq<(u16, u16)>, k: int, idx: int)
    requires
        0 <= k < ranges.len(),
    ensures
        spec_port_for_index(ranges.skip(k), idx) == if idx < range_size(ranges[k]) {
            ranges[k].0 + idx
        } else {
            spec_port_for_index(ranges.skip(k + 1), idx - range_size(ranges[k]))
        },
{
    assert(ranges.skip(k).skip(1) =~= ranges.skip(k + 1));
    assert(ranges.skip(k)[0] == ranges[k]);
}

/// Every index below the total denotes a port inside one of the ranges.
pub proof fn lemma_port_for_index_in_ranges(ranges: Seq<(u16, u16)>, idx: int)
    requires
        ranges_wf(ranges),
        0 <= idx < total_ports(ranges),
    ensures
        exists|i: int|
            0 <= i < ranges.len() && (#[trigger] ranges[i]).0 <= spec_port_for_index(ranges, idx)
                <= ranges[i].1,
        0 <= spec_port_for_index(ranges, idx) <= 0xffff,
        port_in_ranges(ranges, spec_port_for_index(ranges, idx) as u16),
    decreases ranges.len(),
{
    lemma_ranges_wf_skip(ranges, 1);
    lemma_total_ports_card(ranges);
    if idx < range_size(ranges[0]) {
        assert(ranges[0].0 <= spec_port_for_index(ranges, idx) <= ranges[0].1);
    } else {
        lemma_total_ports_card(ranges.skip(1));
        lemma_port_for_index_in_ranges(ranges.skip(1), idx - range_size(ranges[0]));
        let p = spec_port_for_index(ranges.skip(1), idx - range_size(ranges[0]));
        let i = choose|i: int|
            0 <= i < ranges.skip(1).len() && (#[trigger] ranges.skip(1)[i]).0 <= p
                <= ranges.skip(1)[i].1;
        assert(ranges.skip(1)[i] == ranges[i + 1]);
        assert(ranges[i + 1].0 <= spec_port_for_index(ranges, idx) <= ranges[i + 1].1);
    }
    let w = choose|i: int|
        0 <= i < ranges.len() && (#[trigger] ranges[i]).0 <= spec_port_for_index(ranges, idx)
            <= ranges[i].1;
    assert(port_in_range(ranges[w], spec_port_for_index(ranges, idx) as u16));
}

/// Distinct indices denote distinct ports: the index walk is injective, so a
/// uniform draw over indices is a uniform draw over the covered ports.
pub proof fn lemma_port_for_index_injective(ranges: Seq<(u16, u16)>, i: int, j: int)
    requires
        ranges_wf(ranges),
        0 <= i < j < total_ports(ranges),
    ensures
        spec_port_for_index(ranges, i) != spec_port_for_index(ranges, j),
    decreases ranges.len(),
{
    lemma_total_ports_card(ranges);
    lemma_ranges_wf_skip(ranges, 1);
    let head_size = range_size(ranges[0]);
    if j < head_size {
        // Both ports sit in the first range, at distinct offsets.
    } else if i < head_size {
        // The first port sits in the first range; the second sits in a
        // later, disjoint range.
        lemma_total_ports_card(ranges.skip(1));
        lemma_port_for_index_in_ranges(ranges.skip(1), j - head_size);
        let p = spec_port_for_index(ranges.skip(1), j - head_size);
        let k = choose|k: int|
            0 <= k < ranges.skip(1).len() && (#[trigger] ranges.skip(1)[k]).0 <= p
                <= ranges.skip(1)[k].1;
        assert(ranges.skip(1)[k] == ranges[k + 1]);
        assert(ranges_disjoint(ranges[0], ranges[k + 1]));
    } else {
        lemma_port_for_index_injective(ranges.skip(1), i - head_size, j - head_size);
    }
}

/// Every covered port is denoted by some index: with
/// [`lemma_port_for_index_injective`] and [`lemma_total_ports_card`], the
/// index walk is a bijection between `[0, total_ports)` and the covered
/// ports, so a uniform draw over indices is a uniform draw over ports.
pub proof fn lemma_port_for_index_covers(ranges: Seq<(u16, u16)>, port: u16)
    requires
        ranges_wf(ranges),
        port_in_ranges(ranges, port),
    ensures
        exists|idx: int|
            0 <= idx < total_ports(ranges) && #[trigger] spec_port_for_index(ranges, idx)
                == port,
    decreases ranges.len(),
{
    lemma_total_ports_card(ranges);
    lemma_ranges_wf_skip(ranges, 1);
    let head_size = range_size(ranges[0]);
    if port_in_range(ranges[0], port) {
        lemma_total_ports_card(ranges.skip(1));
        let idx = port - ranges[0].0;
        assert(0 <= idx < total_ports(ranges));
        assert(spec_port_for_index(ranges, idx) == port);
    } else {
        let w = choose|w: int| 0 <= w < ranges.len() && port_in_range(ranges[w], port);
        assert(ranges.skip(1)[w - 1] == ranges[w]);
        assert(port_in_ranges(ranges.skip(1), port));
        lemma_port_for_index_covers(ranges.skip(1), port);
        let rest_idx = choose|idx: int|
            0 <= idx < total_ports(ranges.skip(1)) && #[trigger] spec_port_for_index(
                ranges.skip(1),
                idx,
            ) == port;
        let idx = head_size + rest_idx;
        assert(0 <= idx < total_ports(ranges));
        assert(spec_port_for_index(ranges, idx) == port);
    }
}

// ------------------------------------------------------------------
// Weighted random port selection
// ------------------------------------------------------------------

/// Relies on `rand`: `rand::rng().random_range(0..bound)` returns a value
/// drawn uniformly from `[0, bound)` and panics only when the range is
/// empty, which the precondition rules out.
#[verifier::external_body]
fn random_index(bound: u64) -> (r: u64)
    requires
        bound > 0,
    ensures
        r < bound,
{
    rand::rng().random_range(0..bound)
}

/// Walk the ranges in catalog order and return the port that `idx` denotes.
pub fn port_for_index(ranges: &Vec<(u16, u16)>, idx: u64) -> (p: u16)
    requires
        ranges_wf(ranges@),
        idx < total_ports(ranges@),
    ensures
        p as int == spec_port_for_index(ranges@, idx as int),
        port_in_ranges(ranges@, p),
{
    let ghost all = ranges@;
    let mut idx_left = idx;
    let mut i: usize = 0;
    proof {
        lemma_total_ports_card(all);
        assert(all.skip(0) =~= all);
    }
    while i < ranges.len()
        invariant
            ranges@ == all,
            ranges_wf(all),
            0 <= i <= all.len(),
            idx_left < total_ports(all.skip(i as int)),
            spec_port_for_index(all.skip(i as int), idx_left as int) == spec_port_for_index(
                all,
                idx as int,
            ),
        decreases all.len() - i,
    {
        let range = ranges[i];
        let ports_in_range: u64 = 1 + (range.1 as u64) - (range.0 as u64);
        proof {
            lemma_total_ports_skip_unfold(all, i as int);
            lemma_port_for_index_skip_unfold(all, i as int, idx_left as int);
        }
        if idx_left < ports_in_range {
            let p = range.0 + (idx_left as u16);
            proof {
                assert(port_in_range(all[i as int], p));
            }
            return p;
        }
        idx_left = idx_left - ports_in_range;
        i = i + 1;
    }
    proof {
        assert(all.skip(all.len() as int).len() == 0);
        assert(false);
    }
    unreached()
}

// ------------------------------------------------------------------
// The tunnel-matching strategies
// ------------------------------------------------------------------

/// A tunnel-matching strategy: filters a relay on its protocol-specific
/// endpoint data, and resolves a concrete endpoint for a relay that passed.
///
/// `spec_filter` is the mathematical account of filtering; `endpoint_ok`
/// states what may come out of endpoint construction, which draws a random
/// port and so has no single mathematical result.
pub trait TunnelMatcher: Sized + Clone {
    /// What this strategy assumes of the catalog data it was built from.
    spec fn wf(&self) -> bool;

    /// The relay that filtering returns, if any.
    spec fn spec_filter(&self, relay: &Relay) -> Option<Relay>;

    /// Which endpoint results are correct for this relay.
    spec fn endpoint_ok(&self, relay: &Relay, r: Option<MullvadEndpoint>) -> bool;

    /// Filter a relay against this strategy's constraints. Only a relay
    /// whose endpoint data this strategy can serve is returned.
    fn filter_matching_endpoints(&self, relay: &Relay) -> (r: Option<Relay>)
        ensures
            r == self.spec_filter(relay),
    ;

    /// Construct a connectable endpoint for the relay, or `None` when no
    /// address or port satisfies the constraints.
    fn mullvad_endpoint(&self, relay: &Relay) -> (r: Option<MullvadEndpoint>)
        requires
            self.wf(),
        ensures
            self.endpoint_ok(relay, r),
    ;
}

// ------------------------------------------------------------------
// OpenVPN
// ------------------------------------------------------------------

/// Whether one catalog (port, protocol) pair satisfies the transport-port
/// constraint: the protocol must agree, and the port must be unconstrained
/// or agree too.
pub open spec fn spec_pair_allowed(constraint: Constraint<TransportPort>, pair: OpenVpnEndpoint) -> bool {
    match constraint {
        Constraint::Any => true,
        Constraint::Only(transport_port) => transport_port.protocol == pair.protocol
            && match transport_port.port {
            Constraint::Any => true,
            Constraint::Only(port) => port == pair.port,
        },
    }
}

/// The first catalog pair that satisfies the constraint, in catalog order.
pub open spec fn spec_first_allowed(
    constraint: Constraint<TransportPort>,
    pairs: Seq<OpenVpnEndpoint>,
) -> Option<OpenVpnEndpoint>
    decreases pairs.len(),
{
    if pairs.len() == 0 {
        None
    } else if spec_pair_allowed(constraint, pairs[0]) {
        Some(pairs[0])
    } else {
        spec_first_allowed(constraint, pairs.skip(1))
    }
}

/// Finding the first allowed pair from the `k`-th onward takes one step per
/// pair.
proof fn lemma_first_allowed_skip_unfold(
    constraint: Constraint<TransportPort>,
    pairs: Seq<OpenVpnEndpoint>,
    k: int,
)
    requires
        0 <= k < pairs.len(),
    ensures
        spec_first_allowed(constraint, pairs.skip(k)) == if spec_pair_allowed(
            constraint,
            pairs[k],
        ) {
            Some(pairs[k])
        } else {
            spec_first_allowed(constraint, pairs.skip(k + 1))
        },
{
    assert(pairs.skip(k).skip(1) =~= pairs.skip(k + 1));
    assert(pairs.skip(k)[0] == pairs[k]);
}

/// Filters relays on OpenVPN endpoint data and builds OpenVPN endpoints.
#[derive(Debug)]
pub struct OpenVpnMatcher {
    pub constraints: OpenVpnConstraints,
    pub data: OpenVpnEndpointData,
}

impl Clone for OpenVpnMatcher {
    fn clone(&self) -> (r: Self)
        ensures
            r.constraints == self.constraints,
            r.data.ports@ == self.data.ports@,
    {
        OpenVpnMatcher { constraints: self.constraints, data: self.data.clone() }
    }
}

impl OpenVpnMatcher {
    pub fn new(constraints: OpenVpnConstraints, data: OpenVpnEndpointData) -> (r: Self)
        ensures
            r.constraints == constraints,
            r.data == data,
    {
        OpenVpnMatcher { constraints, data }
    }

    /// The endpoint this matcher resolves for a relay: the relay's IPv4
    /// ingress address with the first catalog (port, protocol) pair that
    /// satisfies the port constraint, or nothing when no pair does.
    ///
    /// When several pairs satisfy an unconstrained port, which one to pick
    /// is a policy choice; this library picks the first in catalog order.
    pub open spec fn spec_endpoint(&self, relay: &Relay) -> Option<MullvadEndpoint> {
        match spec_first_allowed(self.constraints.port, self.data.ports@) {
            None => None,
            Some(pair) => Some(
                MullvadEndpoint::OpenVpn(
                    Endpoint {
                        address: SocketAddress {
                            ip: IpAddress::V4(relay.ipv4_addr_in),
                            port: pair.port,
                        },
                        protocol: pair.protocol,
                    },
                ),
            ),
        }
    }

    /// Decide whether one catalog pair satisfies the constraint.
    fn pair_allowed(&self, pair: &OpenVpnEndpoint) -> (r: bool)
        ensures
            r == spec_pair_allowed(self.constraints.port, *pair),
    {
        match self.constraints.port {
            Constraint::Any => true,
            Constraint::Only(transport_port) => {
                let protocol_matches = match (transport_port.protocol, pair.protocol) {
                    (TransportProtocol::Udp, TransportProtocol::Udp) => true,
                    (TransportProtocol::Tcp, TransportProtocol::Tcp) => true,
                    _ => false,
                };
                protocol_matches && (transport_port.port.is_any() || match transport_port.port {
                    Constraint::Only(port) => port == pair.port,
                    Constraint::Any => false,
                })
            },
        }
    }
}

impl Match<OpenVpnEndpointData> for OpenVpnMatcher {
    /// Whether any catalog pair satisfies the transport-port constraint; an
    /// unconstrained matcher accepts any catalog.
    open spec fn spec_matches(&self, endpoint: &OpenVpnEndpointData) -> bool {
        match self.constraints.port {
            Constraint::Any => true,
            Constraint::Only(_) => exists|i: int|
                0 <= i < endpoint.ports@.len() && spec_pair_allowed(
                    self.constraints.port,
                    #[trigger] endpoint.ports@[i],
                ),
        }
    }

    fn matches(&self, endpoint: &OpenVpnEndpointData) -> (r: bool) {
        match self.constraints.port {
            Constraint::Any => true,
            Constraint::Only(_) => {
                let mut i: usize = 0;
                while i < endpoint.ports.len()
                    invariant
                        0 <= i <= endpoint.ports@.len(),
                        forall|j: int|
                            0 <= j < i ==> !spec_pair_allowed(
                                self.constraints.port,
                                #[trigger] endpoint.ports@[j],
                            ),
                        self.constraints.port is Only,
                    decreases endpoint.ports@.len() - i,
                {
                    if self.pair_allowed(&endpoint.ports[i]) {
                        return true;
                    }
                    i = i + 1;
                }
                false
            },
        }
    }
}

impl TunnelMatcher for OpenVpnMatcher {
    open spec fn wf(&self) -> bool {
        true
    }

    /// A relay passes exactly when its endpoint data is OpenVPN.
    open spec fn spec_filter(&self, relay: &Relay) -> Option<Relay> {
        if relay.endpoint_data is Openvpn {
            Some(*relay)
        } else {
            None
        }
    }

    open spec fn endpoint_ok(&self, relay: &Relay, r: Option<MullvadEndpoint>) -> bool {
        r == self.spec_endpoint(relay)
    }

    fn filter_matching_endpoints(&self, relay: &Relay) -> (r: Option<Relay>) {
        match relay.endpoint_data {
            RelayEndpointData::Openvpn => Some(relay.clone()),
            _ => None,
        }
    }

    fn mullvad_endpoint(&self, relay: &Relay) -> (r: Option<MullvadEndpoint>) {
        let ghost pairs = self.data.ports@;
        let mut i: usize = 0;
        proof {
            assert(pairs.skip(0) =~= pairs);
        }
        while i < self.data.ports.len()
            invariant
                self.data.ports@ == pairs,
                0 <= i <= pairs.len(),
                spec_first_allowed(self.constraints.port, pairs.skip(i as int))
                    == spec_first_allowed(self.constraints.port, pairs),
            decreases pairs.len() - i,
        {
            proof {
                lemma_first_allowed_skip_unfold(self.constraints.port, pairs, i as int);
            }
            let pair = self.data.ports[i];
            if self.pair_allowed(&pair) {
                return Some(
                    MullvadEndpoint::OpenVpn(
                        Endpoint::new(
                            IpAddress::V4(relay.ipv4_addr_in),
                            pair.port,
                            pair.protocol,
                        ),
                    ),
                );
            }
            i = i + 1;
        }
        proof {
            assert(pairs.skip(pairs.len() as int).len() == 0);
        }
        None
    }
}

// ------------------------------------------------------------------
// WireGuard
// ------------------------------------------------------------------

/// Filters relays on WireGuard endpoint data and builds WireGuard
/// endpoints. Holds an optional already-chosen peer relay, which is
/// excluded from further matching so a multihop chain never picks the same
/// relay twice.
#[derive(Debug)]
pub struct WireguardMatcher {
    /// The peer is an already selected peer relay to be used with multihop.
    /// It is stored here so it can be excluded from further selections.
    pub peer: Option<Relay>,
    pub port: Constraint<u16>,
    pub ip_version: Constraint<IpVersion>,
    pub data: WireguardEndpointData,
}

impl Clone for WireguardMatcher {
    fn clone(&self) -> (r: Self)
        ensures
            r.peer == self.peer,
            r.port == self.port,
            r.ip_version == self.ip_version,
            r.data.port_ranges@ == self.data.port_ranges@,
            r.data.ipv4_gateway == self.data.ipv4_gateway,
            r.data.ipv6_gateway == self.data.ipv6_gateway,
    {
        WireguardMatcher {
            peer: match &self.peer {
                Some(peer) => Some(peer.clone()),
                None => None,
            },
            port: self.port,
            ip_version: self.ip_version,
            data: self.data.clone(),
        }
    }
}

impl Default for WireguardMatcher {
    fn default() -> (r: Self)
        ensures
            r.peer is None,
            r.port is Any,
            r.ip_version is Any,
            r.data.port_ranges@ == Seq::<(u16, u16)>::empty(),
    {
        WireguardMatcher {
            peer: None,
            port: Constraint::Any,
            ip_version: Constraint::Any,
            data: Default::default(),
        }
    }
}

impl WireguardMatcher {
    pub fn new(constraints: WireguardConstraints, data: WireguardEndpointData) -> (r: Self)
        ensures
            r.peer is None,
            r.port == constraints.port,
            r.ip_version == constraints.ip_version,
            r.data == data,
    {
        WireguardMatcher {
            peer: None,
            port: constraints.port,
            ip_version: constraints.ip_version,
            data,
        }
    }

    /// A matcher with the given catalog data and no constraints.
    pub fn from_endpoint(data: WireguardEndpointData) -> (r: Self)
        ensures
            r.peer is None,
            r.port is Any,
            r.ip_version is Any,
            r.data == data,
    {
        WireguardMatcher { peer: None, port: Constraint::Any, ip_version: Constraint::Any, data }
    }

    /// Whether the relay is the already-chosen multihop peer, which must
    /// not be chosen again.
    pub open spec fn spec_excludes(&self, relay: &Relay) -> bool {
        match self.peer {
            Some(peer) => peer.hostname@ == relay.hostname@,
            None => false,
        }
    }

    /// The public key of a WireGuard relay.
    pub open spec fn spec_relay_public_key(relay: &Relay) -> Option<PublicKey> {
        match relay.endpoint_data {
            RelayEndpointData::Wireguard(data) => Some(data.public_key),
            _ => None,
        }
    }

    /// The relay ingress address the IP-version constraint selects: the
    /// IPv4 address unless IPv6 is demanded, in which case the relay must
    /// have an IPv6 address.
    pub open spec fn spec_resolved_address(&self, relay: &Relay) -> Option<IpAddress> {
        match self.ip_version {
            Constraint::Any => Some(IpAddress::V4(relay.ipv4_addr_in)),
            Constraint::Only(IpVersion::V4) => Some(IpAddress::V4(relay.ipv4_addr_in)),
            Constraint::Only(IpVersion::V6) => match relay.ipv6_addr_in {
                Some(addr) => Some(IpAddress::V6(addr)),
                None => None,
            },
        }
    }

    /// Whether the port constraint can be satisfied from the catalog's
    /// ranges: a pinned port must lie in one, and an unconstrained port
    /// needs at least one port to exist.
    pub open spec fn spec_can_resolve_port(&self, data: &WireguardEndpointData) -> bool {
        match self.port {
            Constraint::Any => total_ports(data.port_ranges@) > 0,
            Constraint::Only(port) => port_in_ranges(data.port_ranges@, port),
        }
    }

    /// Whether a resolved port is a correct outcome under the constraint.
    pub open spec fn spec_port_ok(&self, data: &WireguardEndpointData, port: u16) -> bool {
        match self.port {
            Constraint::Any => port_in_ranges(data.port_ranges@, port),
            Constraint::Only(only) => port == only && port_in_ranges(data.port_ranges@, only),
        }
    }

    /// Whether endpoint construction is owed a result for this relay.
    pub open spec fn spec_wg_success(&self, relay: &Relay, data: &WireguardEndpointData) -> bool {
        &&& relay.endpoint_data is Wireguard
        &&& self.spec_resolved_address(relay) is Some
        &&& self.spec_can_resolve_port(data)
    }

    /// Which endpoint results are correct for this relay: `None` exactly
    /// when no endpoint can be built, else a WireGuard endpoint addressing
    /// the relay's key at the resolved address and an allowed port, with
    /// the catalog gateways, the allow-all route set, no pre-shared key and
    /// no exit peer.
    pub open spec fn spec_wg_endpoint_ok(
        &self,
        relay: &Relay,
        data: &WireguardEndpointData,
        r: Option<MullvadEndpoint>,
    ) -> bool {
        match r {
            None => !self.spec_wg_success(relay, data),
            Some(MullvadEndpoint::Wireguard(endpoint)) => {
                &&& self.spec_wg_success(relay, data)
                &&& Some(endpoint.peer.public_key) == Self::spec_relay_public_key(relay)
                &&& Some(endpoint.peer.endpoint.ip) == self.spec_resolved_address(relay)
                &&& self.spec_port_ok(data, endpoint.peer.endpoint.port)
                &&& allows_all_traffic(endpoint.peer.allowed_ips@)
                &&& endpoint.peer.psk is None
                &&& endpoint.exit_peer is None
                &&& endpoint.ipv4_gateway == data.ipv4_gateway
                &&& endpoint.ipv6_gateway == data.ipv6_gateway
            },
            Some(MullvadEndpoint::OpenVpn(_)) => false,
        }
    }

    /// Resolve the relay address the IP-version constraint selects.
    fn get_address_for_wireguard_relay(&self, relay: &Relay) -> (r: Option<IpAddress>)
        ensures
            r == self.spec_resolved_address(relay),
    {
        match self.ip_version {
            Constraint::Any => Some(IpAddress::V4(relay.ipv4_addr_in)),
            Constraint::Only(IpVersion::V4) => Some(IpAddress::V4(relay.ipv4_addr_in)),
            Constraint::Only(IpVersion::V6) => match relay.ipv6_addr_in {
                Some(addr) => Some(IpAddress::V6(addr)),
                None => None,
            },
        }
    }

    /// Resolve a connection port. A pinned port succeeds exactly when it
    /// lies in a catalog range. An unconstrained port is drawn uniformly
    /// over every port of every range: an index is drawn below the total
    /// port count and walked through the ranges, so each port has the same
    /// chance regardless of how the ranges are cut.
    fn get_port_for_wireguard_relay(&self, data: &WireguardEndpointData) -> (r: Option<u16>)
        requires
            ranges_wf(data.port_ranges@),
        ensures
            (r is Some) == self.spec_can_resolve_port(data),
            r matches Some(port) ==> self.spec_port_ok(data, port),
    {
        let ghost all = data.port_ranges@;
        match self.port {
            Constraint::Any => {
                proof {
                    lemma_total_ports_bound(all);
                    assert(all.skip(0) =~= all);
                }
                let mut port_amount: u64 = 0;
                let mut i: usize = 0;
                while i < data.port_ranges.len()
                    invariant
                        data.port_ranges@ == all,
                        ranges_wf(all),
                        0 <= i <= all.len(),
                        port_amount == total_ports(all) - total_ports(all.skip(i as int)),
                        0 <= port_amount <= 0x10000,
                    decreases all.len() - i,
                {
                    proof {
                        lemma_total_ports_skip_unfold(all, i as int);
                        lemma_ranges_wf_skip(all, i as int + 1);
                        lemma_total_ports_card(all.skip(i as int + 1));
                        lemma_total_ports_bound(all);
                    }
                    let range = data.port_ranges[i];
                    let ports_in_range: u64 = 1 + (range.1 as u64) - (range.0 as u64);
                    port_amount = port_amount + ports_in_range;
                    i = i + 1;
                }
                proof {
                    assert(all.skip(all.len() as int).len() == 0);
                }
                if port_amount < 1 {
                    return None;
                }
                let port_index = random_index(port_amount);
                Some(port_for_index(&data.port_ranges, port_index))
            },
            Constraint::Only(port) => {
                let mut i: usize = 0;
                while i < data.port_ranges.len()
                    invariant
                        data.port_ranges@ == all,
                        0 <= i <= all.len(),
                        self.port == Constraint::<u16>::Only(port),
                        forall|j: int| 0 <= j < i ==> !(#[trigger] port_in_range(all[j], port)),
                    decreases all.len() - i,
                {
                    let range = data.port_ranges[i];
                    if range.0 <= port && port <= range.1 {
                        proof {
                            assert(port_in_range(all[i as int], port));
                        }
                        return Some(port);
                    }
                    i = i + 1;
                }
                proof {
                    if port_in_ranges(all, port) {
                        let w = choose|w: int|
                            0 <= w < all.len() && port_in_range(all[w], port);
                        assert(!port_in_range(all[w], port));
                    }
                }
                None
            },
        }
    }

    /// Build a WireGuard endpoint for the relay from catalog data: resolve
    /// the address and a port, then address the relay's peer key with the
    /// allow-all route set and the catalog gateways.
    fn wg_data_to_endpoint(&self, relay: &Relay, data: &WireguardEndpointData) -> (r: Option<
        MullvadEndpoint,
    >)
        requires
            ranges_wf(data.port_ranges@),
        ensures
            self.spec_wg_endpoint_ok(relay, data, r),
    {
        match relay.endpoint_data {
            RelayEndpointData::Wireguard(_) => {},
            _ => {
                return None;
            },
        }
        let host = match self.get_address_for_wireguard_relay(relay) {
            Some(host) => host,
            None => {
                return None;
            },
        };
        let port = match self.get_port_for_wireguard_relay(data) {
            Some(port) => port,
            None => {
                return None;
            },
        };
        let peer_config = PeerConfig {
            public_key: relay.endpoint_data.unwrap_wireguard_ref().public_key,
            endpoint: SocketAddress { ip: host, port },
            allowed_ips: all_of_the_internet(),
            psk: None,
        };
        Some(
            MullvadEndpoint::Wireguard(
                MullvadWireguardEndpoint {
                    peer: peer_config,
                    exit_peer: None,
                    ipv4_gateway: data.ipv4_gateway,
                    ipv6_gateway: data.ipv6_gateway,
                },
            ),
        )
    }
}

impl TunnelMatcher for WireguardMatcher {
    open spec fn wf(&self) -> bool {
        ranges_wf(self.data.port_ranges@)
    }

    /// A relay passes exactly when it is not the excluded multihop peer
    /// and its endpoint data is WireGuard.
    open spec fn spec_filter(&self, relay: &Relay) -> Option<Relay> {
        if self.spec_excludes(relay) {
            None
        } else if !(relay.endpoint_data is Wireguard) {
            None
        } else {
            Some(*relay)
        }
    }

    open spec fn endpoint_ok(&self, relay: &Relay, r: Option<MullvadEndpoint>) -> bool {
        self.spec_wg_endpoint_ok(relay, &self.data, r)
    }

    fn filter_matching_endpoints(&self, relay: &Relay) -> (r: Option<Relay>) {
        if let Some(peer) = &self.peer {
            if peer.hostname == relay.hostname {
                return None;
            }
        }
        match relay.endpoint_data {
            RelayEndpointData::Wireguard(_) => Some(relay.clone()),
            _ => None,
        }
    }

    fn mullvad_endpoint(&self, relay: &Relay) -> (r: Option<MullvadEndpoint>) {
        self.wg_data_to_endpoint(relay, &self.data)
    }
}

// ------------------------------------------------------------------
// The combinator over both tunnel protocols
// ------------------------------------------------------------------

/// Composes the two protocol matchers when no tunnel protocol is pinned,
/// or delegates to exactly one when one is.
#[derive(Debug)]
pub struct AnyTunnelMatcher {
    pub wireguard: WireguardMatcher,
    pub openvpn: OpenVpnMatcher,
    /// Even when the user has not pinned a tunnel protocol, upstream
    /// selection logic may narrow the choice to one; the narrowed protocol
    /// is recorded here.
    pub tunnel_type: Constraint<TunnelType>,
}

impl Clone for AnyTunnelMatcher {
    fn clone(&self) -> (r: Self)
        ensures
            r.wireguard.peer == self.wireguard.peer,
            r.wireguard.port == self.wireguard.port,
            r.wireguard.ip_version == self.wireguard.ip_version,
            r.wireguard.data.port_ranges@ == self.wireguard.data.port_ranges@,
            r.wireguard.data.ipv4_gateway == self.wireguard.data.ipv4_gateway,
            r.wireguard.data.ipv6_gateway == self.wireguard.data.ipv6_gateway,
            r.openvpn.constraints == self.openvpn.constraints,
            r.openvpn.data.ports@ == self.openvpn.data.ports@,
            r.tunnel_type == self.tunnel_type,
    {
        AnyTunnelMatcher {
            wireguard: self.wireguard.clone(),
            openvpn: self.openvpn.clone(),
            tunnel_type: self.tunnel_type,
        }
    }
}

impl TunnelMatcher for AnyTunnelMatcher {
    open spec fn wf(&self) -> bool {
        self.wireguard.wf()
    }

    /// With a pinned protocol, the relay passes that protocol's matcher
    /// alone; unpinned, it passes whichever matcher accepts it. The two
    /// matchers can never both accept one relay: a relay's endpoint data
    /// names at most one tunnel protocol.
    open spec fn spec_filter(&self, relay: &Relay) -> Option<Relay> {
        match self.tunnel_type {
            Constraint::Any => {
                if self.wireguard.spec_filter(relay) is Some {
                    self.wireguard.spec_filter(relay)
                } else {
                    self.openvpn.spec_filter(relay)
                }
            },
            Constraint::Only(TunnelType::OpenVpn) => self.openvpn.spec_filter(relay),
            Constraint::Only(TunnelType::Wireguard) => self.wireguard.spec_filter(relay),
        }
    }

    /// With a pinned protocol, that protocol's endpoint; unpinned, the
    /// OpenVPN endpoint when one can be built, else the WireGuard endpoint.
    open spec fn endpoint_ok(&self, relay: &Relay, r: Option<MullvadEndpoint>) -> bool {
        match self.tunnel_type {
            Constraint::Any => {
                if self.openvpn.spec_endpoint(relay) is Some {
                    r == self.openvpn.spec_endpoint(relay)
                } else {
                    self.wireguard.endpoint_ok(relay, r)
                }
            },
            Constraint::Only(TunnelType::OpenVpn) => self.openvpn.endpoint_ok(relay, r),
            Constraint::Only(TunnelType::Wireguard) => self.wireguard.endpoint_ok(relay, r),
        }
    }

    fn filter_matching_endpoints(&self, relay: &Relay) -> (r: Option<Relay>) {
        match self.tunnel_type {
            Constraint::Any => {
                let wireguard_relay = self.wireguard.filter_matching_endpoints(relay);
                let openvpn_relay = self.openvpn.filter_matching_endpoints(relay);
                match (wireguard_relay, openvpn_relay) {
                    (Some(filtered), None) => Some(filtered),
                    (None, Some(filtered)) => Some(filtered),
                    (Some(_), Some(_)) => {
                        // A relay cannot match both tunnel protocols: its
                        // endpoint data is one variant.
                        proof {
                            assert(false);
                        }
                        unreached()
                    },
                    (None, None) => None,
                }
            },
            Constraint::Only(TunnelType::OpenVpn) => self.openvpn.filter_matching_endpoints(relay),
            Constraint::Only(TunnelType::Wireguard) => self.wireguard.filter_matching_endpoints(
                relay,
            ),
        }
    }

    fn mullvad_endpoint(&self, relay: &Relay) -> (r: Option<MullvadEndpoint>) {
        match self.tunnel_type {
            Constraint::Any => {
                match self.openvpn.mullvad_endpoint(relay) {
                    Some(endpoint) => Some(endpoint),
                    None => self.wireguard.mullvad_endpoint(relay),
                }
            },
            Constraint::Only(TunnelType::OpenVpn) => self.openvpn.mullvad_endpoint(relay),
            Constraint::Only(TunnelType::Wireguard) => self.wireguard.mullvad_endpoint(relay),
        }
    }
}

// ------------------------------------------------------------------
// The top-level facade
// ------------------------------------------------------------------

/// The top-level matcher: relay-level constraints, and a tunnel-matching
/// strategy for the protocol level.
#[derive(Clone)]
pub struct RelayMatcher<T: TunnelMatcher> {
    pub location: Constraint<LocationConstraint>,
    pub providers: Constraint<Providers>,
    pub ownership: Constraint<Ownership>,
    pub tunnel: T,
}

impl RelayMatcher<AnyTunnelMatcher> {
    pub fn new(
        constraints: RelayConstraints,
        openvpn_data: OpenVpnEndpointData,
        wireguard_data: WireguardEndpointData,
    ) -> (r: Self)
        ensures
            r.location == constraints.location,
            r.providers == constraints.providers,
            r.ownership == constraints.ownership,
            r.tunnel.tunnel_type == constraints.tunnel_protocol,
            r.tunnel.wireguard.peer is None,
            r.tunnel.wireguard.port == constraints.wireguard_constraints.port,
            r.tunnel.wireguard.ip_version == constraints.wireguard_constraints.ip_version,
            r.tunnel.wireguard.data == wireguard_data,
            r.tunnel.openvpn.constraints == constraints.openvpn_constraints,
            r.tunnel.openvpn.data == openvpn_data,
    {
        RelayMatcher {
            location: constraints.location,
            providers: constraints.providers,
            ownership: constraints.ownership,
            tunnel: AnyTunnelMatcher {
                wireguard: WireguardMatcher::new(
                    constraints.wireguard_constraints,
                    wireguard_data,
                ),
                openvpn: OpenVpnMatcher::new(constraints.openvpn_constraints, openvpn_data),
                tunnel_type: constraints.tunnel_protocol,
            },
        }
    }

    /// Narrow this matcher to its WireGuard strategy, keeping the
    /// relay-level constraints.
    pub fn to_wireguard_matcher(self) -> (r: RelayMatcher<WireguardMatcher>)
        ensures
            r.location == self.location,
            r.providers == self.providers,
            r.ownership == self.ownership,
            r.tunnel == self.tunnel.wireguard,
    {
        RelayMatcher {
            tunnel: self.tunnel.wireguard,
            location: self.location,
            providers: self.providers,
            ownership: self.ownership,
        }
    }
}

impl RelayMatcher<WireguardMatcher> {
    /// Record an already-selected peer relay, excluding it from further
    /// matching for the other leg of a multihop chain.
    pub fn set_peer(&mut self, peer: Relay)
        ensures
            final(self).tunnel.peer == Some(peer),
            final(self).tunnel.port == old(self).tunnel.port,
            final(self).tunnel.ip_version == old(self).tunnel.ip_version,
            final(self).tunnel.data == old(self).tunnel.data,
            final(self).location == old(self).location,
            final(self).providers == old(self).providers,
            final(self).ownership == old(self).ownership,
    {
        self.tunnel.peer = Some(peer);
    }
}

impl<T: TunnelMatcher> RelayMatcher<T> {
    /// The relay that filtering returns, if any: nothing when a relay-level
    /// constraint fails, else whatever the tunnel strategy passes.
    pub open spec fn spec_filter_relay(&self, relay: &Relay) -> Option<Relay> {
        if self.location.spec_matches(relay) && self.providers.spec_matches(relay)
            && self.ownership.spec_matches(relay) {
            self.tunnel.spec_filter(relay)
        } else {
            None
        }
    }

    /// Filter a relay and its endpoints based on constraints. Only matching
    /// endpoints are included in the returned relay.
    pub fn filter_matching_relay(&self, relay: &Relay) -> (r: Option<Relay>)
        ensures
            r == self.spec_filter_relay(relay),
    {
        if !self.location.matches(relay) || !self.providers.matches(relay)
            || !self.ownership.matches(relay) {
            return None;
        }
        self.tunnel.filter_matching_endpoints(relay)
    }

    /// Construct an endpoint for a relay through the tunnel strategy.
    pub fn mullvad_endpoint(&self, relay: &Relay) -> (r: Option<MullvadEndpoint>)
        requires
            self.tunnel.wf(),
        ensures
            self.tunnel.endpoint_ok(relay, r),
    {
        self.tunnel.mullvad_endpoint(relay)
    }
}

// ------------------------------------------------------------------
// Laws
// ------------------------------------------------------------------

/// When any relay-level constraint rejects a relay, filtering returns
/// nothing, whatever the tunnel strategy would say.
pub proof fn lemma_relay_predicate_failure<T: TunnelMatcher>(
    matcher: RelayMatcher<T>,
    relay: Relay,
)
    requires
        !matcher.location.spec_matches(&relay) || !matcher.providers.spec_matches(&relay)
            || !matcher.ownership.spec_matches(&relay),
    ensures
        matcher.spec_filter_relay(&relay) is None,
{
}

/// The protocol matchers reject relays of the other protocol: an OpenVPN
/// matcher passes no WireGuard relay, and a WireGuard matcher passes no
/// OpenVPN relay.
pub proof fn lemma_protocol_mismatch(
    openvpn: OpenVpnMatcher,
    wireguard: WireguardMatcher,
    relay: Relay,
)
    ensures
        relay.endpoint_data is Wireguard ==> openvpn.spec_filter(&relay) is None,
        relay.endpoint_data is Openvpn ==> wireguard.spec_filter(&relay) is None,
{
}

/// Multihop exclusion: a WireGuard matcher whose peer is already chosen
/// rejects the relay with that peer's hostname, and treats every other
/// relay as if no peer were set.
pub proof fn lemma_multihop_exclusion(matcher: WireguardMatcher, peer: Relay, relay: Relay)
    requires
        matcher.peer == Some(peer),
    ensures
        peer.hostname@ == relay.hostname@ ==> matcher.spec_filter(&relay) is None,
        peer.hostname@ != relay.hostname@ && relay.endpoint_data is Wireguard
            ==> matcher.spec_filter(&relay) == Some(relay),
{
}

/// A relay can satisfy at most one tunnel protocol's matcher: its endpoint
/// data is a single variant, so the two matchers never both pass it.
pub proof fn lemma_tunnel_exclusivity(
    wireguard: WireguardMatcher,
    openvpn: OpenVpnMatcher,
    relay: Relay,
)
    ensures
        !(wireguard.spec_filter(&relay) is Some && openvpn.spec_filter(&relay) is Some),
{
}

/// With IPv6 demanded of a relay that has no IPv6 address, endpoint
/// construction yields nothing, even for a relay that passed filtering.
pub proof fn lemma_ipv6_unavailable(
    matcher: WireguardMatcher,
    relay: Relay,
    r: Option<MullvadEndpoint>,
)
    requires
        matcher.ip_version == Constraint::<IpVersion>::Only(IpVersion::V6),
        relay.ipv6_addr_in is None,
        matcher.endpoint_ok(&relay, r),
    ensures
        r is None,
{
}

} // verus!
