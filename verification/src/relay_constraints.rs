//! User constraints on relay selection, and the predicates that hold a relay
//! against them.

use vstd::prelude::*;

use crate::net::{IpVersion, TransportProtocol, TunnelType};
use crate::relay_list::Relay;

verus! {

/// A two-state modifier over a value type: either unconstrained, or pinned
/// to exactly one value. What "pinned to `v`" means is defined per value
/// type by its [`Match`] implementation.
#[derive(Clone, Copy, PartialEq, Eq, Debug)]
pub enum Constraint<T> {
    Any,
    Only(T),
}

impl<T> Constraint<T> {
    /// Whether this constraint accepts every value.
    pub fn is_any(&self) -> (r: bool)
        ensures
            r == (self is Any),
    {
        match self {
            Constraint::Any => true,
            Constraint::Only(_) => false,
        }
    }
}

/// The capability of deciding whether a value satisfies a constraint-like
/// filter. `spec_matches` is the mathematical predicate; `matches` decides it.
pub trait Match<T>: Sized {
    spec fn spec_matches(&self, value: &T) -> bool;

    fn matches(&self, value: &T) -> (r: bool)
        ensures
            r == self.spec_matches(value),
    ;
}

/// A constraint on where a relay sits in the location hierarchy, from the
/// whole of a country down to a single host.
#[derive(PartialEq, Eq, Debug)]
pub enum LocationConstraint {
    Country(String),
    City(String, String),
    Hostname(String, String, String),
}

impl Clone for LocationConstraint {
    fn clone(&self) -> (r: Self)
        ensures
            r == *self,
    {
        match self {
            LocationConstraint::Country(country) => {
                LocationConstraint::Country(country.clone())
            },
            LocationConstraint::City(country, city) => {
                LocationConstraint::City(country.clone(), city.clone())
            },
            LocationConstraint::Hostname(country, city, hostname) => {
                LocationConstraint::Hostname(country.clone(), city.clone(), hostname.clone())
            },
        }
    }
}

impl LocationConstraint {
    /// Whether a relay lies under this location: its recorded location must
    /// agree with every level the constraint names, and a hostname
    /// constraint must also name the relay itself. A relay without a
    /// recorded location matches no location constraint.
    pub open spec fn spec_matches_relay(&self, relay: &Relay) -> bool {
        match relay.location {
            Some(location) => match self {
                LocationConstraint::Country(country) => location.country@ == country@,
                LocationConstraint::City(country, city) => {
                    location.country@ == country@ && location.city@ == city@
                },
                LocationConstraint::Hostname(country, city, hostname) => {
                    location.country@ == country@ && location.city@ == city@
                        && relay.hostname@ == hostname@
                },
            },
            None => false,
        }
    }

    fn matches_relay(&self, relay: &Relay) -> (r: bool)
        ensures
            r == self.spec_matches_relay(relay),
    {
        match &relay.location {
            Some(location) => match self {
                LocationConstraint::Country(country) => location.country == *country,
                LocationConstraint::City(country, city) => {
                    location.country == *country && location.city == *city
                },
                LocationConstraint::Hostname(country, city, hostname) => {
                    location.country == *country && location.city == *city
                        && relay.hostname == *hostname
                },
            },
            None => false,
        }
    }
}

impl Match<Relay> for Constraint<LocationConstraint> {
    open spec fn spec_matches(&self, relay: &Relay) -> bool {
        match self {
            Constraint::Any => true,
            Constraint::Only(location) => location.spec_matches_relay(relay),
        }
    }

    fn matches(&self, relay: &Relay) -> (r: bool) {
        match self {
            Constraint::Any => true,
            Constraint::Only(location) => location.matches_relay(relay),
        }
    }
}

/// A set of hosting providers, named by their catalog names.
#[derive(PartialEq, Eq, Debug)]
pub struct Providers {
    pub providers: Vec<String>,
}

impl Clone for Providers {
    fn clone(&self) -> (r: Self)
        ensures
            r.providers@ == self.providers@,
    {
        let r = Providers { providers: self.providers.clone() };
        proof {
            assert(r.providers@ =~= self.providers@);
        }
        r
    }
}

impl Providers {
    /// Whether the relay's provider is one of the named providers.
    pub open spec fn spec_contains_provider(&self, relay: &Relay) -> bool {
        exists|i: int|
            0 <= i < self.providers@.len() && self.providers@[i]@ == relay.provider@
    }

    fn contains_provider(&self, relay: &Relay) -> (r: bool)
        ensures
            r == self.spec_contains_provider(relay),
    {
        let mut i: usize = 0;
        while i < self.providers.len()
            invariant
                0 <= i <= self.providers@.len(),
                forall|j: int| 0 <= j < i ==> self.providers@[j]@ != relay.provider@,
            decreases self.providers@.len() - i,
        {
            if self.providers[i] == relay.provider {
                return true;
            }
            i = i + 1;
        }
        false
    }
}

impl Match<Relay> for Constraint<Providers> {
    open spec fn spec_matches(&self, relay: &Relay) -> bool {
        match self {
            Constraint::Any => true,
            Constraint::Only(providers) => providers.spec_contains_provider(relay),
        }
    }

    fn matches(&self, relay: &Relay) -> (r: bool) {
        match self {
            Constraint::Any => true,
            Constraint::Only(providers) => providers.contains_provider(relay),
        }
    }
}

/// Whether a relay must be owned by the VPN operator or rented from a
/// hosting provider.
#[derive(Clone, Copy, PartialEq, Eq, Debug)]
pub enum Ownership {
    MullvadOwned,
    Rented,
}

impl Match<Relay> for Constraint<Ownership> {
    open spec fn spec_matches(&self, relay: &Relay) -> bool {
        match self {
            Constraint::Any => true,
            Constraint::Only(Ownership::MullvadOwned) => relay.owned,
            Constraint::Only(Ownership::Rented) => !relay.owned,
        }
    }

    fn matches(&self, relay: &Relay) -> (r: bool) {
        match self {
            Constraint::Any => true,
            Constraint::Only(Ownership::MullvadOwned) => relay.owned,
            Constraint::Only(Ownership::Rented) => !relay.owned,
        }
    }
}

/// A transport protocol with an optional port pin, as constrained for
/// OpenVPN connections.
#[derive(Clone, Copy, PartialEq, Eq, Debug)]
pub struct TransportPort {
    pub protocol: TransportProtocol,
    pub port: Constraint<u16>,
}

/// The OpenVPN-specific constraints: which (port, protocol) pairs qualify.
#[derive(Clone, Copy, PartialEq, Eq, Debug)]
pub struct OpenVpnConstraints {
    pub port: Constraint<TransportPort>,
}

/// The WireGuard-specific constraints: the connection port and the address
/// family of the relay address to connect to.
#[derive(Clone, Copy, PartialEq, Eq, Debug)]
pub struct WireguardConstraints {
    pub port: Constraint<u16>,
    pub ip_version: Constraint<IpVersion>,
}

/// Every constraint a relay and its endpoint must satisfy.
#[derive(PartialEq, Eq, Debug)]
pub struct RelayConstraints {
    pub location: Constraint<LocationConstraint>,
    pub providers: Constraint<Providers>,
    pub ownership: Constraint<Ownership>,
    pub tunnel_protocol: Constraint<TunnelType>,
    pub wireguard_constraints: WireguardConstraints,
    pub openvpn_constraints: OpenVpnConstraints,
}

} // verus!
