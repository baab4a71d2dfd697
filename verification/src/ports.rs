//! The host ports a started container's internal ports are published on, per address family.
use std::collections::HashMap;
use vstd::prelude::*;

verus! {

broadcast use vstd::std_specs::hash::group_hash_axioms;

/// Internal-to-host port mappings on the host's IPv4 and IPv6 interfaces.
#[derive(Debug, Clone)]
pub struct Ports {
    ipv4_mapping: HashMap<u16, u16>,
    ipv6_mapping: HashMap<u16, u16>,
}

impl View for Ports {
    type V = (Map<u16, u16>, Map<u16, u16>);

    closed spec fn view(&self) -> (Map<u16, u16>, Map<u16, u16>) {
        (self.ipv4_mapping@, self.ipv6_mapping@)
    }
}

impl Ports {
    /// Ports with the given IPv4 and IPv6 mappings.
    pub fn new(ipv4_mapping: HashMap<u16, u16>, ipv6_mapping: HashMap<u16, u16>) -> (p: Self)
        ensures
            p@ == (ipv4_mapping@, ipv6_mapping@),
    {
        Ports { ipv4_mapping, ipv6_mapping }
    }

    /// The host port on the IPv4 interfaces that `internal_port` is published on, if any.
    pub fn map_to_host_port_ipv4(&self, internal_port: u16) -> (r: Option<u16>)
        ensures
            r == (if self@.0.contains_key(internal_port) {
                Some(self@.0[internal_port])
            } else {
                None
            }),
    {
        match self.ipv4_mapping.get(&internal_port) {
            Some(p) => Some(*p),
            None => None,
        }
    }

    /// The host port on the IPv6 interfaces that `internal_port` is published on, if any.
    pub fn map_to_host_port_ipv6(&self, internal_port: u16) -> (r: Option<u16>)
        ensures
            r == (if self@.1.contains_key(internal_port) {
                Some(self@.1[internal_port])
            } else {
                None
            }),
    {
        match self.ipv6_mapping.get(&internal_port) {
            Some(p) => Some(*p),
            None => None,
        }
    }
}

} // verus!
