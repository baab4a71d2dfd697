//! Port mappings of a started container, as read from `docker inspect`.
use std::collections::HashMap;
use vstd::prelude::*;

verus! {

broadcast use vstd::std_specs::hash::group_hash_axioms;

/// The mapping from the internal ports of a container to the host ports they are published on.
#[derive(Debug, PartialEq)]
pub struct Ports {
    mapping: HashMap<u32, u32>,
}

impl View for Ports {
    type V = Map<u32, u32>;

    closed spec fn view(&self) -> Map<u32, u32> {
        self.mapping@
    }
}

impl Ports {
    /// Ports with the given internal-to-host mapping.
    pub fn new(mapping: HashMap<u32, u32>) -> (p: Self)
        ensures
            p@ == mapping@,
    {
        Ports { mapping }
    }

    /// The internal-to-host mapping.
    pub fn mapping(&self) -> (r: &HashMap<u32, u32>)
        ensures
            r@ == self@,
    {
        &self.mapping
    }

    /// The host port that the internal port `port` is published on, if it is.
    pub fn map_to_external_port(&self, port: u32) -> (r: Option<u32>)
        ensures
            r == (if self@.contains_key(port) {
                Some(self@[port])
            } else {
                None
            }),
    {
        match self.mapping.get(&port) {
            Some(p) => Some(*p),
            None => None,
        }
    }
}

} // verus!
