//! The state of a started container, as handed to an image's post-start commands.
use vstd::prelude::*;

use crate::error::TestcontainersError;
use crate::ports::Ports;

verus! {

/// The id and published ports of a started container.
#[derive(Debug)]
pub struct ContainerState {
    id: String,
    ports: Ports,
}

impl View for ContainerState {
    type V = (Seq<char>, (Map<u16, u16>, Map<u16, u16>));

    closed spec fn view(&self) -> (Seq<char>, (Map<u16, u16>, Map<u16, u16>)) {
        (self.id@, self.ports@)
    }
}

impl ContainerState {
    /// The state of container `id` with the given published ports.
    pub fn new(id: &str, ports: Ports) -> (r: Self)
        ensures
            r@ == (id@, ports@),
    {
        ContainerState { id: id.to_owned(), ports }
    }

    /// Returns the host port for the given internal port (`IPv4`), or
    /// [`TestcontainersError::PortNotExposed`] if the port is not exposed.
    pub fn host_port_ipv4(&self, internal_port: u16) -> (r: Result<u16, TestcontainersError>)
        ensures
            self@.1.0.contains_key(internal_port) ==> r == Ok::<u16, TestcontainersError>(
                self@.1.0[internal_port],
            ),
            !self@.1.0.contains_key(internal_port) ==> (r matches Err(
                TestcontainersError::PortNotExposed { id, port },
            ) && id@ == self@.0 && port == internal_port),
    {
        match self.ports.map_to_host_port_ipv4(internal_port) {
            Some(p) => Ok(p),
            None => Err(TestcontainersError::PortNotExposed { id: self.id.clone(), port: internal_port }),
        }
    }

    /// Returns the host port for the given internal port (`IPv6`), or
    /// [`TestcontainersError::PortNotExposed`] if the port is not exposed.
    pub fn host_port_ipv6(&self, internal_port: u16) -> (r: Result<u16, TestcontainersError>)
        ensures
            self@.1.1.contains_key(internal_port) ==> r == Ok::<u16, TestcontainersError>(
                self@.1.1[internal_port],
            ),
            !self@.1.1.contains_key(internal_port) ==> (r matches Err(
                TestcontainersError::PortNotExposed { id, port },
            ) && id@ == self@.0 && port == internal_port),
    {
        match self.ports.map_to_host_port_ipv6(internal_port) {
            Some(p) => Ok(p),
            None => Err(TestcontainersError::PortNotExposed { id: self.id.clone(), port: internal_port }),
        }
    }
}

} // verus!
