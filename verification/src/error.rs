//! Errors of the library.
use vstd::prelude::*;

use crate::host_exposure::HostExposureError;
use crate::text::concat_str;

verus! {

/// A container lacks some piece of information, found at `path` of its description.
#[derive(Debug, Clone)]
pub struct ContainerMissingInfo {
    /// Container ID
    id: String,
    /// Path to the missing information (e.g `NetworkSettings.Networks`).
    path: String,
}

impl View for ContainerMissingInfo {
    type V = (Seq<char>, Seq<char>);

    closed spec fn view(&self) -> (Seq<char>, Seq<char>) {
        (self.id@, self.path@)
    }
}

impl ContainerMissingInfo {
    /// The container `id` lacks the information at `path`.
    pub fn new(id: &str, path: &str) -> (r: Self)
        ensures
            r@ == (id@, path@),
    {
        ContainerMissingInfo { id: id.to_owned(), path: path.to_owned() }
    }

    /// `container '<id>' does not have: <path>`
    pub fn message(&self) -> (r: String)
        ensures
            r@ == "container '"@ + self@.0 + "' does not have: "@ + self@.1,
    {
        let mut r = concat_str("container '", self.id.as_str());
        r.append("' does not have: ");
        r.append(self.path.as_str());
        r
    }
}

/// Errors of the library.
#[derive(Debug)]
pub enum TestcontainersError {
    /// A container does not expose a port.
    PortNotExposed { id: String, port: u16 },
    /// A container is missing some information.
    MissingInfo(ContainerMissingInfo),
    /// No native way to reach the host from a container is available.
    HostPortMappingUnavailable,
    /// Host ports cannot be exposed to the container as requested.
    HostExposure(HostExposureError),
    /// Any other error, described by its message.
    Other(String),
}

} // verus!
