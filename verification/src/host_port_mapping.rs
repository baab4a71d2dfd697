//! Choosing how a container reaches the host: `host-gateway` on a recent Linux Docker,
//! `host.docker.internal` on Docker Desktop.
use vstd::prelude::*;

use crate::collections::StringKeyMap;
use crate::error::TestcontainersError;
use crate::host_exposure::HOST_INTERNAL_ALIAS;
use crate::request::Host;
use crate::text::{find_char, parse_u32_range, parse_u32_seq, str_eq};

verus! {

/// A number read as `str::parse::<u32>` reads it, or 0 when it cannot be read.
pub open spec fn u32_or_zero(t: Seq<char>) -> int {
    match parse_u32_seq(t) {
        Some(v) => v,
        None => 0,
    }
}

/// Whether the Docker version `v` (`"<major>.<minor>[.<rest>]"`) is at least
/// `min_major.min_minor`; a version without a `.` never is, and an unreadable component counts as 0.
pub open spec fn version_at_least(v: Seq<char>, min_major: int, min_minor: int) -> bool {
    match v.index_of_first('.') {
        None => false,
        Some(i) => {
            let rest = v.subrange(i + 1, v.len() as int);
            let minor_text = match rest.index_of_first('.') {
                Some(j) => rest.subrange(0, j),
                None => rest,
            };
            let major = u32_or_zero(v.subrange(0, i));
            let minor = u32_or_zero(minor_text);
            major > min_major || (major == min_major && minor >= min_minor)
        },
    }
}

fn u32_or_zero_range(s: &str, lo: usize, hi: usize) -> (r: u32)
    requires
        lo <= hi <= s@.len(),
    ensures
        r as int == u32_or_zero(s@.subrange(lo as int, hi as int)),
{
    match parse_u32_range(s, lo, hi) {
        Some(v) => v,
        None => 0,
    }
}

/// Checks if a Docker version string is at least the specified major.minor version.
pub fn is_docker_version_at_least(version_str: &str, min_major: u32, min_minor: u32) -> (r: bool)
    ensures
        r == version_at_least(version_str@, min_major as int, min_minor as int),
{
    let n = version_str.unicode_len();
    proof {
        assert(version_str@.subrange(0, n as int) =~= version_str@);
    }
    let first = find_char(version_str, '.', 0, n);
    match first {
        None => false,
        Some(i) => {
            let second = find_char(version_str, '.', i + 1, n);
            let minor_end = match second {
                Some(j) => j,
                None => n,
            };
            proof {
                let rest = version_str@.subrange(i + 1, n as int);
                match second {
                    Some(j) => {
                        assert(rest.subrange(0, j - (i + 1)) =~= version_str@.subrange(
                            i + 1,
                            j as int,
                        ));
                    },
                    None => {},
                }
            }
            let major = u32_or_zero_range(version_str, 0, i);
            let minor = u32_or_zero_range(version_str, i + 1, minor_end);
            major > min_major || (major == min_major && minor >= min_minor)
        },
    }
}

/// Whether the operating system named `os` (as `std::env::consts::OS` names it) runs
/// Docker Desktop, which provides `host.docker.internal`.
pub fn is_docker_desktop(os: &str) -> (r: bool)
    ensures
        r == (os@ == "macos"@ || os@ == "windows"@),
{
    str_eq(os, "macos") || str_eq(os, "windows")
}

/// What asking the Docker daemon for its version gave.
#[derive(Debug, Clone)]
pub enum DockerVersionProbe {
    /// The daemon reported this version.
    Version(String),
    /// The daemon reported no version.
    Unavailable,
    /// The request failed.
    Failed,
}

/// Whether the `host-gateway` feature can be used: only on Linux, with Docker 20.10 or newer;
/// when the version cannot be learnt it is assumed to be supported.
pub fn supports_host_gateway(is_linux: bool, probe: &DockerVersionProbe) -> (r: bool)
    ensures
        r == (is_linux && match *probe {
            DockerVersionProbe::Version(v) => version_at_least(v@, 20, 10),
            _ => true,
        }),
{
    if !is_linux {
        return false;
    }
    match probe {
        DockerVersionProbe::Version(v) => is_docker_version_at_least(v.as_str(), 20, 10),
        DockerVersionProbe::Unavailable => true,
        DockerVersionProbe::Failed => true,
    }
}

/// The native way to reach the host: `host-gateway` where supported, otherwise
/// `host.docker.internal` on Docker Desktop, otherwise none.
pub fn detect_native_host_mapping(host_gateway_supported: bool, is_docker_desktop: bool) -> (r:
    Option<Host>)
    ensures
        host_gateway_supported ==> r matches Some(Host::HostGateway),
        !host_gateway_supported && is_docker_desktop ==> (r matches Some(Host::Hostname(h)) && h@
            == "host.docker.internal"@),
        !host_gateway_supported && !is_docker_desktop ==> r is None,
{
    if host_gateway_supported {
        Some(Host::HostGateway)
    } else if is_docker_desktop {
        Some(Host::Hostname("host.docker.internal".to_owned()))
    } else {
        None
    }
}

/// Adds the `host.testcontainers.internal` entry to `hosts` when host ports are exposed,
/// using the native mapping found; fails when host ports are exposed and none was found.
pub fn setup_host_mapping(
    hosts: &mut StringKeyMap<Host>,
    exposed_host_ports: &[u16],
    native: Option<Host>,
) -> (r: Result<(), TestcontainersError>)
    ensures
        exposed_host_ports@.len() == 0 ==> r is Ok && final(hosts)@ == old(hosts)@,
        exposed_host_ports@.len() > 0 ==> match native {
            Some(h) => r is Ok && final(hosts)@ == old(hosts)@.insert(HOST_INTERNAL_ALIAS@, h),
            None => (r matches Err(TestcontainersError::HostPortMappingUnavailable) && final(hosts)@
                == old(hosts)@),
        },
{
    if exposed_host_ports.len() == 0 {
        return Ok(());
    }
    match native {
        Some(h) => {
            hosts.insert(HOST_INTERNAL_ALIAS.to_owned(), h);
            Ok(())
        },
        None => Err(TestcontainersError::HostPortMappingUnavailable),
    }
}

/// Versions are ordered by major number first: a version whose major number is below the
/// minimum is never enough, whatever its minor number; one whose major number is above the
/// minimum always is; and a version without a `.` never is.
pub proof fn law_docker_version_ordered_by_major_first(
    v: Seq<char>,
    min_major: int,
    min_minor: int,
)
    ensures
        v.index_of_first('.') is None ==> !version_at_least(v, min_major, min_minor),
        v.index_of_first('.') matches Some(i) && u32_or_zero(v.subrange(0, i)) < min_major
            ==> !version_at_least(v, min_major, min_minor),
        v.index_of_first('.') matches Some(i) && u32_or_zero(v.subrange(0, i)) > min_major
            ==> version_at_least(v, min_major, min_minor),
{
}

} // verus!
