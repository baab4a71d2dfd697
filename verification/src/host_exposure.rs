//! Making host ports reachable from inside a container: checking the request, planning the
//! SSH sidecar that carries the reverse tunnels, and pacing the attempts to reach it.
use ferroid::{base32::Base32UlidExt, id::ULID};
use vstd::prelude::*;

use crate::collections::StringKeyMap;
use crate::mounts::opt_view;
use crate::request::{strictly_increasing, with_exposed_host_ports, Host, ReuseDirective};
use crate::text::{concat_str, starts_with, str_eq};

verus! {

/// The host name under which exposed host ports are reached from the container.
pub const HOST_INTERNAL_ALIAS: &'static str = "host.testcontainers.internal";

/// The port the SSH sidecar listens on; it cannot be exposed.
pub const SSH_PORT: u16 = 22;

/// Why host ports cannot be exposed as requested.
#[derive(Debug, Clone, Copy, PartialEq, Eq, Structural)]
pub enum HostExposureError {
    /// Port 0 was requested.
    ZeroPort,
    /// The SSH port was requested.
    SshPortReserved,
    /// The request already defines `host.testcontainers.internal`.
    AliasDefined,
    /// The container uses the host network.
    HostNetwork,
    /// The container uses another container's network.
    ContainerNetwork,
    /// The container is marked for reuse.
    ReusableContainer,
}

impl HostExposureError {
    /// The message describing the error.
    pub fn message(&self) -> (r: &'static str)
        ensures
            r@ == match *self {
                HostExposureError::ZeroPort => "host port exposure requires ports greater than zero (port 0 is invalid)"@,
                HostExposureError::SshPortReserved => "host port exposure does not support exposing port 22 (SSH port is reserved)"@,
                HostExposureError::AliasDefined => "host port exposure is not supported when 'host.testcontainers.internal' is already defined"@,
                HostExposureError::HostNetwork => "host port exposure is not supported with host network mode"@,
                HostExposureError::ContainerNetwork => "host port exposure is not supported with container network mode"@,
                HostExposureError::ReusableContainer => "host port exposure is not supported for reusable containers (due to SSH tunnel conflicts)"@,
            },
    {
        match self {
            HostExposureError::ZeroPort => "host port exposure requires ports greater than zero (port 0 is invalid)",
            HostExposureError::SshPortReserved => "host port exposure does not support exposing port 22 (SSH port is reserved)",
            HostExposureError::AliasDefined => "host port exposure is not supported when 'host.testcontainers.internal' is already defined",
            HostExposureError::HostNetwork => "host port exposure is not supported with host network mode",
            HostExposureError::ContainerNetwork => "host port exposure is not supported with container network mode",
            HostExposureError::ReusableContainer => "host port exposure is not supported for reusable containers (due to SSH tunnel conflicts)",
        }
    }
}

/// Everything needed to start the SSH sidecar and open the reverse tunnels.
#[derive(Debug)]
pub struct HostExposurePlan {
    pub requested_ports: Vec<u16>,
    pub password: String,
    pub network: Option<String>,
    pub ssh_username: &'static str,
    pub ssh_port: u16,
    pub ssh_max_attempts: u32,
    pub ssh_retry_delay_ms: u64,
    pub ssh_max_retry_delay_ms: u64,
    pub ssh_image: &'static str,
    pub ssh_tag: &'static str,
}

/// The first reason, in the order they are checked, why the requested ports cannot be
/// exposed, if there is one.
pub open spec fn exposure_refusal(
    ports: Seq<u16>,
    alias_defined: bool,
    network: Option<Seq<char>>,
    reuse: ReuseDirective,
) -> Option<HostExposureError> {
    if ports.contains(0) {
        Some(HostExposureError::ZeroPort)
    } else if ports.contains(22) {
        Some(HostExposureError::SshPortReserved)
    } else if alias_defined {
        Some(HostExposureError::AliasDefined)
    } else if network == Some("host"@) {
        Some(HostExposureError::HostNetwork)
    } else if network matches Some(n) && "container:"@.is_prefix_of(n) {
        Some(HostExposureError::ContainerNetwork)
    } else if reuse != ReuseDirective::Never {
        Some(HostExposureError::ReusableContainer)
    } else {
        None
    }
}

/// A fresh ULID, encoded in Crockford base32.
///
/// Calls `ferroid::id::ULID::from_datetime` with the current system time and encodes the
/// result with `Base32UlidExt::encode`. The ULID depends on the clock and on a random
/// source, so only the length of its encoding (26 characters for 128 bits) is stated.
#[verifier::external_body]
pub(crate) fn ulid_now_base32() -> (s: String)
    ensures
        s@.len() == 26,
{
    ULID::from_datetime(std::time::SystemTime::now()).encode().as_string()
}

fn contains_port(ports: &Vec<u16>, p: u16) -> (r: bool)
    ensures
        r == ports@.contains(p),
{
    let mut i: usize = 0;
    while i < ports.len()
        invariant
            0 <= i <= ports@.len(),
            forall|j: int| 0 <= j < i ==> #[trigger] ports@[j] != p,
        decreases ports.len() - i,
    {
        if ports[i] == p {
            return true;
        }
        i = i + 1;
    }
    false
}

/// Checks a request to expose host ports and plans the SSH sidecar for it.
///
/// No plan is made when no port is requested; otherwise the request is refused for the
/// first reason that [`exposure_refusal`] finds, or planned with the requested ports sorted
/// and without duplicates, and a fresh password.
pub fn prepare_host_exposure(
    requested: Option<Vec<u16>>,
    hosts: &StringKeyMap<Host>,
    network: Option<String>,
    reuse: ReuseDirective,
) -> (r: Result<Option<HostExposurePlan>, HostExposureError>)
    ensures
        (requested is None || requested->0@.len() == 0) ==> r matches Ok(None),
        requested matches Some(req) ==> req@.len() > 0 ==> match exposure_refusal(
            req@,
            hosts@.contains_key(HOST_INTERNAL_ALIAS@),
            opt_view(network),
            reuse,
        ) {
            Some(e) => r == Err::<Option<HostExposurePlan>, HostExposureError>(e),
            None => r matches Ok(Some(plan)) && {
                &&& strictly_increasing(plan.requested_ports@)
                &&& forall|x: u16| plan.requested_ports@.contains(x) <==> req@.contains(x)
                &&& opt_view(plan.network) == opt_view(network)
                &&& "tc-"@.is_prefix_of(plan.password@)
                &&& plan.password@.len() == 29
                &&& plan.ssh_username@ == "root"@
                &&& plan.ssh_port == 22
                &&& plan.ssh_max_attempts == 20
                &&& plan.ssh_retry_delay_ms == 100
                &&& plan.ssh_max_retry_delay_ms == 2000
                &&& plan.ssh_image@ == "testcontainers/sshd"@
                &&& plan.ssh_tag@ == "1.3.0"@
            },
        },
{
    let req = match requested {
        Some(p) => {
            if p.len() == 0 {
                return Ok(None);
            }
            p
        },
        None => {
            return Ok(None);
        },
    };
    let ghost asked = req@;
    let ports = with_exposed_host_ports(None, req);
    if contains_port(&ports, 0) {
        return Err(HostExposureError::ZeroPort);
    }
    if contains_port(&ports, SSH_PORT) {
        return Err(HostExposureError::SshPortReserved);
    }
    if hosts.contains_key(HOST_INTERNAL_ALIAS) {
        return Err(HostExposureError::AliasDefined);
    }
    match &network {
        Some(name) => {
            if str_eq(name.as_str(), "host") {
                return Err(HostExposureError::HostNetwork);
            }
            if starts_with(name.as_str(), "container:") {
                return Err(HostExposureError::ContainerNetwork);
            }
        },
        None => {},
    }
    match reuse {
        ReuseDirective::Never => {},
        _ => {
            return Err(HostExposureError::ReusableContainer);
        },
    }
    let suffix = ulid_now_base32();
    let password = concat_str("tc-", suffix.as_str());
    proof {
        reveal_strlit("tc-");
        assert("tc-"@ =~= password@.subrange(0, 3));
    }
    Ok(
        Some(
            HostExposurePlan {
                requested_ports: ports,
                password,
                network,
                ssh_username: "root",
                ssh_port: SSH_PORT,
                ssh_max_attempts: 20,
                ssh_retry_delay_ms: 100,
                ssh_max_retry_delay_ms: 2000,
                ssh_image: "testcontainers/sshd",
                ssh_tag: "1.3.0",
            },
        ),
    )
}

/// Progress of the attempts to reach the SSH sidecar.
#[derive(Debug, Clone, Copy, PartialEq, Eq, Structural)]
pub struct RetryState {
    /// Attempts retried so far.
    pub attempts: u32,
    /// How long to wait before the next attempt, in milliseconds.
    pub delay_ms: u64,
}

/// What to do after an attempt to connect failed.
#[derive(Debug, Clone, Copy, PartialEq, Eq, Structural)]
pub enum RetryAction {
    /// Wait this long, then try again.
    WaitThenRetry { wait_ms: u64 },
    /// Stop trying and report the failure.
    GiveUp,
}

/// The first state of the attempts of `plan`.
pub fn initial_retry_state(plan: &HostExposurePlan) -> (s: RetryState)
    ensures
        s == (RetryState { attempts: 0, delay_ms: plan.ssh_retry_delay_ms }),
{
    RetryState { attempts: 0, delay_ms: plan.ssh_retry_delay_ms }
}

/// The next state and action after a failed connection: retry after the current delay while
/// attempts remain, doubling the delay up to `max_delay_ms`; otherwise give up.
pub fn after_failed_connect(state: RetryState, max_attempts: u32, max_delay_ms: u64) -> (r: (
    RetryState,
    RetryAction,
))
    ensures
        state.attempts < max_attempts ==> r == (
            RetryState {
                attempts: (state.attempts + 1) as u32,
                delay_ms: (if 2 * state.delay_ms <= max_delay_ms {
                    2 * state.delay_ms
                } else {
                    max_delay_ms as int
                }) as u64,
            },
            RetryAction::WaitThenRetry { wait_ms: state.delay_ms },
        ),
        state.attempts >= max_attempts ==> r == (state, RetryAction::GiveUp),
{
    if state.attempts < max_attempts {
        let next_delay = if state.delay_ms > max_delay_ms / 2 {
            max_delay_ms
        } else {
            state.delay_ms * 2
        };
        (
            RetryState { attempts: state.attempts + 1, delay_ms: next_delay },
            RetryAction::WaitThenRetry { wait_ms: state.delay_ms },
        )
    } else {
        (state, RetryAction::GiveUp)
    }
}

/// Retrying never exceeds the attempt budget, and the waiting time never grows beyond the
/// larger of the first delay and the cap.
pub proof fn law_retry_bounded(
    state: RetryState,
    max_attempts: u32,
    max_delay_ms: u64,
    first_delay_ms: u64,
    next: (RetryState, RetryAction),
)
    requires
        state.attempts <= max_attempts,
        state.delay_ms <= first_delay_ms || state.delay_ms <= max_delay_ms,
        state.attempts < max_attempts ==> next == (
            RetryState {
                attempts: (state.attempts + 1) as u32,
                delay_ms: (if 2 * state.delay_ms <= max_delay_ms {
                    2 * state.delay_ms
                } else {
                    max_delay_ms as int
                }) as u64,
            },
            RetryAction::WaitThenRetry { wait_ms: state.delay_ms },
        ),
        state.attempts >= max_attempts ==> next == (state, RetryAction::GiveUp),
    ensures
        next.0.attempts <= max_attempts,
        next.0.delay_ms <= max_delay_ms || next.0.delay_ms <= first_delay_ms,
        next.1 is GiveUp <==> state.attempts == max_attempts,
{
}

} // verus!
