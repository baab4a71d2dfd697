//! Decisions over a container's life: what to wait for after executing a command, which
//! running container a reusable request finds, how the Docker host is reached from the
//! tests, and what happens when a container or a compose stack is dropped.
use vstd::prelude::*;

use crate::collections::StringKeyMap;
use crate::config::{url_scheme_of, ConfigurationError};
use crate::env::Command;
use crate::error::{ContainerMissingInfo, TestcontainersError};
use crate::mounts::opt_view;
use crate::request::ReuseDirective;
use crate::text::{concat_str, find_char, pairs_view, str_eq, strings_view, trim_range, trim_seq};
use crate::wait_for::CmdWaitFor;
use std::str::FromStr;
use std::time::Duration;

verus! {

/// What to do, after starting an executed command, to wait for its ready condition.
#[derive(Debug)]
pub enum ExecWaitStep {
    /// Wait until this message appears on the command's standard output.
    StdOutMessage(String),
    /// Wait until this message appears on the command's standard error.
    StdErrMessage(String),
    /// Wait until this message appears on either output stream.
    StdOutOrErrMessage(String),
    /// Inspect the command until it has exited.
    PollExitCode,
    /// Wait this long.
    Sleep(Duration),
    /// Nothing to wait for.
    Done,
}

impl ExecWaitStep {
    /// Whether the output stream that a frame came from (standard output, or else standard
    /// error) is searched for the message this step waits for.
    pub fn watches(&self, is_stdout: bool) -> (r: bool)
        ensures
            r == match *self {
                ExecWaitStep::StdOutMessage(_) => is_stdout,
                ExecWaitStep::StdErrMessage(_) => !is_stdout,
                ExecWaitStep::StdOutOrErrMessage(_) => true,
                _ => false,
            },
    {
        match self {
            ExecWaitStep::StdOutMessage(_) => is_stdout,
            ExecWaitStep::StdErrMessage(_) => !is_stdout,
            ExecWaitStep::StdOutOrErrMessage(_) => true,
            _ => false,
        }
    }
}

/// The first step of waiting for `condition`.
pub fn exec_wait_step(condition: &CmdWaitFor) -> (r: ExecWaitStep)
    ensures
        match *condition {
            CmdWaitFor::Nothing => r is Done,
            CmdWaitFor::StdOutMessage { message } => (r matches ExecWaitStep::StdOutMessage(m)
                && m@ == message@),
            CmdWaitFor::StdErrMessage { message } => (r matches ExecWaitStep::StdErrMessage(m)
                && m@ == message@),
            CmdWaitFor::StdOutOrErrMessage { message } => (r matches ExecWaitStep::StdOutOrErrMessage(
                m,
            ) && m@ == message@),
            CmdWaitFor::Duration { length } => r == ExecWaitStep::Sleep(length),
            CmdWaitFor::ExitCode { .. } => r is PollExitCode,
        },
{
    match condition {
        CmdWaitFor::Nothing => ExecWaitStep::Done,
        CmdWaitFor::StdOutMessage { message } => ExecWaitStep::StdOutMessage(message.clone()),
        CmdWaitFor::StdErrMessage { message } => ExecWaitStep::StdErrMessage(message.clone()),
        CmdWaitFor::StdOutOrErrMessage { message } => ExecWaitStep::StdOutOrErrMessage(message.clone()),
        CmdWaitFor::Duration { length } => ExecWaitStep::Sleep(length.clone()),
        CmdWaitFor::ExitCode { .. } => ExecWaitStep::PollExitCode,
    }
}

/// What an inspection of an executed command leads to.
#[derive(Debug, Clone, Copy, PartialEq, Eq, Structural)]
pub enum ExitCheck {
    /// The command has not exited yet: inspect it again after this many milliseconds.
    InspectAgainAfterMillis(u64),
    /// The command exited as expected.
    Exited,
    /// The command exited with another code than the expected one.
    Mismatch { expected: i64, actual: i64 },
}

/// The outcome of inspecting an executed command that must exit with `expected` (any code
/// where none is expected), where `exit_code` is what the inspection reported.
pub fn check_exit_code(expected: Option<i64>, exit_code: Option<i64>) -> (r: ExitCheck)
    ensures
        match exit_code {
            None => r == ExitCheck::InspectAgainAfterMillis(500),
            Some(actual) => match expected {
                Some(e) => if actual == e {
                    r == ExitCheck::Exited
                } else {
                    r == (ExitCheck::Mismatch { expected: e, actual })
                },
                None => r == ExitCheck::Exited,
            },
        },
{
    match exit_code {
        None => ExitCheck::InspectAgainAfterMillis(500),
        Some(actual) => match expected {
            Some(e) => if actual != e {
                ExitCheck::Mismatch { expected: e, actual }
            } else {
                ExitCheck::Exited
            },
            None => ExitCheck::Exited,
        },
    }
}

/// The code a ready condition expects a command to exit with, where it waits for an exit.
pub fn expected_exit_code(condition: &CmdWaitFor) -> (r: Option<i64>)
    ensures
        r == match *condition {
            CmdWaitFor::ExitCode { code } => Some(code),
            _ => None,
        },
{
    match condition {
        CmdWaitFor::ExitCode { code } => Some(*code),
        _ => None,
    }
}

/// The filters that find the running container a reusable request stands for: running,
/// with the request's name and network where it has them, and with all of its labels as
/// `key=value`.
pub open spec fn reuse_filters_view(
    name: Option<Seq<char>>,
    network: Option<Seq<char>>,
    labels: Seq<(Seq<char>, Seq<char>)>,
) -> Seq<(Seq<char>, Seq<Seq<char>>)> {
    let status = seq![("status"@, seq!["running"@])];
    let by_name = match name {
        Some(n) => seq![("name"@, seq![n])],
        None => Seq::empty(),
    };
    let by_network = match network {
        Some(n) => seq![("network"@, seq![n])],
        None => Seq::empty(),
    };
    let by_label = seq![
        ("label"@, labels.map_values(|p: (Seq<char>, Seq<char>)| p.0 + "="@ + p.1)),
    ];
    status + by_name + by_network + by_label
}

/// The views of filters.
pub open spec fn filters_view(v: Seq<(String, Vec<String>)>) -> Seq<(Seq<char>, Seq<Seq<char>>)> {
    v.map_values(|f: (String, Vec<String>)| (f.0@, strings_view(f.1@)))
}

fn single(value: &str) -> (r: Vec<String>)
    ensures
        strings_view(r@) == seq![value@],
{
    let mut r: Vec<String> = Vec::new();
    r.push(value.to_owned());
    assert(strings_view(r@) =~= seq![value@]);
    r
}

/// The filters that find the running container a reusable request stands for.
pub fn reuse_filters(name: Option<&str>, network: Option<&str>, labels: &StringKeyMap<String>) -> (r:
    Vec<(String, Vec<String>)>)
    ensures
        filters_view(r@) == reuse_filters_view(
            match name {
                Some(n) => Some(n@),
                None => None,
            },
            match network {
                Some(n) => Some(n@),
                None => None,
            },
            pairs_view(labels.entries_view()),
        ),
{
    let mut r: Vec<(String, Vec<String>)> = Vec::new();
    r.push(("status".to_owned(), single("running")));
    if let Some(n) = name {
        r.push(("name".to_owned(), single(n)));
    }
    if let Some(n) = network {
        r.push(("network".to_owned(), single(n)));
    }
    let entries = labels.entries();
    let ghost target = pairs_view(entries@).map_values(|p: (Seq<char>, Seq<char>)| p.0 + "="@ + p.1);
    let mut values: Vec<String> = Vec::new();
    let mut i: usize = 0;
    while i < entries.len()
        invariant
            i <= entries@.len(),
            values@.len() == i,
            target == pairs_view(entries@).map_values(|p: (Seq<char>, Seq<char>)| p.0 + "="@ + p.1),
            forall|j: int| 0 <= j < i ==> #[trigger] strings_view(values@)[j] == target[j],
        decreases entries.len() - i,
    {
        let mut v = concat_str(entries[i].0.as_str(), "=");
        v.append(entries[i].1.as_str());
        let ghost before = values@;
        values.push(v);
        proof {
            assert forall|j: int| 0 <= j < i + 1 implies #[trigger] strings_view(values@)[j] == target[j] by {
                if j < i {
                    assert(values@[j] == before[j]);
                    assert(strings_view(before)[j] == target[j]);
                }
            }
        }
        i = i + 1;
    }
    assert(strings_view(values@) =~= target);
    let ghost before_label = r@;
    r.push(("label".to_owned(), values));
    proof {
        let nv = match name {
            Some(n) => Some(n@),
            None => None,
        };
        let wv = match network {
            Some(n) => Some(n@),
            None => None,
        };
        assert(filters_view(before_label) =~= seq![("status"@, seq!["running"@])] + (match nv {
            Some(n) => seq![("name"@, seq![n])],
            None => Seq::empty(),
        }) + (match wv {
            Some(n) => seq![("network"@, seq![n])],
            None => Seq::empty(),
        }));
        assert(filters_view(r@) =~= reuse_filters_view(nv, wv, pairs_view(entries@)));
    }
    r
}

/// The creation time a listed container is ordered by: its own, or the earliest possible.
pub open spec fn created_key(c: (Option<i64>, Option<String>)) -> i64 {
    match c.0 {
        Some(t) => t,
        None => i64::MIN,
    }
}

/// `i` is the last of the most recently created containers of `cs`.
pub open spec fn is_last_most_recent(cs: Seq<(Option<i64>, Option<String>)>, i: int) -> bool {
    &&& 0 <= i < cs.len()
    &&& forall|j: int| 0 <= j < cs.len() ==> created_key(#[trigger] cs[j]) <= created_key(cs[i])
    &&& forall|j: int| i < j < cs.len() ==> created_key(#[trigger] cs[j]) < created_key(cs[i])
}

/// The id of the most recently created container of `containers` (each listed with its
/// creation time and id, either of which may be missing); of equally recent ones, the last.
pub fn most_recent_container_id(containers: &Vec<(Option<i64>, Option<String>)>) -> (r: Option<String>)
    ensures
        containers@.len() == 0 ==> r is None,
        containers@.len() > 0 ==> exists|i: int|
            #![trigger containers@[i]]
            is_last_most_recent(containers@, i) && opt_view(r) == opt_view(containers@[i].1),
{
    if containers.len() == 0 {
        return None;
    }
    let mut best: usize = 0;
    let mut i: usize = 1;
    while i < containers.len()
        invariant
            1 <= i <= containers@.len(),
            best < i,
            forall|j: int| 0 <= j < i ==> created_key(#[trigger] containers@[j]) <= created_key(
                containers@[best as int],
            ),
            forall|j: int| best < j < i ==> created_key(#[trigger] containers@[j]) < created_key(
                containers@[best as int],
            ),
        decreases containers.len() - i,
    {
        let key_i = match containers[i].0 {
            Some(t) => t,
            None => i64::MIN,
        };
        let key_best = match containers[best].0 {
            Some(t) => t,
            None => i64::MIN,
        };
        if key_i >= key_best {
            best = i;
        }
        i = i + 1;
    }
    assert(is_last_most_recent(containers@, best as int));
    match &containers[best].1 {
        Some(id) => Some(id.clone()),
        None => None,
    }
}

/// What is done when a started container is dropped.
#[derive(Debug, Clone, Copy, PartialEq, Eq, Structural)]
pub struct DropPlan {
    /// Shut the host port exposure of the container down.
    pub shut_down_exposure: bool,
    /// Remove the container.
    pub remove_container: bool,
}

/// What dropping a container does: a container marked for reuse that was not removed
/// explicitly is left as it is; otherwise its host port exposure is shut down, and it is
/// removed unless it was removed already or the command keeps containers.
pub fn container_drop_plan(dropped: bool, reuse: ReuseDirective, command: Command) -> (r: DropPlan)
    ensures
        !dropped && reuse != ReuseDirective::Never ==> r == (DropPlan {
            shut_down_exposure: false,
            remove_container: false,
        }),
        dropped || reuse == ReuseDirective::Never ==> r == (DropPlan {
            shut_down_exposure: true,
            remove_container: !dropped && command == Command::Remove,
        }),
{
    let reusable = match reuse {
        ReuseDirective::Never => false,
        ReuseDirective::Always => true,
        ReuseDirective::CurrentSession => true,
    };
    if !dropped && reusable {
        return DropPlan { shut_down_exposure: false, remove_container: false };
    }
    let remove = match command {
        Command::Remove => !dropped,
        Command::Keep => false,
    };
    DropPlan { shut_down_exposure: true, remove_container: remove }
}

/// Containers marked for reuse are never removed when they are dropped, nor are containers
/// kept by the command.
pub proof fn law_reused_and_kept_containers_survive_drop(
    dropped: bool,
    reuse: ReuseDirective,
    command: Command,
    plan: DropPlan,
)
    requires
        !dropped && reuse != ReuseDirective::Never ==> plan == (DropPlan {
            shut_down_exposure: false,
            remove_container: false,
        }),
        dropped || reuse == ReuseDirective::Never ==> plan == (DropPlan {
            shut_down_exposure: true,
            remove_container: !dropped && command == Command::Remove,
        }),
    ensures
        reuse != ReuseDirective::Never ==> !plan.remove_container,
        command == Command::Keep ==> !plan.remove_container,
        dropped ==> !plan.remove_container,
{
}

/// Whether dropping the client removes the networks it created for containers: only where
/// the command removes containers.
pub fn removes_created_networks(command: Command) -> (r: bool)
    ensures
        r == (command == Command::Remove),
{
    match command {
        Command::Remove => true,
        Command::Keep => false,
    }
}

/// Whether dropping a compose stack takes it down: only where it was not taken down
/// explicitly and the command, removing by default, removes containers.
pub fn compose_drop_takes_down(dropped: bool, command: Option<Command>) -> (r: bool)
    ensures
        r == (!dropped && match command {
            Some(c) => c == Command::Remove,
            None => true,
        }),
{
    if dropped {
        return false;
    }
    match command {
        Some(Command::Remove) => true,
        Some(Command::Keep) => false,
        None => true,
    }
}

/// The host of the URL that `text` parses to, as text; `None` where `text` is not a valid
/// URL or its URL has no host.
pub uninterp spec fn url_host_of(text: Seq<char>) -> Option<Seq<char>>;

/// The host of the URL `text`.
///
/// Calls `url::Url::from_str` and, where it succeeds, `Url::host_str`; the result is named by
/// [`url_host_of`].
#[verifier::external_body]
fn url_host(text: &str) -> (r: Option<String>)
    ensures
        opt_view(r) == url_host_of(text@),
{
    match url::Url::from_str(text) {
        Ok(url) => match url.host_str() {
            Some(host) => Some(host.to_owned()),
            None => None,
        },
        Err(_) => None,
    }
}

/// The message of the error that `url::Url::from_str` reports for `text`; `None` where `text`
/// is a valid URL.
pub uninterp spec fn url_parse_error_of(text: Seq<char>) -> Option<Seq<char>>;

/// Why `text` is not a valid URL, as text; `None` where it is one.
///
/// Calls `url::Url::from_str` and, where it fails, writes the error with its `Display`; the
/// result is named by [`url_parse_error_of`]. The same parse gives the scheme that
/// [`url_scheme_of`] names, so the error comes exactly where there is no scheme.
#[verifier::external_body]
fn url_parse_error(text: &str) -> (r: Option<String>)
    ensures
        opt_view(r) == url_parse_error_of(text@),
        r is None <==> url_scheme_of(text@) is Some,
{
    match url::Url::from_str(text) {
        Ok(_) => None,
        Err(err) => Some(err.to_string()),
    }
}

/// What `url::Host::parse` makes of `text`: the host it parses to, as text; `None` where
/// `text` is not a valid host.
pub uninterp spec fn host_parse_of(text: Seq<char>) -> Option<Seq<char>>;

/// The host `text` parses to, as text.
///
/// Calls `url::Host::parse` and, where it succeeds, turns the host into text; the result is
/// named by [`host_parse_of`].
#[verifier::external_body]
fn parse_host(text: &str) -> (r: Option<String>)
    ensures
        opt_view(r) == host_parse_of(text@),
{
    match url::Host::parse(text) {
        Ok(host) => Some(host.to_string()),
        Err(_) => None,
    }
}

/// The schemes a Docker host is reached by.
pub open spec fn known_scheme(scheme: Seq<char>) -> bool {
    scheme == "tcp"@ || scheme == "http"@ || scheme == "https"@ || scheme == "unix"@ || scheme
        == "npipe"@
}

/// The host name under which the ports of containers are reached, for the Docker host
/// `docker_host`: the URL's host for a remote daemon; for a local socket or pipe, the bridge
/// network's gateway when the tests run inside a container (and the gateway is known and
/// not blank), else `localhost`. A Docker host that is no URL is refused with the parser's
/// message; a remote one without a host, and a gateway that is no host, with their text.
pub open spec fn docker_hostname_view(
    docker_host: Seq<char>,
    in_container: bool,
    bridge_gateway: Option<Seq<char>>,
) -> Result<Seq<char>, Seq<char>> {
    match url_scheme_of(docker_host) {
        None => Err(
            match url_parse_error_of(docker_host) {
                Some(message) => message,
                None => docker_host,
            },
        ),
        Some(scheme) => if scheme == "tcp"@ || scheme == "http"@ || scheme == "https"@ {
            match url_host_of(docker_host) {
                Some(h) => Ok(h),
                None => Err(docker_host),
            }
        } else if in_container {
            let host = match bridge_gateway {
                Some(g) => if trim_seq(g).len() > 0 {
                    g
                } else {
                    "localhost"@
                },
                None => "localhost"@,
            };
            match host_parse_of(host) {
                Some(h) => Ok(h),
                None => Err(host),
            }
        } else {
            Ok("localhost"@)
        },
    }
}

/// The host name under which the ports of containers are reached.
///
/// `in_container` tells whether the tests run inside a container, and `bridge_gateway` is
/// the gateway of Docker's bridge network, where it is known. The Docker host's scheme must
/// be one of those the client connects by; [`try_docker_hostname`] checks it.
pub fn docker_hostname(docker_host: &str, in_container: bool, bridge_gateway: Option<String>) -> (r:
    Result<String, ConfigurationError>)
    requires
        url_scheme_of(docker_host@) matches Some(s) ==> known_scheme(s),
    ensures
        match docker_hostname_view(docker_host@, in_container, opt_view(bridge_gateway)) {
            Ok(h) => (r matches Ok(v) && v@ == h),
            Err(e) => (r matches Err(ConfigurationError::InvalidDockerHost(v)) && v@ == e),
        },
{
    let scheme = match crate::config::url_scheme(docker_host) {
        Some(s) => s,
        None => {
            let message = match url_parse_error(docker_host) {
                Some(m) => m,
                None => docker_host.to_owned(),
            };
            return Err(ConfigurationError::InvalidDockerHost(message));
        },
    };
    if str_eq(scheme.as_str(), "tcp") || str_eq(scheme.as_str(), "http") || str_eq(
        scheme.as_str(),
        "https",
    ) {
        match url_host(docker_host) {
            Some(h) => Ok(h),
            None => Err(ConfigurationError::InvalidDockerHost(docker_host.to_owned())),
        }
    } else if in_container {
        let host = match bridge_gateway {
            Some(g) => {
                let n = g.as_str().unicode_len();
                proof {
                    assert(g@.subrange(0, n as int) =~= g@);
                }
                let (lo, hi) = trim_range(g.as_str(), 0, n);
                if hi > lo {
                    g
                } else {
                    "localhost".to_owned()
                }
            },
            None => "localhost".to_owned(),
        };
        match parse_host(host.as_str()) {
            Some(h) => Ok(h),
            None => Err(ConfigurationError::InvalidDockerHost(host)),
        }
    } else {
        Ok("localhost".to_owned())
    }
}

/// As [`docker_hostname`], where the Docker host's scheme is one the client connects by;
/// `None` otherwise.
pub fn try_docker_hostname(docker_host: &str, in_container: bool, bridge_gateway: Option<String>) -> (r:
    Option<Result<String, ConfigurationError>>)
    ensures
        (url_scheme_of(docker_host@) matches Some(s) && !known_scheme(s)) <==> r is None,
        r matches Some(res) ==> match docker_hostname_view(
            docker_host@,
            in_container,
            opt_view(bridge_gateway),
        ) {
            Ok(h) => (res matches Ok(v) && v@ == h),
            Err(e) => (res matches Err(ConfigurationError::InvalidDockerHost(v)) && v@ == e),
        },
{
    match crate::config::url_scheme(docker_host) {
        Some(s) => {
            let known = str_eq(s.as_str(), "tcp") || str_eq(s.as_str(), "http") || str_eq(
                s.as_str(),
                "https",
            ) || str_eq(s.as_str(), "unix") || str_eq(s.as_str(), "npipe");
            if !known {
                return None;
            }
        },
        None => {},
    }
    Some(docker_hostname(docker_host, in_container, bridge_gateway))
}

/// The health a container reports; `Unset` is Docker's `none`.
#[derive(Debug, Clone, Copy, PartialEq, Eq, Structural)]
pub enum HealthStatus {
    Empty,
    Unset,
    Starting,
    Healthy,
    Unhealthy,
}

/// What a health report of a container that is waited for leads to.
#[derive(Debug, Clone, Copy, PartialEq, Eq, Structural)]
pub enum HealthCheck {
    /// The container is healthy: it is ready.
    Ready,
    /// The health check is still starting: inspect the container again after this many
    /// milliseconds.
    InspectAgainAfterMillis(u64),
    /// The container is unhealthy.
    Unhealthy,
    /// The container has no health check.
    NotConfigured,
}

/// The outcome of a health report: healthy is ready, starting is inspected again after
/// 100 ms, unhealthy fails, and a missing or empty status means no health check is set.
pub fn check_health(status: Option<HealthStatus>) -> (r: HealthCheck)
    ensures
        r == match status {
            Some(HealthStatus::Healthy) => HealthCheck::Ready,
            Some(HealthStatus::Starting) => HealthCheck::InspectAgainAfterMillis(100),
            Some(HealthStatus::Unhealthy) => HealthCheck::Unhealthy,
            _ => HealthCheck::NotConfigured,
        },
{
    match status {
        Some(HealthStatus::Healthy) => HealthCheck::Ready,
        Some(HealthStatus::Starting) => HealthCheck::InspectAgainAfterMillis(100),
        Some(HealthStatus::Unhealthy) => HealthCheck::Unhealthy,
        _ => HealthCheck::NotConfigured,
    }
}

/// The platform an image is pulled for: the requested one, else the configured one, else
/// none (the empty text).
pub fn pull_platform(requested: Option<&str>, configured: Option<&str>) -> (r: String)
    ensures
        r@ == match requested {
            Some(p) => p@,
            None => match configured {
                Some(c) => c@,
                None => Seq::empty(),
            },
        },
{
    match requested {
        Some(p) => p.to_owned(),
        None => match configured {
            Some(c) => c.to_owned(),
            None => String::new(),
        },
    }
}

/// Whether a pull that the registry refused is retried for `linux/amd64`: unless that was
/// the platform asked for.
pub fn retry_pull_for_linux_amd64(requested: Option<&str>) -> (r: bool)
    ensures
        r == !(requested matches Some(p) && p@ == "linux/amd64"@),
{
    match requested {
        Some(p) => !str_eq(p, "linux/amd64"),
        None => true,
    }
}

/// The registry server of an image descriptor: what comes before its first `/`; `None`
/// where it has no `/`.
pub fn registry_server(descriptor: &str) -> (r: Option<String>)
    ensures
        match descriptor@.index_of_first('/') {
            Some(i) => (r matches Some(s) && s@ == descriptor@.subrange(0, i)),
            None => r is None,
        },
{
    let n = descriptor.unicode_len();
    proof {
        assert(descriptor@.subrange(0, n as int) =~= descriptor@);
    }
    match find_char(descriptor, '/', 0, n) {
        Some(i) => Some(descriptor.substring_char(0, i).to_owned()),
        None => None,
    }
}

/// Whether the `KEEP_CONTAINERS` value keeps dropped containers (stopping them) rather
/// than removing them: only `true` does; anything else, or no value, removes them.
pub fn keeps_containers(value: Option<&str>) -> (r: bool)
    ensures
        r == (value matches Some(v) && v@ == "true"@),
{
    match value {
        Some(v) => str_eq(v, "true"),
        None => false,
    }
}

/// What inspecting a container reported of its networks: the host configuration with its
/// network mode, and the network settings with the address on each network.
#[derive(Debug)]
pub struct InspectedNetworks {
    /// `HostConfig`, with its `NetworkMode` where it has one.
    pub host_config: Option<Option<String>>,
    /// `NetworkSettings`, with its `Networks` (each network's name and `IPAddress`) where it
    /// has them.
    pub network_settings: Option<Option<Vec<(String, Option<String>)>>>,
}

/// The network a container runs in, as the first inspection of it reports it.
pub fn network_mode_of(id: &str, inspected: &InspectedNetworks) -> (r: Result<String, TestcontainersError>)
    ensures
        match inspected.host_config {
            None => (r matches Err(TestcontainersError::MissingInfo(m)) && m@ == (id@, "HostConfig"@)),
            Some(None) => (r matches Err(TestcontainersError::MissingInfo(m)) && m@ == (
                id@,
                "HostConfig.NetworkMode"@,
            )),
            Some(Some(mode)) => (r matches Ok(v) && v@ == mode@),
        },
{
    match &inspected.host_config {
        None => Err(TestcontainersError::MissingInfo(ContainerMissingInfo::new(id, "HostConfig"))),
        Some(None) => Err(
            TestcontainersError::MissingInfo(ContainerMissingInfo::new(id, "HostConfig.NetworkMode")),
        ),
        Some(Some(mode)) => Ok(mode.clone()),
    }
}

/// The address of the first of `networks` named `name`, if it has one.
pub open spec fn network_address(networks: Seq<(String, Option<String>)>, name: Seq<char>) -> Option<
    Seq<char>,
>
    decreases networks.len(),
{
    if networks.len() == 0 {
        None
    } else if networks[0].0@ == name {
        opt_view(networks[0].1)
    } else {
        network_address(networks.drop_first(), name)
    }
}

fn find_network_address(networks: &Vec<(String, Option<String>)>, name: &str) -> (r: Option<String>)
    ensures
        opt_view(r) == network_address(networks@, name@),
{
    let mut i: usize = 0;
    assert(networks@.skip(0) =~= networks@);
    while i < networks.len()
        invariant
            i <= networks@.len(),
            network_address(networks@.skip(i as int), name@) == network_address(networks@, name@),
        decreases networks.len() - i,
    {
        assert(networks@.skip(i as int)[0] == networks@[i as int]);
        if str_eq(networks[i].0.as_str(), name) {
            return match &networks[i].1 {
                Some(ip) => Some(ip.clone()),
                None => None,
            };
        }
        assert(networks@.skip(i as int).drop_first() =~= networks@.skip(i + 1));
        i = i + 1;
    }
    assert(networks@.skip(i as int) =~= Seq::<(String, Option<String>)>::empty());
    None
}

/// The bridge address of a container, as text: its address on the network `network_mode`
/// runs it in, which must be a network with a driver, as the container's inspection reports
/// it. The caller reads the text as an IP address.
pub fn bridge_ip_address(
    id: &str,
    network_mode: &str,
    network_driver: Option<String>,
    inspected: &InspectedNetworks,
) -> (r: Result<String, TestcontainersError>)
    ensures
        network_driver is None ==> (r matches Err(TestcontainersError::Other(m)) && m@ == "network "@
            + network_mode@ + " is not in bridge mode"@),
        network_driver is Some ==> match inspected.network_settings {
            None => (r matches Err(TestcontainersError::MissingInfo(m)) && m@ == (
                id@,
                "NetworkSettings"@,
            )),
            Some(None) => (r matches Err(TestcontainersError::MissingInfo(m)) && m@ == (
                id@,
                "NetworkSettings.Networks"@,
            )),
            Some(Some(networks)) => match network_address(networks@, network_mode@) {
                None => (r matches Err(TestcontainersError::MissingInfo(m)) && m@ == (
                    id@,
                    "NetworkSettings.Networks.IpAddress"@,
                )),
                Some(ip) => (r matches Ok(v) && v@ == ip),
            },
        },
{
    if network_driver.is_none() {
        let mut message = concat_str("network ", network_mode);
        message.append(" is not in bridge mode");
        return Err(TestcontainersError::Other(message));
    }
    let networks = match &inspected.network_settings {
        None => {
            return Err(
                TestcontainersError::MissingInfo(ContainerMissingInfo::new(id, "NetworkSettings")),
            )
        },
        Some(None) => {
            return Err(
                TestcontainersError::MissingInfo(
                    ContainerMissingInfo::new(id, "NetworkSettings.Networks"),
                ),
            )
        },
        Some(Some(n)) => n,
    };
    let ip = match find_network_address(networks, network_mode) {
        Some(ip) => ip,
        None => {
            return Err(
                TestcontainersError::MissingInfo(
                    ContainerMissingInfo::new(id, "NetworkSettings.Networks.IpAddress"),
                ),
            )
        },
    };
    Ok(ip)
}

/// A Docker host reached over the network (`tcp`, `http` or `https`) is reached under its
/// own host name, wherever the tests run: neither running inside a container nor the bridge
/// gateway changes it.
pub proof fn law_remote_docker_host_is_reached_by_its_host(
    docker_host: Seq<char>,
    in_container: bool,
    bridge_gateway: Option<Seq<char>>,
    scheme: Seq<char>,
    host: Seq<char>,
)
    requires
        url_scheme_of(docker_host) == Some(scheme),
        scheme == "tcp"@ || scheme == "http"@ || scheme == "https"@,
        url_host_of(docker_host) == Some(host),
    ensures
        docker_hostname_view(docker_host, in_container, bridge_gateway) == Ok::<
            Seq<char>,
            Seq<char>,
        >(host),
        docker_hostname_view(docker_host, in_container, bridge_gateway) == docker_hostname_view(
            docker_host,
            false,
            None,
        ),
{
}

} // verus!
