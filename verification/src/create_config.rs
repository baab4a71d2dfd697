//! The configuration a container is created with, as the Docker API takes it, derived from a
//! container request: image, name, environment, entrypoint, command, exposed and published
//! ports, and mounts.
use vstd::prelude::*;

use crate::collections::{entries_map, keys_sorted, keys_unique};
use crate::container_request::{ContainerRequest, Image, request_descriptor};
use crate::mounts::{mounts_view, opt_view, Mount};
use crate::request::{ContainerPort, PortMapping};
use crate::text::{append_decimal, concat_str, decimal, pairs_view, strings_view};

verus! {

/// A host binding of a published port.
#[derive(Debug, Clone, PartialEq, Eq)]
pub struct PortBinding {
    pub host_ip: Option<String>,
    pub host_port: Option<String>,
}

/// The configuration a container is created with.
#[derive(Debug)]
pub struct ContainerCreateConfig {
    /// The image descriptor, `name:tag`.
    pub image: String,
    /// The container name.
    pub name: Option<String>,
    /// The shared memory size in bytes.
    pub shm_size: Option<i64>,
    /// The network the container is connected to.
    pub network_mode: Option<String>,
    /// The environment, as `name=value` entries.
    pub env: Vec<String>,
    /// The entrypoint.
    pub entrypoint: Option<Vec<String>>,
    /// The exposed ports, as `port/protocol` keys.
    pub exposed_ports: Vec<String>,
    /// The host bindings of each published port, by `port/protocol` key; a later entry for
    /// the same key replaces an earlier one.
    pub port_bindings: Option<Vec<(String, Vec<PortBinding>)>>,
    /// Whether every exposed port is published on a random host port.
    pub publish_all_ports: Option<bool>,
    /// The command.
    pub cmd: Option<Vec<String>>,
    /// The mounts: the image's, then those of the request.
    pub mounts: Vec<Mount>,
}

/// The protocol of a port.
pub open spec fn protocol_name(p: ContainerPort) -> Seq<char> {
    match p {
        ContainerPort::Tcp(_) => "tcp"@,
        ContainerPort::Udp(_) => "udp"@,
        ContainerPort::Sctp(_) => "sctp"@,
    }
}

/// The number of a port.
pub open spec fn port_number(p: ContainerPort) -> u16 {
    match p {
        ContainerPort::Tcp(n) => n,
        ContainerPort::Udp(n) => n,
        ContainerPort::Sctp(n) => n,
    }
}

/// The key Docker knows a port by: `port/protocol`.
pub open spec fn port_key(p: ContainerPort) -> Seq<char> {
    decimal(port_number(p) as nat) + "/"@ + protocol_name(p)
}

/// The key of a port.
pub fn port_key_text(p: ContainerPort) -> (r: String)
    ensures
        r@ == port_key(p),
{
    let (n, proto) = match p {
        ContainerPort::Tcp(n) => (n, "tcp"),
        ContainerPort::Udp(n) => (n, "udp"),
        ContainerPort::Sctp(n) => (n, "sctp"),
    };
    let mut r = String::new();
    append_decimal(&mut r, n as u64);
    r.append("/");
    r.append(proto);
    assert(r@ =~= port_key(p));
    r
}

/// The view of a host binding.
pub open spec fn binding_view(b: PortBinding) -> (Option<Seq<char>>, Option<Seq<char>>) {
    (opt_view(b.host_ip), opt_view(b.host_port))
}

/// The bindings a request publishes: each mapped port on `127.0.0.1` at its host port, then
/// each exposed port with a default binding, which Docker publishes on a random port.
pub open spec fn requested_bindings(
    mapped: Seq<(u16, ContainerPort)>,
    exposed: Seq<ContainerPort>,
) -> Seq<(Seq<char>, Seq<(Option<Seq<char>>, Option<Seq<char>>)>)> {
    mapped.map_values(
        |m: (u16, ContainerPort)|
            (port_key(m.1), seq![(Some("127.0.0.1"@), Some(decimal(m.0 as nat)))]),
    ) + exposed.map_values(
        |p: ContainerPort| (port_key(p), seq![(None::<Seq<char>>, None::<Seq<char>>)]),
    )
}

/// The view of the bindings of a configuration.
pub open spec fn bindings_view(v: Seq<(String, Vec<PortBinding>)>) -> Seq<
    (Seq<char>, Seq<(Option<Seq<char>>, Option<Seq<char>>)>),
> {
    v.map_values(|e: (String, Vec<PortBinding>)| (e.0@, e.1@.map_values(|b: PortBinding| binding_view(b))))
}

/// `name=value` for each environment variable, in order.
pub open spec fn env_entries(env: Seq<(Seq<char>, Seq<char>)>) -> Seq<Seq<char>> {
    env.map_values(|p: (Seq<char>, Seq<char>)| p.0 + "="@ + p.1)
}

fn mapping_bindings(ports: &Vec<PortMapping>) -> (r: Vec<(String, Vec<PortBinding>)>)
    ensures
        bindings_view(r@) == requested_bindings(
            ports@.map_values(|p: PortMapping| p@),
            Seq::empty(),
        ),
{
    let ghost target = requested_bindings(ports@.map_values(|p: PortMapping| p@), Seq::empty());
    let mut r: Vec<(String, Vec<PortBinding>)> = Vec::new();
    let mut i: usize = 0;
    while i < ports.len()
        invariant
            i <= ports@.len(),
            r@.len() == i,
            target == requested_bindings(ports@.map_values(|p: PortMapping| p@), Seq::empty()),
            forall|j: int| 0 <= j < i ==> #[trigger] bindings_view(r@)[j] == target[j],
        decreases ports.len() - i,
    {
        let key = port_key_text(ports[i].container_port());
        let mut host_port = String::new();
        append_decimal(&mut host_port, ports[i].host_port() as u64);
        let mut bindings: Vec<PortBinding> = Vec::new();
        bindings.push(PortBinding { host_ip: Some("127.0.0.1".to_owned()), host_port: Some(host_port) });
        let ghost before = r@;
        r.push((key, bindings));
        proof {
            assert(bindings_view(r@)[i as int].1 =~= target[i as int].1);
            assert forall|j: int| 0 <= j < i + 1 implies #[trigger] bindings_view(r@)[j] == target[j] by {
                if j < i {
                    assert(r@[j] == before[j]);
                    assert(bindings_view(before)[j] == target[j]);
                }
            }
        }
        i = i + 1;
    }
    assert(bindings_view(r@) =~= target);
    r
}

fn push_exposed_bindings(r: &mut Vec<(String, Vec<PortBinding>)>, exposed: &Vec<ContainerPort>)
    ensures
        bindings_view(final(r)@) == bindings_view(old(r)@) + requested_bindings(Seq::empty(), exposed@),
{
    let ghost start = bindings_view(r@);
    let ghost target = requested_bindings(Seq::empty(), exposed@);
    let ghost n = r@.len();
    let mut i: usize = 0;
    while i < exposed.len()
        invariant
            i <= exposed@.len(),
            r@.len() == n + i,
            n == start.len(),
            target == requested_bindings(Seq::empty(), exposed@),
            forall|j: int| 0 <= j < n ==> #[trigger] bindings_view(r@)[j] == start[j],
            forall|j: int| 0 <= j < i ==> #[trigger] bindings_view(r@)[n + j] == target[j],
        decreases exposed.len() - i,
    {
        let key = port_key_text(exposed[i]);
        let mut bindings: Vec<PortBinding> = Vec::new();
        bindings.push(PortBinding { host_ip: None, host_port: None });
        let ghost before = r@;
        r.push((key, bindings));
        proof {
            assert(target[i as int] == (port_key(exposed@[i as int]), seq![(None::<Seq<char>>, None::<Seq<char>>)]));
            assert(bindings_view(r@)[n + i].1 =~= target[i as int].1);
            assert forall|j: int| 0 <= j < n implies #[trigger] bindings_view(r@)[j] == start[j] by {
                assert(r@[j] == before[j]);
                assert(bindings_view(before)[j] == start[j]);
            }
            assert forall|j: int| 0 <= j < i + 1 implies #[trigger] bindings_view(r@)[n + j] == target[j] by {
                if j < i {
                    assert(r@[n + j] == before[n + j]);
                    assert(bindings_view(before)[n + j] == target[j]);
                }
            }
        }
        i = i + 1;
    }
    assert forall|k: int| 0 <= k < bindings_view(r@).len() implies #[trigger] bindings_view(r@)[k]
        == (start + target)[k] by {
        if k >= n {
            let j = k - n;
            assert(bindings_view(r@)[n + j] == target[j]);
        }
    }
    assert(bindings_view(r@) =~= start + target);
}

fn env_strings(env: &Vec<(String, String)>) -> (r: Vec<String>)
    ensures
        strings_view(r@) == env_entries(pairs_view(env@)),
{
    let ghost target = env_entries(pairs_view(env@));
    let mut r: Vec<String> = Vec::new();
    let mut i: usize = 0;
    while i < env.len()
        invariant
            i <= env@.len(),
            r@.len() == i,
            target == env_entries(pairs_view(env@)),
            forall|j: int| 0 <= j < i ==> #[trigger] strings_view(r@)[j] == target[j],
        decreases env.len() - i,
    {
        let mut entry = concat_str(env[i].0.as_str(), "=");
        entry.append(env[i].1.as_str());
        let ghost before = r@;
        r.push(entry);
        proof {
            assert forall|j: int| 0 <= j < i + 1 implies #[trigger] strings_view(r@)[j] == target[j] by {
                if j < i {
                    assert(r@[j] == before[j]);
                    assert(strings_view(before)[j] == target[j]);
                }
            }
        }
        i = i + 1;
    }
    assert(strings_view(r@) =~= target);
    r
}

fn port_keys(ports: &Vec<ContainerPort>) -> (r: Vec<String>)
    ensures
        strings_view(r@) == ports@.map_values(|p: ContainerPort| port_key(p)),
{
    let ghost target = ports@.map_values(|p: ContainerPort| port_key(p));
    let mut r: Vec<String> = Vec::new();
    let mut i: usize = 0;
    while i < ports.len()
        invariant
            i <= ports@.len(),
            r@.len() == i,
            target == ports@.map_values(|p: ContainerPort| port_key(p)),
            forall|j: int| 0 <= j < i ==> #[trigger] strings_view(r@)[j] == target[j],
        decreases ports.len() - i,
    {
        let key = port_key_text(ports[i]);
        let ghost before = r@;
        r.push(key);
        proof {
            assert forall|j: int| 0 <= j < i + 1 implies #[trigger] strings_view(r@)[j] == target[j] by {
                if j < i {
                    assert(r@[j] == before[j]);
                    assert(strings_view(before)[j] == target[j]);
                }
            }
        }
        i = i + 1;
    }
    assert(strings_view(r@) =~= target);
    r
}

/// The mapped ports of a request, or none.
pub open spec fn mapped_ports(ports: Option<Seq<(u16, ContainerPort)>>) -> Seq<(u16, ContainerPort)> {
    match ports {
        Some(p) => p,
        None => Seq::empty(),
    }
}

/// The configuration a container of `request` is created with.
///
/// Ports are published as the request asks: where it maps ports or its image exposes some,
/// the mapped ports are bound on `127.0.0.1` at their host ports and the exposed ones at
/// random host ports; otherwise every port the container exposes is published.
pub fn create_config<I: Image>(request: &ContainerRequest<I>) -> (r: ContainerCreateConfig)
    ensures
        r.image@ == request_descriptor(request@),
        opt_view(r.name) == request@.container_name,
        r.shm_size == match request@.shm_size {
            Some(b) => Some(b as i64),
            None => None,
        },
        opt_view(r.network_mode) == request@.network,
        exists|e: Seq<(String, String)>|
            #![trigger env_entries(pairs_view(e))]
            {
                &&& strings_view(r.env@) == env_entries(pairs_view(e))
                &&& e.len() >= request@.image.env_vars_view().len()
                &&& pairs_view(e).take(request@.image.env_vars_view().len() as int)
                    == request@.image.env_vars_view()
                &&& keys_sorted(e.skip(request@.image.env_vars_view().len() as int))
                &&& keys_unique(e.skip(request@.image.env_vars_view().len() as int))
                &&& entries_map(e.skip(request@.image.env_vars_view().len() as int))
                    == request@.env_vars
            },
        strings_view(r.exposed_ports@) == request@.image.expose_ports_view().map_values(
            |p: ContainerPort| port_key(p),
        ),
        match request@.image.entrypoint_view() {
            Some(e) => (r.entrypoint matches Some(v) && strings_view(v@) == seq![e]),
            None => r.entrypoint is None,
        },
        (request@.ports is Some || request@.image.expose_ports_view().len() > 0) ==> {
            &&& r.port_bindings matches Some(b) && bindings_view(b@) == requested_bindings(
                mapped_ports(request@.ports),
                request@.image.expose_ports_view(),
            )
            &&& r.publish_all_ports is None
        },
        !(request@.ports is Some || request@.image.expose_ports_view().len() > 0) ==> {
            &&& r.port_bindings is None
            &&& r.publish_all_ports == Some(true)
        },
        ({
            let cmd = if request@.overridden_cmd.len() > 0 {
                request@.overridden_cmd
            } else {
                request@.image.cmd_view()
            };
            &&& cmd.len() > 0 ==> (r.cmd matches Some(c) && strings_view(c@) == cmd)
            &&& cmd.len() == 0 ==> r.cmd is None
        }),
        mounts_view(r.mounts@) == request@.image.mounts_view() + request@.mounts,
{
    let image = request.descriptor();
    let name = match request.container_name() {
        Some(n) => Some(n.clone()),
        None => None,
    };
    let shm_size = match request.shm_size() {
        Some(b) => Some(b as i64),
        None => None,
    };
    let network_mode = match request.network() {
        Some(n) => Some(n.clone()),
        None => None,
    };
    let env_pairs = request.env_vars();
    let env = env_strings(&env_pairs);
    assert(pairs_view(env_pairs@).take(request@.image.env_vars_view().len() as int)
        == request@.image.env_vars_view());
    let entrypoint = match request.entrypoint() {
        Some(e) => {
            let ghost ev = e@;
            let mut v: Vec<String> = Vec::new();
            v.push(e);
            assert(strings_view(v@) =~= seq![ev]);
            Some(v)
        },
        None => None,
    };
    let exposed = request.expose_ports();
    let exposed_ports = port_keys(&exposed);
    let (port_bindings, publish_all_ports) = if request.ports().is_some() || exposed.len() > 0 {
        let mut bindings = match request.ports() {
            Some(p) => mapping_bindings(p),
            None => {
                let v: Vec<(String, Vec<PortBinding>)> = Vec::new();
                assert(bindings_view(v@) =~= requested_bindings(Seq::empty(), Seq::empty()));
                v
            },
        };
        push_exposed_bindings(&mut bindings, &exposed);
        proof {
            let mapped = mapped_ports(request@.ports);
            assert(requested_bindings(mapped, exposed@) =~= requested_bindings(mapped, Seq::empty())
                + requested_bindings(Seq::empty(), exposed@));
        }
        (Some(bindings), None)
    } else {
        (None, Some(true))
    };
    let args = request.cmd();
    let cmd = if args.len() > 0 {
        Some(args)
    } else {
        None
    };
    ContainerCreateConfig {
        image,
        name,
        shm_size,
        network_mode,
        env,
        entrypoint,
        exposed_ports,
        port_bindings,
        publish_all_ports,
        cmd,
        mounts: request.mounts(),
    }
}

} // verus!
