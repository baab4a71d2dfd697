//! Settings of a container request: port mappings, extra hosts, cgroup namespace mode,
//! reuse directive, and the host ports to be made reachable from the container.
use vstd::prelude::*;

use crate::text::concat_str;

verus! {

/// A port of a container, with its protocol.
#[derive(Debug, Copy, Clone, PartialEq, Eq, Structural)]
pub enum ContainerPort {
    Tcp(u16),
    Udp(u16),
    Sctp(u16),
}

impl ContainerPort {
    /// The port number.
    pub fn as_u16(&self) -> (r: u16)
        ensures
            r == match *self {
                ContainerPort::Tcp(p) => p,
                ContainerPort::Udp(p) => p,
                ContainerPort::Sctp(p) => p,
            },
    {
        match self {
            ContainerPort::Tcp(p) => *p,
            ContainerPort::Udp(p) => *p,
            ContainerPort::Sctp(p) => *p,
        }
    }
}

/// Represents a port mapping between a host's external port and the internal port of a container.
#[derive(Debug, Copy, Clone, PartialEq, Eq, Structural)]
pub struct PortMapping {
    host_port: u16,
    container_port: ContainerPort,
}

impl View for PortMapping {
    type V = (u16, ContainerPort);

    closed spec fn view(&self) -> (u16, ContainerPort) {
        (self.host_port, self.container_port)
    }
}

impl PortMapping {
    /// Maps host port `local` to the container port `internal`.
    pub fn new(local: u16, internal: ContainerPort) -> (m: Self)
        ensures
            m@ == (local, internal),
    {
        PortMapping { host_port: local, container_port: internal }
    }

    /// The port on the host.
    pub fn host_port(&self) -> (r: u16)
        ensures
            r == self@.0,
    {
        self.host_port
    }

    /// The port inside the container.
    pub fn container_port(&self) -> (r: ContainerPort)
        ensures
            r == self@.1,
    {
        self.container_port
    }
}

/// What an extra host entry of a container resolves to.
#[derive(Debug, Clone)]
pub enum Host {
    /// An IP address, in its textual form.
    Addr(String),
    /// The special `host-gateway` value, the host's address as seen from the container.
    HostGateway,
    /// A host name.
    Hostname(String),
}

impl Host {
    /// The value Docker is given for this host (`"host-gateway"` for the gateway).
    pub fn to_text(&self) -> (r: String)
        ensures
            r@ == match *self {
                Host::Addr(a) => a@,
                Host::HostGateway => "host-gateway"@,
                Host::Hostname(h) => h@,
            },
    {
        match self {
            Host::Addr(a) => a.clone(),
            Host::HostGateway => "host-gateway".to_owned(),
            Host::Hostname(h) => h.clone(),
        }
    }
}

/// The cgroup namespace a container runs in.
#[derive(Debug, Clone, Copy, PartialEq, Eq, Structural)]
pub enum CgroupnsMode {
    /// Use the host system's cgroup namespace
    Host,
    /// Private cgroup namespace
    Private,
}

/// Whether a started container is kept and reused by later requests with the same configuration.
#[derive(Debug, Clone, Copy, PartialEq, Eq, Structural)]
pub enum ReuseDirective {
    Never,
    Always,
    CurrentSession,
}

impl Default for ReuseDirective {
    fn default() -> (r: Self)
        ensures
            r == ReuseDirective::Never,
    {
        ReuseDirective::Never
    }
}

impl ReuseDirective {
    /// The name of the directive (`never`, `always`, `current-session`).
    pub fn as_str(&self) -> (r: &'static str)
        ensures
            r@ == match *self {
                ReuseDirective::Never => "never"@,
                ReuseDirective::Always => "always"@,
                ReuseDirective::CurrentSession => "current-session"@,
            },
    {
        match self {
            ReuseDirective::Never => "never",
            ReuseDirective::Always => "always",
            ReuseDirective::CurrentSession => "current-session",
        }
    }
}

/// Every element is smaller than every later one: sorted, without duplicates.
pub open spec fn strictly_increasing(s: Seq<u16>) -> bool {
    forall|i: int, j: int| 0 <= i < j < s.len() ==> #[trigger] s[i] < #[trigger] s[j]
}

/// Two sorted lists without duplicates that hold the same ports are the same list.
pub proof fn lemma_increasing_unique(a: Seq<u16>, b: Seq<u16>)
    requires
        strictly_increasing(a),
        strictly_increasing(b),
        forall|x: u16| a.contains(x) == b.contains(x),
    ensures
        a == b,
    decreases a.len(),
{
    if a.len() == 0 {
        if b.len() > 0 {
            assert(b.contains(b[0]));
        }
        assert(a =~= b);
    } else {
        assert(a.contains(a[0]));
        assert(b.contains(a[0]));
        assert(b.len() > 0);
        assert(b.contains(b[0]));
        assert(a.contains(b[0]));
        let i = choose|i: int| 0 <= i < a.len() && a[i] == b[0];
        let j = choose|j: int| 0 <= j < b.len() && b[j] == a[0];
        if i > 0 {
            assert(a[0] < a[i]);
        }
        if j > 0 {
            assert(b[0] < b[j]);
        }
        assert(a[0] == b[0]);
        let a1 = a.drop_first();
        let b1 = b.drop_first();
        assert forall|x: u16| a1.contains(x) == b1.contains(x) by {
            if a1.contains(x) {
                let k = choose|k: int| 0 <= k < a1.len() && a1[k] == x;
                assert(a[k + 1] == x);
                assert(a[0] < a[k + 1]);
                assert(b.contains(x));
                let m = choose|m: int| 0 <= m < b.len() && b[m] == x;
                assert(m != 0);
                assert(b1[m - 1] == x);
            }
            if b1.contains(x) {
                let k = choose|k: int| 0 <= k < b1.len() && b1[k] == x;
                assert(b[k + 1] == x);
                assert(b[0] < b[k + 1]);
                assert(a.contains(x));
                let m = choose|m: int| 0 <= m < a.len() && a[m] == x;
                assert(m != 0);
                assert(a1[m - 1] == x);
            }
        }
        lemma_increasing_unique(a1, b1);
        assert(a =~= seq![a[0]] + a1);
        assert(b =~= seq![b[0]] + b1);
    }
}

/// Inserts `p` into a sorted list without duplicates, keeping it so.
fn insert_port_sorted(v: &mut Vec<u16>, p: u16)
    requires
        strictly_increasing(old(v)@),
    ensures
        strictly_increasing(final(v)@),
        forall|x: u16| final(v)@.contains(x) <==> (old(v)@.contains(x) || x == p),
{
    let mut i: usize = 0;
    while i < v.len() && v[i] < p
        invariant
            0 <= i <= v@.len(),
            forall|j: int| 0 <= j < i ==> #[trigger] v@[j] < p,
        decreases v.len() - i,
    {
        i = i + 1;
    }
    if i < v.len() && v[i] == p {
        return;
    }
    let ghost before = v@;
    v.insert(i, p);
    proof {
        let after = v@;
        assert(after =~= before.insert(i as int, p));
        assert forall|a: int, b: int| 0 <= a < b < after.len() implies #[trigger] after[a]
            < #[trigger] after[b] by {
            if b < i {
            } else if b == i {
                assert(after[a] == before[a]);
            } else if a < i {
                assert(after[b] == before[b - 1]);
                assert(before[b - 1] > p) by {
                    assert(before[i as int] >= p);
                    assert(before[i as int] != p);
                    if b - 1 > i {
                        assert(before[i as int] < before[b - 1]);
                    }
                }
            } else if a == i {
                assert(after[b] == before[b - 1]);
                assert(before[i as int] > p);
                if b - 1 > i {
                    assert(before[i as int] < before[b - 1]);
                }
            } else {
                assert(after[a] == before[a - 1]);
                assert(after[b] == before[b - 1]);
            }
        }
        assert forall|x: u16| after.contains(x) <==> (before.contains(x) || x == p) by {
            if after.contains(x) {
                let k = choose|k: int| 0 <= k < after.len() && after[k] == x;
                if k < i {
                    assert(before[k] == x);
                } else if k > i {
                    assert(before[k - 1] == x);
                }
            }
            if before.contains(x) {
                let k = choose|k: int| 0 <= k < before.len() && before[k] == x;
                if k < i {
                    assert(after[k] == x);
                } else {
                    assert(after[k + 1] == x);
                }
            }
            if x == p {
                assert(after[i as int] == x);
            }
        }
    }
}

/// The host ports to be exposed after adding `ports` to those already declared: sorted,
/// without duplicates, holding every port of both.
pub fn with_exposed_host_ports(existing: Option<Vec<u16>>, ports: Vec<u16>) -> (r: Vec<u16>)
    ensures
        strictly_increasing(r@),
        forall|x: u16|
            r@.contains(x) <==> ((existing matches Some(e) && e@.contains(x)) || ports@.contains(
                x,
            )),
{
    let mut r: Vec<u16> = Vec::new();
    let first = match existing {
        Some(e) => e,
        None => Vec::new(),
    };
    let mut i: usize = 0;
    while i < first.len()
        invariant
            0 <= i <= first@.len(),
            strictly_increasing(r@),
            forall|x: u16| r@.contains(x) <==> first@.take(i as int).contains(x),
        decreases first.len() - i,
    {
        insert_port_sorted(&mut r, first[i]);
        i = i + 1;
        proof {
            assert forall|x: u16| r@.contains(x) <==> first@.take(i as int).contains(x) by {
                let t = first@.take(i as int);
                assert(t =~= first@.take(i - 1).push(first@[i - 1]));
                if t.contains(x) {
                    let k = choose|k: int| 0 <= k < t.len() && t[k] == x;
                    if k < i - 1 {
                        assert(first@.take(i - 1)[k] == x);
                    }
                }
                if first@.take(i - 1).contains(x) {
                    let k = choose|k: int| 0 <= k < i - 1 && #[trigger] first@.take(i - 1)[k] == x;
                    assert(t[k] == x);
                }
                if x == first@[i - 1] {
                    assert(t[i - 1] == x);
                }
            }
        }
    }
    let mut j: usize = 0;
    assert(first@.take(first@.len() as int) =~= first@);
    assert(ports@.take(0) =~= Seq::<u16>::empty());
    while j < ports.len()
        invariant
            0 <= j <= ports@.len(),
            first@.take(first@.len() as int) == first@,
            strictly_increasing(r@),
            forall|x: u16|
                r@.contains(x) <==> (first@.contains(x) || ports@.take(j as int).contains(x)),
        decreases ports.len() - j,
    {
        insert_port_sorted(&mut r, ports[j]);
        j = j + 1;
        proof {
            assert forall|x: u16|
                r@.contains(x) <==> (first@.contains(x) || ports@.take(j as int).contains(x)) by {
                let t = ports@.take(j as int);
                assert(t =~= ports@.take(j - 1).push(ports@[j - 1]));
                if t.contains(x) {
                    let k = choose|k: int| 0 <= k < t.len() && t[k] == x;
                    if k < j - 1 {
                        assert(ports@.take(j - 1)[k] == x);
                    }
                }
                if ports@.take(j - 1).contains(x) {
                    let k = choose|k: int| 0 <= k < j - 1 && #[trigger] ports@.take(j - 1)[k] == x;
                    assert(t[k] == x);
                }
                if x == ports@[j - 1] {
                    assert(t[j - 1] == x);
                }
            }
        }
    }
    assert(ports@.take(ports@.len() as int) =~= ports@);
    r
}

/// Declaring host ports in two steps gives the same list as declaring them all at once.
pub proof fn law_exposed_host_ports_chain(
    existing: Option<Vec<u16>>,
    a: Seq<u16>,
    b: Seq<u16>,
    first: Seq<u16>,
    second: Seq<u16>,
    once: Seq<u16>,
)
    requires
        strictly_increasing(first),
        forall|x: u16|
            first.contains(x) <==> ((existing matches Some(e) && e@.contains(x)) || a.contains(x)),
        strictly_increasing(second),
        forall|x: u16| second.contains(x) <==> (first.contains(x) || b.contains(x)),
        strictly_increasing(once),
        forall|x: u16|
            once.contains(x) <==> ((existing matches Some(e) && e@.contains(x)) || (a
                + b).contains(x)),
    ensures
        second == once,
{
    assert forall|x: u16| second.contains(x) == once.contains(x) by {
        if (a + b).contains(x) {
            let k = choose|k: int| 0 <= k < (a + b).len() && (a + b)[k] == x;
            if k < a.len() {
                assert(a[k] == x);
            } else {
                assert(b[k - a.len()] == x);
            }
        }
        if a.contains(x) {
            let k = choose|k: int| 0 <= k < a.len() && a[k] == x;
            assert((a + b)[k] == x);
        }
        if b.contains(x) {
            let k = choose|k: int| 0 <= k < b.len() && b[k] == x;
            assert((a + b)[a.len() + k] == x);
        }
    }
    lemma_increasing_unique(second, once);
}

/// The text `host:port` naming a listening address.
pub fn host_and_port(host: &str, port: u16) -> (r: String)
    ensures
        r@ == host@ + ":"@ + crate::text::decimal(port as nat),
{
    let mut r = concat_str(host, ":");
    crate::text::append_decimal(&mut r, port as u64);
    r
}

} // verus!
