//! Images and requests to start a container from them: what an image provides, what a
//! request overrides or adds, and how the two combine.
use std::time::Duration;
use vstd::prelude::*;

use crate::collections::{entries_map, keys_sorted, keys_unique, StringKeyMap};
use crate::error::TestcontainersError;
use crate::exec::ExecCommand;
use crate::image::ContainerState;
use crate::copy::{copies_view, CopyDataSource, CopySourceView, CopyTargetOptions, CopyToContainer};
use crate::healthcheck::{Healthcheck, HealthcheckView};
use crate::mounts::{mounts_view, opt_view, Mount, MountView};
use crate::request::{
    strictly_increasing, with_exposed_host_ports, CgroupnsMode, ContainerPort, Host, PortMapping,
    ReuseDirective,
};
use crate::text::{concat_str, pairs_view, strings_view, strs_view};
use crate::wait_for::WaitFor;

verus! {

/// A docker image: its name and tag, the conditions under which a container of it is ready,
/// and what a container of it is created with.
///
/// Implementations are required to implement `Default`; the default instance of an image
/// should be runnable as it is.
pub trait Image: Sized {
    /// The image's name.
    spec fn name_view(&self) -> Seq<char>;

    /// The image's tag.
    spec fn tag_view(&self) -> Seq<char>;

    /// The image's readiness conditions.
    spec fn ready_conditions_view(&self) -> Seq<WaitFor>;

    /// The image's environment variables, in order.
    spec fn env_vars_view(&self) -> Seq<(Seq<char>, Seq<char>)>;

    /// The image's mounts.
    spec fn mounts_view(&self) -> Seq<MountView>;

    /// The image's entrypoint.
    spec fn entrypoint_view(&self) -> Option<Seq<char>>;

    /// The image's command.
    spec fn cmd_view(&self) -> Seq<Seq<char>>;

    /// The ports the image exposes.
    spec fn expose_ports_view(&self) -> Seq<ContainerPort>;

    /// The name of the docker image to pull from the Docker Hub registry.
    fn name(&self) -> (r: &str)
        ensures
            r@ == self.name_view(),
    ;

    /// The tag of the image; implementations are encouraged to use one that does not change.
    fn tag(&self) -> (r: &str)
        ensures
            r@ == self.tag_view(),
    ;

    /// The conditions that must be met, in order, before a started container is ready.
    fn ready_conditions(&self) -> (r: Vec<WaitFor>)
        ensures
            r@ == self.ready_conditions_view(),
    ;

    /// The environment variables a container is created with.
    fn env_vars(&self) -> (r: Vec<(String, String)>)
        ensures
            pairs_view(r@) == self.env_vars_view(),
    ;

    /// The mounts a container is created with.
    fn mounts(&self) -> (r: Vec<Mount>)
        ensures
            mounts_view(r@) == self.mounts_view(),
    ;

    /// The entrypoint a container is created with.
    fn entrypoint(&self) -> (r: Option<String>)
        ensures
            opt_view(r) == self.entrypoint_view(),
    ;

    /// The `CMD` a container is created with.
    fn cmd(&self) -> (r: Vec<String>)
        ensures
            strings_view(r@) == self.cmd_view(),
    ;

    /// The ports to expose when a container is created.
    fn expose_ports(&self) -> (r: Vec<ContainerPort>)
        ensures
            r@ == self.expose_ports_view(),
    ;

    /// The commands to execute once a container of the image has started, given its state;
    /// by default there are none. Useful where the container must be reconfigured after it
    /// starts before tests can use it.
    fn exec_after_start(&self, cs: ContainerState) -> (r: Result<Vec<ExecCommand>, TestcontainersError>)
        default_ensures
            r matches Ok(v) && v@.len() == 0,
    {
        Ok(Vec::new())
    }
}

fn copy_wait_fors(v: &Vec<WaitFor>) -> (r: Vec<WaitFor>)
    ensures
        r@ == v@,
{
    let mut r: Vec<WaitFor> = Vec::new();
    let mut i: usize = 0;
    while i < v.len()
        invariant
            i <= v@.len(),
            r@ == v@.take(i as int),
        decreases v.len() - i,
    {
        r.push(v[i].clone());
        i = i + 1;
        assert(r@ =~= v@.take(i as int));
    }
    assert(v@.take(v@.len() as int) =~= v@);
    r
}

fn copy_ports(v: &Vec<ContainerPort>) -> (r: Vec<ContainerPort>)
    ensures
        r@ == v@,
{
    let mut r: Vec<ContainerPort> = Vec::new();
    let mut i: usize = 0;
    while i < v.len()
        invariant
            i <= v@.len(),
            r@ == v@.take(i as int),
        decreases v.len() - i,
    {
        r.push(v[i]);
        i = i + 1;
        assert(r@ =~= v@.take(i as int));
    }
    assert(v@.take(v@.len() as int) =~= v@);
    r
}

/// An image given by name and tag, with the readiness conditions, entrypoint and exposed
/// ports set on it.
#[derive(Debug)]
pub struct GenericImage {
    name: String,
    tag: String,
    wait_for: Vec<WaitFor>,
    entrypoint: Option<String>,
    exposed_ports: Vec<ContainerPort>,
}

impl GenericImage {
    /// An image `name:tag` that is ready as soon as it is started.
    pub fn new(name: &str, tag: &str) -> (r: Self)
        ensures
            r.name_view() == name@,
            r.tag_view() == tag@,
            r.ready_conditions_view().len() == 0,
            r.entrypoint_view() is None,
            r.expose_ports_view().len() == 0,
    {
        GenericImage {
            name: name.to_owned(),
            tag: tag.to_owned(),
            wait_for: Vec::new(),
            entrypoint: None,
            exposed_ports: Vec::new(),
        }
    }

    /// Adds a readiness condition after those already set.
    pub fn with_wait_for(self, wait_for: WaitFor) -> (r: Self)
        ensures
            r.name_view() == self.name_view(),
            r.tag_view() == self.tag_view(),
            r.ready_conditions_view() == self.ready_conditions_view().push(wait_for),
            r.entrypoint_view() == self.entrypoint_view(),
            r.expose_ports_view() == self.expose_ports_view(),
    {
        let mut r = self;
        r.wait_for.push(wait_for);
        r
    }

    /// Sets the entrypoint.
    pub fn with_entrypoint(self, entrypoint: &str) -> (r: Self)
        ensures
            r.name_view() == self.name_view(),
            r.tag_view() == self.tag_view(),
            r.ready_conditions_view() == self.ready_conditions_view(),
            r.entrypoint_view() == Some(entrypoint@),
            r.expose_ports_view() == self.expose_ports_view(),
    {
        GenericImage { entrypoint: Some(entrypoint.to_owned()), ..self }
    }

    /// Adds a port to expose.
    pub fn with_exposed_port(self, port: ContainerPort) -> (r: Self)
        ensures
            r.name_view() == self.name_view(),
            r.tag_view() == self.tag_view(),
            r.ready_conditions_view() == self.ready_conditions_view(),
            r.entrypoint_view() == self.entrypoint_view(),
            r.expose_ports_view() == self.expose_ports_view().push(port),
    {
        let mut r = self;
        r.exposed_ports.push(port);
        r
    }
}

impl Image for GenericImage {
    closed spec fn name_view(&self) -> Seq<char> {
        self.name@
    }

    closed spec fn tag_view(&self) -> Seq<char> {
        self.tag@
    }

    closed spec fn ready_conditions_view(&self) -> Seq<WaitFor> {
        self.wait_for@
    }

    closed spec fn env_vars_view(&self) -> Seq<(Seq<char>, Seq<char>)> {
        Seq::empty()
    }

    closed spec fn mounts_view(&self) -> Seq<MountView> {
        Seq::empty()
    }

    closed spec fn entrypoint_view(&self) -> Option<Seq<char>> {
        opt_view(self.entrypoint)
    }

    closed spec fn cmd_view(&self) -> Seq<Seq<char>> {
        Seq::empty()
    }

    closed spec fn expose_ports_view(&self) -> Seq<ContainerPort> {
        self.exposed_ports@
    }

    fn name(&self) -> (r: &str) {
        self.name.as_str()
    }

    fn tag(&self) -> (r: &str) {
        self.tag.as_str()
    }

    fn ready_conditions(&self) -> (r: Vec<WaitFor>) {
        copy_wait_fors(&self.wait_for)
    }

    fn env_vars(&self) -> (r: Vec<(String, String)>) {
        let r: Vec<(String, String)> = Vec::new();
        assert(pairs_view(r@) =~= Seq::<(Seq<char>, Seq<char>)>::empty());
        r
    }

    fn mounts(&self) -> (r: Vec<Mount>) {
        let r: Vec<Mount> = Vec::new();
        assert(mounts_view(r@) =~= Seq::<MountView>::empty());
        r
    }

    fn entrypoint(&self) -> (r: Option<String>) {
        match &self.entrypoint {
            Some(e) => Some(e.clone()),
            None => None,
        }
    }

    fn cmd(&self) -> (r: Vec<String>) {
        let r: Vec<String> = Vec::new();
        assert(strings_view(r@) =~= Seq::<Seq<char>>::empty());
        r
    }

    fn expose_ports(&self) -> (r: Vec<ContainerPort>) {
        copy_ports(&self.exposed_ports)
    }
}

/// A resource limit of a container (`ulimit`).
#[derive(Debug, Clone, PartialEq, Eq)]
pub struct ResourcesUlimit {
    pub name: Option<String>,
    pub soft: Option<i64>,
    pub hard: Option<i64>,
}

/// The content of a [`ResourcesUlimit`].
pub struct UlimitView {
    pub name: Option<Seq<char>>,
    pub soft: Option<i64>,
    pub hard: Option<i64>,
}

/// The views of a sequence of resource limits.
pub open spec fn ulimits_view(v: Seq<ResourcesUlimit>) -> Seq<UlimitView> {
    v.map_values(|u: ResourcesUlimit| UlimitView { name: opt_view(u.name), soft: u.soft, hard: u.hard })
}

/// The views of an optional vector of strings.
pub open spec fn opt_strings_view(v: Option<Vec<String>>) -> Option<Seq<Seq<char>>> {
    match v {
        Some(s) => Some(strings_view(s@)),
        None => None,
    }
}

/// Represents a request to start a container, allowing customization of the container.
#[derive(Debug)]
pub struct ContainerRequest<I: Image> {
    image: I,
    overridden_cmd: Vec<String>,
    image_name: Option<String>,
    image_tag: Option<String>,
    container_name: Option<String>,
    platform: Option<String>,
    network: Option<String>,
    hostname: Option<String>,
    labels: StringKeyMap<String>,
    env_vars: StringKeyMap<String>,
    hosts: StringKeyMap<Host>,
    mounts: Vec<Mount>,
    copy_to_sources: Vec<CopyToContainer>,
    ports: Option<Vec<PortMapping>>,
    host_port_exposures: Option<Vec<u16>>,
    ulimits: Option<Vec<ResourcesUlimit>>,
    privileged: bool,
    cap_add: Option<Vec<String>>,
    cap_drop: Option<Vec<String>>,
    readonly_rootfs: bool,
    security_opts: Option<Vec<String>>,
    shm_size: Option<u64>,
    cgroupns_mode: Option<CgroupnsMode>,
    userns_mode: Option<String>,
    startup_timeout: Option<Duration>,
    working_dir: Option<String>,
    /// The length of a CPU period in microseconds.
    cpu_period: Option<i64>,
    /// Microseconds of CPU time that the container can get in a CPU period.
    cpu_quota: Option<i64>,
    /// The length of a CPU real-time period in microseconds.
    cpu_realtime_period: Option<i64>,
    /// The length of a CPU real-time runtime in microseconds.
    cpu_realtime_runtime: Option<i64>,
    /// CPUs in which to allow execution (e.g., `0-3`, `0,1`).
    cpuset_cpus: Option<String>,
    /// CPU quota in units of 10<sup>-9</sup> CPUs.
    nano_cpus: Option<i64>,
    /// Memory limit for the container.
    memory: Option<i64>,
    /// Memory reservation, soft limit.
    memory_reservation: Option<i64>,
    /// Total memory limit (memory + swap); `-1` enables unlimited swap.
    memory_swap: Option<i64>,
    /// The container's memory swappiness, between 0 and 100.
    memory_swappiness: Option<i64>,
    /// Disables the OOM killer for the container.
    oom_kill_disable: Option<bool>,
    /// The container's PIDs limit; `0` or `-1` for unlimited.
    pids_limit: Option<i64>,
    reuse: ReuseDirective,
    user: Option<String>,
    ready_conditions: Option<Vec<WaitFor>>,
    health_check: Option<Healthcheck>,
    open_stdin: Option<bool>,
}

/// The content of a [`ContainerRequest`].
pub struct ContainerRequestView<I> {
    pub image: I,
    pub overridden_cmd: Seq<Seq<char>>,
    pub image_name: Option<Seq<char>>,
    pub image_tag: Option<Seq<char>>,
    pub container_name: Option<Seq<char>>,
    pub platform: Option<Seq<char>>,
    pub network: Option<Seq<char>>,
    pub hostname: Option<Seq<char>>,
    pub labels: Map<Seq<char>, String>,
    pub env_vars: Map<Seq<char>, String>,
    pub hosts: Map<Seq<char>, Host>,
    pub mounts: Seq<MountView>,
    pub copy_to_sources: Seq<(CopySourceView, (Seq<char>, Option<u32>))>,
    pub ports: Option<Seq<(u16, ContainerPort)>>,
    pub host_port_exposures: Option<Seq<u16>>,
    pub ulimits: Option<Seq<UlimitView>>,
    pub privileged: bool,
    pub cap_add: Option<Seq<Seq<char>>>,
    pub cap_drop: Option<Seq<Seq<char>>>,
    pub readonly_rootfs: bool,
    pub security_opts: Option<Seq<Seq<char>>>,
    pub shm_size: Option<u64>,
    pub cgroupns_mode: Option<CgroupnsMode>,
    pub userns_mode: Option<Seq<char>>,
    pub startup_timeout: Option<Duration>,
    pub working_dir: Option<Seq<char>>,
    pub cpu_period: Option<i64>,
    pub cpu_quota: Option<i64>,
    pub cpu_realtime_period: Option<i64>,
    pub cpu_realtime_runtime: Option<i64>,
    pub cpuset_cpus: Option<Seq<char>>,
    pub nano_cpus: Option<i64>,
    pub memory: Option<i64>,
    pub memory_reservation: Option<i64>,
    pub memory_swap: Option<i64>,
    pub memory_swappiness: Option<i64>,
    pub oom_kill_disable: Option<bool>,
    pub pids_limit: Option<i64>,
    pub reuse: ReuseDirective,
    pub user: Option<Seq<char>>,
    pub ready_conditions: Option<Seq<WaitFor>>,
    pub health_check: Option<HealthcheckView>,
    pub open_stdin: Option<bool>,
}

/// The views of optional port mappings.
pub open spec fn opt_ports_view(v: Option<Vec<PortMapping>>) -> Option<Seq<(u16, ContainerPort)>> {
    match v {
        Some(s) => Some(s@.map_values(|p: PortMapping| p@)),
        None => None,
    }
}

/// The request a plain image stands for: the image with nothing overridden or added.
pub open spec fn default_request_view<I>(image: I) -> ContainerRequestView<I> {
    ContainerRequestView {
        image,
        overridden_cmd: Seq::empty(),
        image_name: None,
        image_tag: None,
        container_name: None,
        platform: None,
        network: None,
        hostname: None,
        labels: Map::empty(),
        env_vars: Map::empty(),
        hosts: Map::empty(),
        mounts: Seq::empty(),
        copy_to_sources: Seq::empty(),
        ports: None,
        host_port_exposures: None,
        ulimits: None,
        privileged: false,
        cap_add: None,
        cap_drop: None,
        readonly_rootfs: false,
        security_opts: None,
        shm_size: None,
        cgroupns_mode: None,
        userns_mode: None,
        startup_timeout: None,
        working_dir: None,
        cpu_period: None,
        cpu_quota: None,
        cpu_realtime_period: None,
        cpu_realtime_runtime: None,
        cpuset_cpus: None,
        nano_cpus: None,
        memory: None,
        memory_reservation: None,
        memory_swap: None,
        memory_swappiness: None,
        oom_kill_disable: None,
        pids_limit: None,
        reuse: ReuseDirective::Never,
        user: None,
        ready_conditions: None,
        health_check: None,
        open_stdin: None,
    }
}

impl<I: Image> View for ContainerRequest<I> {
    type V = ContainerRequestView<I>;

    closed spec fn view(&self) -> ContainerRequestView<I> {
        ContainerRequestView {
            image: self.image,
            overridden_cmd: strings_view(self.overridden_cmd@),
            image_name: opt_view(self.image_name),
            image_tag: opt_view(self.image_tag),
            container_name: opt_view(self.container_name),
            platform: opt_view(self.platform),
            network: opt_view(self.network),
            hostname: opt_view(self.hostname),
            labels: self.labels@,
            env_vars: self.env_vars@,
            hosts: self.hosts@,
            mounts: mounts_view(self.mounts@),
            copy_to_sources: copies_view(self.copy_to_sources@),
            ports: opt_ports_view(self.ports),
            host_port_exposures: match self.host_port_exposures {
                Some(v) => Some(v@),
                None => None,
            },
            ulimits: match self.ulimits {
                Some(v) => Some(ulimits_view(v@)),
                None => None,
            },
            privileged: self.privileged,
            cap_add: opt_strings_view(self.cap_add),
            cap_drop: opt_strings_view(self.cap_drop),
            readonly_rootfs: self.readonly_rootfs,
            security_opts: opt_strings_view(self.security_opts),
            shm_size: self.shm_size,
            cgroupns_mode: self.cgroupns_mode,
            userns_mode: opt_view(self.userns_mode),
            startup_timeout: self.startup_timeout,
            working_dir: opt_view(self.working_dir),
            cpu_period: self.cpu_period,
            cpu_quota: self.cpu_quota,
            cpu_realtime_period: self.cpu_realtime_period,
            cpu_realtime_runtime: self.cpu_realtime_runtime,
            cpuset_cpus: opt_view(self.cpuset_cpus),
            nano_cpus: self.nano_cpus,
            memory: self.memory,
            memory_reservation: self.memory_reservation,
            memory_swap: self.memory_swap,
            memory_swappiness: self.memory_swappiness,
            oom_kill_disable: self.oom_kill_disable,
            pids_limit: self.pids_limit,
            reuse: self.reuse,
            user: opt_view(self.user),
            ready_conditions: match self.ready_conditions {
                Some(v) => Some(v@),
                None => None,
            },
            health_check: match self.health_check {
                Some(h) => Some(h@),
                None => None,
            },
            open_stdin: self.open_stdin,
        }
    }
}

/// The image name and tag a request runs: the overridden ones where set, else the image's.
pub open spec fn request_descriptor<I: Image>(r: ContainerRequestView<I>) -> Seq<char> {
    let name = match r.image_name {
        Some(n) => n,
        None => r.image.name_view(),
    };
    let tag = match r.image_tag {
        Some(t) => t,
        None => r.image.tag_view(),
    };
    name + ":"@ + tag
}

impl<I: Image> ContainerRequest<I> {
    /// The request to start a container of `image` as it is.
    pub fn from_image(image: I) -> (r: Self)
        ensures
            r@ == default_request_view(image),
    {
        let r = ContainerRequest {
            image,
            overridden_cmd: Vec::new(),
            image_name: None,
            image_tag: None,
            container_name: None,
            platform: None,
            network: None,
            hostname: None,
            labels: StringKeyMap::new(),
            env_vars: StringKeyMap::new(),
            hosts: StringKeyMap::new(),
            mounts: Vec::new(),
            copy_to_sources: Vec::new(),
            ports: None,
            host_port_exposures: None,
            ulimits: None,
            privileged: false,
            cap_add: None,
            cap_drop: None,
            readonly_rootfs: false,
            security_opts: None,
            shm_size: None,
            cgroupns_mode: None,
            userns_mode: None,
            startup_timeout: None,
            working_dir: None,
            cpu_period: None,
            cpu_quota: None,
            cpu_realtime_period: None,
            cpu_realtime_runtime: None,
            cpuset_cpus: None,
            nano_cpus: None,
            memory: None,
            memory_reservation: None,
            memory_swap: None,
            memory_swappiness: None,
            oom_kill_disable: None,
            pids_limit: None,
            reuse: ReuseDirective::Never,
            user: None,
            ready_conditions: None,
            health_check: None,
            open_stdin: None,
        };
        assert(r@.overridden_cmd =~= Seq::<Seq<char>>::empty());
        assert(r@.mounts =~= Seq::<MountView>::empty());
        assert(r@.copy_to_sources =~= Seq::<(CopySourceView, (Seq<char>, Option<u32>))>::empty());
        r
    }

    /// The image.
    pub fn image(&self) -> (r: &I)
        ensures
            *r == self@.image,
    {
        &self.image
    }

    /// The network the container is connected to.
    pub fn network(&self) -> (r: &Option<String>)
        ensures
            opt_view(*r) == self@.network,
    {
        &self.network
    }

    /// The labels of the container.
    pub fn labels(&self) -> (r: &StringKeyMap<String>)
        ensures
            r@ == self@.labels,
    {
        &self.labels
    }

    /// The name of the container.
    pub fn container_name(&self) -> (r: &Option<String>)
        ensures
            opt_view(*r) == self@.container_name,
    {
        &self.container_name
    }

    /// The platform the container runs on.
    pub fn platform(&self) -> (r: &Option<String>)
        ensures
            opt_view(*r) == self@.platform,
    {
        &self.platform
    }

    /// The environment of the container: the image's variables, then those of the request in
    /// the order of their names.
    pub fn env_vars(&self) -> (r: Vec<(String, String)>)
        ensures
            pairs_view(r@).take(self@.image.env_vars_view().len() as int)
                == self@.image.env_vars_view(),
            r@.len() >= self@.image.env_vars_view().len(),
            keys_sorted(r@.skip(self@.image.env_vars_view().len() as int)),
            keys_unique(r@.skip(self@.image.env_vars_view().len() as int)),
            entries_map(r@.skip(self@.image.env_vars_view().len() as int)) == self@.env_vars,
    {
        let mut r = self.image.env_vars();
        let ghost n = r@.len();
        let ghost image_part = r@;
        let own = self.env_vars.entries();
        let mut i: usize = 0;
        while i < own.len()
            invariant
                i <= own@.len(),
                r@.len() == n + i,
                r@.take(n as int) == image_part,
                r@.skip(n as int) == own@.take(i as int),
            decreases own.len() - i,
        {
            let k = own[i].0.clone();
            let v = own[i].1.clone();
            r.push((k, v));
            i = i + 1;
            assert(r@.take(n as int) =~= image_part);
            assert(r@.skip(n as int) =~= own@.take(i as int));
        }
        assert(own@.take(own@.len() as int) =~= own@);
        assert(pairs_view(r@).take(n as int) =~= pairs_view(image_part));
        r
    }

    /// The extra hosts of the container.
    pub fn hosts(&self) -> (r: &StringKeyMap<Host>)
        ensures
            r@ == self@.hosts,
    {
        &self.hosts
    }

    /// The mounts of the container: the image's, then those of the request.
    pub fn mounts(&self) -> (r: Vec<Mount>)
        ensures
            mounts_view(r@) == self@.image.mounts_view() + self@.mounts,
    {
        let mut r = self.image.mounts();
        let ghost start = mounts_view(r@);
        let mut i: usize = 0;
        while i < self.mounts.len()
            invariant
                i <= self.mounts@.len(),
                r@.len() == start.len() + i,
                mounts_view(r@) == start + mounts_view(self.mounts@.take(i as int)),
            decreases self.mounts.len() - i,
        {
            let m = self.mounts[i].copied();
            let ghost before = r@;
            r.push(m);
            proof {
                let target = start + mounts_view(self.mounts@.take(i + 1));
                assert forall|j: int| 0 <= j < r@.len() implies #[trigger] mounts_view(r@)[j]
                    == target[j] by {
                    if j < before.len() {
                        assert(r@[j] == before[j]);
                        assert(mounts_view(before)[j] == (start + mounts_view(
                            self.mounts@.take(i as int),
                        ))[j]);
                    }
                }
                assert(mounts_view(r@) =~= target);
            }
            i = i + 1;
        }
        assert(self.mounts@.take(self.mounts@.len() as int) =~= self.mounts@);
        r
    }

    /// The files and data copied into the container.
    pub fn copy_to_sources(&self) -> (r: &Vec<CopyToContainer>)
        ensures
            copies_view(r@) == self@.copy_to_sources,
    {
        &self.copy_to_sources
    }

    /// The port mappings of the container.
    pub fn ports(&self) -> (r: Option<&Vec<PortMapping>>)
        ensures
            match r {
                Some(v) => self@.ports == Some(v@.map_values(|p: PortMapping| p@)),
                None => self@.ports is None,
            },
    {
        match &self.ports {
            Some(v) => Some(v),
            None => None,
        }
    }

    /// The host ports that are reachable from inside the container.
    pub fn host_port_exposures(&self) -> (r: Option<&[u16]>)
        ensures
            match r {
                Some(v) => self@.host_port_exposures == Some(v@),
                None => self@.host_port_exposures is None,
            },
    {
        match &self.host_port_exposures {
            Some(v) => Some(v.as_slice()),
            None => None,
        }
    }

    /// The resource limits of the container.
    pub fn ulimits(&self) -> (r: Option<&Vec<ResourcesUlimit>>)
        ensures
            match r {
                Some(v) => self@.ulimits == Some(ulimits_view(v@)),
                None => self@.ulimits is None,
            },
    {
        match &self.ulimits {
            Some(v) => Some(v),
            None => None,
        }
    }

    /// Whether the container runs in privileged mode.
    pub fn privileged(&self) -> (r: bool)
        ensures
            r == self@.privileged,
    {
        self.privileged
    }

    /// The capabilities added to the container.
    pub fn cap_add(&self) -> (r: Option<&Vec<String>>)
        ensures
            match r {
                Some(v) => self@.cap_add == Some(strings_view(v@)),
                None => self@.cap_add is None,
            },
    {
        match &self.cap_add {
            Some(v) => Some(v),
            None => None,
        }
    }

    /// The capabilities dropped from the container.
    pub fn cap_drop(&self) -> (r: Option<&Vec<String>>)
        ensures
            match r {
                Some(v) => self@.cap_drop == Some(strings_view(v@)),
                None => self@.cap_drop is None,
            },
    {
        match &self.cap_drop {
            Some(v) => Some(v),
            None => None,
        }
    }

    /// The cgroup namespace mode of the container.
    pub fn cgroupns_mode(&self) -> (r: Option<CgroupnsMode>)
        ensures
            r == self@.cgroupns_mode,
    {
        self.cgroupns_mode
    }

    /// The user namespace mode of the container.
    pub fn userns_mode(&self) -> (r: Option<&str>)
        ensures
            match r {
                Some(v) => self@.userns_mode == Some(v@),
                None => self@.userns_mode is None,
            },
    {
        match &self.userns_mode {
            Some(v) => Some(v.as_str()),
            None => None,
        }
    }

    /// The shared memory size in bytes.
    pub fn shm_size(&self) -> (r: Option<u64>)
        ensures
            r == self@.shm_size,
    {
        self.shm_size
    }

    /// The entrypoint of the image.
    pub fn entrypoint(&self) -> (r: Option<String>)
        ensures
            opt_view(r) == self@.image.entrypoint_view(),
    {
        self.image.entrypoint()
    }

    /// The command of the container: the overridden one where it is not empty, else the
    /// image's.
    pub fn cmd(&self) -> (r: Vec<String>)
        ensures
            strings_view(r@) == (if self@.overridden_cmd.len() > 0 {
                self@.overridden_cmd
            } else {
                self@.image.cmd_view()
            }),
    {
        if self.overridden_cmd.len() > 0 {
            let mut r: Vec<String> = Vec::new();
            let mut i: usize = 0;
            while i < self.overridden_cmd.len()
                invariant
                    i <= self.overridden_cmd@.len(),
                    r@ == self.overridden_cmd@.take(i as int),
                decreases self.overridden_cmd.len() - i,
            {
                r.push(self.overridden_cmd[i].clone());
                i = i + 1;
                assert(r@ =~= self.overridden_cmd@.take(i as int));
            }
            assert(self.overridden_cmd@.take(self.overridden_cmd@.len() as int) =~= self.overridden_cmd@);
            r
        } else {
            self.image.cmd()
        }
    }

    /// The image descriptor `name:tag`, with the overridden name and tag where they are set.
    pub fn descriptor(&self) -> (r: String)
        ensures
            r@ == request_descriptor(self@),
    {
        let name = match &self.image_name {
            Some(n) => n.as_str(),
            None => self.image.name(),
        };
        let tag = match &self.image_tag {
            Some(t) => t.as_str(),
            None => self.image.tag(),
        };
        let mut r = concat_str(name, ":");
        r.append(tag);
        r
    }

    /// The readiness conditions: the overridden ones where set, else the image's.
    pub fn ready_conditions(&self) -> (r: Vec<WaitFor>)
        ensures
            r@ == match self@.ready_conditions {
                Some(c) => c,
                None => self@.image.ready_conditions_view(),
            },
    {
        match &self.ready_conditions {
            Some(c) => copy_wait_fors(c),
            None => self.image.ready_conditions(),
        }
    }

    /// The ports the image exposes.
    pub fn expose_ports(&self) -> (r: Vec<ContainerPort>)
        ensures
            r@ == self@.image.expose_ports_view(),
    {
        self.image.expose_ports()
    }

    /// The commands the image asks to execute once the container has started, given its
    /// state; what they are is up to the image's implementation of [`Image`].
    pub fn exec_after_start(&self, cs: ContainerState) -> (r: Result<Vec<ExecCommand>, TestcontainersError>) {
        self.image.exec_after_start(cs)
    }

    /// The startup timeout of the container.
    pub fn startup_timeout(&self) -> (r: Option<Duration>)
        ensures
            r == self@.startup_timeout,
    {
        self.startup_timeout
    }

    /// The working directory of the container.
    pub fn working_dir(&self) -> (r: Option<&str>)
        ensures
            match r {
                Some(v) => self@.working_dir == Some(v@),
                None => self@.working_dir is None,
            },
    {
        match &self.working_dir {
            Some(v) => Some(v.as_str()),
            None => None,
        }
    }

    /// The length of a CPU period in microseconds.
    pub fn cpu_period(&self) -> (r: Option<i64>)
        ensures
            r == self@.cpu_period,
    {
        self.cpu_period
    }

    /// Microseconds of CPU time that the container can get in a CPU period.
    pub fn cpu_quota(&self) -> (r: Option<i64>)
        ensures
            r == self@.cpu_quota,
    {
        self.cpu_quota
    }

    /// The length of a CPU real-time period in microseconds.
    pub fn cpu_realtime_period(&self) -> (r: Option<i64>)
        ensures
            r == self@.cpu_realtime_period,
    {
        self.cpu_realtime_period
    }

    /// The length of a CPU real-time runtime in microseconds.
    pub fn cpu_realtime_runtime(&self) -> (r: Option<i64>)
        ensures
            r == self@.cpu_realtime_runtime,
    {
        self.cpu_realtime_runtime
    }

    /// The CPUs in which execution is allowed.
    pub fn cpuset_cpus(&self) -> (r: Option<&str>)
        ensures
            match r {
                Some(v) => self@.cpuset_cpus == Some(v@),
                None => self@.cpuset_cpus is None,
            },
    {
        match &self.cpuset_cpus {
            Some(v) => Some(v.as_str()),
            None => None,
        }
    }

    /// The CPU quota in units of 10<sup>-9</sup> CPUs.
    pub fn nano_cpus(&self) -> (r: Option<i64>)
        ensures
            r == self@.nano_cpus,
    {
        self.nano_cpus
    }

    /// The memory limit.
    pub fn memory(&self) -> (r: Option<i64>)
        ensures
            r == self@.memory,
    {
        self.memory
    }

    /// The memory reservation.
    pub fn memory_reservation(&self) -> (r: Option<i64>)
        ensures
            r == self@.memory_reservation,
    {
        self.memory_reservation
    }

    /// The total memory limit (memory + swap).
    pub fn memory_swap(&self) -> (r: Option<i64>)
        ensures
            r == self@.memory_swap,
    {
        self.memory_swap
    }

    /// The memory swappiness.
    pub fn memory_swappiness(&self) -> (r: Option<i64>)
        ensures
            r == self@.memory_swappiness,
    {
        self.memory_swappiness
    }

    /// Whether the OOM killer is disabled.
    pub fn oom_kill_disable(&self) -> (r: Option<bool>)
        ensures
            r == self@.oom_kill_disable,
    {
        self.oom_kill_disable
    }

    /// The PIDs limit.
    pub fn pids_limit(&self) -> (r: Option<i64>)
        ensures
            r == self@.pids_limit,
    {
        self.pids_limit
    }

    /// Whether the container is reused rather than stopped when it is dropped.
    pub fn reuse(&self) -> (r: ReuseDirective)
        ensures
            r == self@.reuse,
    {
        self.reuse
    }

    /// The user that commands are run as inside the container.
    pub fn user(&self) -> (r: Option<&str>)
        ensures
            match r {
                Some(v) => self@.user == Some(v@),
                None => self@.user is None,
            },
    {
        match &self.user {
            Some(v) => Some(v.as_str()),
            None => None,
        }
    }

    /// The security options of the container.
    pub fn security_opts(&self) -> (r: Option<&Vec<String>>)
        ensures
            match r {
                Some(v) => self@.security_opts == Some(strings_view(v@)),
                None => self@.security_opts is None,
            },
    {
        match &self.security_opts {
            Some(v) => Some(v),
            None => None,
        }
    }

    /// Whether the root filesystem is read-only.
    pub fn readonly_rootfs(&self) -> (r: bool)
        ensures
            r == self@.readonly_rootfs,
    {
        self.readonly_rootfs
    }

    /// The hostname of the container.
    pub fn hostname(&self) -> (r: Option<&str>)
        ensures
            match r {
                Some(v) => self@.hostname == Some(v@),
                None => self@.hostname is None,
            },
    {
        match &self.hostname {
            Some(v) => Some(v.as_str()),
            None => None,
        }
    }

    /// The custom health check of the container.
    pub fn health_check(&self) -> (r: Option<&Healthcheck>)
        ensures
            match r {
                Some(h) => self@.health_check == Some(h@),
                None => self@.health_check is None,
            },
    {
        match &self.health_check {
            Some(h) => Some(h),
            None => None,
        }
    }

    /// Whether stdin is kept open.
    pub fn open_stdin(&self) -> (r: Option<bool>)
        ensures
            r == self@.open_stdin,
    {
        self.open_stdin
    }
}

/// The container request that a value stands for: a request itself, or an image as it is.
/// The methods override or add to the image's defaults and the container's configuration.
pub trait ImageExt<I: Image>: Sized {
    /// The request `self` stands for.
    spec fn as_request(self) -> ContainerRequestView<I>;

    /// The request `self` stands for.
    fn into_request(self) -> (r: ContainerRequest<I>)
        ensures
            r@ == self.as_request(),
    ;

    /// Overrides the command of the image.
    fn with_cmd(self, cmd: &[&str]) -> (r: ContainerRequest<I>)
        ensures
            r@ == (ContainerRequestView { overridden_cmd: strs_view(cmd@), ..self.as_request() }),
    {
        let mut r = self.into_request();
        r.overridden_cmd = crate::text::owned_strings(cmd);
        r
    }

    /// Overrides the fully qualified image name (`{domain}/{owner}/{image}`).
    fn with_name(self, name: &str) -> (r: ContainerRequest<I>)
        ensures
            r@ == (ContainerRequestView { image_name: Some(name@), ..self.as_request() }),
    {
        let mut r = self.into_request();
        r.image_name = Some(name.to_owned());
        r
    }

    /// Overrides the image tag.
    fn with_tag(self, tag: &str) -> (r: ContainerRequest<I>)
        ensures
            r@ == (ContainerRequestView { image_tag: Some(tag@), ..self.as_request() }),
    {
        let mut r = self.into_request();
        r.image_tag = Some(tag.to_owned());
        r
    }

    /// Sets the container name.
    fn with_container_name(self, name: &str) -> (r: ContainerRequest<I>)
        ensures
            r@ == (ContainerRequestView { container_name: Some(name@), ..self.as_request() }),
    {
        let mut r = self.into_request();
        r.container_name = Some(name.to_owned());
        r
    }

    /// Sets the platform, `os[/arch[/variant]]`, the container runs on.
    fn with_platform(self, platform: &str) -> (r: ContainerRequest<I>)
        ensures
            r@ == (ContainerRequestView { platform: Some(platform@), ..self.as_request() }),
    {
        let mut r = self.into_request();
        r.platform = Some(platform.to_owned());
        r
    }

    /// Sets the network the container is connected to.
    fn with_network(self, network: &str) -> (r: ContainerRequest<I>)
        ensures
            r@ == (ContainerRequestView { network: Some(network@), ..self.as_request() }),
    {
        let mut r = self.into_request();
        r.network = Some(network.to_owned());
        r
    }

    /// Adds a label, replacing an earlier value of the same key.
    fn with_label(self, key: &str, value: &str) -> (r: ContainerRequest<I>)
        ensures
            r@ == (ContainerRequestView { labels: r@.labels, ..self.as_request() }),
            r@.labels == self.as_request().labels.insert(key@, r@.labels[key@]),
            r@.labels[key@]@ == value@,
    {
        let mut r = self.into_request();
        r.labels.insert(key.to_owned(), value.to_owned());
        r
    }

    /// Adds labels, in order; a later value of a key replaces an earlier one.
    fn with_labels(self, labels: Vec<(String, String)>) -> (r: ContainerRequest<I>)
        ensures
            r@ == (ContainerRequestView {
                labels: crate::collections::insert_all(self.as_request().labels, labels@),
                ..self.as_request()
            }),
    {
        let mut r = self.into_request();
        r.labels.extend(labels);
        r
    }

    /// Adds an environment variable, replacing an earlier value of the same name.
    fn with_env_var(self, name: &str, value: &str) -> (r: ContainerRequest<I>)
        ensures
            r@ == (ContainerRequestView { env_vars: r@.env_vars, ..self.as_request() }),
            r@.env_vars == self.as_request().env_vars.insert(name@, r@.env_vars[name@]),
            r@.env_vars[name@]@ == value@,
    {
        let mut r = self.into_request();
        r.env_vars.insert(name.to_owned(), value.to_owned());
        r
    }

    /// Adds an extra host, replacing an earlier one of the same name.
    fn with_host(self, key: &str, value: Host) -> (r: ContainerRequest<I>)
        ensures
            r@ == (ContainerRequestView {
                hosts: self.as_request().hosts.insert(key@, value),
                ..self.as_request()
            }),
    {
        let mut r = self.into_request();
        r.hosts.insert(key.to_owned(), value);
        r
    }

    /// Sets the hostname of the container.
    fn with_hostname(self, hostname: &str) -> (r: ContainerRequest<I>)
        ensures
            r@ == (ContainerRequestView { hostname: Some(hostname@), ..self.as_request() }),
    {
        let mut r = self.into_request();
        r.hostname = Some(hostname.to_owned());
        r
    }

    /// Adds a mount after those already added.
    fn with_mount(self, mount: Mount) -> (r: ContainerRequest<I>)
        ensures
            r@ == (ContainerRequestView {
                mounts: self.as_request().mounts.push(mount@),
                ..self.as_request()
            }),
    {
        let mut r = self.into_request();
        let ghost before = r.mounts@;
        let ghost m = mount@;
        r.mounts.push(mount);
        assert(mounts_view(r.mounts@) =~= mounts_view(before).push(m));
        r
    }

    /// Copies data or a file or directory of the host into the container.
    fn with_copy_to(self, target: CopyTargetOptions, source: CopyDataSource) -> (r: ContainerRequest<I>)
        ensures
            r@ == (ContainerRequestView {
                copy_to_sources: self.as_request().copy_to_sources.push((source@, target@)),
                ..self.as_request()
            }),
    {
        let mut r = self.into_request();
        let ghost before = r.copy_to_sources@;
        let ghost entry = (source@, target@);
        r.copy_to_sources.push(CopyToContainer::new(source, target));
        assert(copies_view(r.copy_to_sources@) =~= copies_view(before).push(entry));
        r
    }

    /// Maps `host_port` to the container's `container_port`, after the mappings already set.
    fn with_mapped_port(self, host_port: u16, container_port: ContainerPort) -> (r: ContainerRequest<I>)
        ensures
            r@ == (ContainerRequestView {
                ports: Some(
                    match self.as_request().ports {
                        Some(p) => p,
                        None => Seq::empty(),
                    }.push((host_port, container_port)),
                ),
                ..self.as_request()
            }),
    {
        let mut r = self.into_request();
        let ghost old_ports = r@.ports;
        let mut ports = match r.ports {
            Some(p) => p,
            None => Vec::new(),
        };
        let ghost before = ports@;
        assert(before.map_values(|p: PortMapping| p@) =~= match old_ports {
            Some(p) => p,
            None => Seq::empty(),
        });
        ports.push(PortMapping::new(host_port, container_port));
        assert(ports@.map_values(|p: PortMapping| p@) =~= before.map_values(|p: PortMapping| p@).push(
            (host_port, container_port),
        ));
        r.ports = Some(ports);
        r
    }

    /// Declares a host port that is reachable from inside the container.
    fn with_exposed_host_port(self, port: u16) -> (r: ContainerRequest<I>)
        ensures
            r@ == (ContainerRequestView { host_port_exposures: r@.host_port_exposures, ..self.as_request() }),
            r@.host_port_exposures matches Some(e) && strictly_increasing(e) && forall|x: u16|
                e.contains(x) <==> ((self.as_request().host_port_exposures matches Some(old)
                    && old.contains(x)) || x == port),
    {
        let mut v: Vec<u16> = Vec::new();
        v.push(port);
        assert(forall|x: u16| v@.contains(x) <==> x == port) by {
            assert(v@[0] == port);
        }
        self.with_exposed_host_ports(v)
    }

    /// Declares host ports that are reachable from inside the container; the declared ports
    /// are kept sorted and without duplicates.
    fn with_exposed_host_ports(self, ports: Vec<u16>) -> (r: ContainerRequest<I>)
        ensures
            r@ == (ContainerRequestView { host_port_exposures: r@.host_port_exposures, ..self.as_request() }),
            r@.host_port_exposures matches Some(e) && strictly_increasing(e) && forall|x: u16|
                e.contains(x) <==> ((self.as_request().host_port_exposures matches Some(old)
                    && old.contains(x)) || ports@.contains(x)),
    {
        let mut r = self.into_request();
        let mut existing: Option<Vec<u16>> = None;
        std::mem::swap(&mut existing, &mut r.host_port_exposures);
        let merged = with_exposed_host_ports(existing, ports);
        r.host_port_exposures = Some(merged);
        r
    }

    /// Adds a resource limit.
    fn with_ulimit(self, name: &str, soft: i64, hard: Option<i64>) -> (r: ContainerRequest<I>)
        ensures
            r@ == (ContainerRequestView {
                ulimits: Some(
                    match self.as_request().ulimits {
                        Some(u) => u,
                        None => Seq::empty(),
                    }.push(UlimitView { name: Some(name@), soft: Some(soft), hard }),
                ),
                ..self.as_request()
            }),
    {
        let mut r = self.into_request();
        let ghost old_ulimits = r@.ulimits;
        let mut ulimits = match r.ulimits {
            Some(u) => u,
            None => Vec::new(),
        };
        let ghost before = ulimits@;
        assert(ulimits_view(before) =~= match old_ulimits {
            Some(u) => u,
            None => Seq::empty(),
        });
        ulimits.push(ResourcesUlimit { name: Some(name.to_owned()), soft: Some(soft), hard });
        assert(ulimits_view(ulimits@) =~= ulimits_view(before).push(
            UlimitView { name: Some(name@), soft: Some(soft), hard },
        ));
        r.ulimits = Some(ulimits);
        r
    }

    /// Sets whether the container runs in privileged mode.
    fn with_privileged(self, privileged: bool) -> (r: ContainerRequest<I>)
        ensures
            r@ == (ContainerRequestView { privileged, ..self.as_request() }),
    {
        let mut r = self.into_request();
        r.privileged = privileged;
        r
    }

    /// Adds a capability to the container.
    fn with_cap_add(self, capability: &str) -> (r: ContainerRequest<I>)
        ensures
            r@ == (ContainerRequestView {
                cap_add: Some(
                    match self.as_request().cap_add {
                        Some(c) => c,
                        None => Seq::empty(),
                    }.push(capability@),
                ),
                ..self.as_request()
            }),
    {
        let mut r = self.into_request();
        let ghost old_value = r@.cap_add;
        let mut caps = match r.cap_add {
            Some(c) => c,
            None => Vec::new(),
        };
        let ghost before = caps@;
        assert(strings_view(before) =~= match old_value {
            Some(c) => c,
            None => Seq::empty(),
        });
        caps.push(capability.to_owned());
        assert(strings_view(caps@) =~= strings_view(before).push(capability@));
        r.cap_add = Some(caps);
        r
    }

    /// Drops a capability from the container.
    fn with_cap_drop(self, capability: &str) -> (r: ContainerRequest<I>)
        ensures
            r@ == (ContainerRequestView {
                cap_drop: Some(
                    match self.as_request().cap_drop {
                        Some(c) => c,
                        None => Seq::empty(),
                    }.push(capability@),
                ),
                ..self.as_request()
            }),
    {
        let mut r = self.into_request();
        let ghost old_value = r@.cap_drop;
        let mut caps = match r.cap_drop {
            Some(c) => c,
            None => Vec::new(),
        };
        let ghost before = caps@;
        assert(strings_view(before) =~= match old_value {
            Some(c) => c,
            None => Seq::empty(),
        });
        caps.push(capability.to_owned());
        assert(strings_view(caps@) =~= strings_view(before).push(capability@));
        r.cap_drop = Some(caps);
        r
    }

    /// Sets the cgroup namespace mode.
    fn with_cgroupns_mode(self, cgroupns_mode: CgroupnsMode) -> (r: ContainerRequest<I>)
        ensures
            r@ == (ContainerRequestView { cgroupns_mode: Some(cgroupns_mode), ..self.as_request() }),
    {
        let mut r = self.into_request();
        r.cgroupns_mode = Some(cgroupns_mode);
        r
    }

    /// Sets the user namespace mode.
    fn with_userns_mode(self, userns_mode: &str) -> (r: ContainerRequest<I>)
        ensures
            r@ == (ContainerRequestView { userns_mode: Some(userns_mode@), ..self.as_request() }),
    {
        let mut r = self.into_request();
        r.userns_mode = Some(userns_mode.to_owned());
        r
    }

    /// Sets the shared memory size in bytes.
    fn with_shm_size(self, bytes: u64) -> (r: ContainerRequest<I>)
        ensures
            r@ == (ContainerRequestView { shm_size: Some(bytes), ..self.as_request() }),
    {
        let mut r = self.into_request();
        r.shm_size = Some(bytes);
        r
    }

    /// Sets the startup timeout.
    fn with_startup_timeout(self, timeout: Duration) -> (r: ContainerRequest<I>)
        ensures
            r@ == (ContainerRequestView { startup_timeout: Some(timeout), ..self.as_request() }),
    {
        let mut r = self.into_request();
        r.startup_timeout = Some(timeout);
        r
    }

    /// Sets the working directory.
    fn with_working_dir(self, working_dir: &str) -> (r: ContainerRequest<I>)
        ensures
            r@ == (ContainerRequestView { working_dir: Some(working_dir@), ..self.as_request() }),
    {
        let mut r = self.into_request();
        r.working_dir = Some(working_dir.to_owned());
        r
    }

    /// Sets whether the container is kept and reused rather than removed when it is dropped.
    fn with_reuse(self, reuse: ReuseDirective) -> (r: ContainerRequest<I>)
        ensures
            r@ == (ContainerRequestView { reuse, ..self.as_request() }),
    {
        let mut r = self.into_request();
        r.reuse = reuse;
        r
    }

    /// Sets the user that commands are run as inside the container.
    fn with_user(self, user: &str) -> (r: ContainerRequest<I>)
        ensures
            r@ == (ContainerRequestView { user: Some(user@), ..self.as_request() }),
    {
        let mut r = self.into_request();
        r.user = Some(user.to_owned());
        r
    }

    /// Sets whether the root filesystem is mounted read-only.
    fn with_readonly_rootfs(self, readonly_rootfs: bool) -> (r: ContainerRequest<I>)
        ensures
            r@ == (ContainerRequestView { readonly_rootfs, ..self.as_request() }),
    {
        let mut r = self.into_request();
        r.readonly_rootfs = readonly_rootfs;
        r
    }

    /// Adds a security option.
    fn with_security_opt(self, security_opt: &str) -> (r: ContainerRequest<I>)
        ensures
            r@ == (ContainerRequestView {
                security_opts: Some(
                    match self.as_request().security_opts {
                        Some(c) => c,
                        None => Seq::empty(),
                    }.push(security_opt@),
                ),
                ..self.as_request()
            }),
    {
        let mut r = self.into_request();
        let ghost old_value = r@.security_opts;
        let mut opts = match r.security_opts {
            Some(c) => c,
            None => Vec::new(),
        };
        let ghost before = opts@;
        assert(strings_view(before) =~= match old_value {
            Some(c) => c,
            None => Seq::empty(),
        });
        opts.push(security_opt.to_owned());
        assert(strings_view(opts@) =~= strings_view(before).push(security_opt@));
        r.security_opts = Some(opts);
        r
    }

    /// Overrides the readiness conditions.
    fn with_ready_conditions(self, ready_conditions: Vec<WaitFor>) -> (r: ContainerRequest<I>)
        ensures
            r@ == (ContainerRequestView { ready_conditions: Some(ready_conditions@), ..self.as_request() }),
    {
        let mut r = self.into_request();
        r.ready_conditions = Some(ready_conditions);
        r
    }

    /// Sets a custom health check, which overrides the image's `HEALTHCHECK`.
    fn with_health_check(self, health_check: Healthcheck) -> (r: ContainerRequest<I>)
        ensures
            r@ == (ContainerRequestView { health_check: Some(health_check@), ..self.as_request() }),
    {
        let mut r = self.into_request();
        r.health_check = Some(health_check);
        r
    }

    /// Sets whether stdin is kept open.
    fn with_open_stdin(self, open_stdin: bool) -> (r: ContainerRequest<I>)
        ensures
            r@ == (ContainerRequestView { open_stdin: Some(open_stdin), ..self.as_request() }),
    {
        let mut r = self.into_request();
        r.open_stdin = Some(open_stdin);
        r
    }
}

impl<I: Image> ImageExt<I> for ContainerRequest<I> {
    open spec fn as_request(self) -> ContainerRequestView<I> {
        self@
    }

    fn into_request(self) -> (r: ContainerRequest<I>) {
        self
    }
}

impl ImageExt<GenericImage> for GenericImage {
    open spec fn as_request(self) -> ContainerRequestView<GenericImage> {
        default_request_view(self)
    }

    fn into_request(self) -> (r: ContainerRequest<GenericImage>) {
        ContainerRequest::from_image(self)
    }
}

/// The image a request runs is the image's own name and tag, each replaced by the
/// overriding one where it is set; a plain image runs as it is named.
pub proof fn law_descriptor_overrides<I: Image>(
    request: ContainerRequestView<I>,
    name: Seq<char>,
    tag: Seq<char>,
)
    ensures
        request_descriptor(ContainerRequestView { image_name: Some(name), image_tag: Some(tag), ..request })
            == name + ":"@ + tag,
        request_descriptor(default_request_view(request.image)) == request.image.name_view() + ":"@
            + request.image.tag_view(),
        request_descriptor(ContainerRequestView { image_tag: Some(tag), ..request }) == (match request.image_name {
            Some(n) => n,
            None => request.image.name_view(),
        }) + ":"@ + tag,
{
}

/// An overriding image name is what the descriptor names, whether or not the tag is
/// overridden too; and an overriding tag is its tag, whether or not the name is.
pub proof fn law_name_and_tag_overrides_are_independent<I: Image>(
    r: ContainerRequestView<I>,
    name: Seq<char>,
    tag: Seq<char>,
)
    ensures
        request_descriptor(ContainerRequestView { image_name: Some(name), image_tag: None, ..r })
            == name + ":"@ + r.image.tag_view(),
        request_descriptor(ContainerRequestView { image_name: None, image_tag: Some(tag), ..r })
            == r.image.name_view() + ":"@ + tag,
        request_descriptor(ContainerRequestView { image_name: Some(name), image_tag: Some(tag), ..r })
            == name + ":"@ + tag,
{
}

} // verus!
