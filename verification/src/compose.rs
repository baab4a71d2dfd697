//! Docker Compose: the options that choose a compose client, the builder of a compose
//! stack, the stack itself with its services, and the `docker compose` command lines that
//! bring a stack up and take it down.
use std::time::Duration;
use vstd::prelude::*;

use crate::collections::{entries_map, keys_sorted, keys_unique, StringKeyMap};
use crate::duration::{duration_as_secs, duration_from_secs, duration_nanos};
use crate::env::Command;
use crate::error::TestcontainersError;
use crate::exec::ExecCommand;
use crate::mounts::{opt_view, AccessMode, Mount, MountType, MountView};
use crate::text::{
    append_decimal, concat_str, copy_strings, decimal, join_seq, join_strings, owned_strings, pairs_view,
    str_eq, strings_view, strs_view,
};
use crate::wait_for::{CmdWaitFor, WaitFor};

verus! {

/// Configuration for the local docker compose client: the compose files.
#[derive(Clone, Debug)]
pub struct LocalComposeOptions {
    compose_files: Vec<String>,
}

impl View for LocalComposeOptions {
    type V = Seq<Seq<char>>;

    closed spec fn view(&self) -> Seq<Seq<char>> {
        strings_view(self.compose_files@)
    }
}

impl LocalComposeOptions {
    /// Options for the given compose files.
    pub fn new(compose_files: &[&str]) -> (r: Self)
        ensures
            r@ == strs_view(compose_files@),
    {
        LocalComposeOptions { compose_files: owned_strings(compose_files) }
    }

    /// The compose files.
    pub fn into_parts(self) -> (r: Vec<String>)
        ensures
            strings_view(r@) == self@,
    {
        self.compose_files
    }
}

/// Configuration for the containerised docker compose client.
///
/// The project directory is used by docker compose to resolve relative paths in compose files.
/// For host-relative bind mounts, pass an absolute host path.
#[derive(Clone, Debug)]
pub struct ContainerisedComposeOptions {
    compose_files: Vec<String>,
    project_directory: Option<String>,
}

impl View for ContainerisedComposeOptions {
    type V = (Seq<Seq<char>>, Option<Seq<char>>);

    closed spec fn view(&self) -> (Seq<Seq<char>>, Option<Seq<char>>) {
        (
            strings_view(self.compose_files@),
            match self.project_directory {
                Some(d) => Some(d@),
                None => None,
            },
        )
    }
}

impl ContainerisedComposeOptions {
    /// Options for the given compose files, with no project directory.
    pub fn new(compose_files: &[&str]) -> (r: Self)
        ensures
            r@ == (strs_view(compose_files@), None::<Seq<char>>),
    {
        ContainerisedComposeOptions { compose_files: owned_strings(compose_files), project_directory: None }
    }

    /// Sets the project directory.
    pub fn with_project_directory(self, project_directory: &str) -> (r: Self)
        ensures
            r@ == (self@.0, Some(project_directory@)),
    {
        ContainerisedComposeOptions { project_directory: Some(project_directory.to_owned()), ..self }
    }

    /// The compose files and the project directory.
    pub fn into_parts(self) -> (r: (Vec<String>, Option<String>))
        ensures
            strings_view(r.0@) == self@.0,
            r.1 matches Some(d) ==> self@.1 == Some(d@),
            r.1 is None ==> self@.1 is None,
    {
        (self.compose_files, self.project_directory)
    }
}

/// Configuration for automatic docker compose client selection: the options of either client.
#[derive(Clone, Debug)]
pub struct AutoComposeOptions {
    local: LocalComposeOptions,
    containerised: ContainerisedComposeOptions,
}

impl View for AutoComposeOptions {
    type V = (Seq<Seq<char>>, (Seq<Seq<char>>, Option<Seq<char>>));

    closed spec fn view(&self) -> (Seq<Seq<char>>, (Seq<Seq<char>>, Option<Seq<char>>)) {
        (self.local@, self.containerised@)
    }
}

impl AutoComposeOptions {
    /// The same compose files for either client, with no project directory.
    pub fn new(compose_files: &[&str]) -> (r: Self)
        ensures
            r@ == (strs_view(compose_files@), (strs_view(compose_files@), None::<Seq<char>>)),
    {
        let local = LocalComposeOptions::new(compose_files);
        let containerised = ContainerisedComposeOptions::new(compose_files);
        AutoComposeOptions { local, containerised }
    }

    /// The local options, and containerised options with the same compose files.
    pub fn from_local(local: LocalComposeOptions) -> (r: Self)
        ensures
            r@ == (local@, (local@, None::<Seq<char>>)),
    {
        let containerised = ContainerisedComposeOptions {
            compose_files: copy_strings(&local.compose_files),
            project_directory: None,
        };
        AutoComposeOptions { local, containerised }
    }

    /// The containerised options, and local options with the same compose files.
    pub fn from_containerised(containerised: ContainerisedComposeOptions) -> (r: Self)
        ensures
            r@ == (containerised@.0, containerised@),
    {
        let local = LocalComposeOptions { compose_files: copy_strings(&containerised.compose_files) };
        AutoComposeOptions { local, containerised }
    }

    /// Replaces the local options.
    pub fn with_local_options(self, local: LocalComposeOptions) -> (r: Self)
        ensures
            r@ == (local@, self@.1),
    {
        AutoComposeOptions { local, ..self }
    }

    /// Replaces the containerised options.
    pub fn with_containerised_options(self, containerised: ContainerisedComposeOptions) -> (r: Self)
        ensures
            r@ == (self@.0, containerised@),
    {
        AutoComposeOptions { containerised, ..self }
    }

    /// The options of either client.
    pub fn into_parts(self) -> (r: (LocalComposeOptions, ContainerisedComposeOptions))
        ensures
            r.0@ == self@.0,
            r.1@ == self@.1,
    {
        (self.local, self.containerised)
    }
}

/// What happens to the services of a compose stack when it is dropped.
#[derive(Debug, Clone, Copy, PartialEq, Eq, Structural)]
pub enum StopMode {
    /// Stop the services.
    Stop,
    /// Stop and remove the services.
    Remove,
}

impl Default for StopMode {
    fn default() -> (r: Self)
        ensures
            r == StopMode::Stop,
    {
        StopMode::Stop
    }
}

/// A builder for a docker compose stack.
#[derive(Debug)]
pub struct DockerComposeBuilder {
    path: String,
    env: StringKeyMap<String>,
    ready_conditions: Vec<(String, WaitFor)>,
    stop_mode: StopMode,
    inherit_io: bool,
}

/// The content of a [`DockerComposeBuilder`].
pub struct DockerComposeBuilderView {
    pub path: Seq<char>,
    pub env: Map<Seq<char>, String>,
    pub ready_conditions: Seq<(Seq<char>, WaitFor)>,
    pub stop_mode: StopMode,
    pub inherit_io: bool,
}

/// The views of service names paired with conditions.
pub open spec fn service_conditions_view(v: Seq<(String, WaitFor)>) -> Seq<(Seq<char>, WaitFor)> {
    v.map_values(|p: (String, WaitFor)| (p.0@, p.1))
}

impl View for DockerComposeBuilder {
    type V = DockerComposeBuilderView;

    closed spec fn view(&self) -> DockerComposeBuilderView {
        DockerComposeBuilderView {
            path: self.path@,
            env: self.env@,
            ready_conditions: service_conditions_view(self.ready_conditions@),
            stop_mode: self.stop_mode,
            inherit_io: self.inherit_io,
        }
    }
}

impl DockerComposeBuilder {
    /// Creates a docker compose builder.
    ///
    /// The path should be the docker compose configuration file, usually `docker-compose.yaml`.
    pub fn new(path: &str) -> (r: Self)
        ensures
            r@.path == path@,
            r@.env == Map::<Seq<char>, String>::empty(),
            r@.ready_conditions.len() == 0,
            r@.stop_mode == StopMode::Stop,
            !r@.inherit_io,
    {
        let r = DockerComposeBuilder {
            path: path.to_owned(),
            env: StringKeyMap::new(),
            ready_conditions: Vec::new(),
            stop_mode: StopMode::Stop,
            inherit_io: false,
        };
        assert(r@.ready_conditions =~= Seq::<(Seq<char>, WaitFor)>::empty());
        r
    }

    /// Adds an environment variable, replacing an earlier value of the same name.
    pub fn env(self, key: &str, value: &str) -> (r: Self)
        ensures
            r@.env == self@.env.insert(key@, r@.env[key@]),
            r@.env[key@]@ == value@,
            r@.path == self@.path,
            r@.ready_conditions == self@.ready_conditions,
            r@.stop_mode == self@.stop_mode,
            r@.inherit_io == self@.inherit_io,
    {
        let mut r = self;
        r.env.insert(key.to_owned(), value.to_owned());
        r
    }

    /// Adds profiles: `COMPOSE_PROFILES` becomes their names joined with commas.
    pub fn profiles(self, profiles: &[&str]) -> (r: Self)
        ensures
            r@.env == self@.env.insert("COMPOSE_PROFILES"@, r@.env["COMPOSE_PROFILES"@]),
            r@.env["COMPOSE_PROFILES"@]@ == join_seq(strs_view(profiles@), ","@),
            r@.path == self@.path,
            r@.ready_conditions == self@.ready_conditions,
            r@.stop_mode == self@.stop_mode,
            r@.inherit_io == self@.inherit_io,
    {
        let names = owned_strings(profiles);
        let joined = join_strings(&names, ",");
        let mut r = self;
        r.env.insert("COMPOSE_PROFILES".to_owned(), joined);
        r
    }

    /// Adds a condition to wait for on a service.
    pub fn wait(self, service: &str, wait: WaitFor) -> (r: Self)
        ensures
            r@.ready_conditions == self@.ready_conditions.push((service@, wait)),
            r@.path == self@.path,
            r@.env == self@.env,
            r@.stop_mode == self@.stop_mode,
            r@.inherit_io == self@.inherit_io,
    {
        let mut r = self;
        let ghost before = r.ready_conditions@;
        r.ready_conditions.push((service.to_owned(), wait));
        assert(service_conditions_view(r.ready_conditions@) =~= service_conditions_view(before).push(
            (service@, wait),
        ));
        r
    }

    /// Sets the stop mode; by default it is [`StopMode::Stop`].
    pub fn stop_with(self, stop_mode: StopMode) -> (r: Self)
        ensures
            r@ == (DockerComposeBuilderView { stop_mode, ..self@ }),
    {
        DockerComposeBuilder { stop_mode, ..self }
    }

    /// Shows the standard output and error of docker compose.
    pub fn inherit_io(self) -> (r: Self)
        ensures
            r@ == (DockerComposeBuilderView { inherit_io: true, ..self@ }),
    {
        DockerComposeBuilder { inherit_io: true, ..self }
    }

    /// The compose file, the environment, the conditions per service, the stop mode and
    /// whether the output is shown.
    pub fn into_parts(self) -> (r: (String, StringKeyMap<String>, Vec<(String, WaitFor)>, StopMode, bool))
        ensures
            r.0@ == self@.path,
            r.1@ == self@.env,
            service_conditions_view(r.2@) == self@.ready_conditions,
            r.3 == self@.stop_mode,
            r.4 == self@.inherit_io,
    {
        (self.path, self.env, self.ready_conditions, self.stop_mode, self.inherit_io)
    }
}

/// Bringing a compose stack up.
#[derive(Debug)]
pub struct UpCommand {
    pub project_name: String,
    pub wait_timeout: Duration,
    /// The environment of docker compose, in the order it is passed on.
    pub env_vars: Vec<(String, String)>,
    pub build: bool,
    pub pull: bool,
}

/// Taking a compose stack down.
#[derive(Debug)]
pub struct DownCommand {
    pub project_name: String,
    pub rmi: bool,
    pub volumes: bool,
}

/// A `docker` process to run: its working directory, arguments and environment.
#[derive(Debug)]
pub struct ComposeInvocation {
    pub program: String,
    pub working_dir: String,
    pub args: Vec<String>,
    pub env: Vec<(String, String)>,
}

/// `-f file` for each compose file, in order.
pub open spec fn file_flags(files: Seq<Seq<char>>) -> Seq<Seq<char>>
    decreases files.len(),
{
    if files.len() == 0 {
        Seq::empty()
    } else {
        file_flags(files.drop_last()) + seq!["-f"@, files.last()]
    }
}

/// `up`, then `--build` and `--pull always` where asked for, then waiting up to
/// `timeout_secs` seconds for the services.
pub open spec fn up_flags(build: bool, pull: bool, timeout_secs: nat) -> Seq<Seq<char>> {
    let b = if build {
        seq!["--build"@]
    } else {
        Seq::empty()
    };
    let p = if pull {
        seq!["--pull"@, "always"@]
    } else {
        Seq::empty()
    };
    seq!["up"@] + b + p + seq!["--wait"@, "--wait-timeout"@, decimal(timeout_secs)]
}

/// `down`, then `--volumes` and `--rmi` where asked for.
pub open spec fn down_flags(volumes: bool, rmi: bool) -> Seq<Seq<char>> {
    let v = if volumes {
        seq!["--volumes"@]
    } else {
        Seq::empty()
    };
    let r = if rmi {
        seq!["--rmi"@]
    } else {
        Seq::empty()
    };
    seq!["down"@] + v + r
}

/// `name=value` for each environment variable, in order.
pub open spec fn env_assignments(env: Seq<(Seq<char>, Seq<char>)>) -> Seq<Seq<char>> {
    env.map_values(|p: (Seq<char>, Seq<char>)| p.0 + "="@ + p.1)
}

/// The whole seconds of a duration.
pub open spec fn whole_secs(d: Duration) -> nat {
    (duration_nanos(d) / 1_000_000_000) as nat
}

/// `m` bind-mounts `source` of the host, read-write, at `target`.
pub open spec fn is_bind_mount_of(m: MountView, source: Seq<char>, target: Seq<char>) -> bool {
    &&& m.mount_type == MountType::Bind
    &&& m.access_mode == AccessMode::ReadWrite
    &&& m.source == Some(source)
    &&& m.target == Some(target)
    &&& m.tmpfs_options is None
}

/// The name of the `i`-th compose file inside the compose container.
pub open spec fn container_compose_file(i: nat) -> Seq<char> {
    "/docker-compose-"@ + decimal(i) + ".yml"@
}

fn push_str(v: &mut Vec<String>, s: &str)
    ensures
        strings_view(final(v)@) == strings_view(old(v)@).push(s@),
{
    let ghost before = v@;
    v.push(s.to_owned());
    assert(strings_view(v@) =~= strings_view(before).push(s@));
}

fn push_file_flags(v: &mut Vec<String>, files: &Vec<String>)
    ensures
        strings_view(final(v)@) == strings_view(old(v)@) + file_flags(strings_view(files@)),
{
    let ghost start = strings_view(v@);
    let ghost fv = strings_view(files@);
    let mut i: usize = 0;
    while i < files.len()
        invariant
            i <= files@.len(),
            fv == strings_view(files@),
            strings_view(v@) == start + file_flags(fv.take(i as int)),
        decreases files.len() - i,
    {
        push_str(v, "-f");
        push_str(v, files[i].as_str());
        proof {
            assert(fv.take(i + 1).drop_last() =~= fv.take(i as int));
            assert(fv.take(i + 1).last() == files@[i as int]@);
        }
        i = i + 1;
        assert(strings_view(v@) =~= start + file_flags(fv.take(i as int)));
    }
    assert(fv.take(files@.len() as int) =~= fv);
}

fn push_up_flags(v: &mut Vec<String>, build: bool, pull: bool, timeout_secs: u64)
    ensures
        strings_view(final(v)@) == strings_view(old(v)@) + up_flags(build, pull, timeout_secs as nat),
{
    let ghost start = strings_view(v@);
    push_str(v, "up");
    if build {
        push_str(v, "--build");
    }
    if pull {
        push_str(v, "--pull");
        push_str(v, "always");
    }
    push_str(v, "--wait");
    push_str(v, "--wait-timeout");
    let mut secs = String::new();
    append_decimal(&mut secs, timeout_secs);
    push_str(v, secs.as_str());
    assert(strings_view(v@) =~= start + up_flags(build, pull, timeout_secs as nat));
}

fn push_down_flags(v: &mut Vec<String>, volumes: bool, rmi: bool)
    ensures
        strings_view(final(v)@) == strings_view(old(v)@) + down_flags(volumes, rmi),
{
    let ghost start = strings_view(v@);
    push_str(v, "down");
    if volumes {
        push_str(v, "--volumes");
    }
    if rmi {
        push_str(v, "--rmi");
    }
    assert(strings_view(v@) =~= start + down_flags(volumes, rmi));
}

fn copy_pairs(v: &Vec<(String, String)>) -> (r: Vec<(String, String)>)
    ensures
        pairs_view(r@) == pairs_view(v@),
{
    let mut r: Vec<(String, String)> = Vec::new();
    let mut i: usize = 0;
    while i < v.len()
        invariant
            i <= v@.len(),
            r@.len() == i,
            pairs_view(r@) == pairs_view(v@.take(i as int)),
        decreases v.len() - i,
    {
        let ghost before = r@;
        let k = v[i].0.clone();
        let val = v[i].1.clone();
        r.push((k, val));
        proof {
            assert forall|j: int| 0 <= j < i + 1 implies #[trigger] pairs_view(r@)[j] == pairs_view(
                v@.take(i + 1),
            )[j] by {
                if j < i {
                    assert(r@[j] == before[j]);
                    assert(pairs_view(before)[j] == pairs_view(v@.take(i as int))[j]);
                }
            }
            assert(pairs_view(r@) =~= pairs_view(v@.take(i + 1)));
        }
        i = i + 1;
    }
    assert(v@.take(v@.len() as int) =~= v@);
    r
}

/// `q` is `p` less some non-empty end: a proper prefix of it.
pub open spec fn is_proper_prefix(q: Seq<char>, p: Seq<char>) -> bool {
    q.len() < p.len() && q == p.take(q.len() as int)
}

/// `p` is a relative path of one component on every platform: non-empty, with no `/`, no
/// `\\` and no `:`.
pub open spec fn is_single_component(p: Seq<char>) -> bool {
    p.len() > 0 && forall|i: int| 0 <= i < p.len() ==> #[trigger] p[i] != '/' && p[i] != '\\'
        && p[i] != ':'
}

/// `p` is a path that names something below a root on every platform: with no `\\` and no
/// `:`, and with some character that is neither `/` nor `.`, so that one of its components
/// is a name.
pub open spec fn is_portable_non_root(p: Seq<char>) -> bool {
    &&& forall|i: int| 0 <= i < p.len() ==> #[trigger] p[i] != '\\' && p[i] != ':'
    &&& exists|i: int| 0 <= i < p.len() && #[trigger] p[i] != '/' && p[i] != '.'
}

/// Returns the parent directory of `path`, as text.
///
/// Calls `std::path::Path::parent`, and converts the parent to text. The standard library
/// documents the parent as the path without its final component, so a parent given as text
/// is a proper prefix of it, and text too; it documents that the empty path has no parent and
/// that a relative path of one component has the empty path as parent, and that only a path
/// that ends in a root or a prefix, or is empty, has no parent. Which prefix the
/// parent of any other path is depends on how the platform splits a path into components,
/// and is not stated here.
#[verifier::external_body]
fn path_parent(path: &str) -> (r: Option<String>)
    ensures
        path@.len() == 0 ==> r is None,
        r is Some ==> is_proper_prefix(r.unwrap()@, path@),
        is_single_component(path@) ==> r is Some && r.unwrap()@.len() == 0,
        is_portable_non_root(path@) ==> r is Some,
{
    match std::path::Path::new(path).parent() {
        Some(parent) => match parent.to_str() {
            Some(text) => Some(text.to_owned()),
            None => None,
        },
        None => None,
    }
}

/// The local docker compose client: the `docker compose` of the host.
#[derive(Debug)]
pub struct LocalComposeCli {
    compose_files: Vec<String>,
    working_dir: String,
}

impl View for LocalComposeCli {
    type V = (Seq<Seq<char>>, Seq<char>);

    closed spec fn view(&self) -> (Seq<Seq<char>>, Seq<char>) {
        (strings_view(self.compose_files@), self.working_dir@)
    }
}

impl LocalComposeCli {
    /// A client for `compose_files`, run in the directory of the first of them.
    pub fn new(compose_files: Vec<String>) -> (r: Self)
        ensures
            r@.0 == strings_view(compose_files@),
            compose_files@.len() == 0 ==> r@.1 == "."@,
            compose_files@.len() > 0 ==> (r@.1 == "."@ || is_proper_prefix(r@.1, compose_files@[0]@)),
            compose_files@.len() > 0 && is_single_component(compose_files@[0]@) ==> r@.1.len() == 0,
            compose_files@.len() > 0 && is_portable_non_root(compose_files@[0]@) ==> is_proper_prefix(
                r@.1,
                compose_files@[0]@,
            ),
    {
        let working_dir = Self::extract_current_dir(&compose_files);
        LocalComposeCli { compose_files, working_dir }
    }

    /// The directory of the first compose file; `.` where there is none.
    fn extract_current_dir(compose_files: &Vec<String>) -> (r: String)
        ensures
            compose_files@.len() == 0 ==> r@ == "."@,
            compose_files@.len() > 0 ==> (r@ == "."@ || is_proper_prefix(r@, compose_files@[0]@)),
            compose_files@.len() > 0 && is_single_component(compose_files@[0]@) ==> r@.len() == 0,
            compose_files@.len() > 0 && is_portable_non_root(compose_files@[0]@) ==> is_proper_prefix(
                r@,
                compose_files@[0]@,
            ),
    {
        let first_parent = if compose_files.len() > 0 {
            path_parent(compose_files[0].as_str())
        } else {
            None
        };
        Self::current_dir_of(first_parent)
    }

    /// The working directory for `first_parent`, the directory of the first compose file:
    /// that directory, or `.` where there is none.
    pub fn current_dir_of(first_parent: Option<String>) -> (r: String)
        ensures
            r@ == (match first_parent {
                Some(p) => p@,
                None => "."@,
            }),
    {
        match first_parent {
            Some(p) => p,
            None => ".".to_owned(),
        }
    }

    /// A client for `compose_files`, run in `first_parent`, the directory of the first
    /// compose file, or in `.` where there is none.
    pub fn with_first_parent(compose_files: Vec<String>, first_parent: Option<String>) -> (r: Self)
        ensures
            r@.0 == strings_view(compose_files@),
            r@.1 == (match first_parent {
                Some(p) => p@,
                None => "."@,
            }),
    {
        let working_dir = Self::current_dir_of(first_parent);
        LocalComposeCli { compose_files, working_dir }
    }

    /// The `docker` process that brings the stack up.
    pub fn up(&self, command: &UpCommand) -> (r: ComposeInvocation)
        ensures
            r.program@ == "docker"@,
            r.working_dir@ == self@.1,
            strings_view(r.args@) == seq!["compose"@, "--project-name"@, command.project_name@]
                + file_flags(self@.0) + up_flags(
                command.build,
                command.pull,
                whole_secs(command.wait_timeout),
            ),
            pairs_view(r.env@) == pairs_view(command.env_vars@),
    {
        let mut args: Vec<String> = Vec::new();
        assert(strings_view(args@) =~= Seq::<Seq<char>>::empty());
        push_str(&mut args, "compose");
        push_str(&mut args, "--project-name");
        push_str(&mut args, command.project_name.as_str());
        assert(strings_view(args@) =~= seq!["compose"@, "--project-name"@, command.project_name@]);
        push_file_flags(&mut args, &self.compose_files);
        let secs = duration_as_secs(command.wait_timeout);
        push_up_flags(&mut args, command.build, command.pull, secs);
        ComposeInvocation {
            program: "docker".to_owned(),
            working_dir: self.working_dir.clone(),
            args,
            env: copy_pairs(&command.env_vars),
        }
    }

    /// The `docker` process that takes the stack down.
    pub fn down(&self, command: &DownCommand) -> (r: ComposeInvocation)
        ensures
            r.program@ == "docker"@,
            r.working_dir@ == self@.1,
            strings_view(r.args@) == seq!["compose"@, "--project-name"@, command.project_name@]
                + down_flags(command.volumes, command.rmi),
            r.env@.len() == 0,
    {
        let mut args: Vec<String> = Vec::new();
        assert(strings_view(args@) =~= Seq::<Seq<char>>::empty());
        push_str(&mut args, "compose");
        push_str(&mut args, "--project-name");
        push_str(&mut args, command.project_name.as_str());
        assert(strings_view(args@) =~= seq!["compose"@, "--project-name"@, command.project_name@]);
        push_down_flags(&mut args, command.volumes, command.rmi);
        ComposeInvocation {
            program: "docker".to_owned(),
            working_dir: self.working_dir.clone(),
            args,
            env: Vec::new(),
        }
    }
}

/// The containerised docker compose client: `docker compose` run inside a container that
/// has the compose files mounted.
#[derive(Debug)]
pub struct ContainerisedComposeCli {
    compose_files_in_container: Vec<String>,
}

impl View for ContainerisedComposeCli {
    type V = Seq<Seq<char>>;

    closed spec fn view(&self) -> Seq<Seq<char>> {
        strings_view(self.compose_files_in_container@)
    }
}

impl ContainerisedComposeCli {
    /// A client for `compose_files`, with the bind mounts that place the `i`-th compose file
    /// at `/docker-compose-{i}.yml` in the container.
    pub fn new(compose_files: &Vec<String>) -> (r: (Self, Vec<Mount>))
        ensures
            r.0@.len() == compose_files@.len(),
            r.1@.len() == compose_files@.len(),
            forall|i: int|
                0 <= i < compose_files@.len() ==> #[trigger] r.0@[i] == container_compose_file(
                    i as nat,
                ) && is_bind_mount_of(r.1@[i]@, compose_files@[i]@, container_compose_file(i as nat)),
    {
        let mut names: Vec<String> = Vec::new();
        let mut mounts: Vec<Mount> = Vec::new();
        let mut i: usize = 0;
        while i < compose_files.len()
            invariant
                i <= compose_files@.len(),
                names@.len() == i,
                mounts@.len() == i,
                forall|j: int|
                    0 <= j < i ==> #[trigger] names@[j]@ == container_compose_file(j as nat)
                        && is_bind_mount_of(mounts@[j]@, compose_files@[j]@, container_compose_file(j as nat)),
            decreases compose_files.len() - i,
        {
            let mut name = "/docker-compose-".to_owned();
            append_decimal(&mut name, i as u64);
            name.append(".yml");
            assert(name@ == container_compose_file(i as nat));
            let mount = Mount::bind_mount(compose_files[i].as_str(), name.as_str());
            let ghost names_before = names@;
            let ghost mounts_before = mounts@;
            names.push(name);
            mounts.push(mount);
            proof {
                assert forall|j: int| 0 <= j < i implies names@[j] == names_before[j] && mounts@[j]
                    == mounts_before[j] by {}
            }
            i = i + 1;
        }
        let ghost names_view = names@;
        let r = (ContainerisedComposeCli { compose_files_in_container: names }, mounts);
        assert forall|i: int| 0 <= i < compose_files@.len() implies #[trigger] r.0@[i]
            == container_compose_file(i as nat) && is_bind_mount_of(
            r.1@[i]@,
            compose_files@[i]@,
            container_compose_file(i as nat),
        ) by {
            assert(r.0@[i] == names_view[i]@);
            assert(names_view[i]@ == container_compose_file(i as nat));
        }
        r
    }

    /// The command, run in the container, that brings the stack up: the environment
    /// assignments, then `docker compose` with the compose files inside the container.
    pub fn up(&self, command: &UpCommand) -> (r: ExecCommand)
        ensures
            r.cmd_view() == env_assignments(pairs_view(command.env_vars@)) + seq![
                "docker"@,
                "compose"@,
                "--project-name"@,
                command.project_name@,
            ] + file_flags(self@) + up_flags(
                command.build,
                command.pull,
                whole_secs(command.wait_timeout),
            ),
            r.cmd_ready_condition_view() == CmdWaitFor::Nothing,
            r.container_ready_conditions_view().len() == 0,
            r.env_vars_view() == Map::<Seq<char>, String>::empty(),
    {
        let mut cmd: Vec<String> = Vec::new();
        let ghost ev = pairs_view(command.env_vars@);
        assert(strings_view(cmd@) =~= env_assignments(ev.take(0)));
        let mut i: usize = 0;
        while i < command.env_vars.len()
            invariant
                i <= command.env_vars@.len(),
                ev == pairs_view(command.env_vars@),
                strings_view(cmd@) == env_assignments(ev.take(i as int)),
            decreases command.env_vars.len() - i,
        {
            let mut assignment = concat_str(command.env_vars[i].0.as_str(), "=");
            assignment.append(command.env_vars[i].1.as_str());
            push_str(&mut cmd, assignment.as_str());
            i = i + 1;
            assert(strings_view(cmd@) =~= env_assignments(ev.take(i as int)));
        }
        assert(ev.take(command.env_vars@.len() as int) =~= ev);
        let ghost before = strings_view(cmd@);
        push_str(&mut cmd, "docker");
        push_str(&mut cmd, "compose");
        push_str(&mut cmd, "--project-name");
        push_str(&mut cmd, command.project_name.as_str());
        assert(strings_view(cmd@) =~= before + seq![
            "docker"@,
            "compose"@,
            "--project-name"@,
            command.project_name@,
        ]);
        push_file_flags(&mut cmd, &self.compose_files_in_container);
        let secs = duration_as_secs(command.wait_timeout);
        push_up_flags(&mut cmd, command.build, command.pull, secs);
        ExecCommand::new(cmd)
    }

    /// The command, run in the container, that takes the stack down and is waited for until
    /// it exits with code 0.
    pub fn down(&self, command: &DownCommand) -> (r: ExecCommand)
        ensures
            r.cmd_view() == seq!["docker"@, "compose"@, "--project-name"@, command.project_name@]
                + down_flags(command.volumes, command.rmi),
            r.cmd_ready_condition_view() == (CmdWaitFor::ExitCode { code: 0 }),
            r.container_ready_conditions_view().len() == 0,
            r.env_vars_view() == Map::<Seq<char>, String>::empty(),
    {
        let mut cmd: Vec<String> = Vec::new();
        assert(strings_view(cmd@) =~= Seq::<Seq<char>>::empty());
        push_str(&mut cmd, "docker");
        push_str(&mut cmd, "compose");
        push_str(&mut cmd, "--project-name");
        push_str(&mut cmd, command.project_name.as_str());
        assert(strings_view(cmd@) =~= seq![
            "docker"@,
            "compose"@,
            "--project-name"@,
            command.project_name@,
        ]);
        push_down_flags(&mut cmd, command.volumes, command.rmi);
        ExecCommand::new(cmd).with_cmd_ready_condition(CmdWaitFor::exit_code(0))
    }
}

/// A docker compose client: the host's `docker compose`, or one run in a container.
#[derive(Debug)]
pub enum ComposeClient {
    Local(LocalComposeCli),
    Containerised(ContainerisedComposeCli),
}

/// How a compose command is run: as a process of the host, or as a command executed in the
/// compose container.
#[derive(Debug)]
pub enum ComposeRun {
    Process(ComposeInvocation),
    Exec(ExecCommand),
}

impl ComposeClient {
    /// The local client for `compose_files`.
    pub fn new_local(compose_files: Vec<String>) -> (r: Self)
        ensures
            r matches ComposeClient::Local(c) && c@.0 == strings_view(compose_files@),
            compose_files@.len() == 0 ==> (r matches ComposeClient::Local(c) && c@.1 == "."@),
    {
        ComposeClient::Local(LocalComposeCli::new(compose_files))
    }

    /// How the stack is brought up.
    pub fn up(&self, command: &UpCommand) -> (r: ComposeRun)
        ensures
            match *self {
                ComposeClient::Local(c) => (r matches ComposeRun::Process(p) && strings_view(p.args@)
                    == seq!["compose"@, "--project-name"@, command.project_name@] + file_flags(c@.0)
                    + up_flags(command.build, command.pull, whole_secs(command.wait_timeout))
                    && p.working_dir@ == c@.1 && p.program@ == "docker"@ && pairs_view(p.env@)
                    == pairs_view(command.env_vars@)),
                ComposeClient::Containerised(c) => (r matches ComposeRun::Exec(e) && e.cmd_view()
                    == env_assignments(pairs_view(command.env_vars@)) + seq![
                    "docker"@,
                    "compose"@,
                    "--project-name"@,
                    command.project_name@,
                ] + file_flags(c@) + up_flags(
                    command.build,
                    command.pull,
                    whole_secs(command.wait_timeout),
                ) && e.cmd_ready_condition_view() == CmdWaitFor::Nothing
                    && e.container_ready_conditions_view().len() == 0
                    && e.env_vars_view() == Map::<Seq<char>, String>::empty()),
            },
    {
        match self {
            ComposeClient::Local(c) => ComposeRun::Process(c.up(command)),
            ComposeClient::Containerised(c) => ComposeRun::Exec(c.up(command)),
        }
    }

    /// How the stack is taken down.
    pub fn down(&self, command: &DownCommand) -> (r: ComposeRun)
        ensures
            match *self {
                ComposeClient::Local(c) => (r matches ComposeRun::Process(p) && strings_view(p.args@)
                    == seq!["compose"@, "--project-name"@, command.project_name@] + down_flags(
                    command.volumes,
                    command.rmi,
                ) && p.working_dir@ == c@.1 && p.program@ == "docker"@ && p.env@.len() == 0),
                ComposeClient::Containerised(c) => (r matches ComposeRun::Exec(e) && e.cmd_view()
                    == seq!["docker"@, "compose"@, "--project-name"@, command.project_name@]
                    + down_flags(command.volumes, command.rmi) && e.cmd_ready_condition_view() == (
                CmdWaitFor::ExitCode { code: 0 }) && e.container_ready_conditions_view().len() == 0
                    && e.env_vars_view() == Map::<Seq<char>, String>::empty()),
            },
    {
        match self {
            ComposeClient::Local(c) => ComposeRun::Process(c.down(command)),
            ComposeClient::Containerised(c) => ComposeRun::Exec(c.down(command)),
        }
    }
}

/// The label that names the compose project of a container.
pub const COMPOSE_PROJECT_LABEL: &'static str = "com.docker.compose.project";

/// The label that names the compose service of a container.
pub const COMPOSE_SERVICE_LABEL: &'static str = "com.docker.compose.service";

/// The value of the first label named `key`.
pub open spec fn first_label_value(labels: Seq<(Seq<char>, Seq<char>)>, key: Seq<char>) -> Option<
    Seq<char>,
>
    decreases labels.len(),
{
    if labels.len() == 0 {
        None
    } else if labels[0].0 == key {
        Some(labels[0].1)
    } else {
        first_label_value(labels.drop_first(), key)
    }
}

/// A listed container as its labels and id, either of which may be missing.
pub open spec fn listed_view(c: (Option<Vec<(String, String)>>, Option<String>)) -> (
    Option<Seq<(Seq<char>, Seq<char>)>>,
    Option<Seq<char>>,
) {
    (
        match c.0 {
            Some(l) => Some(pairs_view(l@)),
            None => None,
        },
        opt_view(c.1),
    )
}

/// The services of a stack from its listed containers: each container with an id and a
/// service label stands for that service; a later container of a service replaces an
/// earlier one.
pub open spec fn services_map(cs: Seq<(Option<Vec<(String, String)>>, Option<String>)>) -> Map<
    Seq<char>,
    Seq<char>,
>
    decreases cs.len(),
{
    if cs.len() == 0 {
        Map::empty()
    } else {
        let m = services_map(cs.drop_last());
        let c = listed_view(cs.last());
        match (c.0, c.1) {
            (Some(labels), Some(id)) => match first_label_value(labels, COMPOSE_SERVICE_LABEL@) {
                Some(service) => m.insert(service, id),
                None => m,
            },
            _ => m,
        }
    }
}

fn label_value(labels: &Vec<(String, String)>, key: &str) -> (r: Option<String>)
    ensures
        opt_view(r) == first_label_value(pairs_view(labels@), key@),
{
    let ghost lv = pairs_view(labels@);
    assert(lv.skip(0) =~= lv);
    let mut i: usize = 0;
    while i < labels.len()
        invariant
            i <= labels@.len(),
            lv == pairs_view(labels@),
            first_label_value(lv.skip(i as int), key@) == first_label_value(lv, key@),
        decreases labels.len() - i,
    {
        assert(lv.skip(i as int)[0] == (labels@[i as int].0@, labels@[i as int].1@));
        if str_eq(labels[i].0.as_str(), key) {
            return Some(labels[i].1.clone());
        }
        assert(lv.skip(i as int).drop_first() =~= lv.skip(i + 1));
        i = i + 1;
    }
    assert(lv.skip(i as int) =~= Seq::<(Seq<char>, Seq<char>)>::empty());
    None
}

/// The container of each service of a compose stack, from the containers listed with the
/// stack's project label.
pub fn discover_services(containers: &Vec<(Option<Vec<(String, String)>>, Option<String>)>) -> (r:
    StringKeyMap<String>)
    ensures
        forall|k: Seq<char>| #[trigger] r@.contains_key(k) <==> services_map(containers@).contains_key(k),
        forall|k: Seq<char>| r@.contains_key(k) ==> (#[trigger] r@[k])@ == services_map(containers@)[k],
{
    let mut r: StringKeyMap<String> = StringKeyMap::new();
    let mut i: usize = 0;
    while i < containers.len()
        invariant
            i <= containers@.len(),
            forall|k: Seq<char>| #[trigger] r@.contains_key(k) <==> services_map(containers@.take(i as int)).contains_key(k),
            forall|k: Seq<char>| r@.contains_key(k) ==> (#[trigger] r@[k])@ == services_map(containers@.take(i as int))[k],
        decreases containers.len() - i,
    {
        proof {
            assert(containers@.take(i + 1).drop_last() =~= containers@.take(i as int));
            assert(containers@.take(i + 1).last() == containers@[i as int]);
        }
        if let (Some(labels), Some(id)) = (&containers[i].0, &containers[i].1) {
            if let Some(service) = label_value(labels, COMPOSE_SERVICE_LABEL) {
                r.insert(service, id.clone());
            }
        }
        i = i + 1;
    }
    assert(containers@.take(containers@.len() as int) =~= containers@);
    r
}

/// Both clients bring a stack up with the same `docker compose` command: the containerised
/// one runs `docker` itself in its container, with the environment as assignments in front
/// and its copies of the compose files in place of the host's; both take a stack down alike.
pub proof fn law_clients_agree(
    env: Seq<(Seq<char>, Seq<char>)>,
    project: Seq<char>,
    host_files: Seq<Seq<char>>,
    container_files: Seq<Seq<char>>,
    build: bool,
    pull: bool,
    timeout_secs: nat,
    volumes: bool,
    rmi: bool,
)
    ensures
        ({
            let local = seq!["compose"@, "--project-name"@, project] + file_flags(host_files)
                + up_flags(build, pull, timeout_secs);
            let containerised = env_assignments(env) + seq![
                "docker"@,
                "compose"@,
                "--project-name"@,
                project,
            ] + file_flags(container_files) + up_flags(build, pull, timeout_secs);
            &&& containerised.skip(env.len() as int).take(4) == seq!["docker"@].add(local.take(3))
            &&& containerised.skip(env.len() + 4 + 2 * container_files.len() as int) == local.skip(
                3 + 2 * host_files.len() as int,
            )
            &&& seq!["docker"@, "compose"@, "--project-name"@, project] + down_flags(volumes, rmi)
                == seq!["docker"@] + (seq!["compose"@, "--project-name"@, project] + down_flags(
                volumes,
                rmi,
            ))
        }),
{
    let local = seq!["compose"@, "--project-name"@, project] + file_flags(host_files) + up_flags(
        build,
        pull,
        timeout_secs,
    );
    let containerised = env_assignments(env) + seq!["docker"@, "compose"@, "--project-name"@, project]
        + file_flags(container_files) + up_flags(build, pull, timeout_secs);
    lemma_file_flags_len(host_files);
    lemma_file_flags_len(container_files);
    assert(containerised.skip(env.len() as int).take(4) =~= seq!["docker"@].add(local.take(3)));
    assert(containerised.skip(env.len() + 4 + 2 * container_files.len() as int) =~= local.skip(
        3 + 2 * host_files.len() as int,
    ));
    assert(seq!["docker"@, "compose"@, "--project-name"@, project] + down_flags(volumes, rmi)
        =~= seq!["docker"@] + (seq!["compose"@, "--project-name"@, project] + down_flags(
        volumes,
        rmi,
    )));
}

/// Two flags for each compose file.
pub proof fn lemma_file_flags_len(files: Seq<Seq<char>>)
    ensures
        file_flags(files).len() == 2 * files.len(),
    decreases files.len(),
{
    if files.len() > 0 {
        lemma_file_flags_len(files.drop_last());
    }
}


/// Why a compose stack could not be brought up.
#[derive(Debug)]
pub enum ComposeError {
    /// A condition was given for a service that the stack does not have.
    ServiceNotFound(String),
    /// Talking to the Docker daemon failed.
    Testcontainers(TestcontainersError),
}

/// A random name for a compose project: `uuid::Uuid::new_v4`, written by its `Display` in
/// the hyphenated form of 36 characters. Which name comes out is chance.
#[verifier::external_body]
fn random_project_name() -> (r: String)
    ensures
        r@.len() == 36,
{
    uuid::Uuid::new_v4().to_string()
}

/// A compose stack: its client, its project, the environment of docker compose, the
/// condition to wait for on each service, the container of each discovered service, and
/// what taking it down removes.
#[derive(Debug)]
pub struct DockerCompose {
    project_name: String,
    client: ComposeClient,
    remove_volumes: bool,
    remove_images: bool,
    build: bool,
    pull: bool,
    services: StringKeyMap<String>,
    env_vars: StringKeyMap<String>,
    wait_strategies: StringKeyMap<WaitFor>,
    dropped: bool,
    command: Option<Command>,
}

/// The content of a [`DockerCompose`] besides its client.
pub struct DockerComposeView {
    pub project_name: Seq<char>,
    pub remove_volumes: bool,
    pub remove_images: bool,
    pub build: bool,
    pub pull: bool,
    /// The container id of each discovered service.
    pub services: Map<Seq<char>, Seq<char>>,
    pub env_vars: Map<Seq<char>, Seq<char>>,
    pub wait_strategies: Map<Seq<char>, WaitFor>,
    /// Whether the stack was taken down.
    pub dropped: bool,
    /// The command of the Docker client that discovered the services, if any did.
    pub command: Option<Command>,
}

/// The text of each value of a map of strings.
pub open spec fn text_values(m: Map<Seq<char>, String>) -> Map<Seq<char>, Seq<char>> {
    m.map_values(|s: String| s@)
}

impl View for DockerCompose {
    type V = DockerComposeView;

    closed spec fn view(&self) -> DockerComposeView {
        DockerComposeView {
            project_name: self.project_name@,
            remove_volumes: self.remove_volumes,
            remove_images: self.remove_images,
            build: self.build,
            pull: self.pull,
            services: text_values(self.services@),
            env_vars: text_values(self.env_vars@),
            wait_strategies: self.wait_strategies@,
            dropped: self.dropped,
            command: self.command,
        }
    }
}

/// `v` lists, in the order of their names, each service of `c` with a condition to wait for,
/// with its container id and the condition.
pub open spec fn lists_service_waits(v: Seq<(String, String, WaitFor)>, c: DockerComposeView) -> bool {
    &&& forall|i: int| #![trigger v[i]] 0 <= i < v.len() ==> {
        &&& c.wait_strategies.contains_key(v[i].0@)
        &&& c.wait_strategies[v[i].0@] == v[i].2
        &&& c.services[v[i].0@] == v[i].1@
    }
    &&& forall|k: Seq<char>| #[trigger] c.wait_strategies.contains_key(k) ==> exists|i: int|
        0 <= i < v.len() && v[i].0@ == k
    &&& forall|i: int, j: int|
        0 <= i < j < v.len() ==> crate::collections::key_less(#[trigger] v[i].0@, #[trigger] v[j].0@)
}

/// A stack as made: named at random, removing its volumes but not its images when taken
/// down, neither building nor pulling, with nothing discovered, set or awaited yet.
pub open spec fn is_fresh_stack(v: DockerComposeView) -> bool {
    &&& v.project_name.len() == 36
    &&& v.remove_volumes
    &&& !v.remove_images
    &&& !v.build
    &&& !v.pull
    &&& v.services == Map::<Seq<char>, Seq<char>>::empty()
    &&& v.env_vars == Map::<Seq<char>, Seq<char>>::empty()
    &&& v.wait_strategies == Map::<Seq<char>, WaitFor>::empty()
    &&& !v.dropped
    &&& v.command is None
}

impl DockerCompose {
    /// The client that runs docker compose for the stack.
    pub closed spec fn client_view(&self) -> ComposeClient {
        self.client
    }

    /// A stack run by `client`, under a random project name.
    pub fn new(client: ComposeClient) -> (r: Self)
        ensures
            is_fresh_stack(r@),
            r.client_view() == client,
    {
        let r = DockerCompose {
            project_name: random_project_name(),
            client,
            remove_volumes: true,
            remove_images: false,
            build: false,
            pull: false,
            services: StringKeyMap::new(),
            env_vars: StringKeyMap::new(),
            wait_strategies: StringKeyMap::new(),
            dropped: false,
            command: None,
        };
        assert(r@.services =~= Map::<Seq<char>, Seq<char>>::empty());
        assert(r@.env_vars =~= Map::<Seq<char>, Seq<char>>::empty());
        r
    }

    /// A stack of the given compose files, run by the host's `docker compose`.
    pub fn with_local_client(options: LocalComposeOptions) -> (r: Self)
        ensures
            is_fresh_stack(r@),
            r.client_view() matches ComposeClient::Local(c) && c@.0 == options@,
    {
        DockerCompose::new(ComposeClient::new_local(options.into_parts()))
    }

    /// The client that runs docker compose for the stack.
    pub fn client(&self) -> (r: &ComposeClient)
        ensures
            *r == self.client_view(),
    {
        &self.client
    }

    /// The name of the compose project.
    pub fn project_name(&self) -> (r: &str)
        ensures
            r@ == self@.project_name,
    {
        self.project_name.as_str()
    }

    /// Sets an environment variable of docker compose.
    pub fn with_env(self, key: &str, value: &str) -> (r: Self)
        ensures
            r@ == (DockerComposeView { env_vars: self@.env_vars.insert(key@, value@), ..self@ }),
            r.client_view() == self.client_view(),
    {
        let mut r = self;
        let value = value.to_owned();
        let ghost before = r.env_vars@;
        r.env_vars.insert(key.to_owned(), value);
        assert(text_values(r.env_vars@) =~= text_values(before).insert(key@, value@));
        r
    }

    /// Sets several environment variables of docker compose, in order; a later value of a
    /// name wins.
    pub fn with_env_vars(self, vars: Vec<(String, String)>) -> (r: Self)
        ensures
            r@ == (DockerComposeView {
                env_vars: text_values(crate::collections::insert_all(self.env_map(), vars@)),
                ..self@
            }),
            r.client_view() == self.client_view(),
    {
        let mut r = self;
        r.env_vars.extend(vars);
        r
    }

    /// The environment of docker compose, with its values as strings.
    pub closed spec fn env_map(&self) -> Map<Seq<char>, String> {
        self.env_vars@
    }

    /// Waits for `wait` on `service` when the stack is brought up, in place of an earlier
    /// condition for it.
    pub fn with_wait_for_service(self, service: &str, wait: WaitFor) -> (r: Self)
        ensures
            r@ == (DockerComposeView {
                wait_strategies: self@.wait_strategies.insert(service@, wait),
                ..self@
            }),
            r.client_view() == self.client_view(),
    {
        let mut r = self;
        r.wait_strategies.insert(service.to_owned(), wait);
        r
    }

    /// Names the compose project `project_name` in place of the random name.
    pub fn with_project_name(self, project_name: &str) -> (r: Self)
        ensures
            r@ == (DockerComposeView { project_name: project_name@, ..self@ }),
            r.client_view() == self.client_view(),
    {
        DockerCompose { project_name: project_name.to_owned(), ..self }
    }

    /// Whether images are built before the services start.
    pub fn with_build(self, build: bool) -> (r: Self)
        ensures
            r@ == (DockerComposeView { build, ..self@ }),
            r.client_view() == self.client_view(),
    {
        DockerCompose { build, ..self }
    }

    /// Whether images are pulled before the services start.
    pub fn with_pull(self, pull: bool) -> (r: Self)
        ensures
            r@ == (DockerComposeView { pull, ..self@ }),
            r.client_view() == self.client_view(),
    {
        DockerCompose { pull, ..self }
    }

    /// Whether taking the stack down removes its volumes (it does by default).
    pub fn with_remove_volumes(&mut self, remove_volumes: bool) -> (r: &mut Self)
        ensures
            (*r)@ == (DockerComposeView { remove_volumes, ..old(self)@ }),
            (*r).client_view() == old(self).client_view(),
            *final(self) == *final(r),
    {
        self.remove_volumes = remove_volumes;
        self
    }

    /// Whether taking the stack down removes its images (it does not by default).
    pub fn with_remove_images(&mut self, remove_images: bool) -> (r: &mut Self)
        ensures
            (*r)@ == (DockerComposeView { remove_images, ..old(self)@ }),
            (*r).client_view() == old(self).client_view(),
            *final(self) == *final(r),
    {
        self.remove_images = remove_images;
        self
    }
    /// The container id of `name`, if the stack has that service.
    pub fn service(&self, name: &str) -> (r: Option<&String>)
        ensures
            r is Some == self@.services.contains_key(name@),
            r matches Some(id) ==> id@ == self@.services[name@],
    {
        self.services.get(name)
    }

    /// The names of the discovered services, in order.
    pub fn services(&self) -> (r: Vec<String>)
        ensures
            forall|i: int| 0 <= i < r@.len() ==> self@.services.contains_key(#[trigger] r@[i]@),
            forall|k: Seq<char>| #[trigger] self@.services.contains_key(k) ==> exists|i: int|
                0 <= i < r@.len() && r@[i]@ == k,
            forall|i: int, j: int|
                0 <= i < j < r@.len() ==> crate::collections::key_less(#[trigger] r@[i]@, #[trigger] r@[j]@),
    {
        let entries = self.services.entries();
        let mut names: Vec<String> = Vec::new();
        let mut i: usize = 0;
        while i < entries.len()
            invariant
                i <= entries@.len(),
                names@.len() == i,
                forall|j: int| 0 <= j < i ==> #[trigger] names@[j]@ == entries@[j].0@,
            decreases entries.len() - i,
        {
            names.push(entries[i].0.clone());
            i = i + 1;
        }
        proof {
            assert forall|j: int| 0 <= j < names@.len() implies self@.services.contains_key(
                #[trigger] names@[j]@,
            ) by {
                crate::collections::lemma_entries_map_at(entries@, j);
            }
            assert forall|k: Seq<char>| #[trigger] self@.services.contains_key(k) implies exists|
                j: int,
            | 0 <= j < names@.len() && names@[j]@ == k by {
                let j = choose|j: int| 0 <= j < entries@.len() && #[trigger] entries@[j].0@ == k;
                assert(names@[j]@ == k);
            }
            assert forall|a: int, b: int| 0 <= a < b < names@.len() implies crate::collections::key_less(
                #[trigger] names@[a]@,
                #[trigger] names@[b]@,
            ) by {
                assert(names@[a]@ == entries@[a].0@ && names@[b]@ == entries@[b].0@);
            }
        }
        names
    }

    /// What bringing the stack up asks of its client: the project, a minute to wait for the
    /// services, the environment in the order of its names, and whether to build and pull.
    pub fn up_command(&self) -> (r: UpCommand)
        ensures
            r.project_name@ == self@.project_name,
            duration_nanos(r.wait_timeout) == 60_000_000_000,
            keys_sorted(r.env_vars@),
            keys_unique(r.env_vars@),
            text_values(entries_map(r.env_vars@)) == self@.env_vars,
            r.build == self@.build,
            r.pull == self@.pull,
    {
        let entries = self.env_vars.entries();
        let mut env: Vec<(String, String)> = Vec::new();
        let mut i: usize = 0;
        while i < entries.len()
            invariant
                i <= entries@.len(),
                env@ == entries@.take(i as int),
            decreases entries.len() - i,
        {
            env.push((entries[i].0.clone(), entries[i].1.clone()));
            i = i + 1;
            assert(env@ =~= entries@.take(i as int));
        }
        assert(entries@.take(entries@.len() as int) =~= entries@);
        UpCommand {
            project_name: self.project_name.clone(),
            wait_timeout: duration_from_secs(60),
            env_vars: env,
            build: self.build,
            pull: self.pull,
        }
    }

    /// Records the services that the containers listed with the project's label stand for,
    /// over any recorded before, and the command of the Docker client that listed them.
    pub fn record_services(
        &mut self,
        containers: &Vec<(Option<Vec<(String, String)>>, Option<String>)>,
        command: Command,
    )
        ensures
            final(self)@ == (DockerComposeView {
                services: old(self)@.services.union_prefer_right(services_map(containers@)),
                command: Some(command),
                ..old(self)@
            }),
            final(self).client_view() == old(self).client_view(),
    {
        let ghost start = old(self)@.services;
        let mut i: usize = 0;
        assert(start.union_prefer_right(services_map(containers@.take(0))) =~= start);
        while i < containers.len()
            invariant
                i <= containers@.len(),
                text_values(self.services@) == start.union_prefer_right(
                    services_map(containers@.take(i as int)),
                ),
                self.project_name == old(self).project_name,
                self.client == old(self).client,
                self.remove_volumes == old(self).remove_volumes,
                self.remove_images == old(self).remove_images,
                self.build == old(self).build,
                self.pull == old(self).pull,
                self.env_vars == old(self).env_vars,
                self.wait_strategies == old(self).wait_strategies,
                self.dropped == old(self).dropped,
                self.command == old(self).command,
            decreases containers.len() - i,
        {
            proof {
                assert(containers@.take(i + 1).drop_last() =~= containers@.take(i as int));
                assert(containers@.take(i + 1).last() == containers@[i as int]);
            }
            if let (Some(labels), Some(id)) = (&containers[i].0, &containers[i].1) {
                if let Some(service) = label_value(labels, COMPOSE_SERVICE_LABEL) {
                    let ghost before = self.services@;
                    let ghost m = services_map(containers@.take(i as int));
                    let id = id.clone();
                    let ghost k = service@;
                    let ghost v = id@;
                    self.services.insert(service, id);
                    assert(text_values(self.services@) =~= text_values(before).insert(k, v));
                    assert(start.union_prefer_right(m.insert(k, v)) =~= start.union_prefer_right(
                        m,
                    ).insert(k, v));
                }
            }
            i = i + 1;
        }
        assert(containers@.take(containers@.len() as int) =~= containers@);
        self.command = Some(command);
    }

    /// What to wait for once the stack is up: each service with a condition, in the order of
    /// their names, with its container id and the condition; refused where a service with a
    /// condition was not discovered.
    pub fn service_waits(&self) -> (r: Result<Vec<(String, String, WaitFor)>, ComposeError>)
        ensures
            r is Ok <==> (forall|k: Seq<char>| #[trigger] self@.wait_strategies.contains_key(k)
                ==> self@.services.contains_key(k)),
            r matches Err(e) ==> (e matches ComposeError::ServiceNotFound(s)
                && self@.wait_strategies.contains_key(s@) && !self@.services.contains_key(s@)),
            r matches Ok(v) ==> lists_service_waits(v@, self@),
    {
        let entries = self.wait_strategies.entries();
        let mut waits: Vec<(String, String, WaitFor)> = Vec::new();
        let mut i: usize = 0;
        while i < entries.len()
            invariant
                i <= entries@.len(),
                keys_sorted(entries@),
                keys_unique(entries@),
                self.wait_strategies@ == entries_map(entries@),
                waits@.len() == i,
                forall|j: int| #![trigger waits@[j]] 0 <= j < i ==> {
                    &&& waits@[j].0@ == entries@[j].0@
                    &&& waits@[j].2 == entries@[j].1
                    &&& self@.services.contains_key(entries@[j].0@)
                    &&& self@.services[entries@[j].0@] == waits@[j].1@
                },
            decreases entries.len() - i,
        {
            proof {
                crate::collections::lemma_entries_map_at(entries@, i as int);
            }
            match self.services.get(entries[i].0.as_str()) {
                Some(id) => {
                    let ghost before = waits@;
                    waits.push((entries[i].0.clone(), id.clone(), entries[i].1.clone()));
                    proof {
                        assert forall|j: int| #![trigger waits@[j]] 0 <= j < i + 1 implies {
                            &&& waits@[j].0@ == entries@[j].0@
                            &&& waits@[j].2 == entries@[j].1
                            &&& self@.services.contains_key(entries@[j].0@)
                            &&& self@.services[entries@[j].0@] == waits@[j].1@
                        } by {
                            if j < i {
                                assert(waits@[j] == before[j]);
                            }
                        }
                    }
                },
                None => {
                    proof {
                        let k = entries@[i as int].0@;
                        assert(self@.wait_strategies.contains_key(k));
                        assert(!self@.services.contains_key(k));
                    }
                    return Err(ComposeError::ServiceNotFound(entries[i].0.clone()));
                },
            }
            i = i + 1;
        }
        proof {
            assert forall|k: Seq<char>| #[trigger] self@.wait_strategies.contains_key(k) implies exists|
                j: int,
            | 0 <= j < waits@.len() && waits@[j].0@ == k by {
                let j = choose|j: int| 0 <= j < entries@.len() && #[trigger] entries@[j].0@ == k;
                assert(waits@[j].0@ == k);
            }
            assert forall|k: Seq<char>| #[trigger] self@.wait_strategies.contains_key(k) implies self@.services.contains_key(k) by {
                let j = choose|j: int| 0 <= j < entries@.len() && #[trigger] entries@[j].0@ == k;
                assert(waits@[j].0@ == k);
            }
            assert forall|j: int| #![trigger waits@[j]] 0 <= j < waits@.len() implies {
                &&& self@.wait_strategies.contains_key(waits@[j].0@)
                &&& self@.wait_strategies[waits@[j].0@] == waits@[j].2
                &&& self@.services[waits@[j].0@] == waits@[j].1@
            } by {
                crate::collections::lemma_entries_map_at(entries@, j);
            }
            assert forall|a: int, b: int| 0 <= a < b < waits@.len() implies crate::collections::key_less(
                #[trigger] waits@[a].0@,
                #[trigger] waits@[b].0@,
            ) by {
                assert(waits@[a].0@ == entries@[a].0@ && waits@[b].0@ == entries@[b].0@);
            }
        }
        assert(lists_service_waits(waits@, self@));
        Ok(waits)
    }

    /// What taking the stack down asks of its client; `None` once it was taken down.
    pub fn down_command(&self) -> (r: Option<DownCommand>)
        ensures
            r is None <==> self@.dropped,
            r matches Some(c) ==> c.project_name@ == self@.project_name && c.rmi
                == self@.remove_images && c.volumes == self@.remove_volumes,
    {
        if self.dropped {
            None
        } else {
            Some(
                DownCommand {
                    project_name: self.project_name.clone(),
                    rmi: self.remove_images,
                    volumes: self.remove_volumes,
                },
            )
        }
    }

    /// Records that the stack was taken down: it has no services left and no Docker client.
    pub fn mark_down(&mut self)
        ensures
            final(self)@ == (DockerComposeView {
                services: Map::<Seq<char>, Seq<char>>::empty(),
                dropped: true,
                command: None,
                ..old(self)@
            }),
            final(self).client_view() == old(self).client_view(),
    {
        self.services = StringKeyMap::new();
        self.dropped = true;
        self.command = None;
        assert(text_values(self.services@) =~= Map::<Seq<char>, Seq<char>>::empty());
    }

    /// What dropping the stack asks of its client: it is taken down unless it was already, or
    /// the command of its Docker client keeps containers.
    pub fn drop_command(&self) -> (r: Option<DownCommand>)
        ensures
            r is Some <==> (!self@.dropped && match self@.command {
                Some(c) => c == Command::Remove,
                None => true,
            }),
            r matches Some(c) ==> c.project_name@ == self@.project_name && c.rmi
                == self@.remove_images && c.volumes == self@.remove_volumes,
    {
        if crate::lifecycle::compose_drop_takes_down(self.dropped, self.command) {
            Some(
                DownCommand {
                    project_name: self.project_name.clone(),
                    rmi: self.remove_images,
                    volumes: self.remove_volumes,
                },
            )
        } else {
            None
        }
    }

}

/// A decimal number starts with a digit.
proof fn lemma_decimal_starts_with_digit(n: nat)
    ensures
        decimal(n).len() > 0,
        '0' <= decimal(n)[0] <= '9',
    decreases n,
{
    if n >= 10 {
        lemma_decimal_starts_with_digit(n / 10);
        assert(decimal(n)[0] == decimal(n / 10)[0]);
    }
}

/// The `up` command line pulls images exactly when pulling is asked for, and builds them
/// exactly when building is, each whatever the other is.
pub proof fn law_up_builds_and_pulls_exactly_as_asked(build: bool, pull: bool, timeout_secs: nat)
    ensures
        up_flags(build, pull, timeout_secs).contains("--pull"@) <==> pull,
        up_flags(build, pull, timeout_secs).contains("always"@) <==> pull,
        up_flags(build, pull, timeout_secs).contains("--build"@) <==> build,
{
    reveal_strlit("up");
    reveal_strlit("--build");
    reveal_strlit("--pull");
    reveal_strlit("always");
    reveal_strlit("--wait");
    reveal_strlit("--wait-timeout");
    let f = up_flags(build, pull, timeout_secs);
    let d = decimal(timeout_secs);
    lemma_decimal_starts_with_digit(timeout_secs);
    assert(d != "--pull"@ && d != "--build"@ && d != "always"@) by {
        assert("--pull"@[0] == '-' && "--build"@[0] == '-' && "always"@[0] == 'a');
    }
    let b: int = if build { 1 } else { 0 };
    let p: int = if pull { 2 } else { 0 };
    assert(f.len() == 4 + b + p);
    assert(f[0] == "up"@);
    assert(build ==> f[1] == "--build"@);
    assert(pull ==> f[1 + b] == "--pull"@ && f[2 + b] == "always"@);
    assert(f[1 + b + p] == "--wait"@ && f[2 + b + p] == "--wait-timeout"@ && f[3 + b + p] == d);
    assert("--wait"@[2] == 'w' && "--pull"@[2] == 'p' && "--wait"@[0] == '-');
    assert("up"@.len() == 2 && "--build"@.len() == 7 && "--wait-timeout"@.len() == 14);
    assert("--pull"@.len() == 6 && "always"@.len() == 6);
    assert(!pull ==> forall|i: int| 0 <= i < f.len() ==> f[i] != "--pull"@ && f[i] != "always"@);
    assert(!build ==> forall|i: int| 0 <= i < f.len() ==> f[i] != "--build"@);
}

} // verus!
