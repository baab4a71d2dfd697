use std::collections::HashMap;
use std::time::Duration;

use testcontainers::buildable::{
    build_parameters, should_build, BuildContextBuilder, BuildImageOptions, BuildableImage,
    GenericBuildableImage, ImagePresence,
};
use testcontainers::container_request::Image;
use testcontainers::collections::StringKeyMap;
use testcontainers::copy::{
    make_path_relative, single_file_entry, CopyDataSource, CopyFromContainerError,
    CopyTargetOptions, CopyToContainer, CopyToContainerCollection, TarEntryKind,
};
use testcontainers::compose::{LocalComposeCli, UpCommand};
use testcontainers::duration::nanos_capped;
use testcontainers::error::{ContainerMissingInfo, TestcontainersError};
use testcontainers::healthcheck::Healthcheck;
use testcontainers::host_exposure::{
    after_failed_connect, initial_retry_state, prepare_host_exposure, HostExposureError, RetryAction,
    RetryState,
};
use testcontainers::image::ContainerState;
use testcontainers::ports::Ports;
use testcontainers::request::{host_and_port, ContainerPort, Host, PortMapping, ReuseDirective};
use testcontainers::wait_for::{CmdWaitFor, WaitFor};

#[test]
fn wait_for_durations() {
    assert_eq!(WaitFor::seconds(2), WaitFor::Duration { length: Duration::from_secs(2) });
    assert_eq!(WaitFor::millis(15), WaitFor::Duration { length: Duration::from_millis(15) });
    assert_eq!(
        WaitFor::millis_from_env_value(Some("250")),
        WaitFor::Duration { length: Duration::from_millis(250) }
    );
    assert_eq!(WaitFor::millis_from_env_value(Some("x")), WaitFor::Nothing);
    assert_eq!(WaitFor::millis_from_env_value(None), WaitFor::Nothing);
    assert_eq!(CmdWaitFor::from(WaitFor::Healthcheck), CmdWaitFor::ExitCode { code: 0 });
    assert_eq!(
        CmdWaitFor::from(WaitFor::message_on_stderr("e")),
        CmdWaitFor::message_on_stderr("e")
    );
    assert_eq!(CmdWaitFor::seconds(1), CmdWaitFor::Duration { length: Duration::from_secs(1) });
}

#[test]
fn durations_in_whole_units() {
    let cli = LocalComposeCli::with_first_parent(vec![], None);
    let up = UpCommand {
        project_name: "p".to_string(),
        wait_timeout: Duration::from_millis(61_999),
        env_vars: vec![],
        build: false,
        pull: false,
    };
    assert_eq!(cli.up(&up).args.last().unwrap(), "61");
    assert_eq!(nanos_capped(Duration::from_secs(1)), 1_000_000_000);
    assert_eq!(nanos_capped(Duration::from_secs(u64::MAX)), i64::MAX);
}

#[test]
fn healthcheck_config() {
    let check = Healthcheck::cmd_shell("test -f /etc/passwd")
        .with_interval(Some(Duration::from_secs(1)))
        .with_retries(Some(3));
    assert_eq!(check.test(), &["CMD-SHELL".to_string(), "test -f /etc/passwd".to_string()][..]);
    let config = check.into_health_config();
    assert_eq!(config.interval, Some(1_000_000_000));
    assert_eq!(config.retries, Some(3));
    assert_eq!(config.timeout, None);
    assert_eq!(Healthcheck::none().test(), &["NONE".to_string()][..]);
    assert_eq!(
        Healthcheck::cmd(vec!["pg_isready".to_string()]).test(),
        &["CMD".to_string(), "pg_isready".to_string()][..]
    );
}

#[test]
fn container_state_ports() {
    let mut v4 = HashMap::new();
    v4.insert(8080u16, 32768u16);
    let state = ContainerState::new("abc", Ports::new(v4, HashMap::new()));
    assert_eq!(state.host_port_ipv4(8080).unwrap(), 32768);
    assert!(matches!(
        state.host_port_ipv6(8080),
        Err(TestcontainersError::PortNotExposed { ref id, port: 8080 }) if id == "abc"
    ));
    assert_eq!(
        ContainerMissingInfo::new("abc", "NetworkSettings").message(),
        "container 'abc' does not have: NetworkSettings"
    );
}

#[test]
fn ports_and_hosts() {
    let mapping = PortMapping::new(8080, ContainerPort::Tcp(80));
    assert_eq!(mapping.host_port(), 8080);
    assert_eq!(mapping.container_port().as_u16(), 80);
    assert_eq!(Host::HostGateway.to_text(), "host-gateway");
    assert_eq!(Host::Addr("10.0.0.1".to_string()).to_text(), "10.0.0.1");
    assert_eq!(host_and_port("0.0.0.0", 8086), "0.0.0.0:8086");
    assert_eq!(ReuseDirective::CurrentSession.as_str(), "current-session");
}

#[test]
fn host_exposure_is_prepared() {
    let hosts: StringKeyMap<Host> = StringKeyMap::new();
    let plan = prepare_host_exposure(Some(vec![9090, 8080, 9090]), &hosts, None, ReuseDirective::Never)
        .unwrap()
        .unwrap();
    assert_eq!(plan.requested_ports, vec![8080, 9090]);
    assert!(plan.password.starts_with("tc-"));
    assert_eq!(plan.password.len(), 29);
    assert_eq!(plan.ssh_port, 22);
    assert!(prepare_host_exposure(None, &hosts, None, ReuseDirective::Never).unwrap().is_none());
    assert!(prepare_host_exposure(Some(vec![]), &hosts, None, ReuseDirective::Never).unwrap().is_none());
}

#[test]
fn host_exposure_refusals() {
    let hosts: StringKeyMap<Host> = StringKeyMap::new();
    let refuse = |ports: Vec<u16>, network: Option<&str>, reuse: ReuseDirective| {
        prepare_host_exposure(Some(ports), &hosts, network.map(|n| n.to_string()), reuse).unwrap_err()
    };
    assert_eq!(refuse(vec![0], None, ReuseDirective::Never), HostExposureError::ZeroPort);
    assert_eq!(refuse(vec![22], None, ReuseDirective::Never), HostExposureError::SshPortReserved);
    assert_eq!(refuse(vec![80], Some("host"), ReuseDirective::Never), HostExposureError::HostNetwork);
    assert_eq!(
        refuse(vec![80], Some("container:db"), ReuseDirective::Never),
        HostExposureError::ContainerNetwork
    );
    assert_eq!(refuse(vec![80], None, ReuseDirective::Always), HostExposureError::ReusableContainer);
    let mut aliased: StringKeyMap<Host> = StringKeyMap::new();
    aliased.insert("host.testcontainers.internal".to_string(), Host::HostGateway);
    assert_eq!(
        prepare_host_exposure(Some(vec![80]), &aliased, None, ReuseDirective::Never).unwrap_err(),
        HostExposureError::AliasDefined
    );
    assert!(HostExposureError::ZeroPort.message().contains("port 0 is invalid"));
}

#[test]
fn retries_back_off_and_stop() {
    let hosts: StringKeyMap<Host> = StringKeyMap::new();
    let plan = prepare_host_exposure(Some(vec![80]), &hosts, None, ReuseDirective::Never).unwrap().unwrap();
    let state = initial_retry_state(&plan);
    assert_eq!(state.attempts, 0);
    let (next, action) = after_failed_connect(RetryState { attempts: 0, delay_ms: 100 }, 2, 300);
    assert_eq!(next, RetryState { attempts: 1, delay_ms: 200 });
    assert_eq!(action, RetryAction::WaitThenRetry { wait_ms: 100 });
    let (next, _) = after_failed_connect(next, 2, 300);
    assert_eq!(next, RetryState { attempts: 2, delay_ms: 300 });
    let (last, action) = after_failed_connect(next, 2, 300);
    assert_eq!(last, next);
    assert_eq!(action, RetryAction::GiveUp);
}

#[test]
fn copy_targets_and_paths() {
    let target = CopyTargetOptions::new("/app/config.toml");
    assert_eq!(target.target(), "/app/config.toml");
    assert_eq!(target.mode(), None);
    assert_eq!(target.data_mode(), 0o644);
    let target = target.with_mode(0o600);
    assert_eq!(target.data_mode(), 0o600);
    assert_eq!(make_path_relative("//app/x"), "app/x");
    assert_eq!(make_path_relative("app"), "app");
    let mut collection = CopyToContainerCollection::new(vec![]);
    collection.add(CopyToContainer::new(CopyDataSource::Data(vec![1]), CopyTargetOptions::new("/d")));
    assert_eq!(collection.entries().len(), 1);
    assert_eq!(collection.entries()[0].target().target(), "/d");
}

#[test]
fn build_options_and_context() {
    let options = BuildImageOptions::new()
        .with_skip_if_exists(true)
        .with_build_arg("A", "1")
        .with_build_arg("A", "2");
    assert!(options.skip_if_exists());
    assert!(!options.no_cache());
    assert_eq!(options.build_args().get("A").unwrap(), "2");

    let context = BuildContextBuilder::default()
        .with_dockerfile_string("FROM alpine")
        .with_file("./src", "src")
        .collect();
    assert_eq!(context.entries().len(), 2);
    assert_eq!(context.entries()[0].target().target(), "Dockerfile");
    assert!(matches!(context.entries()[0].source(), CopyDataSource::Data(d) if d == b"FROM alpine"));

    let image = GenericBuildableImage::new("my-app", "1.0").with_dockerfile("./Dockerfile");
    assert_eq!(image.descriptor(), "my-app:1.0");
    assert_eq!(image.build_context().entries().len(), 1);
    let built = image.into_image();
    assert_eq!((built.name(), built.tag()), ("my-app", "1.0"));
    assert!(built.ready_conditions().is_empty());
}

#[test]
fn map_reads_back_what_was_written() {
    let mut map: StringKeyMap<u32> = StringKeyMap::new();
    map.insert("a".to_string(), 1);
    map.insert("b".to_string(), 2);
    map.insert("a".to_string(), 3);
    assert_eq!(map.get("a"), Some(&3));
    assert_eq!(map.get("b"), Some(&2));
    assert_eq!(map.get("c"), None);
    assert_eq!(map.len(), 2);
    map.extend(vec![("c".to_string(), 4), ("b".to_string(), 5)]);
    assert_eq!(map.get("b"), Some(&5));
    assert_eq!(map.get("c"), Some(&4));
}

#[test]
fn map_keeps_entries_in_the_order_of_their_keys() {
    let mut map: StringKeyMap<u32> = StringKeyMap::new();
    for (k, v) in [("b", 1), ("ab", 2), ("a", 3), ("B", 4), ("é", 5), ("b", 6)] {
        map.insert(k.to_string(), v);
    }
    let keys: Vec<&str> = map.entries().iter().map(|(k, _)| k.as_str()).collect();
    assert_eq!(keys, vec!["B", "a", "ab", "b", "é"]);
    assert_eq!(map.get("b"), Some(&6));
}

#[test]
fn build_decisions_and_parameters() {
    assert!(should_build(false, ImagePresence::Exists));
    assert!(!should_build(true, ImagePresence::Exists));
    assert!(should_build(true, ImagePresence::Missing));
    assert!(should_build(true, ImagePresence::Unknown));
    let options = BuildImageOptions::new().with_no_cache(true);
    let params = build_parameters("my-app:1.0", &options);
    assert_eq!(params.dockerfile, "Dockerfile");
    assert_eq!(params.tag, "my-app:1.0");
    assert!(params.rm && params.nocache && params.buildkit);
    assert_eq!(params.session.len(), 26);
    assert!(params.build_args.is_none());
    let params = build_parameters("x:y", &BuildImageOptions::new().with_build_arg("V", "1"));
    assert_eq!(params.build_args, Some(vec![("V".to_string(), "1".to_string())]));
    assert!(!params.nocache);
}

#[test]
fn single_file_entry_skips_metadata() {
    let kinds = vec![TarEntryKind::Metadata, TarEntryKind::Regular];
    assert!(matches!(single_file_entry(&kinds), Ok(1)));
    let kinds = vec![TarEntryKind::Continuous, TarEntryKind::Metadata];
    assert!(matches!(single_file_entry(&kinds), Ok(0)));
}

#[test]
fn single_file_entry_refusals() {
    assert!(matches!(single_file_entry(&vec![]), Err(CopyFromContainerError::EmptyArchive)));
    assert!(matches!(
        single_file_entry(&vec![TarEntryKind::Metadata]),
        Err(CopyFromContainerError::EmptyArchive)
    ));
    assert!(matches!(
        single_file_entry(&vec![TarEntryKind::Directory]),
        Err(CopyFromContainerError::IsDirectory)
    ));
    assert!(matches!(
        single_file_entry(&vec![TarEntryKind::Regular, TarEntryKind::Regular]),
        Err(CopyFromContainerError::MultipleFilesInArchive)
    ));
    assert!(matches!(
        single_file_entry(&vec![TarEntryKind::Regular, TarEntryKind::Other(b'3')]),
        Err(CopyFromContainerError::UnsupportedEntry(b'3'))
    ));
    assert!(matches!(
        single_file_entry(&vec![TarEntryKind::Other(b'2'), TarEntryKind::Regular]),
        Err(CopyFromContainerError::UnsupportedEntry(b'2'))
    ));
}

#[test]
fn copied_file_and_data_modes() {
    let plain = CopyTargetOptions::new("/f");
    assert_eq!(plain.file_mode(0o755), 0o755);
    assert_eq!(plain.data_mode(), 0o644);
    let set = CopyTargetOptions::new("/f").with_mode(0o600);
    assert_eq!(set.file_mode(0o755), 0o600);
    assert_eq!(set.data_mode(), 0o600);
}

#[test]
fn map_entries_do_not_depend_on_insertion_order() {
    let mut first: StringKeyMap<u32> = StringKeyMap::new();
    first.insert("x".to_string(), 1);
    first.insert("m".to_string(), 2);
    first.insert("c".to_string(), 3);
    let mut second: StringKeyMap<u32> = StringKeyMap::new();
    second.insert("c".to_string(), 3);
    second.insert("x".to_string(), 1);
    second.insert("m".to_string(), 2);
    assert_eq!(first.entries(), second.entries());
}

#[test]
fn copy_target_from_text_has_the_default_mode() {
    let from_str = CopyTargetOptions::from("/app/a.txt");
    assert_eq!(from_str.target(), "/app/a.txt");
    assert_eq!(from_str.mode(), None);
    assert_eq!(from_str.data_mode(), 0o644);
    let from_string = CopyTargetOptions::from("/app/b.txt".to_string());
    assert_eq!(from_string.target(), "/app/b.txt");
    assert_eq!(from_string.mode(), None);
}

#[test]
fn whole_seconds_in_millis_wait_as_seconds() {
    assert_eq!(WaitFor::seconds(3), WaitFor::millis(3000));
    assert_eq!(WaitFor::seconds(3), WaitFor::Duration { length: Duration::from_secs(3) });
}
