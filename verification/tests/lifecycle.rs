use testcontainers::lifecycle::{
    check_health, keeps_containers, pull_platform, registry_server, retry_pull_for_linux_amd64,
    HealthCheck, HealthStatus,
};
use std::time::Duration;
use testcontainers::collections::StringKeyMap;
use testcontainers::config::ConfigurationError;
use testcontainers::container_request::{GenericImage, ImageExt};
use testcontainers::create_config::{create_config, PortBinding};
use testcontainers::env::Command;
use testcontainers::error::TestcontainersError;
use testcontainers::lifecycle::{
    bridge_ip_address, network_mode_of, InspectedNetworks,
};
use testcontainers::lifecycle::{
    check_exit_code, compose_drop_takes_down, container_drop_plan, docker_hostname,
    exec_wait_step, expected_exit_code, most_recent_container_id, reuse_filters,
    try_docker_hostname, DropPlan, ExecWaitStep, ExitCheck,
};
use testcontainers::request::{ContainerPort, ReuseDirective};
use testcontainers::wait_for::CmdWaitFor;

#[test]
fn exec_waits() {
    assert!(matches!(exec_wait_step(&CmdWaitFor::Nothing), ExecWaitStep::Done));
    assert!(matches!(
        exec_wait_step(&CmdWaitFor::message_on_stdout("ok")),
        ExecWaitStep::StdOutMessage(ref m) if m == "ok"
    ));
    assert!(matches!(exec_wait_step(&CmdWaitFor::exit_code(3)), ExecWaitStep::PollExitCode));
    assert!(matches!(
        exec_wait_step(&CmdWaitFor::seconds(1)),
        ExecWaitStep::Sleep(d) if d == Duration::from_secs(1)
    ));
    assert_eq!(expected_exit_code(&CmdWaitFor::exit_code(3)), Some(3));
    assert_eq!(expected_exit_code(&CmdWaitFor::Nothing), None);
    assert_eq!(check_exit_code(Some(0), None), ExitCheck::InspectAgainAfterMillis(500));
    assert_eq!(check_exit_code(Some(0), Some(0)), ExitCheck::Exited);
    assert_eq!(check_exit_code(Some(0), Some(2)), ExitCheck::Mismatch { expected: 0, actual: 2 });
    assert_eq!(check_exit_code(None, Some(2)), ExitCheck::Exited);
}

#[test]
fn reuse_lookup() {
    let mut labels: StringKeyMap<String> = StringKeyMap::new();
    labels.insert("foo".to_string(), "bar".to_string());
    labels.insert("baz".to_string(), "qux".to_string());
    let filters = reuse_filters(Some("test-name"), None, &labels);
    assert_eq!(
        filters,
        vec![
            ("status".to_string(), vec!["running".to_string()]),
            ("name".to_string(), vec!["test-name".to_string()]),
            ("label".to_string(), vec!["baz=qux".to_string(), "foo=bar".to_string()]),
        ]
    );
    let listed = vec![
        (Some(5), Some("a".to_string())),
        (Some(9), Some("b".to_string())),
        (None, Some("c".to_string())),
        (Some(9), Some("d".to_string())),
    ];
    assert_eq!(most_recent_container_id(&listed), Some("d".to_string()));
    assert_eq!(most_recent_container_id(&vec![]), None);
    assert_eq!(most_recent_container_id(&vec![(Some(1), None)]), None);
}

#[test]
fn drop_decisions() {
    assert_eq!(
        container_drop_plan(false, ReuseDirective::Always, Command::Remove),
        DropPlan { shut_down_exposure: false, remove_container: false }
    );
    assert_eq!(
        container_drop_plan(false, ReuseDirective::Never, Command::Remove),
        DropPlan { shut_down_exposure: true, remove_container: true }
    );
    assert_eq!(
        container_drop_plan(false, ReuseDirective::Never, Command::Keep),
        DropPlan { shut_down_exposure: true, remove_container: false }
    );
    assert_eq!(
        container_drop_plan(true, ReuseDirective::CurrentSession, Command::Remove),
        DropPlan { shut_down_exposure: true, remove_container: false }
    );
    assert!(compose_drop_takes_down(false, None));
    assert!(!compose_drop_takes_down(false, Some(Command::Keep)));
    assert!(!compose_drop_takes_down(true, Some(Command::Remove)));
}

#[test]
fn hostnames() {
    assert_eq!(docker_hostname("tcp://10.1.2.3:2375", false, None), Ok("10.1.2.3".to_string()));
    assert_eq!(docker_hostname("unix:///var/run/docker.sock", false, None), Ok("localhost".to_string()));
    assert_eq!(
        docker_hostname("unix:///var/run/docker.sock", true, Some("172.17.0.1".to_string())),
        Ok("172.17.0.1".to_string())
    );
    assert_eq!(
        docker_hostname("unix:///var/run/docker.sock", true, Some("  ".to_string())),
        Ok("localhost".to_string())
    );
    assert_eq!(
        docker_hostname("not a url", false, None),
        Err(ConfigurationError::InvalidDockerHost("relative URL without a base".to_string()))
    );
    assert_eq!(try_docker_hostname("ftp://host", false, None), None);
    assert_eq!(try_docker_hostname("http://h:1", false, None), Some(Ok("h".to_string())));
}

#[test]
fn http_run_command_should_expose_all_ports_if_no_explicit_mapping_requested() {
    let config = create_config(&GenericImage::new("hello-world", "latest").into_request());
    assert_eq!(config.image, "hello-world:latest");
    assert_eq!(config.publish_all_ports, Some(true), "publish_all_ports must be `true`");
    assert!(config.port_bindings.is_none());
}

#[test]
fn http_run_command_should_expose_only_requested_ports() {
    let request = GenericImage::new("hello-world", "latest")
        .with_mapped_port(123, ContainerPort::Tcp(456))
        .with_mapped_port(555, ContainerPort::Tcp(888));
    let config = create_config(&request);
    assert_eq!(config.publish_all_ports, None);
    let bindings = config.port_bindings.unwrap();
    assert_eq!(bindings.len(), 2);
    assert_eq!(bindings[0].0, "456/tcp");
    assert_eq!(
        bindings[0].1,
        vec![PortBinding { host_ip: Some("127.0.0.1".to_string()), host_port: Some("123".to_string()) }]
    );
    assert_eq!(bindings[1].0, "888/tcp");
}

#[test]
fn create_config_carries_request_settings() {
    let image = GenericImage::new("hello-world", "latest")
        .with_exposed_port(ContainerPort::Udp(53))
        .with_entrypoint("/init");
    let request = image
        .with_network("awesome-net-1")
        .with_container_name("hello_container")
        .with_shm_size(1_000_000)
        .with_env_var("A", "1")
        .with_cmd(&["serve", "--port", "1"]);
    let config = create_config(&request);
    assert_eq!(config.network_mode, Some("awesome-net-1".to_string()));
    assert_eq!(config.name, Some("hello_container".to_string()));
    assert_eq!(config.shm_size, Some(1_000_000));
    assert_eq!(config.env, vec!["A=1"]);
    assert_eq!(config.entrypoint, Some(vec!["/init".to_string()]));
    assert_eq!(config.exposed_ports, vec!["53/udp"]);
    assert_eq!(config.cmd, Some(vec!["serve".to_string(), "--port".to_string(), "1".to_string()]));
    let bindings = config.port_bindings.unwrap();
    assert_eq!(bindings, vec![("53/udp".to_string(), vec![PortBinding { host_ip: None, host_port: None }])]);
}

#[test]
fn health_pull_and_registry_decisions() {
    assert_eq!(check_health(Some(HealthStatus::Healthy)), HealthCheck::Ready);
    assert_eq!(check_health(Some(HealthStatus::Starting)), HealthCheck::InspectAgainAfterMillis(100));
    assert_eq!(check_health(Some(HealthStatus::Unhealthy)), HealthCheck::Unhealthy);
    assert_eq!(check_health(Some(HealthStatus::Unset)), HealthCheck::NotConfigured);
    assert_eq!(check_health(None), HealthCheck::NotConfigured);
    assert_eq!(pull_platform(Some("linux/arm64"), Some("linux/amd64")), "linux/arm64");
    assert_eq!(pull_platform(None, Some("linux/amd64")), "linux/amd64");
    assert_eq!(pull_platform(None, None), "");
    assert!(retry_pull_for_linux_amd64(None));
    assert!(retry_pull_for_linux_amd64(Some("linux/386")));
    assert!(!retry_pull_for_linux_amd64(Some("linux/amd64")));
    assert_eq!(registry_server("ghcr.io/org/image:1"), Some("ghcr.io".to_string()));
    assert_eq!(registry_server("redis:7"), None);
    assert!(keeps_containers(Some("true")));
    assert!(!keeps_containers(Some("TRUE")));
    assert!(!keeps_containers(None));
}

#[test]
fn bridge_address_lookup() {
    let inspected = InspectedNetworks {
        host_config: Some(Some("my-net".to_string())),
        network_settings: Some(Some(vec![
            ("bridge".to_string(), Some("172.17.0.2".to_string())),
            ("my-net".to_string(), Some("10.0.0.5".to_string())),
        ])),
    };
    assert_eq!(network_mode_of("c1", &inspected).unwrap(), "my-net");
    assert_eq!(
        bridge_ip_address("c1", "my-net", Some("bridge".to_string()), &inspected).unwrap(),
        "10.0.0.5"
    );
    match bridge_ip_address("c1", "my-net", None, &inspected) {
        Err(TestcontainersError::Other(m)) => assert_eq!(m, "network my-net is not in bridge mode"),
        other => panic!("unexpected {:?}", other),
    }
    match bridge_ip_address("c1", "other", Some("bridge".to_string()), &inspected) {
        Err(TestcontainersError::MissingInfo(info)) => {
            assert_eq!(info.message(), "container 'c1' does not have: NetworkSettings.Networks.IpAddress")
        }
        other => panic!("unexpected {:?}", other),
    }
    let missing = InspectedNetworks { host_config: Some(None), network_settings: None };
    match network_mode_of("c1", &missing) {
        Err(TestcontainersError::MissingInfo(info)) => {
            assert_eq!(info.message(), "container 'c1' does not have: HostConfig.NetworkMode")
        }
        other => panic!("unexpected {:?}", other),
    }
    match bridge_ip_address("c1", "my-net", Some("bridge".to_string()), &missing) {
        Err(TestcontainersError::MissingInfo(info)) => {
            assert_eq!(info.message(), "container 'c1' does not have: NetworkSettings")
        }
        other => panic!("unexpected {:?}", other),
    }
}

#[test]
fn exec_wait_steps_watch_their_streams() {
    let out = exec_wait_step(&CmdWaitFor::message_on_stdout("ok"));
    assert!(out.watches(true) && !out.watches(false));
    let err = exec_wait_step(&CmdWaitFor::message_on_stderr("ok"));
    assert!(!err.watches(true) && err.watches(false));
    let either = exec_wait_step(&CmdWaitFor::message_on_stdout_or_stderr("ok"));
    assert!(either.watches(true) && either.watches(false));
    let done = exec_wait_step(&CmdWaitFor::Nothing);
    assert!(!done.watches(true) && !done.watches(false));
}

#[test]
fn create_config_carries_the_request_mounts() {
    let request = GenericImage::new("hello-world", "latest")
        .with_mount(testcontainers::mounts::Mount::bind_mount("/var/run/docker.sock", "/docker.sock"))
        .with_mount(testcontainers::mounts::Mount::tmpfs_mount("/tmp").with_size_bytes(1024));
    let config = create_config(&request);
    assert_eq!(config.mounts.len(), 2);
    assert_eq!(config.mounts[0].source(), Some("/var/run/docker.sock"));
    assert_eq!(config.mounts[0].target(), Some("/docker.sock"));
    assert_eq!(config.mounts[1].target(), Some("/tmp"));
    assert_eq!(config.mounts[1].tmpfs_options().unwrap().size_bytes, Some(1024));
    assert!(create_config(&GenericImage::new("a", "b").into_request()).mounts.is_empty());
}

#[test]
fn map_length_counts_its_keys() {
    let mut map: StringKeyMap<String> = StringKeyMap::new();
    map.insert("KEY1".to_string(), "value1".to_string());
    map.insert("KEY2".to_string(), "value2".to_string());
    map.insert("KEY1".to_string(), "value3".to_string());
    assert_eq!(map.len(), 2);
}

#[test]
fn created_networks_are_removed_only_when_containers_are() {
    assert!(testcontainers::lifecycle::removes_created_networks(Command::Remove));
    assert!(!testcontainers::lifecycle::removes_created_networks(Command::Keep));
}
