use testcontainers::collections::StringKeyMap;
use testcontainers::error::TestcontainersError;
use testcontainers::host_port_mapping::{
    detect_native_host_mapping, is_docker_desktop, is_docker_version_at_least,
    setup_host_mapping, supports_host_gateway, DockerVersionProbe,
};
use testcontainers::request::Host;

#[test]
fn test_version_parsing() {
    // Test supported versions
    assert!(is_docker_version_at_least("20.10.17", 20, 10));
    assert!(is_docker_version_at_least("24.0.0", 20, 10));
    assert!(is_docker_version_at_least("21.0.0", 20, 10));

    // Test unsupported versions
    assert!(!is_docker_version_at_least("19.03.12", 20, 10));
    assert!(!is_docker_version_at_least("20.9.0", 20, 10));
    assert!(!is_docker_version_at_least("invalid", 20, 10));

    // Edge cases for version parsing
    assert!(!is_docker_version_at_least("", 20, 10));
    assert!(!is_docker_version_at_least("20", 20, 10));
    assert!(!is_docker_version_at_least("abc.def", 20, 10));
    assert!(is_docker_version_at_least("20.10", 20, 10));
    assert!(is_docker_version_at_least("20.10.0.extra.stuff", 20, 10));
}

#[test]
fn test_setup_host_mapping_no_ports() {
    let mut hosts: StringKeyMap<Host> = StringKeyMap::new();
    let ports: Vec<u16> = vec![];

    setup_host_mapping(&mut hosts, &ports, None).unwrap();

    // Should never add host mapping when no ports are exposed
    assert!(!hosts.contains_key("host.testcontainers.internal"));
}

#[test]
fn setup_host_mapping_adds_alias_for_exposed_ports() {
    let mut hosts: StringKeyMap<Host> = StringKeyMap::new();
    setup_host_mapping(&mut hosts, &[8080], Some(Host::HostGateway)).unwrap();
    assert!(hosts.contains_key("host.testcontainers.internal"));
    assert!(matches!(hosts.get("host.testcontainers.internal"), Some(Host::HostGateway)));
}

#[test]
fn setup_host_mapping_fails_without_native_mapping() {
    let mut hosts: StringKeyMap<Host> = StringKeyMap::new();
    let r = setup_host_mapping(&mut hosts, &[8080], None);
    assert!(matches!(r, Err(TestcontainersError::HostPortMappingUnavailable)));
    assert_eq!(hosts.len(), 0);
}

#[test]
fn host_gateway_and_desktop_detection() {
    assert!(is_docker_desktop("macos"));
    assert!(is_docker_desktop("windows"));
    assert!(!is_docker_desktop("linux"));
    assert!(matches!(
        detect_native_host_mapping(false, true),
        Some(Host::Hostname(ref h)) if h == "host.docker.internal"
    ));
    assert!(matches!(
        detect_native_host_mapping(true, false),
        Some(Host::HostGateway)
    ));
    assert!(detect_native_host_mapping(false, false).is_none());
    assert!(!supports_host_gateway(false, &DockerVersionProbe::Unavailable));
    assert!(supports_host_gateway(true, &DockerVersionProbe::Failed));
    assert!(supports_host_gateway(true, &DockerVersionProbe::Version("24.0.7".to_owned())));
    assert!(!supports_host_gateway(true, &DockerVersionProbe::Version("19.03.1".to_owned())));
}
