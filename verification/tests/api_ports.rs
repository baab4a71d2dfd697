use std::collections::HashMap;
use testcontainers::api;
use testcontainers::cli::{Cli, PortMapping, Ports};

fn binding(port: &str) -> Option<Vec<PortMapping>> {
    Some(vec![PortMapping { ip: "0.0.0.0".to_string(), port: port.to_string() }])
}

#[test]
fn can_deserialize_docker_inspect_response_into_api_ports() {
    let ports = Ports(vec![
        ("18332/tcp".to_string(), binding("33076")),
        ("18333/tcp".to_string(), binding("33075")),
        ("8332/tcp".to_string(), binding("33078")),
        ("8333/tcp".to_string(), binding("33077")),
    ])
    .into_ports();

    let mut mapping = HashMap::new();
    mapping.insert(18332, 33076);
    mapping.insert(18333, 33075);
    mapping.insert(8332, 33078);
    mapping.insert(8333, 33077);
    assert_eq!(ports, api::Ports::new(mapping));
}

#[test]
fn unpublished_ports_are_skipped_and_last_binding_wins() {
    let ports = Ports(vec![
        ("80/tcp".to_string(), None),
        ("81/udp".to_string(), Some(vec![])),
        (
            "82".to_string(),
            Some(vec![
                PortMapping { ip: "0.0.0.0".to_string(), port: "1".to_string() },
                PortMapping { ip: "::".to_string(), port: "2".to_string() },
            ]),
        ),
    ])
    .into_ports();
    assert_eq!(ports.map_to_external_port(80), None);
    assert_eq!(ports.map_to_external_port(81), None);
    assert_eq!(ports.map_to_external_port(82), Some(2));
    assert_eq!(Ports::parse_port("65535"), 65535);
}

#[test]
fn cli_arguments() {
    assert_eq!(Cli::logs_args("abc"), vec!["logs", "-f", "abc"]);
    assert_eq!(Cli::rm_args("abc"), vec!["rm", "-f", "-v", "abc"]);
    assert_eq!(Cli::stop_args("abc"), vec!["stop", "abc"]);
    assert_eq!(Cli::inspect_args("abc"), vec!["inspect", "abc"]);
}
