use std::collections::HashMap;
use testcontainers::config::PropertiesError;
use testcontainers::config::{
    docker_transport, transport_for_scheme, Config, ConfigurationError, ConnectError,
    DockerTransport, DEFAULT_DOCKER_HOST, USER_AGENT_VALUE,
};
use testcontainers::env::Command;

#[test]
fn user_agent_value_has_correct_format() {
    // Verify the User-Agent follows the tc-rust/<version> format
    assert!(
        USER_AGENT_VALUE.starts_with("tc-rust/"),
        "User-Agent should start with 'tc-rust/', got: {}",
        USER_AGENT_VALUE
    );

    // Verify version part is not empty
    let version = USER_AGENT_VALUE.strip_prefix("tc-rust/").unwrap();
    assert!(!version.is_empty(), "Version should not be empty");

    // Verify version matches the package version
    assert_eq!(version, "0.26.0", "Version should match the package version");
}

#[test]
fn user_agent_value_matches_expected() {
    let expected = "tc-rust/0.26.0";
    assert_eq!(USER_AGENT_VALUE, expected);
}

#[test]
fn env_values_are_read() {
    let config = Config::try_from_env_values(
        Some("tcp://localhost:2375"),
        Some("1"),
        Some("/certs"),
        Some("keep"),
    )
    .unwrap();
    assert_eq!(config.docker_host(), "tcp://localhost:2375");
    assert!(config.tls_verify());
    assert_eq!(config.cert_path(), Some("/certs"));
    assert_eq!(config.command(), Command::Keep);
}

#[test]
fn docker_host_is_serialized() {
    let config = Config::try_from_env_values(Some("HTTP://Example.com"), None, None, None).unwrap();
    assert_eq!(config.docker_host(), "http://example.com/");
}

#[test]
fn invalid_docker_host_is_rejected() {
    let r = Config::try_from_env_values(Some("not a url"), None, None, None);
    assert!(matches!(r, Err(ConfigurationError::InvalidDockerHost(ref h)) if h == "not a url"));
}

#[test]
fn defaults_when_nothing_is_set() {
    let config = Config::try_from_env_values(None, Some("0"), None, Some("whatever")).unwrap();
    assert_eq!(config.docker_host(), DEFAULT_DOCKER_HOST);
    assert!(!config.tls_verify());
    assert_eq!(config.cert_path(), None);
    assert_eq!(config.command(), Command::Remove);
}

#[test]
fn docker_host_precedence() {
    let env = Config::try_from_env_values(Some("tcp://env:1"), None, None, None).unwrap();
    let props = Config::from_properties(
        None,
        Some("tcp://props:2".to_string()),
        Some(true),
        Some("/p".to_string()),
    );
    let merged = env.with_fallback(props);
    assert_eq!(merged.docker_host(), "tcp://env:1");
    assert!(merged.tls_verify());
    assert_eq!(merged.cert_path(), Some("/p"));

    let env = Config::try_from_env_values(Some("tcp://env:1"), None, None, None).unwrap();
    let props = Config::from_properties(Some("tcp://tc:3".to_string()), None, None, None);
    assert_eq!(env.with_fallback(props).docker_host(), "tcp://tc:3");

    let env = Config::try_from_env_values(None, None, None, Some("keep")).unwrap();
    let props = Config::from_properties(None, Some("tcp://props:2".to_string()), None, None);
    let merged = env.with_fallback(props);
    assert_eq!(merged.docker_host(), "tcp://props:2");
    assert_eq!(merged.command(), Command::Keep);
}

#[test]
fn transports_by_scheme() {
    assert_eq!(transport_for_scheme("https", false), Some(DockerTransport::Ssl));
    assert_eq!(transport_for_scheme("tcp", false), Some(DockerTransport::Http));
    assert_eq!(transport_for_scheme("http", true), Some(DockerTransport::Ssl));
    assert_eq!(transport_for_scheme("unix", false), Some(DockerTransport::Unix));
    assert_eq!(transport_for_scheme("npipe", false), Some(DockerTransport::NamedPipe));
    assert_eq!(transport_for_scheme("ftp", false), None);
}

#[test]
fn transport_of_config() {
    let config = Config::try_from_env_values(None, None, None, None).unwrap();
    assert_eq!(
        docker_transport(&config),
        Ok((DockerTransport::Unix, DEFAULT_DOCKER_HOST.to_string()))
    );
    let config = Config::try_from_env_values(Some("ftp://host"), None, None, None).unwrap();
    assert_eq!(
        docker_transport(&config),
        Err(ConnectError::UnsupportedUriScheme { uri: "ftp://host/".to_string() })
    );
}

#[test]
fn properties_values() {
    let config = Config::from_property_values(
        Some("http://tc-host"),
        Some("http://docker-host"),
        Some("1"),
        Some("/path/to/cert"),
    )
    .unwrap();
    assert_eq!(config.docker_host(), "http://tc-host/");
    assert!(config.tls_verify());
    assert_eq!(config.cert_path(), Some("/path/to/cert"));
    let config = Config::from_property_values(None, Some("http://docker-host"), Some("0"), None).unwrap();
    assert_eq!(config.docker_host(), "http://docker-host/");
    assert!(!config.tls_verify());
    assert_eq!(
        Config::from_property_values(None, None, Some("2"), None).unwrap_err(),
        PropertiesError::InvalidFlag("2".to_string())
    );
    assert_eq!(
        Config::from_property_values(Some("::"), None, None, None).unwrap_err(),
        PropertiesError::InvalidUrl("::".to_string())
    );
}

#[test]
fn deserialize_java_properties() {
    let tc_host = url::Url::parse("http://tc-host").unwrap();
    let docker_host = url::Url::parse("http://docker-host").unwrap();
    let tls_verify = 1;
    let cert_path = "/path/to/cert";

    let file_content = format!(
        r"
            tc.host={tc_host}
            docker.host={docker_host}
            docker.tls.verify={tls_verify}
            docker.cert.path={cert_path}
        "
    );
    let properties: HashMap<String, String> =
        serde_java_properties::from_slice(file_content.as_bytes()).expect("Failed to parse properties");
    let value = |key: &str| properties.get(key).map(|v| v.as_str());

    let config = Config::from_property_values(
        value("tc.host"),
        value("docker.host"),
        value("docker.tls.verify"),
        value("docker.cert.path"),
    )
    .expect("Failed to parse properties");
    assert_eq!(config.docker_host(), tc_host.to_string());
    assert_eq!(config.tls_verify(), tls_verify == 1);
    assert_eq!(config.cert_path(), Some(cert_path));

    let without_tc_host =
        Config::from_property_values(None, value("docker.host"), None, None).expect("Failed to parse properties");
    assert_eq!(without_tc_host.docker_host(), docker_host.to_string());
}
