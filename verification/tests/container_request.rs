use testcontainers::container_request::{ContainerRequest, GenericImage, Image, ImageExt};
use testcontainers::copy::{CopyDataSource, CopyTargetOptions};
use testcontainers::mounts::Mount;
use testcontainers::request::{CgroupnsMode, ContainerPort, Host, ReuseDirective};
use testcontainers::wait_for::WaitFor;

#[test]
fn test_with_exposed_host_port_single() {
    let image = GenericImage::new("test", "latest");
    let request = image.with_exposed_host_port(8080);

    assert_eq!(request.host_port_exposures(), Some(&[8080u16][..]));
}

#[test]
fn test_with_exposed_host_ports_multiple() {
    let image = GenericImage::new("test", "latest");
    let request = image.with_exposed_host_ports(vec![8080, 9090, 3000]);

    assert_eq!(request.host_port_exposures(), Some(&[3000u16, 8080, 9090][..]));
}

#[test]
fn test_with_exposed_host_ports_deduplication() {
    let image = GenericImage::new("test", "latest");
    let request = image.with_exposed_host_ports(vec![8080, 9090, 8080, 3000, 9090]);

    assert_eq!(request.host_port_exposures(), Some(&[3000u16, 8080, 9090][..]));
}

#[test]
fn test_with_exposed_host_ports_empty() {
    let image = GenericImage::new("test", "latest");
    let request = image.with_exposed_host_ports(vec![]);

    assert_eq!(request.host_port_exposures(), Some(&[][..]));
}

#[test]
fn test_with_exposed_host_ports_chaining() {
    let image = GenericImage::new("test", "latest");
    let request = image.with_exposed_host_port(8080).with_exposed_host_ports(vec![9090, 3000]);

    assert_eq!(request.host_port_exposures(), Some(&[3000u16, 8080, 9090][..]));
}

#[test]
fn test_with_exposed_host_ports_preserves_existing() {
    let image = GenericImage::new("test", "latest");
    let request = image.with_exposed_host_port(8080);

    // The first call already declared 8080; now more ports are added
    let request = request.with_exposed_host_ports(vec![9090, 3000]);

    assert_eq!(request.host_port_exposures(), Some(&[3000u16, 8080, 9090][..]));
}

#[test]
fn plain_image_request_has_defaults() {
    let request = ContainerRequest::from_image(GenericImage::new("hello-world", "latest"));
    assert_eq!(request.descriptor(), "hello-world:latest");
    assert_eq!(request.host_port_exposures(), None);
    assert!(request.ports().is_none());
    assert!(!request.privileged());
    assert!(!request.readonly_rootfs());
    assert_eq!(request.reuse(), ReuseDirective::Never);
    assert!(request.ready_conditions().is_empty());
    assert!(request.cmd().is_empty());
    assert!(request.env_vars().is_empty());
    assert!(request.mounts().is_empty());
    assert_eq!(request.labels().len(), 0);
}

#[test]
fn name_and_tag_overrides_make_the_descriptor() {
    let request = GenericImage::new("redis", "5.0").with_name("my.registry/redis").with_tag("7");
    assert_eq!(request.descriptor(), "my.registry/redis:7");
    let request = GenericImage::new("redis", "5.0").with_tag("7");
    assert_eq!(request.descriptor(), "redis:7");
}

#[test]
fn overridden_cmd_wins_over_image_cmd() {
    let request = GenericImage::new("image", "tag").with_cmd(&["arg1", "arg2"]);
    assert_eq!(request.cmd(), vec!["arg1", "arg2"]);
}

#[test]
fn ready_conditions_override_image_conditions() {
    let image = GenericImage::new("image", "tag").with_wait_for(WaitFor::message_on_stdout("up"));
    let request = ContainerRequest::from_image(image);
    assert_eq!(request.ready_conditions(), vec![WaitFor::message_on_stdout("up")]);
    let request = request.with_ready_conditions(vec![WaitFor::Healthcheck]);
    assert_eq!(request.ready_conditions(), vec![WaitFor::Healthcheck]);
}

#[test]
fn env_vars_follow_image_env_and_replace_by_name() {
    let request = GenericImage::new("image", "tag")
        .with_env_var("A", "1")
        .with_env_var("B", "2")
        .with_env_var("A", "3");
    let env = request.env_vars();
    assert_eq!(env.len(), 2);
    assert!(env.contains(&("A".to_string(), "3".to_string())));
    assert!(env.contains(&("B".to_string(), "2".to_string())));
}

#[test]
fn request_env_vars_come_in_the_order_of_their_names() {
    let request = GenericImage::new("image", "tag")
        .with_env_var("Z", "1")
        .with_env_var("M", "2")
        .with_env_var("A", "3");
    assert_eq!(
        request.env_vars(),
        vec![
            ("A".to_string(), "3".to_string()),
            ("M".to_string(), "2".to_string()),
            ("Z".to_string(), "1".to_string()),
        ]
    );
}

#[test]
fn labels_hosts_and_mounts_are_added() {
    let request = GenericImage::new("image", "tag")
        .with_label("k", "v")
        .with_labels(vec![("x".to_string(), "1".to_string()), ("k".to_string(), "w".to_string())])
        .with_host("gw", Host::HostGateway)
        .with_mount(Mount::bind_mount("/h", "/c"))
        .with_copy_to(CopyTargetOptions::new("/app/data.bin"), CopyDataSource::Data(vec![1, 2]));
    assert_eq!(request.labels().get("k").unwrap(), "w");
    assert_eq!(request.labels().get("x").unwrap(), "1");
    assert!(request.hosts().contains_key("gw"));
    assert_eq!(request.mounts().len(), 1);
    assert_eq!(request.mounts()[0].target(), Some("/c"));
    assert_eq!(request.copy_to_sources().len(), 1);
}

#[test]
fn settings_are_recorded() {
    let request = GenericImage::new("image", "tag")
        .with_exposed_port(ContainerPort::Tcp(80))
        .with_mapped_port(8080, ContainerPort::Tcp(80))
        .with_mapped_port(8443, ContainerPort::Tcp(443))
        .with_ulimit("nofile", 65536, Some(65536))
        .with_privileged(true)
        .with_cap_add("NET_ADMIN")
        .with_cap_drop("MKNOD")
        .with_cgroupns_mode(CgroupnsMode::Private)
        .with_userns_mode("host")
        .with_shm_size(1_000_000)
        .with_working_dir("/work")
        .with_user("nobody")
        .with_readonly_rootfs(true)
        .with_security_opt("no-new-privileges")
        .with_network("awesome-net-1")
        .with_container_name("hello_container")
        .with_platform("linux/amd64")
        .with_hostname("box")
        .with_reuse(ReuseDirective::Always)
        .with_open_stdin(true);
    let ports = request.ports().unwrap();
    assert_eq!(ports.len(), 2);
    assert_eq!(ports[1].host_port(), 8443);
    assert_eq!(ports[1].container_port(), ContainerPort::Tcp(443));
    assert_eq!(request.expose_ports(), vec![ContainerPort::Tcp(80)]);
    let ulimit = &request.ulimits().unwrap()[0];
    assert_eq!(ulimit.name.as_deref(), Some("nofile"));
    assert_eq!(ulimit.soft, Some(65536));
    assert!(request.privileged());
    assert_eq!(request.cap_add(), Some(&vec!["NET_ADMIN".to_string()]));
    assert_eq!(request.cap_drop(), Some(&vec!["MKNOD".to_string()]));
    assert!(matches!(request.cgroupns_mode(), Some(CgroupnsMode::Private)));
    assert_eq!(request.userns_mode(), Some("host"));
    assert_eq!(request.shm_size(), Some(1_000_000));
    assert_eq!(request.working_dir(), Some("/work"));
    assert_eq!(request.user(), Some("nobody"));
    assert!(request.readonly_rootfs());
    assert_eq!(request.security_opts(), Some(&vec!["no-new-privileges".to_string()]));
    assert_eq!(request.network(), &Some("awesome-net-1".to_string()));
    assert_eq!(request.container_name(), &Some("hello_container".to_string()));
    assert_eq!(request.platform(), &Some("linux/amd64".to_string()));
    assert_eq!(request.hostname(), Some("box"));
    assert_eq!(request.reuse(), ReuseDirective::Always);
    assert_eq!(request.open_stdin(), Some(true));
}

#[test]
fn generic_image_reports_its_settings() {
    let image = GenericImage::new("alpine", "3")
        .with_entrypoint("/bin/sh")
        .with_wait_for(WaitFor::seconds(1));
    assert_eq!(image.name(), "alpine");
    assert_eq!(image.tag(), "3");
    assert_eq!(image.entrypoint(), Some("/bin/sh".to_string()));
    assert_eq!(image.ready_conditions().len(), 1);
    assert!(image.cmd().is_empty());
    let request = ContainerRequest::from_image(image);
    assert_eq!(request.entrypoint(), Some("/bin/sh".to_string()));
}

fn started_state() -> testcontainers::image::ContainerState {
    testcontainers::image::ContainerState::new(
        "id",
        testcontainers::ports::Ports::new(std::collections::HashMap::new(), std::collections::HashMap::new()),
    )
}

#[test]
fn generic_image_executes_nothing_after_start() {
    let image = GenericImage::new("hello-world", "latest");
    assert!(image.exec_after_start(started_state()).unwrap().is_empty());
    let request = GenericImage::new("hello-world", "latest").with_env_var("A", "1");
    assert!(request.exec_after_start(started_state()).unwrap().is_empty());
}
