use testcontainers::compose::{discover_services, ComposeClient, ComposeError, ComposeRun, DockerCompose};
use testcontainers::env::Command;
use std::time::Duration;
use testcontainers::compose::{
    AutoComposeOptions, ContainerisedComposeCli, ContainerisedComposeOptions, DockerComposeBuilder,
    DownCommand, LocalComposeCli, LocalComposeOptions, StopMode, UpCommand,
};
use testcontainers::mounts::MountType;
use testcontainers::wait_for::{CmdWaitFor, WaitFor};

fn up(env: Vec<(String, String)>, build: bool, pull: bool) -> UpCommand {
    UpCommand {
        project_name: "proj".to_string(),
        wait_timeout: Duration::from_secs(60),
        env_vars: env,
        build,
        pull,
    }
}

#[test]
fn compose_options() {
    let local = LocalComposeOptions::new(&["a.yml", "b.yml"]);
    let auto = AutoComposeOptions::from_local(local);
    let (local, containerised) = auto.into_parts();
    assert_eq!(local.into_parts(), vec!["a.yml", "b.yml"]);
    assert_eq!(containerised.into_parts(), (vec!["a.yml".to_string(), "b.yml".to_string()], None));

    let containerised =
        ContainerisedComposeOptions::new(&["/home/me/app/docker-compose.yml"]).with_project_directory("/home/me/app");
    let auto = AutoComposeOptions::from_containerised(containerised);
    let (local, containerised) = auto.into_parts();
    assert_eq!(local.into_parts(), vec!["/home/me/app/docker-compose.yml"]);
    assert_eq!(containerised.into_parts().1, Some("/home/me/app".to_string()));

    let auto = AutoComposeOptions::new(&["x.yml"])
        .with_local_options(LocalComposeOptions::new(&["y.yml"]))
        .with_containerised_options(ContainerisedComposeOptions::new(&["z.yml"]));
    let (local, containerised) = auto.into_parts();
    assert_eq!(local.into_parts(), vec!["y.yml"]);
    assert_eq!(containerised.into_parts().0, vec!["z.yml"]);
}

#[test]
fn compose_builder() {
    let builder = DockerComposeBuilder::new("docker-compose.yaml")
        .env("A", "1")
        .profiles(&["web", "db"])
        .wait("web", WaitFor::message_on_stdout("ready"))
        .stop_with(StopMode::Remove)
        .inherit_io();
    let (path, env, conditions, stop_mode, inherit_io) = builder.into_parts();
    assert_eq!(path, "docker-compose.yaml");
    assert_eq!(env.get("A").unwrap(), "1");
    assert_eq!(env.get("COMPOSE_PROFILES").unwrap(), "web,db");
    assert_eq!(conditions, vec![("web".to_string(), WaitFor::message_on_stdout("ready"))]);
    assert_eq!(stop_mode, StopMode::Remove);
    assert!(inherit_io);
    assert_eq!(StopMode::default(), StopMode::Stop);
}

#[test]
fn local_compose_command_lines() {
    let cli = LocalComposeCli::with_first_parent(
        vec!["dir/a.yml".to_string(), "b.yml".to_string()],
        Some("dir".to_string()),
    );
    let invocation = cli.up(&up(vec![("K".to_string(), "V".to_string())], true, true));
    assert_eq!(invocation.program, "docker");
    assert_eq!(invocation.working_dir, "dir");
    assert_eq!(
        invocation.args,
        vec![
            "compose",
            "--project-name",
            "proj",
            "-f",
            "dir/a.yml",
            "-f",
            "b.yml",
            "up",
            "--build",
            "--pull",
            "always",
            "--wait",
            "--wait-timeout",
            "60"
        ]
    );
    assert_eq!(invocation.env, vec![("K".to_string(), "V".to_string())]);

    let down = cli.down(&DownCommand { project_name: "proj".to_string(), rmi: true, volumes: true });
    assert_eq!(down.args, vec!["compose", "--project-name", "proj", "down", "--volumes", "--rmi"]);
    assert!(down.env.is_empty());

    let cli = LocalComposeCli::new(vec![]);
    assert_eq!(cli.up(&up(vec![], false, false)).working_dir, ".");
    let cli = LocalComposeCli::new(vec!["/srv/app/docker-compose.yml".to_string()]);
    assert_eq!(cli.down(&DownCommand { project_name: "p".to_string(), rmi: false, volumes: false }).working_dir, "/srv/app");
}

#[test]
fn containerised_compose_command_lines() {
    let (cli, mounts) = ContainerisedComposeCli::new(&vec!["/a.yml".to_string(), "/b.yml".to_string()]);
    assert_eq!(mounts.len(), 2);
    assert_eq!(mounts[1].mount_type(), MountType::Bind);
    assert_eq!(mounts[1].source(), Some("/b.yml"));
    assert_eq!(mounts[1].target(), Some("/docker-compose-1.yml"));

    let exec = cli.up(&up(vec![("K".to_string(), "V".to_string())], false, false));
    assert_eq!(
        exec.cmd(),
        &vec![
            "K=V",
            "docker",
            "compose",
            "--project-name",
            "proj",
            "-f",
            "/docker-compose-0.yml",
            "-f",
            "/docker-compose-1.yml",
            "up",
            "--wait",
            "--wait-timeout",
            "60"
        ]
    );
    assert_eq!(exec.cmd_ready_condition(), &CmdWaitFor::Nothing);

    let exec = cli.down(&DownCommand { project_name: "proj".to_string(), rmi: false, volumes: true });
    assert_eq!(exec.cmd(), &vec!["docker", "compose", "--project-name", "proj", "down", "--volumes"]);
    assert_eq!(exec.cmd_ready_condition(), &CmdWaitFor::ExitCode { code: 0 });
}

#[test]
fn compose_clients_and_services() {
    let client = ComposeClient::new_local(vec!["dir/docker-compose.yml".to_string()]);
    match client.up(&up(vec![], false, false)) {
        ComposeRun::Process(p) => {
            assert_eq!(p.working_dir, "dir");
            assert_eq!(p.args[0], "compose");
        }
        ComposeRun::Exec(_) => panic!("the local client runs a process"),
    }
    assert_eq!(LocalComposeCli::current_dir_of(None), ".");

    let service = |name: &str| {
        Some(vec![
            ("com.docker.compose.project".to_string(), "p".to_string()),
            ("com.docker.compose.service".to_string(), name.to_string()),
        ])
    };
    let services = discover_services(&vec![
        (service("web"), Some("id1".to_string())),
        (service("db"), Some("id2".to_string())),
        (service("web"), Some("id3".to_string())),
        (service("cache"), None),
        (None, Some("id4".to_string())),
    ]);
    assert_eq!(services.len(), 2);
    assert_eq!(services.get("web").unwrap(), "id3");
    assert_eq!(services.get("db").unwrap(), "id2");
    assert!(!services.contains_key("cache"));
}

#[test]
fn local_and_containerised_clients_agree() {
    let local = LocalComposeCli::with_first_parent(vec!["/h/a.yml".to_string()], None);
    let (containerised, _) = ContainerisedComposeCli::new(&vec!["/h/a.yml".to_string()]);
    let command = up(vec![("E".to_string(), "1".to_string())], true, false);
    let local_args = local.up(&command).args;
    let exec = containerised.up(&command);
    let cmd = exec.cmd();
    assert_eq!(cmd[0], "E=1");
    assert_eq!(cmd[1], "docker");
    assert_eq!(&cmd[2..5], &local_args[0..3]);
    assert_eq!(&cmd[7..], &local_args[5..]);
    let down = DownCommand { project_name: "proj".to_string(), rmi: true, volumes: false };
    let local_down = local.down(&down).args;
    let exec_down = containerised.down(&down);
    assert_eq!(exec_down.cmd()[0], "docker");
    assert_eq!(&exec_down.cmd()[1..], &local_down[..]);
}

fn listed(service: &str, id: &str) -> (Option<Vec<(String, String)>>, Option<String>) {
    (
        Some(vec![("com.docker.compose.service".to_string(), service.to_string())]),
        Some(id.to_string()),
    )
}

#[test]
fn compose_stack_defaults() {
    let compose = DockerCompose::with_local_client(LocalComposeOptions::new(&["docker-compose.yml"]));
    assert_eq!(compose.project_name().len(), 36);
    assert!(matches!(compose.client(), ComposeClient::Local(_)));
    let up = compose.up_command();
    assert_eq!(up.wait_timeout, Duration::from_secs(60));
    assert!(up.env_vars.is_empty());
    assert!(!up.build && !up.pull);
    let down = compose.down_command().unwrap();
    assert!(down.volumes);
    assert!(!down.rmi);
    assert!(compose.services().is_empty());
    assert!(compose.drop_command().is_some());
}

#[test]
fn compose_stack_settings() {
    let mut compose = DockerCompose::with_local_client(LocalComposeOptions::new(&["a.yml"]))
        .with_project_name("proj")
        .with_env("B", "2")
        .with_env("A", "1")
        .with_env_vars(vec![("B".to_string(), "3".to_string())])
        .with_build(true)
        .with_pull(true);
    compose.with_remove_volumes(false).with_remove_images(true);
    let up = compose.up_command();
    assert_eq!(up.project_name, "proj");
    assert_eq!(
        up.env_vars,
        vec![("A".to_string(), "1".to_string()), ("B".to_string(), "3".to_string())]
    );
    assert!(up.build && up.pull);
    let down = compose.down_command().unwrap();
    assert_eq!(down.project_name, "proj");
    assert!(!down.volumes);
    assert!(down.rmi);
}

#[test]
fn compose_stack_discovers_services_and_waits() {
    let mut compose = DockerCompose::with_local_client(LocalComposeOptions::new(&["a.yml"]))
        .with_wait_for_service("web", WaitFor::message_on_stdout("ready"))
        .with_wait_for_service("db", WaitFor::Nothing);
    assert!(matches!(compose.service_waits(), Err(ComposeError::ServiceNotFound(s)) if s == "db"));
    compose.record_services(
        &vec![listed("web", "1"), listed("db", "2"), (None, Some("3".to_string()))],
        Command::Remove,
    );
    assert_eq!(compose.services(), vec!["db".to_string(), "web".to_string()]);
    assert_eq!(compose.service("web"), Some(&"1".to_string()));
    assert_eq!(compose.service("cache"), None);
    let waits = compose.service_waits().unwrap();
    assert_eq!(waits.len(), 2);
    assert_eq!((waits[0].0.as_str(), waits[0].1.as_str()), ("db", "2"));
    assert_eq!(waits[0].2, WaitFor::Nothing);
    assert_eq!((waits[1].0.as_str(), waits[1].1.as_str()), ("web", "1"));
    assert_eq!(waits[1].2, WaitFor::message_on_stdout("ready"));
    compose.record_services(&vec![listed("web", "4")], Command::Remove);
    assert_eq!(compose.service("web"), Some(&"4".to_string()));
    assert_eq!(compose.service("db"), Some(&"2".to_string()));
}

#[test]
fn compose_stack_taken_down_once() {
    let mut compose = DockerCompose::with_local_client(LocalComposeOptions::new(&["a.yml"]));
    compose.record_services(&vec![listed("web", "1")], Command::Remove);
    assert!(compose.drop_command().is_some());
    compose.mark_down();
    assert!(compose.down_command().is_none());
    assert!(compose.drop_command().is_none());
    assert!(compose.services().is_empty());

    let mut kept = DockerCompose::with_local_client(LocalComposeOptions::new(&["a.yml"]));
    kept.record_services(&vec![], Command::Keep);
    assert!(kept.drop_command().is_none());
    assert!(kept.down_command().is_some());
}

#[test]
fn local_client_runs_in_the_first_files_directory() {
    let single = LocalComposeCli::new(vec!["docker-compose.yml".to_string()]);
    assert_eq!(single.up(&up(vec![], false, false)).working_dir, "");
    let nested = LocalComposeCli::new(vec!["a/b/c.yml".to_string(), "x/y.yml".to_string()]);
    assert_eq!(nested.up(&up(vec![], false, false)).working_dir, "a/b");
}
