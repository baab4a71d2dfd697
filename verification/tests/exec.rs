use testcontainers::exec::ExecCommand;
use testcontainers::wait_for::{CmdWaitFor, WaitFor};

#[test]
fn test_with_env_vars() {
    let exec = ExecCommand::new(vec!["echo".to_string(), "hello".to_string()]).with_env_vars(vec![
        ("KEY1".to_string(), "value1".to_string()),
        ("KEY2".to_string(), "value2".to_string()),
    ]);

    assert_eq!(exec.env_vars().get("KEY1").unwrap(), "value1");
    assert_eq!(exec.env_vars().get("KEY2").unwrap(), "value2");
    assert_eq!(exec.cmd(), &vec!["echo", "hello"]);
}

#[test]
fn later_env_var_replaces_earlier() {
    let exec = ExecCommand::new(vec!["env".to_string()]).with_env_vars(vec![
        ("K".to_string(), "1".to_string()),
        ("K".to_string(), "2".to_string()),
    ]);
    assert_eq!(exec.env_vars().get("K").unwrap(), "2");
    assert_eq!(exec.env_vars().len(), 1);
}

#[test]
fn exec_conditions_are_kept() {
    let exec = ExecCommand::default()
        .with_cmd_ready_condition(CmdWaitFor::exit_code(0))
        .with_container_ready_conditions(vec![WaitFor::message_on_stdout("ready")]);
    assert_eq!(exec.cmd_ready_condition(), &CmdWaitFor::ExitCode { code: 0 });
    assert_eq!(exec.container_ready_conditions().len(), 1);
    assert!(exec.cmd().is_empty());
}
