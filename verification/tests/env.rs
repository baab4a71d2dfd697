use testcontainers::env::{Command, GetEnvValue};

#[derive(Debug)]
struct FakeEnvAlwaysKeep;

impl GetEnvValue for FakeEnvAlwaysKeep {
    fn get_env_value(key: &str) -> Option<String> {
        match key {
            "TESTCONTAINERS_COMMAND" => Some("keep".to_owned()),
            _ => None,
        }
    }
}

#[test]
fn errors_on_unknown_command() {
    let res = "foobar".parse::<Command>();
    assert!(res.is_err());
}

#[test]
fn command_looks_up_testcontainers_env_variables() {
    let cmd = FakeEnvAlwaysKeep::get_env_value("TESTCONTAINERS_COMMAND").unwrap();

    assert!(matches!(cmd.parse::<Command>(), Ok(Command::Keep)),)
}

#[test]
fn default_command_is_remove() {
    let cmd = Command::default();

    assert_eq!(cmd, Command::Remove)
}

#[test]
fn command_from_env_value_falls_back_to_remove() {
    assert_eq!(Command::from_env_value(Some("keep")), Command::Keep);
    assert_eq!(Command::from_env_value(Some("remove")), Command::Remove);
    assert_eq!(Command::from_env_value(Some("Keep")), Command::Remove);
    assert_eq!(Command::from_env_value(None), Command::Remove);
    assert_eq!(Command::parse_command("remove"), Ok(Command::Remove));
}
