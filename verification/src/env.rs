//! Settings read from the environment: what happens to containers when they are dropped.
use vstd::prelude::*;

use crate::mounts::opt_view;
use crate::text::str_eq;

verus! {

/// Abstracts over reading a value from the environment.
pub trait GetEnvValue {
    /// Whether the environment may hold `value` for `key`. It is a relation, not a function:
    /// two reads of one key need not agree. By default it admits any value; an implementation
    /// may narrow it.
    open spec fn env_holds(key: Seq<char>, value: Option<Seq<char>>) -> bool {
        true
    }

    /// The value the environment holds for `key`, if any.
    fn get_env_value(key: &str) -> (r: Option<String>)
        ensures
            Self::env_holds(key@, opt_view(r)),
    ;
}

/// The commands available to the `TESTCONTAINERS_COMMAND` env variable.
#[derive(Debug, PartialEq, Eq, Clone, Copy, Structural)]
pub enum Command {
    /// Keep containers after they are dropped.
    Keep,
    /// Remove containers when they are dropped.
    Remove,
}

impl Default for Command {
    fn default() -> (r: Self)
        ensures
            r == Command::Remove,
    {
        Command::Remove
    }
}

/// The command a text names, if any.
pub open spec fn command_named(s: Seq<char>) -> Option<Command> {
    if s == "keep"@ {
        Some(Command::Keep)
    } else if s == "remove"@ {
        Some(Command::Remove)
    } else {
        None
    }
}

impl Command {
    /// Reads `keep` or `remove`; anything else is an error.
    pub fn parse_command(s: &str) -> (r: Result<Command, ()>)
        ensures
            r matches Ok(c) ==> command_named(s@) == Some(c),
            r is Err ==> command_named(s@) is None,
    {
        if str_eq(s, "keep") {
            Ok(Command::Keep)
        } else if str_eq(s, "remove") {
            Ok(Command::Remove)
        } else {
            Err(())
        }
    }

    /// The command that the optional `TESTCONTAINERS_COMMAND` value selects: an unreadable or
    /// absent value leaves the default, [`Command::Remove`].
    pub fn from_env_value(value: Option<&str>) -> (r: Command)
        ensures
            r == match value {
                Some(v) => match command_named(v@) {
                    Some(c) => c,
                    None => Command::Remove,
                },
                None => Command::Remove,
            },
    {
        match value {
            Some(v) => match Command::parse_command(v) {
                Ok(c) => c,
                Err(_) => Command::Remove,
            },
            None => Command::Remove,
        }
    }
}

impl std::str::FromStr for Command {
    type Err = ();

    /// Reads `keep` or `remove`; anything else is an error.
    fn from_str(s: &str) -> (r: Result<Self, Self::Err>)
        ensures
            r matches Ok(c) ==> command_named(s@) == Some(c),
            r is Err ==> command_named(s@) is None,
    {
        Command::parse_command(s)
    }
}

} // verus!
