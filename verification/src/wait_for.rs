//! Conditions a started container, or a command executed in it, must meet before it counts as ready.
use std::time::Duration;
use vstd::prelude::*;

use crate::duration::{
    duration_from_millis, duration_from_secs, duration_nanos, duration_of_millis, duration_of_secs,
};
use crate::text::{parse_u64_range, parse_u64_seq};

verus! {

/// Represents a condition that needs to be met before a container is considered ready.
#[derive(Debug, Eq, PartialEq)]
pub enum WaitFor {
    /// An empty condition. Useful for default cases or fallbacks.
    Nothing,
    /// Wait for a message on the stdout stream of the container's logs.
    StdOutMessage { message: String },
    /// Wait for a message on the stderr stream of the container's logs.
    StdErrMessage { message: String },
    /// Wait for a certain amount of time.
    Duration { length: Duration },
    /// Wait for the container's status to become `healthy`.
    Healthcheck,
}

impl Clone for WaitFor {
    fn clone(&self) -> (r: Self)
        ensures
            r == *self,
    {
        match self {
            WaitFor::Nothing => WaitFor::Nothing,
            WaitFor::StdOutMessage { message } => WaitFor::StdOutMessage { message: message.clone() },
            WaitFor::StdErrMessage { message } => WaitFor::StdErrMessage { message: message.clone() },
            WaitFor::Duration { length } => WaitFor::Duration { length: length.clone() },
            WaitFor::Healthcheck => WaitFor::Healthcheck,
        }
    }
}

impl WaitFor {
    /// Waits for `message` on standard output.
    pub fn message_on_stdout(message: &str) -> (r: WaitFor)
        ensures
            r matches WaitFor::StdOutMessage { message: m } && m@ == message@,
    {
        WaitFor::StdOutMessage { message: message.to_owned() }
    }

    /// Waits for `message` on standard error.
    pub fn message_on_stderr(message: &str) -> (r: WaitFor)
        ensures
            r matches WaitFor::StdErrMessage { message: m } && m@ == message@,
    {
        WaitFor::StdErrMessage { message: message.to_owned() }
    }

    /// Waits `length` seconds.
    pub fn seconds(length: u64) -> (r: WaitFor)
        ensures
            r == (WaitFor::Duration { length: duration_of_secs(length) }),
            r matches WaitFor::Duration { length: d } && duration_nanos(d) == length
                * 1_000_000_000,
    {
        WaitFor::Duration { length: duration_from_secs(length) }
    }

    /// Waits `length` milliseconds; a whole number of seconds waits as [`WaitFor::seconds`]
    /// does.
    pub fn millis(length: u64) -> (r: WaitFor)
        ensures
            r == (WaitFor::Duration { length: duration_of_millis(length) }),
            r matches WaitFor::Duration { length: d } && duration_nanos(d) == length * 1_000_000,
            length % 1000 == 0 ==> r == (WaitFor::Duration {
                length: duration_of_secs((length / 1000) as u64),
            }),
    {
        WaitFor::Duration { length: duration_from_millis(length) }
    }

    /// Waits for the number of milliseconds that an environment variable holds: `value` is
    /// that variable's value, if it is set; a missing or unreadable value waits for nothing.
    pub fn millis_from_env_value(value: Option<&str>) -> (r: WaitFor)
        ensures
            value is Some && parse_u64_seq(value->0@) is Some ==> (r matches WaitFor::Duration {
                length: d,
            } && duration_nanos(d) == parse_u64_seq(value->0@)->0 * 1_000_000),
            value is None || parse_u64_seq(value->0@) is None ==> r matches WaitFor::Nothing,
    {
        match value {
            Some(v) => {
                let n = v.unicode_len();
                proof {
                    assert(v@.subrange(0, n as int) =~= v@);
                }
                match parse_u64_range(v, 0, n) {
                    Some(ms) => WaitFor::millis(ms),
                    None => WaitFor::Nothing,
                }
            },
            None => WaitFor::Nothing,
        }
    }
}

/// `w` waits for the message `text` on standard output.
pub open spec fn waits_for_stdout(w: WaitFor, text: Seq<char>) -> bool {
    w matches WaitFor::StdOutMessage { message } && message@ == text
}

/// `w` waits for the message `text` on standard error.
pub open spec fn waits_for_stderr(w: WaitFor, text: Seq<char>) -> bool {
    w matches WaitFor::StdErrMessage { message } && message@ == text
}

/// A condition on the output or exit of an executed command.
#[derive(Debug, Eq, PartialEq, Clone)]
pub enum CmdWaitFor {
    /// An empty condition. Useful for default cases or fallbacks.
    Nothing,
    /// Wait for a message on the stdout stream of the command's output.
    StdOutMessage { message: String },
    /// Wait for a message on the stderr stream of the command's output.
    StdErrMessage { message: String },
    /// Wait for a message on the stdout or stderr stream of the command's output.
    StdOutOrErrMessage { message: String },
    /// Wait for a certain amount of time.
    Duration { length: Duration },
    /// Wait for the command's exit code to be equal to the provided one.
    ExitCode { code: i64 },
}

impl CmdWaitFor {
    /// Waits for `message` on standard output.
    pub fn message_on_stdout(message: &str) -> (r: Self)
        ensures
            r matches CmdWaitFor::StdOutMessage { message: m } && m@ == message@,
    {
        CmdWaitFor::StdOutMessage { message: message.to_owned() }
    }

    /// Waits for `message` on standard error.
    pub fn message_on_stderr(message: &str) -> (r: Self)
        ensures
            r matches CmdWaitFor::StdErrMessage { message: m } && m@ == message@,
    {
        CmdWaitFor::StdErrMessage { message: message.to_owned() }
    }

    /// Waits for `message` on either output stream.
    pub fn message_on_stdout_or_stderr(message: &str) -> (r: Self)
        ensures
            r matches CmdWaitFor::StdOutOrErrMessage { message: m } && m@ == message@,
    {
        CmdWaitFor::StdOutOrErrMessage { message: message.to_owned() }
    }

    /// Waits for the command to exit with `code`.
    pub fn exit_code(code: i64) -> (r: Self)
        ensures
            r == (CmdWaitFor::ExitCode { code }),
    {
        CmdWaitFor::ExitCode { code }
    }

    /// Waits `length` seconds.
    pub fn seconds(length: u64) -> (r: Self)
        ensures
            r matches CmdWaitFor::Duration { length: d } && duration_nanos(d) == length
                * 1_000_000_000,
    {
        CmdWaitFor::Duration { length: duration_from_secs(length) }
    }

    /// Waits `length` milliseconds.
    pub fn millis(length: u64) -> (r: Self)
        ensures
            r matches CmdWaitFor::Duration { length: d } && duration_nanos(d) == length * 1_000_000,
    {
        CmdWaitFor::Duration { length: duration_from_millis(length) }
    }
}

/// The command condition that a container condition stands for: the same messages and
/// waiting time, and a healthy container becomes a zero exit code.
pub open spec fn cmd_wait_for_of(w: WaitFor) -> CmdWaitFor {
    match w {
        WaitFor::Nothing => CmdWaitFor::Nothing,
        WaitFor::StdOutMessage { message } => CmdWaitFor::StdOutMessage { message },
        WaitFor::StdErrMessage { message } => CmdWaitFor::StdErrMessage { message },
        WaitFor::Duration { length } => CmdWaitFor::Duration { length },
        WaitFor::Healthcheck => CmdWaitFor::ExitCode { code: 0 },
    }
}

impl From<WaitFor> for CmdWaitFor {
    fn from(wait_for: WaitFor) -> (r: Self) {
        match wait_for {
            WaitFor::Nothing => CmdWaitFor::Nothing,
            WaitFor::StdOutMessage { message } => CmdWaitFor::StdOutMessage { message },
            WaitFor::StdErrMessage { message } => CmdWaitFor::StdErrMessage { message },
            WaitFor::Duration { length } => CmdWaitFor::Duration { length },
            WaitFor::Healthcheck => CmdWaitFor::ExitCode { code: 0 },
        }
    }
}

impl vstd::std_specs::convert::FromSpecImpl<WaitFor> for CmdWaitFor {
    open spec fn obeys_from_spec() -> bool {
        true
    }

    open spec fn from_spec(v: WaitFor) -> CmdWaitFor {
        cmd_wait_for_of(v)
    }
}

} // verus!
