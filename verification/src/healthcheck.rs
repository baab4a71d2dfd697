//! A custom health check for a container, mirroring Docker's `HEALTHCHECK` options.
use std::time::Duration;
use vstd::prelude::*;

use crate::duration::{duration_nanos, nanos_capped};
use crate::text::strings_view;

verus! {

/// Represents a custom health check configuration for a container.
#[derive(Debug, Clone)]
pub struct Healthcheck {
    test: Vec<String>,
    interval: Option<Duration>,
    timeout: Option<Duration>,
    retries: Option<u32>,
    start_period: Option<Duration>,
    start_interval: Option<Duration>,
}

/// The content of a [`Healthcheck`].
pub struct HealthcheckView {
    pub test: Seq<Seq<char>>,
    pub interval: Option<Duration>,
    pub timeout: Option<Duration>,
    pub retries: Option<u32>,
    pub start_period: Option<Duration>,
    pub start_interval: Option<Duration>,
}

impl View for Healthcheck {
    type V = HealthcheckView;

    closed spec fn view(&self) -> HealthcheckView {
        HealthcheckView {
            test: strings_view(self.test@),
            interval: self.interval,
            timeout: self.timeout,
            retries: self.retries,
            start_period: self.start_period,
            start_interval: self.start_interval,
        }
    }
}

/// Whether a check only sets the test, leaving every other option to Docker's default.
pub open spec fn only_test(h: HealthcheckView) -> bool {
    &&& h.interval is None
    &&& h.timeout is None
    &&& h.retries is None
    &&& h.start_period is None
    &&& h.start_interval is None
}

/// The health check settings in the form of Docker's `HealthConfig`: durations in
/// nanoseconds (capped at `i64::MAX`), retries as `i64`.
#[derive(Debug, Clone, PartialEq, Eq)]
pub struct HealthConfigValues {
    pub test: Vec<String>,
    pub interval: Option<i64>,
    pub timeout: Option<i64>,
    pub retries: Option<i64>,
    pub start_period: Option<i64>,
    pub start_interval: Option<i64>,
}

/// A duration in nanoseconds, capped at `i64::MAX`.
pub open spec fn capped_nanos(d: Duration) -> i64 {
    (if duration_nanos(d) <= i64::MAX {
        duration_nanos(d) as int
    } else {
        i64::MAX as int
    }) as i64
}

/// The optional duration in capped nanoseconds.
pub open spec fn opt_capped_nanos(d: Option<Duration>) -> Option<i64> {
    match d {
        Some(v) => Some(capped_nanos(v)),
        None => None,
    }
}

fn opt_nanos(d: Option<Duration>) -> (r: Option<i64>)
    ensures
        r == opt_capped_nanos(d),
{
    match d {
        Some(v) => Some(nanos_capped(v)),
        None => None,
    }
}

impl Healthcheck {
    /// Disables the health check of the container (`HEALTHCHECK NONE`).
    pub fn none() -> (h: Self)
        ensures
            h@.test == seq!["NONE"@],
            only_test(h@),
    {
        let test = vec!["NONE".to_owned()];
        assert(strings_view(test@) =~= seq!["NONE"@]);
        Healthcheck {
            test,
            interval: None,
            timeout: None,
            retries: None,
            start_period: None,
            start_interval: None,
        }
    }

    /// A shell command as health check (`CMD-SHELL <command>`).
    pub fn cmd_shell(command: &str) -> (h: Self)
        ensures
            h@.test == seq!["CMD-SHELL"@, command@],
            only_test(h@),
    {
        let test = vec!["CMD-SHELL".to_owned(), command.to_owned()];
        assert(strings_view(test@) =~= seq!["CMD-SHELL"@, command@]);
        Healthcheck {
            test,
            interval: None,
            timeout: None,
            retries: None,
            start_period: None,
            start_interval: None,
        }
    }

    /// A command with its arguments as health check (`CMD ["<command>", "<arg1>", ...]`).
    pub fn cmd(command: Vec<String>) -> (h: Self)
        ensures
            h@.test == seq!["CMD"@] + strings_view(command@),
            only_test(h@),
    {
        let mut test = vec!["CMD".to_owned()];
        let ghost head = strings_view(test@);
        let mut i: usize = 0;
        while i < command.len()
            invariant
                0 <= i <= command@.len(),
                head == seq!["CMD"@],
                strings_view(test@) == head + strings_view(command@.take(i as int)),
            decreases command.len() - i,
        {
            let ghost before = test@;
            test.push(command[i].clone());
            i = i + 1;
            proof {
                assert(strings_view(test@) =~= strings_view(before).push(command@[i - 1]@));
                assert(strings_view(command@.take(i as int)) =~= strings_view(
                    command@.take(i - 1),
                ).push(command@[i - 1]@));
                assert(strings_view(test@) =~= head + strings_view(command@.take(i as int)));
            }
        }
        assert(command@.take(command@.len() as int) =~= command@);
        Healthcheck {
            test,
            interval: None,
            timeout: None,
            retries: None,
            start_period: None,
            start_interval: None,
        }
    }

    /// An empty test: keeps the image's own check while other options are overridden.
    pub fn empty() -> (h: Self)
        ensures
            h@.test.len() == 0,
            only_test(h@),
    {
        Healthcheck {
            test: Vec::new(),
            interval: None,
            timeout: None,
            retries: None,
            start_period: None,
            start_interval: None,
        }
    }

    /// Sets the interval between health checks; `None` restores Docker's default.
    pub fn with_interval(self, interval: Option<Duration>) -> (h: Self)
        ensures
            h@ == (HealthcheckView { interval, ..self@ }),
    {
        Healthcheck { interval, ..self }
    }

    /// Sets the timeout of each health check; `None` restores Docker's default.
    pub fn with_timeout(self, timeout: Option<Duration>) -> (h: Self)
        ensures
            h@ == (HealthcheckView { timeout, ..self@ }),
    {
        Healthcheck { timeout, ..self }
    }

    /// Sets how many consecutive failures make the container unhealthy; `None` restores
    /// Docker's default.
    pub fn with_retries(self, retries: Option<u32>) -> (h: Self)
        ensures
            h@ == (HealthcheckView { retries, ..self@ }),
    {
        Healthcheck { retries, ..self }
    }

    /// Sets the start period before failures count; `None` restores Docker's default.
    pub fn with_start_period(self, start_period: Option<Duration>) -> (h: Self)
        ensures
            h@ == (HealthcheckView { start_period, ..self@ }),
    {
        Healthcheck { start_period, ..self }
    }

    /// Sets the interval between checks during the start period; `None` restores Docker's default.
    pub fn with_start_interval(self, interval: Option<Duration>) -> (h: Self)
        ensures
            h@ == (HealthcheckView { start_interval: interval, ..self@ }),
    {
        Healthcheck { start_interval: interval, ..self }
    }

    /// Returns the test command.
    pub fn test(&self) -> (r: &[String])
        ensures
            strings_view(r@) == self@.test,
    {
        self.test.as_slice()
    }

    /// Returns the interval between health checks.
    pub fn interval(&self) -> (r: Option<Duration>)
        ensures
            r == self@.interval,
    {
        self.interval
    }

    /// Returns the timeout for each health check.
    pub fn timeout(&self) -> (r: Option<Duration>)
        ensures
            r == self@.timeout,
    {
        self.timeout
    }

    /// Returns the number of retries before considering the container unhealthy.
    pub fn retries(&self) -> (r: Option<u32>)
        ensures
            r == self@.retries,
    {
        self.retries
    }

    /// Returns the start period before health checks begin.
    pub fn start_period(&self) -> (r: Option<Duration>)
        ensures
            r == self@.start_period,
    {
        self.start_period
    }

    /// Returns the interval between health checks during the start period.
    pub fn start_interval(&self) -> (r: Option<Duration>)
        ensures
            r == self@.start_interval,
    {
        self.start_interval
    }

    /// The settings in the form of Docker's `HealthConfig`.
    pub fn into_health_config(self) -> (c: HealthConfigValues)
        ensures
            strings_view(c.test@) == self@.test,
            c.interval == opt_capped_nanos(self@.interval),
            c.timeout == opt_capped_nanos(self@.timeout),
            c.retries == match self@.retries {
                Some(r) => Some(r as i64),
                None => None::<i64>,
            },
            c.start_period == opt_capped_nanos(self@.start_period),
            c.start_interval == opt_capped_nanos(self@.start_interval),
    {
        HealthConfigValues {
            test: self.test,
            interval: opt_nanos(self.interval),
            timeout: opt_nanos(self.timeout),
            retries: match self.retries {
                Some(r) => Some(r as i64),
                None => None,
            },
            start_period: opt_nanos(self.start_period),
            start_interval: opt_nanos(self.start_interval),
        }
    }
}

} // verus!
