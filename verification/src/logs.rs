//! Container logs: where a line came from, and how the logging consumer formats it.
use vstd::prelude::*;

use crate::text::{concat_str, lemma_trim_end_newlines_at, trim_end_newlines_seq};

verus! {

/// The output stream a log line was written to.
#[derive(Copy, Clone, Debug, PartialEq, Eq, Structural)]
pub enum LogSource {
    StdOut,
    StdErr,
}

impl LogSource {
    /// Whether this is standard output.
    pub fn is_stdout(self) -> (r: bool)
        ensures
            r == (self is StdOut),
    {
        match self {
            LogSource::StdOut => true,
            LogSource::StdErr => false,
        }
    }

    /// Whether this is standard error.
    pub fn is_stderr(self) -> (r: bool)
        ensures
            r == (self is StdErr),
    {
        match self {
            LogSource::StdOut => false,
            LogSource::StdErr => true,
        }
    }

    /// The stream's name in lower case: `stdout` or `stderr`.
    pub fn to_text(self) -> (r: String)
        ensures
            r@ == (match self {
                LogSource::StdOut => "stdout"@,
                LogSource::StdErr => "stderr"@,
            }),
    {
        match self {
            LogSource::StdOut => "stdout".to_owned(),
            LogSource::StdErr => "stderr".to_owned(),
        }
    }
}

/// The severity a log line is emitted at, from the most to the least severe.
#[derive(Copy, Clone, Debug, PartialEq, Eq, Structural)]
pub enum LogLevel {
    Error,
    Warn,
    Info,
    Debug,
    Trace,
}

/// A consumer that logs the output of a container: each stream at a level of its own,
/// each line with an optional prefix.
///
/// By default, both standard output and standard error are emitted at INFO level.
#[derive(Debug)]
pub struct LoggingConsumer {
    stdout_level: LogLevel,
    stderr_level: LogLevel,
    prefix: Option<String>,
}

/// The content of a [`LoggingConsumer`].
pub struct LoggingConsumerView {
    pub stdout_level: LogLevel,
    pub stderr_level: LogLevel,
    pub prefix: Option<Seq<char>>,
}

impl View for LoggingConsumer {
    type V = LoggingConsumerView;

    closed spec fn view(&self) -> LoggingConsumerView {
        LoggingConsumerView {
            stdout_level: self.stdout_level,
            stderr_level: self.stderr_level,
            prefix: match self.prefix {
                Some(p) => Some(p@),
                None => None,
            },
        }
    }
}

/// A log line as the consumer emits it: without trailing line breaks, after the prefix and
/// a space where there is a prefix.
pub open spec fn formatted_message(prefix: Option<Seq<char>>, message: Seq<char>) -> Seq<char> {
    match prefix {
        Some(p) => p + " "@ + trim_end_newlines_seq(message),
        None => trim_end_newlines_seq(message),
    }
}

impl Default for LoggingConsumer {
    fn default() -> (r: Self)
        ensures
            r@.stdout_level == LogLevel::Info,
            r@.stderr_level == LogLevel::Info,
            r@.prefix is None,
    {
        LoggingConsumer { stdout_level: LogLevel::Info, stderr_level: LogLevel::Info, prefix: None }
    }
}

impl LoggingConsumer {
    /// Creates a new instance of the logging consumer.
    pub fn new() -> (r: Self)
        ensures
            r@.stdout_level == LogLevel::Info,
            r@.stderr_level == LogLevel::Info,
            r@.prefix is None,
    {
        Self::default()
    }

    /// Sets the log level for standard out. By default, this is `INFO`.
    pub fn with_stdout_level(self, level: LogLevel) -> (r: Self)
        ensures
            r@ == (LoggingConsumerView { stdout_level: level, ..self@ }),
    {
        LoggingConsumer { stdout_level: level, ..self }
    }

    /// Sets the log level for standard error. By default, this is `INFO`.
    pub fn with_stderr_level(self, level: LogLevel) -> (r: Self)
        ensures
            r@ == (LoggingConsumerView { stderr_level: level, ..self@ }),
    {
        LoggingConsumer { stderr_level: level, ..self }
    }

    /// Sets a prefix to be added to each log message (a space is added between prefix and
    /// message).
    pub fn with_prefix(self, prefix: &str) -> (r: Self)
        ensures
            r@ == (LoggingConsumerView { prefix: Some(prefix@), ..self@ }),
    {
        LoggingConsumer { prefix: Some(prefix.to_owned()), ..self }
    }

    /// The level a line from `source` is emitted at.
    pub fn level_for(&self, source: LogSource) -> (r: LogLevel)
        ensures
            r == (match source {
                LogSource::StdOut => self@.stdout_level,
                LogSource::StdErr => self@.stderr_level,
            }),
    {
        match source {
            LogSource::StdOut => self.stdout_level,
            LogSource::StdErr => self.stderr_level,
        }
    }

    /// The line that is logged for `message`.
    pub fn format_message(&self, message: &str) -> (r: String)
        ensures
            r@ == formatted_message(self@.prefix, message@),
    {
        let n = message.unicode_len();
        let mut k: usize = n;
        while k > 0
            invariant
                k <= n,
                n == message@.len(),
                forall|j: int| k <= j < n ==> (#[trigger] message@[j] == '\n' || message@[j] == '\r'),
            ensures
                k <= n,
                forall|j: int| k <= j < n ==> (#[trigger] message@[j] == '\n' || message@[j] == '\r'),
                k == 0 || !(message@[k - 1] == '\n' || message@[k - 1] == '\r'),
            decreases k,
        {
            let c = message.get_char(k - 1);
            if c != '\n' && c != '\r' {
                break;
            }
            k = k - 1;
        }
        proof {
            lemma_trim_end_newlines_at(message@, k as int);
        }
        let trimmed = message.substring_char(0, k);
        match &self.prefix {
            Some(p) => {
                let mut r = concat_str(p.as_str(), " ");
                r.append(trimmed);
                r
            },
            None => trimmed.to_owned(),
        }
    }
}

/// The number of non-overlapping occurrences of `needle` in `haystack`, found from left to
/// right; the empty needle occurs at every position, the end included.
pub open spec fn match_count(haystack: Seq<u8>, needle: Seq<u8>) -> nat
    decreases haystack.len(),
{
    if needle.len() == 0 {
        haystack.len() + 1
    } else if haystack.len() < needle.len() {
        0
    } else if haystack.take(needle.len() as int) == needle {
        1 + match_count(haystack.skip(needle.len() as int), needle)
    } else {
        match_count(haystack.skip(1), needle)
    }
}

/// The number of occurrences of `needle` in `haystack`.
///
/// Counts what `memchr::memmem::find_iter` yields, which the crate documents as all
/// non-overlapping occurrences of the needle, and for the empty needle a match at every
/// position: that is [`match_count`]. For an empty needle the count is stated only where
/// it fits in `usize`.
#[verifier::external_body]
fn count_matches(haystack: &[u8], needle: &[u8]) -> (r: usize)
    ensures
        needle@.len() > 0 || haystack@.len() < usize::MAX ==> r == match_count(haystack@, needle@),
{
    memchr::memmem::find_iter(haystack, needle).count()
}

/// A search of a log stream, chunk by chunk, for a message that must be seen a number of
/// times.
#[derive(Debug)]
pub struct MessageSearch {
    message: Vec<u8>,
    times: usize,
    found: usize,
}

impl View for MessageSearch {
    type V = (Seq<u8>, usize, usize);

    closed spec fn view(&self) -> (Seq<u8>, usize, usize) {
        (self.message@, self.times, self.found)
    }
}

impl MessageSearch {
    /// The count of occurrences seen stops at the number asked for.
    #[verifier::type_invariant]
    closed spec fn seen_within_asked(&self) -> bool {
        self.times == 0 || self.found <= self.times
    }

    /// A search for `times` occurrences of `message`; nothing is seen yet.
    pub fn new(message: &[u8], times: usize) -> (r: Self)
        ensures
            r@ == (message@, times, 0usize),
    {
        let mut m: Vec<u8> = Vec::new();
        let mut i: usize = 0;
        while i < message.len()
            invariant
                i <= message@.len(),
                m@ == message@.take(i as int),
            decreases message.len() - i,
        {
            m.push(message[i]);
            i = i + 1;
            assert(m@ =~= message@.take(i as int));
        }
        assert(message@.take(message@.len() as int) =~= message@);
        MessageSearch { message: m, times, found: 0 }
    }

    /// Takes the next chunk of the stream; whether the message has now been seen as often as
    /// asked. A search for no occurrence is never done: it reads the stream to its end.
    pub fn feed(&mut self, chunk: &[u8]) -> (r: bool)
        ensures
            final(self)@.0 == old(self)@.0,
            final(self)@.1 == old(self)@.1,
            final(self)@.1 > 0 ==> (r <==> final(self)@.2 == final(self)@.1),
            old(self)@.1 > 0 && old(self)@.2 == old(self)@.1 ==> r,
            old(self)@.1 == 0 ==> !r && final(self)@.2 == old(self)@.2,
            old(self)@.1 > 0 && (old(self)@.0.len() > 0 || chunk@.len() < usize::MAX) ==> {
                let total = old(self)@.2 + match_count(chunk@, old(self)@.0);
                &&& r == (total >= old(self)@.1)
                &&& !r ==> final(self)@.2 == total
            },
    {
        proof {
            use_type_invariant(&*self);
        }
        if self.times == 0 {
            return false;
        }
        let count = count_matches(chunk, self.message.as_slice());
        if count >= self.times - self.found {
            self.found = self.times;
            true
        } else {
            self.found = self.found + count;
            false
        }
    }

    /// How often the message has been seen.
    pub fn found(&self) -> (r: usize)
        ensures
            r == self@.2,
    {
        self.found
    }
}

} // verus!
