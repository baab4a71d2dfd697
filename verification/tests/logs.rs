use testcontainers::logs::{LogLevel, LogSource, LoggingConsumer, MessageSearch};

#[test]
fn log_sources() {
    assert!(LogSource::StdOut.is_stdout());
    assert!(!LogSource::StdOut.is_stderr());
    assert!(LogSource::StdErr.is_stderr());
    assert_eq!(LogSource::StdOut.to_text(), "stdout");
    assert_eq!(LogSource::StdErr.to_text(), "stderr");
}

#[test]
fn logging_consumer_levels() {
    let consumer = LoggingConsumer::new();
    assert_eq!(consumer.level_for(LogSource::StdOut), LogLevel::Info);
    assert_eq!(consumer.level_for(LogSource::StdErr), LogLevel::Info);
    let consumer = consumer.with_stdout_level(LogLevel::Debug).with_stderr_level(LogLevel::Error);
    assert_eq!(consumer.level_for(LogSource::StdOut), LogLevel::Debug);
    assert_eq!(consumer.level_for(LogSource::StdErr), LogLevel::Error);
}

#[test]
fn logging_consumer_formats_lines() {
    let consumer = LoggingConsumer::default();
    assert_eq!(consumer.format_message("hello\r\n\n"), "hello");
    assert_eq!(consumer.format_message("a\nb\n"), "a\nb");
    assert_eq!(consumer.format_message("\n"), "");
    let consumer = consumer.with_prefix("[web]");
    assert_eq!(consumer.format_message("started\n"), "[web] started");
    assert_eq!(consumer.format_message("  x  "), "[web]   x  ");
}

fn search(message: &str, times: usize) -> bool {
    let chunks: [&[u8]; 2] = [
        b"
            Message one
            Message two
            Message three
            Message three
        ",
        b"Message three",
    ];
    let mut search = MessageSearch::new(message.as_bytes(), times);
    for chunk in chunks {
        if search.feed(chunk) {
            return true;
        }
    }
    false
}

#[test]
fn given_logs_when_line_contains_message_should_find_it() {
    assert!(search("Message one", 1));
    assert!(!search("Message two", 2));
    assert!(search("Message three", 1));
    assert!(search("Message three", 3));
}

#[test]
fn message_search_counts_non_overlapping_occurrences() {
    let mut s = MessageSearch::new(b"aa", 3);
    assert!(!s.feed(b"aaa"));
    assert_eq!(s.found(), 1);
    assert!(!s.feed(b"xaax"));
    assert_eq!(s.found(), 2);
    assert!(s.feed(b"aaaa"));
    let mut never = MessageSearch::new(b"a", 0);
    assert!(!never.feed(b"aaaa"));
    assert_eq!(never.found(), 0);
}

#[test]
fn empty_message_is_seen_at_every_position() {
    let mut search = MessageSearch::new(b"", 3);
    assert!(search.feed(b"ab"));
    let mut search = MessageSearch::new(b"", 4);
    assert!(!search.feed(b"ab"));
    assert_eq!(search.found(), 3);
}
