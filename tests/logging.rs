use miniflux_filter::logging::{parse_log_level, LogEntry, LogLevel, LogVisitor, Timestamp, WebLogCollector};

fn log(message: &str, feed_id: Option<u64>) -> LogEntry {
    LogEntry {
        timestamp: Timestamp { seconds: 1_700_000_000, nanos: 0 },
        level: "INFO".to_string(),
        message: message.to_string(),
        target: "miniflux_filter".to_string(),
        feed_id,
        entry_id: None,
        entry_title: None,
    }
}

fn messages(v: &[LogEntry]) -> Vec<String> {
    v.iter().map(|e| e.message.clone()).collect()
}

#[test]
fn collector_keeps_the_newest_within_capacity() {
    let mut c = WebLogCollector::new(2);
    c.add_log(log("a", None));
    c.add_log(log("b", None));
    c.add_log(log("c", None));
    assert_eq!(messages(&c.get_logs()), vec!["b", "c"]);
    assert_eq!(messages(&c.get_recent_logs(10)), vec!["c", "b"]);
    assert_eq!(messages(&c.get_recent_logs(1)), vec!["c"]);
    assert!(c.get_recent_logs(0).is_empty());
    c.clear_logs();
    assert!(c.get_logs().is_empty());
}

#[test]
fn logs_for_a_feed_come_newest_first() {
    let mut c = WebLogCollector::new(10);
    c.add_log(log("one", Some(1)));
    c.add_log(log("two", Some(2)));
    c.add_log(log("three", Some(1)));
    c.add_log(log("four", Some(1)));
    assert_eq!(messages(&c.get_logs_for_feed(1, None)), vec!["four", "three", "one"]);
    assert_eq!(messages(&c.get_logs_for_feed(1, Some(2))), vec!["four", "three"]);
    assert!(c.get_logs_for_feed(9, Some(5)).is_empty());
}

#[test]
fn visitor_records_fields() {
    let mut v = LogVisitor::new();
    v.record_debug("message", "\"hello\"");
    v.record_debug("feed_id", "42");
    v.record_debug("entry_id", "not a number");
    v.record_debug("entry_title", "\"A title\"");
    v.record_debug("other", "ignored");
    assert_eq!(v.message, "hello");
    assert_eq!(v.feed_id, Some(42));
    assert_eq!(v.entry_id, None);
    assert_eq!(v.entry_title.as_deref(), Some("A title"));
    v.record_str("message", "plain \"text\"");
    v.record_u64("entry_id", 7);
    v.record_u64("feed_id", 8);
    assert_eq!(v.message, "plain \"text\"");
    assert_eq!(v.entry_id, Some(7));
    assert_eq!(v.feed_id, Some(8));
    v.record_debug("message", "\"");
    assert_eq!(v.message, "\"");
    v.record_str("entry_title", "raw");
    assert_eq!(v.entry_title.as_deref(), Some("raw"));
}

#[test]
fn log_levels_ignore_case() {
    assert_eq!(parse_log_level("TRACE"), LogLevel::Trace);
    assert_eq!(parse_log_level("debug"), LogLevel::Debug);
    assert_eq!(parse_log_level("Warn"), LogLevel::Warn);
    assert_eq!(parse_log_level("error"), LogLevel::Error);
    assert_eq!(parse_log_level("info"), LogLevel::Info);
    assert_eq!(parse_log_level("verbose"), LogLevel::Info);
}
