use rustmergency::errors::MergerError;
use rustmergency::logger::{
    enabled, pop_proxy_prefix, push_proxy_prefix, render_log_line, LogLevel,
};

#[test]
fn levels_up_to_debug_are_enabled() {
    assert!(enabled(LogLevel::Error));
    assert!(enabled(LogLevel::Warn));
    assert!(enabled(LogLevel::Info));
    assert!(enabled(LogLevel::Debug));
    assert!(!enabled(LogLevel::Trace));
}

#[test]
fn line_carries_label_prefixes_and_message() {
    let stack = vec!["".to_string(), "step build: ".to_string()];
    let line = render_log_line(LogLevel::Info, "rustmergency::merger", &stack, "cloning").unwrap();
    assert_eq!(line, "info  | step build: cloning");
    let warn = render_log_line(LogLevel::Warn, "rustmergency", &stack, "m").unwrap();
    assert_eq!(warn, "warn  | step build: m");
}

#[test]
fn foreign_targets_and_trace_records_are_dropped() {
    let stack: Vec<String> = Vec::new();
    assert!(render_log_line(LogLevel::Info, "hyper::client", &stack, "m").is_none());
    assert!(render_log_line(LogLevel::Trace, "rustmergency", &stack, "m").is_none());
}

#[test]
fn prefixes_push_and_pop_in_pairs() {
    let mut stack = vec!["".to_string()];
    let guard = push_proxy_prefix(&mut stack, "step a: ".to_string());
    assert_eq!(stack.len(), 2);
    let line = render_log_line(LogLevel::Debug, "rustmergency", &stack, "working").unwrap();
    assert_eq!(line, "debug | step a: working");
    pop_proxy_prefix(&mut stack, guard);
    assert_eq!(stack.len(), 1);
    let line = render_log_line(LogLevel::Debug, "rustmergency", &stack, "done").unwrap();
    assert_eq!(line, "debug | done");
}

#[test]
fn error_messages_render_by_variant() {
    assert_eq!(
        MergerError::Config("bad".to_string()).to_message(),
        "invalid config file:\n  bad"
    );
    assert_eq!(
        MergerError::Local("bad".to_string()).to_message(),
        "problem with local setup:\n  bad"
    );
    assert_eq!(MergerError::Http("down".to_string()).to_message(), "http error: down");
    assert_eq!(MergerError::Io("os".to_string()).to_message(), "os");
    assert_eq!(MergerError::Utf("enc".to_string()).to_message(), "enc");
    assert_eq!(
        MergerError::De("merge.toml".to_string(), "expected a table".to_string()).to_message(),
        "error reading merge.toml:\n  expected a table"
    );
}
