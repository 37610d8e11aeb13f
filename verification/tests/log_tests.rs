use termixer::log::DebugLog;

#[test]
fn log_starts_empty() {
    let log = DebugLog::new();
    assert!(log.is_empty());
    assert_eq!(log.len(), 0);
    assert_eq!(log.joined(), "");
}

#[test]
fn log_keeps_messages_in_order() {
    let mut log = DebugLog::new();
    log.push("[message] first".to_string());
    log.push("[message] second".to_string());
    assert_eq!(log.len(), 2);
    assert_eq!(log.line(0), "[message] first");
    assert_eq!(log.line(1), "[message] second");
    assert_eq!(log.joined(), "[message] first\n[message] second");
}

#[test]
fn log_keeps_only_the_last_five_hundred() {
    let mut log = DebugLog::new();
    for i in 0..501 {
        log.push(format!("line {}", i));
    }
    assert_eq!(log.len(), 500);
    assert_eq!(log.line(0), "line 1");
    assert_eq!(log.line(499), "line 500");
    log.push("line 501".to_string());
    assert_eq!(log.len(), 500);
    assert_eq!(log.line(0), "line 2");
    assert_eq!(log.line(499), "line 501");
}

#[test]
fn single_line_joins_without_newline() {
    let mut log = DebugLog::new();
    log.push("only".to_string());
    assert_eq!(log.joined(), "only");
}
