use acpx_rs::cleanup::{Cleanup, CleanupArgs, Finding, LOG_TAIL_KEEP};
use acpx_rs::logs::{truncate_log_tail, StderrTail, STDERR_TAIL_LINES};
use acpx_rs::record::SessionRecord;
use acpx_rs::sessions::{new_record, SessionSpec};

const DAY: u64 = 24 * 60 * 60;

fn text(text: &str) -> String {
    text.to_string()
}

fn record(closed: bool, pid: Option<u32>) -> SessionRecord {
    let spec = SessionSpec {
        name: text("demo"),
        cwd: text("/w"),
        agent_command: text("agent"),
        socket_path: text("/s"),
        model: None,
        mode: None,
    };
    let mut record = new_record(spec, None, text("1"), text("1"));
    record.pid = pid;
    record.closed = closed;
    record
}

fn cleanup(force: bool) -> Cleanup {
    Cleanup::new(&CleanupArgs { max_session_age_days: None, max_log_age_days: None, max_log_size_mb: None, force })
}

fn found(line: &str) -> Option<Finding> {
    Some(Finding { line: text(line), apply: true })
}

#[test]
fn limits_have_defaults() {
    let all = cleanup(false);
    assert_eq!((all.max_session_age, all.max_log_age), (14, 7));
    assert_eq!(all.max_log_size, 500 * 1024 * 1024);
    assert_eq!(LOG_TAIL_KEEP, 10 * 1024 * 1024);
    assert!(all.dry_run && all.cleaned == 0);
    let args =
        CleanupArgs { max_session_age_days: Some(1), max_log_age_days: Some(2), max_log_size_mb: Some(3), force: true };
    let all = Cleanup::new(&args);
    assert_eq!((all.max_session_age, all.max_log_age, all.max_log_size), (1, 2, 3 * 1024 * 1024));
    assert!(!all.dry_run);
}

#[test]
fn sessions_without_an_owner_are_reaped() {
    let mut all = cleanup(true);
    assert_eq!(all.reap(&record(false, Some(7)), false), found("reap: demo (pid=Some(7), daemon dead)"));
    assert_eq!(all.reap(&record(false, None), false), found("reap: demo (pid=None, daemon dead)"));
    assert_eq!(all.reap(&record(false, Some(7)), true), None);
    assert_eq!(all.reap(&record(true, Some(7)), false), None);
    assert_eq!(all.summary(), "2 items cleaned");
    let mut reaped = record(false, Some(7));
    reaped.close(text("2"));
    assert_eq!(all.reap(&reaped, false), None);
    assert_eq!(all.remove_socket("demo.sock", Some(&reaped)), found("remove: orphan socket demo.sock"));
}

#[test]
fn old_records_are_pruned() {
    let mut all = cleanup(true);
    assert_eq!(all.prune(&record(true, None), 14 * DAY), found("prune: session record demo (14d old)"));
    assert_eq!(all.prune(&record(true, None), 14 * DAY - 1), None);
    assert_eq!(all.prune(&record(false, None), 100 * DAY), None);
    assert_eq!(all.cleaned, 1);
}

#[test]
fn large_logs_are_truncated() {
    let mut all = cleanup(true);
    let limit = 500 * 1024 * 1024;
    assert_eq!(all.truncate("demo.log", limit), None);
    assert_eq!(all.truncate("demo.log", limit + 1), found("truncate: demo.log (500MB > 500MB)"));
    assert_eq!(all.truncate("demo.log", 2 * limit), found("truncate: demo.log (1000MB > 500MB)"));
    assert_eq!(all.cleaned, 2);
}

#[test]
fn old_logs_are_deleted() {
    let mut all = cleanup(true);
    assert_eq!(all.delete_log("demo.log", 7 * DAY, None), found("delete: log demo.log (7d old)"));
    assert_eq!(
        all.delete_log("demo.log", 9 * DAY + 5, Some(&record(true, None))),
        found("delete: log demo.log (9d old)")
    );
    assert_eq!(all.delete_log("demo.log", 9 * DAY, Some(&record(false, None))), None);
    assert_eq!(all.delete_log("demo.log", 7 * DAY - 1, None), None);
    assert_eq!(all.cleaned, 2);
}

#[test]
fn orphan_sockets_are_removed() {
    let mut all = cleanup(true);
    assert_eq!(all.remove_socket("demo.sock", None), found("remove: orphan socket demo.sock"));
    assert_eq!(all.remove_socket("demo.sock", Some(&record(true, None))), found("remove: orphan socket demo.sock"));
    assert_eq!(all.remove_socket("demo.sock", Some(&record(false, None))), None);
}

#[test]
fn a_dry_run_only_tells() {
    let mut all = cleanup(false);
    assert_eq!(all.notice().as_deref(), Some("dry-run mode (use --force to apply changes)"));
    let finding = all.remove_socket("demo.sock", None).unwrap();
    assert!(!finding.apply);
    let finding = all.reap(&record(false, None), false).unwrap();
    assert!(!finding.apply);
    assert_eq!(all.summary(), "2 items would be cleaned");
    assert_eq!(cleanup(true).notice(), None);
    assert_eq!(cleanup(true).summary(), "0 items cleaned");
}

#[test]
fn the_end_of_a_log_is_kept() {
    let content: Vec<u8> = (0..100).collect();
    assert_eq!(truncate_log_tail(content.clone(), 3), [97, 98, 99]);
    assert_eq!(truncate_log_tail(content.clone(), 100), content);
    assert_eq!(truncate_log_tail(content.clone(), u64::MAX), content);
    assert!(truncate_log_tail(content, 0).is_empty());
    assert!(truncate_log_tail(Vec::new(), 5).is_empty());
}

#[test]
fn the_last_lines_of_the_standard_error_are_kept() {
    let mut tail = StderrTail::new();
    assert_eq!(tail.last_stderr(), "");
    assert_eq!(tail.push_line("  boom \r").as_deref(), Some("[agent:stderr] boom"));
    assert_eq!(tail.push_line("  "), None);
    assert_eq!(tail.push_line("again").as_deref(), Some("[agent:stderr] again"));
    assert_eq!(tail.last_stderr(), "boom\nagain");
    for i in 0..60 {
        tail.push_line(&format!("line {i}"));
    }
    assert_eq!(STDERR_TAIL_LINES, 50);
    let expected: Vec<String> = (10..60).map(|i| format!("line {i}")).collect();
    assert_eq!(tail.lines, expected);
    assert_eq!(tail.last_stderr(), expected.join("\n"));
}
