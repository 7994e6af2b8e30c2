use acpx_rs::daemon::{
    configure, configure_mode, configure_model, failure_event, is_end, record_failure, run_session_daemon, run_session_guardian,
    say_farewell, settle, tolerate, DaemonAction, DaemonEvent, ExitReason, ModeStep, IDLE_TIMEOUT_SECS,
};
use acpx_rs::acp::Call;
use acpx_rs::answer::SessionInfo;
use acpx_rs::events::{OwnerEvent, OwnerRequest};
use acpx_rs::prompt::refuse_closed;
use acpx_rs::record::{append_history, SessionRecord};
use acpx_rs::sessions::{
    mark_replaced, new_record, run, run_sessions_ensure, run_sessions_last, run_sessions_list, run_status,
    timed_out_message, wait_for_ready_record, write_list, Command, EnsureStep, SessionSpec, StatusStep, WaitStep,
};
use acpx_rs::turn::Fault;

fn text(text: &str) -> String {
    text.to_string()
}

fn spec() -> SessionSpec {
    SessionSpec {
        name: text("demo"),
        cwd: text("/w"),
        agent_command: text("agent --acp"),
        socket_path: text("/h/sockets/demo.sock"),
        model: None,
        mode: None,
    }
}

fn fresh() -> SessionRecord {
    new_record(spec(), None, text("10"), text("11"))
}

fn running() -> SessionRecord {
    let mut record = fresh();
    record.start(7, 8, text("s1"), text("12"));
    record
}

#[test]
fn a_new_session_waits_for_its_owner() {
    let record = fresh();
    assert_eq!(record.name, "demo");
    assert_eq!((record.pid, record.agent_pid, record.acp_session_id.clone()), (None, None, None));
    assert_eq!((record.created_at.as_str(), record.updated_at.as_str()), ("10", "11"));
    assert!(!record.closed && record.history.is_empty() && record.last_assistant.is_none());
    assert!(!record.is_ready());
    let record = running();
    assert_eq!((record.pid, record.agent_pid, record.acp_session_id.as_deref()), (Some(7), Some(8), Some("s1")));
    assert_eq!(record.updated_at, "12");
    assert!(record.is_ready());
}

#[test]
fn turns_are_added_at_the_end() {
    let mut record = running();
    append_history(&mut record, "user", "hello", text("20"), text("21"));
    assert_eq!(record.last_assistant, None);
    append_history(&mut record, "assistant", "hi", text("22"), text("23"));
    append_history(&mut record, "user", "more", text("24"), text("25"));
    let told: Vec<(&str, &str, &str)> =
        record.history.iter().map(|e| (e.role.as_str(), e.text.as_str(), e.timestamp.as_str())).collect();
    assert_eq!(told, [("user", "hello", "20"), ("assistant", "hi", "22"), ("user", "more", "24")]);
    assert_eq!(record.last_assistant.as_ref(), Some(&record.history[1]));
    assert_eq!(record.updated_at, "25");
    assert_eq!(run_sessions_last(&record, "demo"), Ok(text("hi")));
}

#[test]
fn a_session_without_a_reply_has_none_to_tell() {
    assert_eq!(run_sessions_last(&running(), "demo"), Err(text("session 'demo' has no assistant reply yet")));
}

#[test]
fn a_session_ends_with_or_without_a_reason() {
    let mut record = running();
    record.close(text("30"));
    assert!(record.closed && record.death_reason.is_none());
    assert_eq!(record.updated_at, "30");
    record.close_by(text("crash"), text("31"));
    assert_eq!(record.death_reason.as_deref(), Some("crash"));
    record.close_dead("other", text("32"));
    assert_eq!(record.death_reason.as_deref(), Some("crash"));
    let mut record = running();
    record.close_dead("gone", text("33"));
    assert_eq!(record.death_reason.as_deref(), Some("gone"));
}

#[test]
fn a_command_works_on_a_record() {
    let plan = run("/h", &Command::Prompt { session: text("a b") });
    assert_eq!(plan.dirs, ["/h/sessions", "/h/sockets", "/h/logs"]);
    assert_eq!(plan.paths.root, "/h");
    assert_eq!(plan.record_path.as_deref(), Some("/h/sessions/a_b.json"));
    for command in [
        Command::Status { session: text("x") },
        Command::Ensure { name: text("x") },
        Command::Last { name: text("x") },
        Command::Close { name: text("x") },
    ] {
        assert_eq!(run("/h", &command).record_path.as_deref(), Some("/h/sessions/x.json"));
    }
    assert_eq!(run("/h", &Command::List).record_path, None);
    assert_eq!(run("/h", &Command::Cleanup).record_path, None);
    assert_eq!(run("/h", &Command::Serve { record: text("/r") }).record_path.as_deref(), Some("/r"));
    assert_eq!(run("/h", &Command::Guard { record: text("/r") }).record_path.as_deref(), Some("/r"));
}

#[test]
fn a_running_session_is_reused() {
    let record = running();
    assert_eq!(run_sessions_ensure(None, false, false), EnsureStep::Create);
    assert_eq!(run_sessions_ensure(Some(&record), true, true), EnsureStep::Reuse);
    assert_eq!(run_sessions_ensure(Some(&record), true, false), EnsureStep::Create);
    assert_eq!(run_sessions_ensure(Some(&record), false, true), EnsureStep::Replace);
    assert_eq!(run_sessions_ensure(Some(&record), false, false), EnsureStep::Replace);
    let mut closed = running();
    closed.close(text("40"));
    assert_eq!(run_sessions_ensure(Some(&closed), true, true), EnsureStep::Create);
}

#[test]
fn a_session_that_is_made_anew_keeps_its_conversation() {
    let mut old = running();
    append_history(&mut old, "assistant", "hi", text("22"), text("23"));
    mark_replaced(&mut old, text("50"));
    assert!(old.closed);
    assert_eq!(old.death_reason.as_deref(), Some("daemon found dead during session ensure"));
    let mut again = spec();
    again.model = Some(text("m"));
    again.mode = Some(text("auto"));
    let record = new_record(again, Some(old.clone()), text("60"), text("61"));
    assert_eq!(record.history, old.history);
    assert_eq!(record.last_assistant, old.last_assistant);
    assert_eq!((record.created_at.as_str(), record.updated_at.as_str()), ("10", "61"));
    assert!(!record.closed && record.death_reason.is_none() && record.pid.is_none());
    assert_eq!((record.config_model.as_deref(), record.config_mode.as_deref()), (Some("m"), Some("auto")));
    assert_eq!(run_sessions_last(&record, "demo"), Ok(text("hi")));
    mark_replaced(&mut old, text("70"));
    assert_eq!(old.death_reason.as_deref(), Some("daemon found dead during session ensure"));
}

#[test]
fn a_known_reason_is_not_replaced() {
    let mut old = running();
    old.death_reason = Some(text("crash"));
    mark_replaced(&mut old, text("50"));
    assert_eq!(old.death_reason.as_deref(), Some("crash"));
}

#[test]
fn waits_until_a_session_is_ready() {
    let (new, ready) = (fresh(), running());
    assert_eq!(wait_for_ready_record(false, true, Some(&ready)), WaitStep::Ready);
    assert_eq!(wait_for_ready_record(false, true, Some(&new)), WaitStep::Wait);
    assert_eq!(wait_for_ready_record(false, false, None), WaitStep::Wait);
    assert_eq!(wait_for_ready_record(false, false, Some(&ready)), WaitStep::Wait);
    assert_eq!(wait_for_ready_record(true, true, Some(&ready)), WaitStep::TimedOut);
    assert_eq!(timed_out_message(), "session daemon did not become ready before timeout");
}

#[test]
fn the_owner_is_asked_where_it_answers() {
    assert_eq!(run_status(true), StatusStep::AskOwner);
    assert_eq!(run_status(false), StatusStep::ShowRecord);
}

#[test]
fn lists_sessions_and_notes_their_end() {
    let mut record = running();
    let (summary, changed) = run_sessions_list(&mut record, true, true, true, text("80")).unwrap();
    assert_eq!((summary.status.as_str(), changed), ("running", false));
    assert_eq!(record, running());

    let (summary, changed) = run_sessions_list(&mut record, false, true, false, text("80")).unwrap();
    assert_eq!((summary.status.as_str(), changed), ("stale", false));

    let (summary, changed) = run_sessions_list(&mut record, true, false, false, text("81")).unwrap();
    assert_eq!((summary.status.as_str(), changed), ("stale", true));
    assert_eq!(summary.death_reason.as_deref(), Some("daemon found dead during list"));
    assert_eq!(summary.updated_at, "81");
    assert!(record.closed);

    let (summary, changed) = run_sessions_list(&mut record, false, false, false, text("82")).unwrap();
    assert_eq!((summary.status.as_str(), changed), ("closed", false));
    assert_eq!(run_sessions_list(&mut record, true, false, false, text("83")), None);

    let mut starting = fresh();
    let (summary, changed) = run_sessions_list(&mut starting, false, false, false, text("84")).unwrap();
    assert_eq!((summary.status.as_str(), changed), ("stale", false));
    assert!(!starting.closed);
}

#[test]
fn writes_a_list() {
    let mut record = running();
    append_history(&mut record, "user", "hello", text("20"), text("21"));
    let (summary, _) = run_sessions_list(&mut record, false, true, true, text("80")).unwrap();
    let expected = "[
  {
    \"agent_command\": \"agent --acp\",
    \"created_at\": \"10\",
    \"death_reason\": null,
    \"history_len\": 1,
    \"name\": \"demo\",
    \"pid\": 7,
    \"status\": \"running\",
    \"updated_at\": \"21\"
  }
]";
    assert_eq!(write_list(&vec![summary]), expected);
    assert_eq!(write_list(&Vec::new()), "[]");
    let (summary, _) = run_sessions_list(&mut fresh(), false, false, false, text("80")).unwrap();
    assert!(write_list(&vec![summary]).contains("\"pid\": null"));
}

fn info(modes: &[&str], mode: Option<&str>, model: Option<&str>) -> SessionInfo {
    SessionInfo {
        session_id: text("s1"),
        available_modes: modes.iter().map(|m| m.to_string()).collect(),
        current_mode: mode.map(text),
        current_model: model.map(text),
    }
}

#[test]
fn the_mode_is_set_where_the_agent_offers_it() {
    let offers = info(&["auto", "plan"], Some("plan"), None);
    assert_eq!(configure_mode(None, &offers), ModeStep::Nothing);
    assert_eq!(configure_mode(Some("plan"), &offers), ModeStep::AlreadyActive(text("plan")));
    assert_eq!(configure_mode(Some("auto"), &offers), ModeStep::Change(text("auto")));
    assert_eq!(configure_mode(Some("yolo"), &offers), ModeStep::Unavailable(text("yolo")));
    assert_eq!(configure_mode(Some("yolo"), &info(&[], None, None)), ModeStep::Change(text("yolo")));
}

#[test]
fn the_name_of_a_model_may_hold_an_effort() {
    let plain = info(&[], None, Some("gpt-5.4"));
    assert_eq!(configure_model(None, &plain), None);
    assert_eq!(configure_model(Some("gpt-5.4"), &plain), None);
    assert_eq!(configure_model(Some("o3"), &plain), Some(vec![(text("model"), text("o3"))]));
    assert_eq!(
        configure_model(Some("gpt-5.4/high"), &plain),
        Some(vec![(text("model"), text("gpt-5.4")), (text("reasoning_effort"), text("high"))])
    );
    assert_eq!(
        configure_model(Some("a/b/c"), &plain),
        Some(vec![(text("model"), text("a")), (text("reasoning_effort"), text("b/c"))])
    );
    assert_eq!(
        configure_model(Some("/"), &plain),
        Some(vec![(text("model"), text("")), (text("reasoning_effort"), text(""))])
    );
}

#[test]
fn sets_up_the_mode_before_the_model() {
    let mut record = running();
    assert_eq!(configure(&record, &info(&[], None, None)), Vec::new());
    record.config_mode = Some(text("auto"));
    record.config_model = Some(text("gpt-5.4/high"));
    let option = |id: &str, value: &str| Call::SetConfigOption {
        session_id: text("s1"),
        config_id: text(id),
        value: text(value),
    };
    let mode = Call::SetMode { session_id: text("s1"), mode: text("auto") };
    assert_eq!(
        configure(&record, &info(&[], None, None)),
        [mode.clone(), option("model", "gpt-5.4"), option("reasoning_effort", "high")]
    );
    assert_eq!(configure(&record, &info(&["plan"], None, Some("gpt-5.4/high"))), Vec::new());
    assert_eq!(configure(&record, &info(&["auto"], None, Some("gpt-5.4/high"))), [mode.clone()]);
    assert_eq!(
        tolerate(&mode, "no such method").as_deref(),
        Some("warning: set_mode failed (agent may not support it): no such method")
    );
    assert_eq!(
        tolerate(&option("model", "x"), "no").as_deref(),
        Some("warning: set_config_option(model) failed: no")
    );
    assert_eq!(tolerate(&Call::NewSession { cwd: text("/") }, "no"), None);
}

#[test]
fn the_owner_ends_for_a_reason() {
    let quiet = |shutdown, idle_secs, agent_dead| {
        run_session_daemon(DaemonEvent::Quiet { shutdown, idle_secs, agent_dead })
    };
    assert_eq!(IDLE_TIMEOUT_SECS, 30 * 60);
    assert_eq!(quiet(false, 1799, false), DaemonAction::Pause);
    assert_eq!(quiet(false, 1800, false), DaemonAction::Exit(ExitReason::Idle));
    assert_eq!(quiet(true, 1800, true), DaemonAction::Exit(ExitReason::Signal));
    assert_eq!(quiet(false, 1800, true), DaemonAction::Exit(ExitReason::Idle));
    assert_eq!(quiet(false, 0, true), DaemonAction::Exit(ExitReason::AgentDied));
    assert_eq!(run_session_daemon(DaemonEvent::NoRequest), DaemonAction::Listen);
    assert_eq!(run_session_daemon(DaemonEvent::Request(OwnerRequest::Status)), DaemonAction::Report);
    assert_eq!(
        run_session_daemon(DaemonEvent::Request(OwnerRequest::Prompt { text: text("hi") })),
        DaemonAction::RunTurn { text: text("hi") }
    );
    assert_eq!(run_session_daemon(DaemonEvent::Request(OwnerRequest::Close)), DaemonAction::Close);
    assert_eq!(run_session_daemon(DaemonEvent::TurnFailed { agent_dead: false }), DaemonAction::Listen);
    assert_eq!(run_session_daemon(DaemonEvent::TurnFailed { agent_dead: true }), DaemonAction::Die);
}

#[test]
fn the_owner_notes_its_end() {
    for action in [DaemonAction::Close, DaemonAction::Exit(ExitReason::Idle)] {
        let mut record = running();
        assert!(is_end(&action));
        assert!(settle(&mut record, &action, "", text("90")));
        assert!(record.closed && record.death_reason.is_none());
        assert_eq!(record.updated_at, "90");
    }
    for action in [DaemonAction::Pause, DaemonAction::Listen, DaemonAction::Report] {
        let mut record = running();
        assert!(!is_end(&action));
        assert!(!settle(&mut record, &action, "", text("90")));
        assert_eq!(record, running());
    }
    assert_eq!(
        say_farewell(&DaemonAction::Exit(ExitReason::Signal), "").as_deref(),
        Some("received shutdown signal, daemon exiting cleanly")
    );
    assert_eq!(
        say_farewell(&DaemonAction::Exit(ExitReason::Idle), "").as_deref(),
        Some("idle timeout (1800s), daemon exiting")
    );
    assert_eq!(
        say_farewell(&DaemonAction::Exit(ExitReason::AgentDied), "").as_deref(),
        Some("agent died while idle, daemon exiting")
    );
    assert_eq!(say_farewell(&DaemonAction::Die, "boom").as_deref(), Some("agent is dead, daemon exiting: boom"));
    assert_eq!(say_farewell(&DaemonAction::Close, ""), None);
}

#[test]
fn the_failure_of_a_turn_is_kept() {
    let mut record = running();
    append_history(&mut record, "assistant", "hi", text("22"), text("23"));
    record_failure(&mut record, Fault::Agent, "No capacity available for model", text("24"), text("25"));
    assert_eq!(record.history[1].role, "error");
    assert_eq!(record.history[1].text, "No capacity available for model");
    assert_eq!(record.death_reason.as_deref(), Some("No capacity available for model"));
    assert_eq!(run_sessions_last(&record, "demo"), Ok(text("hi")));
    let alive = run_session_daemon(DaemonEvent::TurnFailed { agent_dead: false });
    let before = record.clone();
    assert!(!settle(&mut record, &alive, "No capacity available for model", text("26")));
    assert_eq!(record, before);
    assert!(!record.closed);
    assert_eq!(refuse_closed("demo", &record), None);
    assert_eq!(failure_event("no"), OwnerEvent::Error { message: text("no") });
    let mut other = running();
    record_failure(&mut other, Fault::Elsewhere, "broken pipe", text("24"), text("25"));
    assert_eq!((other.history[0].text.as_str(), other.death_reason), ("broken pipe", None));
    assert!(settle(&mut record, &DaemonAction::Die, "No capacity available for model", text("26")));
    assert_eq!(
        refuse_closed("demo", &record).as_deref(),
        Some("session 'demo' is closed: No capacity available for model")
    );
}

#[test]
fn the_guardian_notes_an_unexpected_end() {
    let mut record = running();
    let reason = run_session_guardian(&mut record, Some(101), text("95"));
    assert_eq!(reason.as_deref(), Some("daemon exited unexpectedly (exit code 101)"));
    assert_eq!(record.death_reason, reason);
    assert!(record.closed);
    assert_eq!(run_session_guardian(&mut record, None, text("96")), None);
    assert_eq!(record.updated_at, "95");
    let mut record = running();
    assert_eq!(run_session_guardian(&mut record, None, text("96")).as_deref(), Some("daemon killed by signal"));
    let mut record = running();
    assert_eq!(
        run_session_guardian(&mut record, Some(-1), text("96")).as_deref(),
        Some("daemon exited unexpectedly (exit code -1)")
    );
}
