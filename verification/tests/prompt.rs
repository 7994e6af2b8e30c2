use acpx_rs::acp::{read_line, AcpClient, AgentError, Call};
use acpx_rs::answer::{check_protocol, new_session, request_step, AgentEvent, RequestStep};
use acpx_rs::events::{AcpEvent, OwnerEvent};
use acpx_rs::json::{compact, parse, Json};
use acpx_rs::prompt::{
    cut_off_message, heartbeat, missing_prompt_message, not_running_message, prompt_source, refuse_closed,
    run_prompt, unknown_session_message, PromptSource, Show, Turn,
};
use acpx_rs::record::SessionRecord;
use acpx_rs::sessions::{new_record, SessionSpec};
use acpx_rs::turn::{begin_turn, client_gone_message, end_turn, handle_prompt, Fault, PromptTurn};

fn text(text: &str) -> String {
    text.to_string()
}

fn read(text: &str) -> Json {
    match parse(text) {
        Some(json) => json,
        None => panic!("not JSON: {text}"),
    }
}

fn session() -> SessionRecord {
    let spec = SessionSpec {
        name: text("demo"),
        cwd: text("/w"),
        agent_command: text("agent"),
        socket_path: text("/s"),
        model: None,
        mode: None,
    };
    new_record(spec, None, text("1"), text("1"))
}

#[test]
fn a_prompt_has_a_source() {
    let words = vec![text("Say"), text("hello")];
    assert_eq!(prompt_source(Some("-"), &words), PromptSource::Stdin);
    assert_eq!(prompt_source(Some("p.txt"), &words), PromptSource::File(text("p.txt")));
    assert_eq!(prompt_source(None, &words), PromptSource::Words(text("Say hello")));
    assert_eq!(prompt_source(None, &vec![text("")]), PromptSource::Words(text("")));
    assert_eq!(prompt_source(None, &Vec::new()), PromptSource::Missing);
    assert_eq!(missing_prompt_message(), "no prompt text provided; use trailing args or --file");
}

#[test]
fn a_session_that_cannot_answer_is_named() {
    assert_eq!(unknown_session_message("x"), "session 'x' does not exist; run sessions ensure");
    let mut record = session();
    assert_eq!(refuse_closed("x", &record), None);
    assert_eq!(not_running_message("x", Some(&record)), "session 'x' is not running: daemon not reachable");
    assert_eq!(not_running_message("x", None), "session 'x' is not running: daemon not reachable");
    record.close(text("2"));
    assert_eq!(refuse_closed("x", &record).as_deref(), Some("session 'x' is closed"));
    record.close_by(text("crash"), text("2"));
    assert_eq!(refuse_closed("x", &record).as_deref(), Some("session 'x' is closed: crash"));
    assert_eq!(not_running_message("x", Some(&record)), "session 'x' is not running: crash");
    assert_eq!(cut_off_message(), "owner closed connection without a final response");
}

#[test]
fn a_silent_session_is_reported_as_working() {
    assert_eq!(heartbeat(true, 15), Some(AcpEvent::Status { text: text("working…") }));
    assert_eq!(heartbeat(true, 14), None);
    assert_eq!(heartbeat(false, 15), None);
}

fn tool(status: &str) -> OwnerEvent {
    OwnerEvent::ToolCall { title: text("grep"), status: text(status), tool_call_id: text("t1") }
}

fn done(reply: &str) -> OwnerEvent {
    OwnerEvent::Done { stop_reason: text("end_turn"), text: text(reply) }
}

#[test]
fn events_are_shown_as_text() {
    let show = |event| run_prompt(event, false);
    assert_eq!(show(OwnerEvent::Chunk { text: text("hi") }), (Show::Out(text("hi")), Turn::Continue));
    assert_eq!(
        show(OwnerEvent::Thought { text: text("hm") }),
        (Show::Aside(text("\x1b[2m[thinking] hm\x1b[0m")), Turn::Continue)
    );
    assert_eq!(
        show(tool("completed")),
        (Show::Aside(text("\x1b[2m[tool: grep] completed\x1b[0m\n")), Turn::Continue)
    );
    assert_eq!(show(done("hi")), (Show::Out(text("\n")), Turn::Finish));
    assert_eq!(show(done("hi\n")), (Show::Nothing, Turn::Finish));
    assert_eq!(show(done("")), (Show::Nothing, Turn::Finish));
    assert_eq!(show(OwnerEvent::Error { message: text("no") }), (Show::Nothing, Turn::Fail(text("no"))));
    assert_eq!(show(OwnerEvent::Closed), (Show::Nothing, Turn::Unexpected(OwnerEvent::Closed)));
    let status = OwnerEvent::Status { record: session() };
    assert_eq!(show(status.clone()), (Show::Nothing, Turn::Unexpected(status)));
}

#[test]
fn events_are_shown_as_lines_of_json() {
    let show = |event| run_prompt(event, true);
    let delta = |words: &str, stream: &str, tag: &str| {
        Show::Event(AcpEvent::TextDelta { text: text(words), stream: text(stream), tag: text(tag) })
    };
    assert_eq!(
        show(OwnerEvent::Chunk { text: text("hi") }),
        (delta("hi", "output", "agent_message_chunk"), Turn::Continue)
    );
    assert_eq!(
        show(OwnerEvent::Thought { text: text("hm") }),
        (delta("hm", "thought", "agent_thought_chunk"), Turn::Continue)
    );
    assert_eq!(
        show(tool("in_progress")),
        (Show::Event(AcpEvent::Status { text: text("using grep") }), Turn::Continue)
    );
    assert_eq!(show(tool("completed")), (Show::Nothing, Turn::Continue));
    assert_eq!(show(done("hi")), (Show::Event(AcpEvent::Done { stop_reason: text("end_turn") }), Turn::Finish));
    assert_eq!(
        show(OwnerEvent::Error { message: text("no") }),
        (Show::Event(AcpEvent::Error { message: text("no") }), Turn::Fail(text("no")))
    );
    assert_eq!(show(OwnerEvent::Closed), (Show::Nothing, Turn::Continue));
    assert_eq!(show(OwnerEvent::Status { record: session() }), (Show::Nothing, Turn::Continue));
}

fn update(kind: &str, content: &str) -> Json {
    read(&format!(
        r#"{{"method":"session/update","params":{{"sessionId":"s1","update":{{"sessionUpdate":"{kind}","content":{content}}}}}}}"#
    ))
}

#[test]
fn reports_become_events() {
    let mut turn = PromptTurn::new("s1");
    assert_eq!(
        turn.on_update(&update("agent_message_chunk", r#"{"text":"Hel"}"#)),
        Some(OwnerEvent::Chunk { text: text("Hel") })
    );
    assert_eq!(
        turn.on_update(&update("agent_thought_chunk", r#"{"text":"hm"}"#)),
        Some(OwnerEvent::Thought { text: text("hm") })
    );
    assert_eq!(
        turn.on_update(&update("tool_call", r#"{"title":"grep","status":"in_progress","toolCallId":"t1"}"#)),
        Some(tool("in_progress"))
    );
    assert_eq!(
        turn.on_update(&update("tool_call_update", r#"{"title":"grep"}"#)),
        Some(OwnerEvent::ToolCall { title: text("grep"), status: text(""), tool_call_id: text("") })
    );
    assert_eq!(turn.on_update(&update("tool_call", r#"{"status":"done","text":"x"}"#)), None);
    assert_eq!(turn.on_update(&update("agent_message_chunk", r#"{"text":""}"#)), None);
    assert_eq!(turn.on_update(&update("available_commands_update", r#"{"text":"x"}"#)), None);
    assert_eq!(turn.on_update(&update("agent_message_chunk", "null")), None);
    assert_eq!(turn.on_update(&read(r#"{"method":"session/update"}"#)), None);
    let other = r#"{"params":{"sessionId":"s2","update":{"content":{"text":"x"}}}}"#;
    assert_eq!(turn.on_update(&read(other)), None);
    let nameless = r#"{"params":{"sessionId":"s1","update":{"content":{"text":"lo"}}}}"#;
    assert_eq!(turn.on_update(&read(nameless)), Some(OwnerEvent::Chunk { text: text("lo") }));
    assert_eq!(turn.finish(&read(r#"{"stopReason":"end_turn"}"#)), "Hello");
}

#[test]
fn a_turn_may_be_cancelled() {
    assert_eq!(PromptTurn::new("s1").finish(&read(r#"{"stopReason":"cancelled"}"#)), "cancelled");
    assert_eq!(PromptTurn::new("s1").finish(&read(r#"{"stopReason":"end_turn"}"#)), "");
    assert_eq!(PromptTurn::new("s1").finish(&read("null")), "");
    let mut turn = PromptTurn::new("s1");
    turn.on_update(&update("agent_message_chunk", r#"{"text":"Hel"}"#));
    assert_eq!(turn.finish(&read(r#"{"stopReason":"cancelled"}"#)), "Hel");
}

#[test]
fn a_turn_ends_with_its_reply() {
    let mut record = session();
    begin_turn(&mut record, "hello", text("2"), text("3"));
    assert_eq!(record.updated_at, "3");
    let asked = record.clone();
    assert_eq!(handle_prompt(&mut record, Ok(text("hi")), false, text("4"), text("5")), Ok(done("hi")));
    let told: Vec<(&str, &str, &str)> =
        record.history.iter().map(|e| (e.role.as_str(), e.text.as_str(), e.timestamp.as_str())).collect();
    assert_eq!(told, [("user", "hello", "2"), ("assistant", "hi", "4")]);
    assert_eq!(record.last_assistant.as_ref(), record.history.last());
    assert_eq!(record.updated_at, "5");

    let mut record = asked.clone();
    assert_eq!(end_turn(&mut record, text(""), false, text("4"), text("5")), Ok(done("")));
    assert_eq!(record, asked);
    assert_eq!(end_turn(&mut record, text("hi"), true, text("4"), text("5")), Err(client_gone_message()));
    assert_eq!(record, asked);
    assert_eq!(client_gone_message(), "failed to write event to client (broken pipe)");
}

#[test]
fn a_turn_fails_by_the_agent_or_elsewhere() {
    let asked = session();
    let mut record = asked.clone();
    assert_eq!(
        handle_prompt(&mut record, Ok(text("hi")), true, text("4"), text("5")),
        Err((Fault::Elsewhere, client_gone_message()))
    );
    for write_failed in [false, true] {
        assert_eq!(
            handle_prompt(&mut record, Err(text("no capacity")), write_failed, text("4"), text("5")),
            Err((Fault::Agent, text("no capacity")))
        );
    }
    assert_eq!(record, asked);
}

#[test]
fn a_client_prints_what_the_agent_says() {
    let mut turn = PromptTurn::new("s1");
    let mut out = String::new();
    let mut print = |event| match run_prompt(event, false) {
        (Show::Out(text), _) => out.push_str(&text),
        _ => {}
    };
    for (kind, content) in [
        ("agent_message_chunk", r#"{"text":"Hel"}"#),
        ("agent_thought_chunk", r#"{"text":"hm"}"#),
        ("agent_message_chunk", r#"{"text":"lo"}"#),
    ] {
        if let Some(event) = turn.on_update(&update(kind, content)) {
            print(event);
        }
    }
    let mut record = session();
    let event = handle_prompt(&mut record, Ok(turn.finish(&Json::Null)), false, text("4"), text("5")).unwrap();
    print(event);
    assert_eq!(record.last_assistant.map(|e| e.text).as_deref(), Some("Hello"));
    assert_eq!(out, "Hello\n");
}

#[test]
fn calls_are_numbered_lines() {
    let mut client = AcpClient::new();
    let (id, line) = client.request(&Call::Initialize { version: text("0.1.0") });
    assert_eq!(id, 1);
    assert_eq!(
        line,
        "{\"id\":1,\"jsonrpc\":\"2.0\",\"method\":\"initialize\",\"params\":{\"clientCapabilities\":{},\
         \"clientInfo\":{\"name\":\"acpx-rs\",\"version\":\"0.1.0\"},\"protocolVersion\":1}}\n"
    );
    let calls = [
        (Call::NewSession { cwd: text("/w") }, "session/new", r#"{"cwd":"/w","mcpServers":[]}"#),
        (
            Call::SetConfigOption { session_id: text("s1"), config_id: text("model"), value: text("m") },
            "session/set_config_option",
            r#"{"configId":"model","sessionId":"s1","value":"m"}"#,
        ),
        (
            Call::SetMode { session_id: text("s1"), mode: text("auto") },
            "session/set_mode",
            r#"{"modeId":"auto","sessionId":"s1"}"#,
        ),
        (
            Call::Prompt { session_id: text("s1"), text: text("two\nlines") },
            "session/prompt",
            r#"{"prompt":[{"text":"two\nlines","type":"text"}],"sessionId":"s1"}"#,
        ),
    ];
    for (i, (call, method, params)) in calls.iter().enumerate() {
        assert_eq!(call.method(), *method);
        assert_eq!(compact(&call.parameters()), *params);
        let (id, line) = client.request(call);
        assert_eq!(id, i as u64 + 2);
        assert_eq!(line.matches('\n').count(), 1);
        let message = read_line(&line).unwrap();
        assert_eq!(message.get("id").and_then(|n| n.as_u64()), Some(id));
        assert_eq!(message.get_str("method"), Some(*method));
        assert_eq!(message.get("params").map(compact).as_deref(), Some(*params));
    }
}

#[test]
fn blank_and_foreign_lines_are_passed_over() {
    assert!(read_line("").is_none());
    assert!(read_line(" \t").is_none());
    assert!(read_line("starting up ...").is_none());
    assert_eq!(read_line("  {\"a\":1} \r").map(|m| compact(&m)).as_deref(), Some("{\"a\":1}"));
}

fn step(message: &str) -> RequestStep {
    request_step(3, "session/new", AgentEvent::Message(read(message)))
}

#[test]
fn a_call_waits_for_its_own_answer() {
    for message in [
        r#"{"id":2,"result":1}"#,
        r#"{"result":1}"#,
        r#"{"id":"3","result":1}"#,
        r#"{"id":-3,"result":1}"#,
        r#"{"method":"other"}"#,
        "[]",
    ] {
        assert!(matches!(step(message), RequestStep::Wait), "{message}");
    }
    match step(r#"{"id":3,"result":{"sessionId":"s1"}}"#) {
        RequestStep::Return(result) => assert_eq!(compact(&result), r#"{"sessionId":"s1"}"#),
        _ => panic!(),
    }
    match step(r#"{"id":3,"result":null}"#) {
        RequestStep::Return(result) => assert_eq!(compact(&result), "null"),
        _ => panic!(),
    }
    match step(r#"{"id":3,"method":"readTextFile","params":{"path":"a"}}"#) {
        RequestStep::Serve { id, method, params } => {
            assert_eq!((id, method.as_str(), compact(&params).as_str()), (3, "readTextFile", r#"{"path":"a"}"#));
        }
        _ => panic!(),
    }
    match step(r#"{"id":9,"method":"x"}"#) {
        RequestStep::Serve { params, .. } => assert_eq!(compact(&params), "null"),
        _ => panic!(),
    }
    match step(r#"{"id":3,"method":"session/update","params":1}"#) {
        RequestStep::Notify(message) => assert_eq!(message.get("params").and_then(|p| p.as_u64()), Some(1)),
        _ => panic!(),
    }
    let silent = AgentEvent::Silent { exit: None, stderr: text("x") };
    assert!(matches!(request_step(3, "x", silent), RequestStep::Wait));
}

fn failure(step: RequestStep) -> AgentError {
    match step {
        RequestStep::Fail(error) => error,
        _ => panic!("not failed"),
    }
}

#[test]
fn a_call_fails_for_a_reason() {
    let error = failure(step(r#"{"id":3,"error":{"message":"no"},"result":1}"#));
    assert_eq!(error.message(), "session/new failed: no");
    assert!(!error.is_gone());
    assert_eq!(failure(step(r#"{"id":3,"error":null}"#)).message(), "session/new failed: unknown ACP error");
    assert_eq!(failure(step(r#"{"id":3}"#)), AgentError::NoResult);
    assert_eq!(AgentError::NoResult.message(), "ACP response missing result");

    let silent = |stderr: &str| AgentEvent::Silent { exit: Some(text("exit status: 1")), stderr: text(stderr) };
    let error = failure(request_step(3, "session/prompt", silent("")));
    assert_eq!(error.message(), "agent process exited (exit status: 1) while waiting for session/prompt response");
    assert!(error.is_gone());
    let error = failure(request_step(3, "session/prompt", silent("boom")));
    assert_eq!(
        error.message(),
        "agent process exited (exit status: 1) while waiting for session/prompt response.\nAgent stderr:\nboom"
    );
    let closed = |stderr: &str| AgentEvent::Closed { stderr: text(stderr) };
    let error = failure(request_step(3, "x", closed("")));
    assert_eq!(error.message(), "agent closed stdout before responding");
    assert!(error.is_gone());
    let error = failure(request_step(3, "x", closed("boom")));
    assert_eq!(error.message(), "agent closed stdout before responding.\nAgent stderr:\nboom");
}

#[test]
fn the_agent_speaks_the_protocol() {
    assert_eq!(check_protocol(&read(r#"{"protocolVersion":1}"#)), Ok(()));
    for (result, version) in [
        (r#"{"protocolVersion":2}"#, 2),
        (r#"{"protocolVersion":-1}"#, -1),
        (r#"{"protocolVersion":"1"}"#, 0),
        ("{}", 0),
    ] {
        let error = check_protocol(&read(result)).unwrap_err();
        assert_eq!(error, AgentError::UnsupportedProtocol(version));
        assert_eq!(error.message(), format!("unsupported ACP protocol version: {version}"));
    }
}

#[test]
fn the_agent_tells_of_a_session() {
    let info = new_session(&read(
        r#"{"sessionId":"s1","modes":{"availableModes":[{"id":"auto"},{"name":"x"},{"id":7},{"id":"plan"}],
            "currentModeId":"plan"},"models":{"currentModelId":"gpt-5.4"}}"#,
    ))
    .unwrap();
    assert_eq!(info.session_id, "s1");
    assert_eq!(info.available_modes, ["auto", "plan"]);
    assert_eq!((info.current_mode.as_deref(), info.current_model.as_deref()), (Some("plan"), Some("gpt-5.4")));
    let info = new_session(&read(r#"{"sessionId":"s1","modes":{"availableModes":{}}}"#)).unwrap();
    assert!(info.available_modes.is_empty() && info.current_mode.is_none() && info.current_model.is_none());
    let error = new_session(&read(r#"{"sessionId":1}"#)).unwrap_err();
    assert_eq!(error, AgentError::NoSessionId);
    assert_eq!(error.message(), "session/new did not return sessionId");
}
