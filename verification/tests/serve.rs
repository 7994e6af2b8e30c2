use acpx_rs::acp::read_line;
use acpx_rs::json::{parse, Json};
use acpx_rs::serve::{
    handle_permission_request, handle_server_request, read_reply, serve_file, write_reply, write_response, FileStep,
    FileTask, Reply, ServerAction,
};
use acpx_rs::workspace::PathState;

fn text(text: &str) -> String {
    text.to_string()
}

fn read(text: &str) -> Json {
    match parse(text) {
        Some(json) => json,
        None => panic!("not JSON: {text}"),
    }
}

fn selected(id: &str) -> Reply {
    Reply::Selected { option_id: text(id) }
}

fn failed(message: &str) -> Reply {
    Reply::Failure { message: text(message) }
}

#[test]
fn the_first_allowing_option_is_chosen() {
    let ask = |options: &str| handle_permission_request(&read(&format!(r#"{{"options":{options}}}"#)));
    assert_eq!(
        ask(r#"[{"kind":"reject_once","optionId":"n"},{"kind":"allow_always","optionId":"a"},
               {"kind":"allow_once","optionId":"o"}]"#),
        selected("a")
    );
    assert_eq!(
        ask(r#"[{"kind":"reject_always","optionId":"r"},{"kind":"reject_once","optionId":"n"}]"#),
        selected("r")
    );
    assert_eq!(ask(r#"[{"kind":"allow_once"},{"kind":"allow_once","optionId":"o"}]"#), selected("o"));
    assert_eq!(ask(r#"[{"kind":"other","optionId":"x"},{"optionId":"y"},7]"#), Reply::Cancelled);
    assert_eq!(ask("[]"), Reply::Cancelled);
    assert_eq!(ask("{}"), Reply::Cancelled);
    assert_eq!(handle_permission_request(&Json::Null), Reply::Cancelled);
}

#[test]
fn answers_are_lines() {
    for (reply, line) in [
        (selected("a"), r#"{"id":5,"jsonrpc":"2.0","result":{"outcome":{"optionId":"a","outcome":"selected"}}}"#),
        (Reply::Cancelled, r#"{"id":5,"jsonrpc":"2.0","result":{"outcome":{"outcome":"cancelled"}}}"#),
        (Reply::Content { content: text("x\ny") }, r#"{"id":5,"jsonrpc":"2.0","result":{"content":"x\ny"}}"#),
        (Reply::Written, r#"{"id":5,"jsonrpc":"2.0","result":{}}"#),
        (failed("no"), r#"{"error":{"code":-32601,"message":"no"},"id":5,"jsonrpc":"2.0"}"#),
    ] {
        assert_eq!(write_response(5, &reply), format!("{line}\n"));
        let message = read_line(&write_response(u64::MAX, &reply)).unwrap();
        assert_eq!(message.get("id").and_then(|id| id.as_u64()), Some(u64::MAX));
        assert_eq!(message.get("error").is_some(), message.get("result").is_none());
    }
}

#[test]
fn requests_are_told_apart() {
    let ask = |method: &str, params: &str| handle_server_request(method, &read(params));
    let answer = |reply| ServerAction::Answer(reply);
    let allow = r#"{"options":[{"kind":"allow_once","optionId":"o"}]}"#;
    assert_eq!(ask("requestPermission", allow), answer(selected("o")));
    assert_eq!(ask("session/request_permission", allow), answer(selected("o")));
    assert_eq!(
        ask("readTextFile", r#"{"path":"a"}"#),
        ServerAction::File { path: text("a"), task: FileTask::Read }
    );
    assert_eq!(ask("readTextFile", "{}"), answer(failed("readTextFile missing path")));
    assert_eq!(
        ask("writeTextFile", r#"{"path":"a","content":"x"}"#),
        ServerAction::File { path: text("a"), task: FileTask::Write(Some(text("x"))) }
    );
    assert_eq!(
        ask("writeTextFile", r#"{"path":"a"}"#),
        ServerAction::File { path: text("a"), task: FileTask::Write(None) }
    );
    assert_eq!(ask("writeTextFile", "null"), answer(failed("writeTextFile missing path")));
    for method in ["createTerminal", "terminalOutput", "waitForTerminalExit", "killTerminal", "releaseTerminal"] {
        assert_eq!(ask(method, "{}"), answer(failed(&format!("{method} is not implemented"))));
    }
    assert_eq!(ask("fs/read", "{}"), answer(failed("unsupported server request method: fs/read")));
}

#[test]
fn a_file_is_read_in_the_workspace() {
    match serve_file("/w", "a", FileTask::Read, PathState::Whole, Ok(text("/w/a")), None) {
        FileStep::Read { path } => assert_eq!(path, "/w/a"),
        _ => panic!(),
    }
    assert_eq!(read_reply("/w/a", Ok(text("x"))), Reply::Content { content: text("x") });
    assert_eq!(read_reply("/w/a", Err(text("gone"))), failed("failed to read file /w/a: gone"));
}

#[test]
fn a_file_is_written_in_the_workspace() {
    let task = FileTask::Write(Some(text("x")));
    let (path, then) = match serve_file("/w", "d/new", task.clone(), PathState::Whole, Err(text("not found")), None) {
        FileStep::Resolve { path, then } => (path, then),
        _ => panic!(),
    };
    assert_eq!(path, "/w/d");
    match serve_file("/w", "d/new", task, then, Ok(text("/w/real")), None) {
        FileStep::Write { path, content } => assert_eq!((path.as_str(), content.as_str()), ("/w/real/new", "x")),
        _ => panic!(),
    }
    assert_eq!(write_reply("/w/a", Ok(())), Reply::Written);
    assert_eq!(write_reply("/w/a", Err(text("full"))), failed("failed to write file /w/a: full"));
}

fn refused(raw: &str, task: FileTask, state: PathState, resolved: Result<String, String>) -> Reply {
    match serve_file("/w", raw, task, state, resolved, None) {
        FileStep::Answer(reply) => reply,
        _ => panic!("{raw} is not refused"),
    }
}

#[test]
fn a_file_that_cannot_be_had_is_refused() {
    assert_eq!(
        refused("../x", FileTask::Read, PathState::Whole, Ok(text("/x"))),
        failed("path /x is outside the allowed workspace (/w)")
    );
    assert_eq!(
        refused("a/b", FileTask::Read, PathState::Parent(Some(text("b"))), Err(text("not found"))),
        failed("cannot resolve parent of: a/b: not found")
    );
    assert_eq!(
        refused("/", FileTask::Read, PathState::Whole, Err(text("denied"))),
        failed("no parent directory")
    );
    assert_eq!(
        refused("a/..", FileTask::Read, PathState::Parent(None), Ok(text("/w/a"))),
        failed("no file name")
    );
    assert_eq!(
        refused("a", FileTask::Write(None), PathState::Whole, Ok(text("/w/a"))),
        failed("writeTextFile missing content")
    );
    assert_eq!(
        refused("../x", FileTask::Write(None), PathState::Whole, Ok(text("/x"))),
        failed("path /x is outside the allowed workspace (/w)")
    );
}

#[test]
fn a_file_is_written_where_a_link_leads() {
    let task = FileTask::Write(Some(text("x")));
    let state = PathState::Parent(Some(text("l")));
    let (path, then) = match serve_file("/w", "l", task.clone(), state, Ok(text("/w")), Some(text("d/new"))) {
        FileStep::Resolve { path, then } => (path, then),
        _ => panic!(),
    };
    assert_eq!(path, "/w/d");
    match serve_file("/w", "l", task.clone(), then, Ok(text("/w/d")), None) {
        FileStep::Write { path, content } => assert_eq!((path.as_str(), content.as_str()), ("/w/d/new", "x")),
        _ => panic!(),
    }
    let outside = PathState::Target { name: Some(text("new")), links: 1 };
    assert_eq!(
        refused("l", task, outside, Ok(text("/x"))),
        failed("path /x/new is outside the allowed workspace (/w)")
    );
    let gone = PathState::Target { name: Some(text("new")), links: 1 };
    assert_eq!(
        refused("l", FileTask::Read, gone, Err(text("not found"))),
        failed("cannot resolve parent of: l: not found")
    );
}

#[test]
fn what_was_written_is_read_back() {
    for content in ["", "one\ntwo\n", "\u{e9}\u{1f600}\"\\"] {
        let params = Json::object().with("path", Json::string("a")).with("content", Json::string(content));
        let task = match handle_server_request("writeTextFile", &params) {
            ServerAction::File { path, task } if path == "a" => task,
            _ => panic!(),
        };
        let kept = match serve_file("/w", "a", task, PathState::Parent(Some(text("a"))), Ok(text("/w")), None) {
            FileStep::Write { path, content } if path == "/w/a" => content,
            _ => panic!(),
        };
        assert!(matches!(
            serve_file("/w", "a", FileTask::Read, PathState::Whole, Ok(text("/w/a")), None),
            FileStep::Read { .. }
        ));
        let line = write_response(1, &read_reply("/w/a", Ok(kept)));
        let message = read_line(&line).unwrap();
        assert_eq!(message.get("result").and_then(|r| r.get_str("content")), Some(content));
    }
}
