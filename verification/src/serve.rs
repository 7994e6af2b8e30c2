//! Requests of the agent: permissions, and files of its workspace.
use vstd::prelude::*;
use vstd::string::*;

use crate::acp::{line_of, text_tree, write_json};
use crate::answer::message_id;
use crate::json::{
    holds, item_trees, lacks, lacks_text, law_members, Json, JsonTree, NESTING_LIMIT,
};
use crate::record::maybe;
use crate::workspace::{
    canonical, law_accepted_path, law_check_ends, path_step, reachable, remaining, settled,
    validate_path, within, PathError, PathState, PathStep,
};

verus! {

/// The answer to a request of the agent.
#[derive(Debug, Clone, PartialEq, Eq)]
pub enum Reply<T = String> {
    /// An option of a request for permission is chosen.
    Selected { option_id: T },
    /// No option of a request for permission is chosen.
    Cancelled,
    /// The content of a file.
    Content { content: T },
    /// A file has been written.
    Written,
    /// The request is refused or has failed.
    Failure { message: T },
}

/// The model of an answer.
pub type ReplyView = Reply<Seq<char>>;

impl View for Reply {
    type V = ReplyView;

    open spec fn view(&self) -> ReplyView {
        match self {
            Reply::Selected { option_id } => Reply::Selected { option_id: option_id@ },
            Reply::Cancelled => Reply::Cancelled,
            Reply::Content { content } => Reply::Content { content: content@ },
            Reply::Written => Reply::Written,
            Reply::Failure { message } => Reply::Failure { message: message@ },
        }
    }
}

/// The code that an error of the client carries.
pub const ERROR_CODE: i64 = -32601;

impl Reply<Seq<char>> {
    /// The member of the message that tells the answer: its name and its value.
    pub open spec fn told(self) -> (Seq<char>, JsonTree) {
        match self {
            Reply::Selected { option_id } => (
                "result"@,
                JsonTree::Object(
                    map!["outcome"@ => JsonTree::Object(map![
                        "outcome"@ => text_tree("selected"@),
                        "optionId"@ => text_tree(option_id),
                    ])],
                ),
            ),
            Reply::Cancelled => (
                "result"@,
                JsonTree::Object(
                    map!["outcome"@ => JsonTree::Object(map![
                        "outcome"@ => text_tree("cancelled"@),
                    ])],
                ),
            ),
            Reply::Content { content } => (
                "result"@,
                JsonTree::Object(map!["content"@ => text_tree(content)]),
            ),
            Reply::Written => ("result"@, JsonTree::Object(Map::empty())),
            Reply::Failure { message } => (
                "error"@,
                JsonTree::Object(
                    map![
                        "code"@ => JsonTree::Int(ERROR_CODE as int),
                        "message"@ => text_tree(message),
                    ],
                ),
            ),
        }
    }

    /// The message that answers the request numbered `id`.
    pub open spec fn message(self, id: u64) -> JsonTree {
        JsonTree::Object(
            map![
                "jsonrpc"@ => text_tree("2.0"@),
                "id"@ => JsonTree::Int(id as int),
                self.told().0 => self.told().1,
            ],
        )
    }
}

impl Reply {
    /// The message that answers the request numbered `id`.
    pub fn message(&self, id: u64) -> (message: Json)
        ensures
            message@ == self@.message(id),
            message@.fits(NESTING_LIMIT as nat),
    {
        let base = Json::object().with("jsonrpc", Json::string("2.0")).with(
            "id",
            Json::Unsigned(id),
        );
        match self {
            Reply::Selected { option_id } => base.with(
                "result",
                Json::object().with(
                    "outcome",
                    Json::object().with("outcome", Json::string("selected")).with(
                        "optionId",
                        Json::string(option_id.as_str()),
                    ),
                ),
            ),
            Reply::Cancelled => base.with(
                "result",
                Json::object().with(
                    "outcome",
                    Json::object().with("outcome", Json::string("cancelled")),
                ),
            ),
            Reply::Content { content } => base.with(
                "result",
                Json::object().with("content", Json::string(content.as_str())),
            ),
            Reply::Written => base.with("result", Json::object()),
            Reply::Failure { message } => base.with(
                "error",
                Json::object().with("code", Json::Negative(ERROR_CODE)).with(
                    "message",
                    Json::string(message.as_str()),
                ),
            ),
        }
    }
}

/// Writes the line that answers the request numbered `id`.
pub fn write_response(id: u64, response: &Reply) -> (line: String)
    ensures
        line_of(line@, response@.message(id)),
{
    let message = response.message(id);
    write_json(&message)
}

/// The name of an option of one of two kinds; `None` where the option is of
/// another kind or has no name.
pub open spec fn option_of_kind(option: JsonTree, a: Seq<char>, b: Seq<char>) -> Option<
    Seq<char>,
> {
    match option.get_text("kind"@) {
        Some(kind) => if kind == a || kind == b {
            option.get_text("optionId"@)
        } else {
            None
        },
        None => None,
    }
}

/// The name of the first option of one of two kinds.
pub open spec fn first_option(options: Seq<JsonTree>, a: Seq<char>, b: Seq<char>) -> Option<
    Seq<char>,
>
    decreases options.len(),
{
    if options.len() == 0 {
        None
    } else {
        match option_of_kind(options.first(), a, b) {
            Some(id) => Some(id),
            None => first_option(options.drop_first(), a, b),
        }
    }
}

/// The options of a request for permission.
pub open spec fn options_of(params: JsonTree) -> Seq<JsonTree> {
    match params.get("options"@) {
        Some(options) => match options.items() {
            Some(items) => items,
            None => Seq::empty(),
        },
        None => Seq::empty(),
    }
}

/// The option that allows what the agent asks for.
pub open spec fn allowing(params: JsonTree) -> Option<Seq<char>> {
    first_option(options_of(params), "allow_once"@, "allow_always"@)
}

/// The option that rejects what the agent asks for.
pub open spec fn rejecting(params: JsonTree) -> Option<Seq<char>> {
    first_option(options_of(params), "reject_once"@, "reject_always"@)
}

/// The answer to a request for permission: the first option that allows it;
/// without one the first that rejects it; without either none.
pub open spec fn permission(params: JsonTree) -> ReplyView {
    match (allowing(params), rejecting(params)) {
        (Some(option_id), _) => Reply::Selected { option_id },
        (None, Some(option_id)) => Reply::Selected { option_id },
        (None, None) => Reply::Cancelled,
    }
}

fn pick(options: &Vec<Json>, a: &str, b: &str) -> (picked: Option<String>)
    ensures
        maybe(picked) == first_option(item_trees(options@), a@, b@),
{
    let ghost trees = item_trees(options@);
    assert(trees.skip(0) =~= trees);
    for i in 0..options.len()
        invariant
            trees == item_trees(options@),
            first_option(trees, a@, b@) == first_option(trees.skip(i as int), a@, b@),
    {
        assert(trees.skip(i as int).drop_first() =~= trees.skip(i + 1));
        assert(trees.skip(i as int).first() == options@[i as int]@);
        if let Some(kind) = options[i].get_str("kind") {
            if kind.eq(a) || kind.eq(b) {
                if let Some(id) = options[i].get_str("optionId") {
                    return Some(id.to_owned());
                }
            }
        }
    }
    None
}

/// Answers a request for permission.
pub fn handle_permission_request(params: &Json) -> (reply: Reply)
    ensures
        reply@ == permission(params@),
{
    let options = match params.get("options") {
        Some(options) => match options.as_array() {
            Some(items) => items,
            None => {
                return Reply::Cancelled;
            },
        },
        None => {
            return Reply::Cancelled;
        },
    };
    if let Some(option_id) = pick(options, "allow_once", "allow_always") {
        return Reply::Selected { option_id };
    }
    if let Some(option_id) = pick(options, "reject_once", "reject_always") {
        return Reply::Selected { option_id };
    }
    Reply::Cancelled
}

/// The option that is looked for is the first one of its kinds that has a name,
/// and it is found wherever there is one.
pub proof fn law_first_option(options: Seq<JsonTree>, a: Seq<char>, b: Seq<char>)
    ensures
        match first_option(options, a, b) {
            Some(id) => exists|i: int|
                0 <= i < options.len() && option_of_kind(#[trigger] options[i], a, b) == Some(id)
                    && forall|k: int|
                    0 <= k < i ==> option_of_kind(#[trigger] options[k], a, b) is None,
            None => forall|i: int|
                0 <= i < options.len() ==> option_of_kind(#[trigger] options[i], a, b) is None,
        },
    decreases options.len(),
{
    if options.len() > 0 {
        let rest = options.drop_first();
        law_first_option(rest, a, b);
        match option_of_kind(options.first(), a, b) {
            Some(_) => {
                assert(options[0] == options.first());
            },
            None => {
                match first_option(rest, a, b) {
                    Some(id) => {
                        let i = choose|i: int|
                            0 <= i < rest.len() && option_of_kind(#[trigger] rest[i], a, b) == Some(
                                id,
                            ) && forall|k: int|
                                0 <= k < i ==> option_of_kind(#[trigger] rest[k], a, b) is None;
                        assert(option_of_kind(options[i + 1], a, b) == Some(id));
                        assert forall|k: int| 0 <= k < i + 1 implies option_of_kind(
                            #[trigger] options[k],
                            a,
                            b,
                        ) is None by {
                            if k > 0 {
                                assert(options[k] == rest[k - 1]);
                            }
                        }
                    },
                    None => {
                        assert forall|i: int| 0 <= i < options.len() implies option_of_kind(
                            #[trigger] options[i],
                            a,
                            b,
                        ) is None by {
                            if i > 0 {
                                assert(options[i] == rest[i - 1]);
                            }
                        }
                    },
                }
            },
        }
    }
}

/// A permission is given exactly where an option gives it, an option that
/// rejects is chosen only where none allows, and what is chosen is one of the
/// options that the agent offers: the first of its kind.
pub proof fn law_permission(params: JsonTree)
    ensures
        permission(params) is Cancelled <==> allowing(params) is None && rejecting(params) is None,
        permission(params) matches Reply::Selected { option_id } ==> exists|i: int|
            0 <= i < options_of(params).len() && (#[trigger] options_of(params)[i]).get_text(
                "optionId"@,
            ) == Some(option_id),
        (exists|i: int|
            0 <= i < options_of(params).len() && option_of_kind(
                #[trigger] options_of(params)[i],
                "allow_once"@,
                "allow_always"@,
            ) is Some) ==> (permission(params) matches Reply::Selected { option_id } && allowing(
            params,
        ) == Some(option_id)),
{
    law_first_option(options_of(params), "allow_once"@, "allow_always"@);
    law_first_option(options_of(params), "reject_once"@, "reject_always"@);
}

/// What is to be done with a file.
#[derive(Debug, Clone, PartialEq, Eq)]
pub enum FileTask<T = String> {
    Read,
    /// The file is to be written, where there is a content for it.
    Write(Option<T>),
}

/// The model of a task.
pub type FileTaskView = FileTask<Seq<char>>;

impl View for FileTask {
    type V = FileTaskView;

    open spec fn view(&self) -> FileTaskView {
        match self {
            FileTask::Read => FileTask::Read,
            FileTask::Write(content) => FileTask::Write(maybe(*content)),
        }
    }
}

/// What a request of the agent asks of the client.
#[derive(Debug, Clone, PartialEq, Eq)]
pub enum ServerAction<T = String> {
    /// The answer is known.
    Answer(Reply<T>),
    /// The agent asks for a file of its workspace.
    File { path: T, task: FileTask<T> },
}

impl View for ServerAction {
    type V = ServerAction<Seq<char>>;

    open spec fn view(&self) -> ServerAction<Seq<char>> {
        match self {
            ServerAction::Answer(reply) => ServerAction::Answer(reply@),
            ServerAction::File { path, task } => ServerAction::File { path: path@, task: task@ },
        }
    }
}

/// The requests that have to do with terminals, which the client has not.
pub open spec fn terminal_method(method: Seq<char>) -> bool {
    ||| method == "createTerminal"@
    ||| method == "terminalOutput"@
    ||| method == "waitForTerminalExit"@
    ||| method == "killTerminal"@
    ||| method == "releaseTerminal"@
}

/// A refusal.
pub open spec fn failure(message: Seq<char>) -> ServerAction<Seq<char>> {
    ServerAction::Answer(Reply::Failure { message })
}

/// What a request of the agent asks of the client.
pub open spec fn server_action(method: Seq<char>, params: JsonTree) -> ServerAction<Seq<char>> {
    if method == "requestPermission"@ || method == "session/request_permission"@ {
        ServerAction::Answer(permission(params))
    } else if method == "readTextFile"@ {
        match params.get_text("path"@) {
            Some(path) => ServerAction::File { path, task: FileTask::Read },
            None => failure("readTextFile missing path"@),
        }
    } else if method == "writeTextFile"@ {
        match params.get_text("path"@) {
            Some(path) => ServerAction::File {
                path,
                task: FileTask::Write(params.get_text("content"@)),
            },
            None => failure("writeTextFile missing path"@),
        }
    } else if terminal_method(method) {
        failure(method + " is not implemented"@)
    } else {
        failure("unsupported server request method: "@ + method)
    }
}

fn fail(message: String) -> (action: ServerAction)
    ensures
        action@ == failure(message@),
{
    ServerAction::Answer(Reply::Failure { message })
}

/// Decides what a request of the agent asks of the client.
pub fn handle_server_request(method: &str, params: &Json) -> (action: ServerAction)
    ensures
        action@ == server_action(method@, params@),
{
    if method.eq("requestPermission") || method.eq("session/request_permission") {
        ServerAction::Answer(handle_permission_request(params))
    } else if method.eq("readTextFile") {
        match params.get_str("path") {
            Some(path) => ServerAction::File { path: path.to_owned(), task: FileTask::Read },
            None => fail("readTextFile missing path".to_owned()),
        }
    } else if method.eq("writeTextFile") {
        match params.get_str("path") {
            Some(path) => {
                let content = match params.get_str("content") {
                    Some(content) => Some(content.to_owned()),
                    None => None,
                };
                ServerAction::File { path: path.to_owned(), task: FileTask::Write(content) }
            },
            None => fail("writeTextFile missing path".to_owned()),
        }
    } else if method.eq("createTerminal") || method.eq("terminalOutput") || method.eq(
        "waitForTerminalExit",
    ) || method.eq("killTerminal") || method.eq("releaseTerminal") {
        fail(method.to_owned().concat(" is not implemented"))
    } else {
        fail("unsupported server request method: ".to_owned().concat(method))
    }
}

/// What the client does next for a file that the agent asks for.
pub enum FileStep<T = String> {
    /// A path is to be resolved.
    Resolve { path: T, then: PathState<T> },
    /// The file is to be read.
    Read { path: T },
    /// The file is to be written.
    Write { path: T, content: T },
    /// The answer is known.
    Answer(Reply<T>),
}

/// The model of a step.
pub type FileStepView = FileStep<Seq<char>>;

impl View for FileStep {
    type V = FileStepView;

    open spec fn view(&self) -> FileStepView {
        match self {
            FileStep::Resolve { path, then } => FileStep::Resolve { path: path@, then: then@ },
            FileStep::Read { path } => FileStep::Read { path: path@ },
            FileStep::Write { path, content } => FileStep::Write {
                path: path@,
                content: content@,
            },
            FileStep::Answer(reply) => FileStep::Answer(reply@),
        }
    }
}

/// The path that resolving gave, or the reason for which it gave none.
pub open spec fn resolution(resolved: Result<String, String>) -> Result<Seq<char>, Seq<char>> {
    match resolved {
        Ok(path) => Ok(path@),
        Err(reason) => Err(reason@),
    }
}

/// What follows for a file that the agent asks for as `raw`, once a path has
/// been resolved. Where that path is the directory of the file, `link` is what the
/// symbolic link in the place of the file leads to, where one stands there. The
/// file is read or written only at a path that has been
/// accepted.
pub open spec fn file_step(
    root: Seq<char>,
    raw: Seq<char>,
    task: FileTaskView,
    state: PathState<Seq<char>>,
    resolved: Result<Seq<char>, Seq<char>>,
    link: Option<Seq<char>>,
) -> FileStepView {
    match path_step(root, raw, state, resolved.ok(), link) {
        PathStep::Resolve { path, then } => FileStep::Resolve { path, then },
        PathStep::Accept(path) => match task {
            FileTask::Read => FileStep::Read { path },
            FileTask::Write(Some(content)) => FileStep::Write { path, content },
            FileTask::Write(None) => FileStep::Answer(
                Reply::Failure { message: "writeTextFile missing content"@ },
            ),
        },
        PathStep::Refuse(error) => FileStep::Answer(
            Reply::Failure {
                message: match (error, resolved) {
                    (PathError::UnresolvedParent(_), Err(reason)) => error.text() + ": "@ + reason,
                    _ => error.text(),
                },
            },
        ),
    }
}

/// Goes on with a file that the agent asks for as `raw`, once a path has been
/// resolved: `resolved` is the path without symbolic links and dots, or the
/// reason for which it cannot be resolved. Where the directory of the file has
/// been resolved, `link` is what the symbolic link in the place of the file leads
/// to, where one stands there. The first path to resolve is `requested_path`.
pub fn serve_file(
    allowed_root: &str,
    raw: &str,
    task: FileTask,
    state: PathState,
    resolved: Result<String, String>,
    link: Option<String>,
) -> (step: FileStep)
    ensures
        step@ == file_step(
            allowed_root@,
            raw@,
            task@,
            state@,
            resolution(resolved),
            maybe(link),
        ),
{
    let (path, reason) = match resolved {
        Ok(path) => (Some(path), None),
        Err(reason) => (None, Some(reason)),
    };
    match validate_path(allowed_root, raw, state, path, link) {
        PathStep::Resolve { path, then } => FileStep::Resolve { path, then },
        PathStep::Accept(path) => match task {
            FileTask::Read => FileStep::Read { path },
            FileTask::Write(Some(content)) => FileStep::Write { path, content },
            FileTask::Write(None) => FileStep::Answer(
                Reply::Failure { message: "writeTextFile missing content".to_owned() },
            ),
        },
        PathStep::Refuse(error) => {
            let text = error.message();
            let message = match (error, reason) {
                (PathError::UnresolvedParent(_), Some(reason)) => text.concat(": ").concat(
                    reason.as_str(),
                ),
                _ => text,
            };
            FileStep::Answer(Reply::Failure { message })
        },
    }
}

/// A file is read or written only in the workspace: the path lies in it, its
/// components are plain names, and none of them is a symbolic link, so nothing
/// leads out again. Until then only so many paths are looked at. This takes that
/// the paths were resolved, and that the first one was the path itself.
pub proof fn law_files_stay_in_workspace(
    root: Seq<char>,
    raw: Seq<char>,
    task: FileTaskView,
    state: PathState<Seq<char>>,
    resolved: Result<Seq<char>, Seq<char>>,
    link: Option<Seq<char>>,
)
    requires
        reachable(root, raw, state),
        resolved matches Ok(path) ==> canonical(path),
    ensures
        match file_step(root, raw, task, state, resolved, link) {
            FileStep::Read { path } => within(root, path) && canonical(path) && settled(
                path,
                state,
                resolved.ok(),
                link,
            ),
            FileStep::Write { path, .. } => within(root, path) && canonical(path) && settled(
                path,
                state,
                resolved.ok(),
                link,
            ),
            FileStep::Resolve { then, .. } => reachable(root, raw, then) && remaining(then)
                < remaining(state),
            FileStep::Answer(reply) => reply is Failure,
        },
{
    law_accepted_path(root, raw, state, resolved.ok(), link);
    law_check_ends(root, raw, state, resolved.ok(), link);
}

/// The answer to the agent once a file has been read, or could not be for a
/// reason.
pub open spec fn read_answer(path: Seq<char>, read: Result<Seq<char>, Seq<char>>) -> ReplyView {
    match read {
        Ok(content) => Reply::Content { content },
        Err(reason) => Reply::Failure {
            message: "failed to read file "@ + path + ": "@ + reason,
        },
    }
}

/// The answer to the agent once a file has been read, or could not be for a
/// reason.
pub fn read_reply(path: &str, read: Result<String, String>) -> (reply: Reply)
    ensures
        reply@ == read_answer(path@, resolution(read)),
{
    match read {
        Ok(content) => Reply::Content { content },
        Err(reason) => Reply::Failure {
            message: "failed to read file ".to_owned().concat(path).concat(": ").concat(
                reason.as_str(),
            ),
        },
    }
}

/// The answer to the agent once a file has been written, or could not be for a
/// reason.
pub open spec fn write_answer(path: Seq<char>, written: Result<(), Seq<char>>) -> ReplyView {
    match written {
        Ok(_) => Reply::Written,
        Err(reason) => Reply::Failure {
            message: "failed to write file "@ + path + ": "@ + reason,
        },
    }
}

/// The answer to the agent once a file has been written, or could not be for a
/// reason.
pub fn write_reply(path: &str, written: Result<(), String>) -> (reply: Reply)
    ensures
        reply@ == write_answer(
            path@,
            match written {
                Ok(_) => Ok(()),
                Err(reason) => Err(reason@),
            },
        ),
{
    match written {
        Ok(_) => Reply::Written,
        Err(reason) => Reply::Failure {
            message: "failed to write file ".to_owned().concat(path).concat(": ").concat(
                reason.as_str(),
            ),
        },
    }
}

/// Files by their paths, after a step has been carried out.
pub open spec fn files_after(files: Map<Seq<char>, Seq<char>>, step: FileStepView) -> Map<
    Seq<char>,
    Seq<char>,
> {
    match step {
        FileStep::Write { path, content } => files.insert(path, content),
        _ => files,
    }
}

/// What an agent has written to a file is what it reads of it afterwards, every
/// character of it: a request to write asks for the content to be written, and a
/// request to read the same path, which then resolves to the file that was
/// written, is answered with that content. This takes that the file holds what
/// was written to it and nothing has changed it since.
pub proof fn law_written_is_read_back(
    root: Seq<char>,
    write_params: JsonTree,
    read_params: JsonTree,
    raw: Seq<char>,
    content: Seq<char>,
    files: Map<Seq<char>, Seq<char>>,
    state: PathState<Seq<char>>,
    resolved: Result<Seq<char>, Seq<char>>,
    link: Option<Seq<char>>,
    path: Seq<char>,
)
    requires
        write_params.get_text("path"@) == Some(raw),
        write_params.get_text("content"@) == Some(content),
        read_params.get_text("path"@) == Some(raw),
        path_step(root, raw, state, resolved.ok(), link) == PathStep::Accept(path),
    ensures
        server_action("writeTextFile"@, write_params) == (ServerAction::File {
            path: raw,
            task: FileTask::Write(Some(content)),
        }),
        server_action("readTextFile"@, read_params) == (ServerAction::File {
            path: raw,
            task: FileTask::Read,
        }),
        ({
            let write = file_step(
                root,
                raw,
                FileTask::Write(Some(content)),
                state,
                resolved,
                link,
            );
            let read = file_step(root, raw, FileTask::Read, PathState::Whole, Ok(path), link);
            let after = files_after(files, write);
            let answer = read_answer(path, Ok(after[path]));
            &&& write == FileStep::Write { path, content }
            &&& read == FileStep::Read { path }
            &&& after.dom().contains(path)
            &&& answer == Reply::Content { content }
            &&& answer.told().1.get_text("content"@) == Some(content)
        }),
{
    reveal_strlit("requestPermission");
    reveal_strlit("session/request_permission");
    reveal_strlit("readTextFile");
    reveal_strlit("writeTextFile");
    assert("requestPermission"@.len() == 17 && "session/request_permission"@.len() == 26);
    assert("readTextFile"@.len() == 12 && "writeTextFile"@.len() == 13);
}

/// Every request of the agent is answered with its own number, with either a
/// result or an error and never both.
pub proof fn law_every_request_is_answered(id: u64, reply: ReplyView)
    ensures
        message_id(reply.message(id)) == Some(id),
        reply.message(id).get_text("method"@) is None,
        reply is Failure <==> reply.message(id).get("error"@) is Some,
        reply is Failure <==> reply.message(id).get("result"@) is None,
{
    reveal_strlit("jsonrpc");
    reveal_strlit("id");
    reveal_strlit("method");
    reveal_strlit("result");
    reveal_strlit("error");
    assert("jsonrpc"@.len() == 7 && "id"@.len() == 2 && "method"@.len() == 6 && "result"@.len()
        == 6 && "error"@.len() == 5);
    assert("method"@[0] == 'm' && "result"@[0] == 'r');
}

/// The option is of one of two kinds, and `id` is its name.
pub open spec fn offers(option: JsonTree, a: Seq<char>, b: Seq<char>, id: Seq<char>) -> bool {
    &&& holds(option, "kind"@, JsonTree::Text(a)) || holds(option, "kind"@, JsonTree::Text(b))
    &&& holds(option, "optionId"@, JsonTree::Text(id))
}

proof fn lemma_offers(option: JsonTree, a: Seq<char>, b: Seq<char>, id: Seq<char>)
    ensures
        option_of_kind(option, a, b) == Some(id) <==> offers(option, a, b, id),
        option_of_kind(option, a, b) is None <==> forall|other: Seq<char>|
            !#[trigger] offers(option, a, b, other),
{
    law_members(option, "kind"@, option, a);
    law_members(option, "kind"@, option, b);
    law_members(option, "optionId"@, option, id);
    if let Some(other) = option_of_kind(option, a, b) {
        law_members(option, "optionId"@, option, other);
        assert(offers(option, a, b, other));
    } else {
        assert forall|other: Seq<char>| !#[trigger] offers(option, a, b, other) by {
            law_members(option, "optionId"@, option, other);
        }
    }
}

proof fn lemma_first_of(options: Seq<JsonTree>, a: Seq<char>, b: Seq<char>, i: int, id: Seq<char>)
    ensures
        0 <= i < options.len() && offers(options[i], a, b, id) && (forall|k: int, other: Seq<char>|
            0 <= k < i ==> !#[trigger] offers(options[k], a, b, other)) ==> first_option(
            options,
            a,
            b,
        ) == Some(id),
        (forall|k: int, other: Seq<char>|
            0 <= k < options.len() ==> !#[trigger] offers(options[k], a, b, other))
            ==> first_option(options, a, b) is None,
    decreases options.len(),
{
    if options.len() > 0 {
        let rest = options.drop_first();
        lemma_first_of(rest, a, b, i - 1, id);
        lemma_offers(options[0], a, b, id);
        assert forall|k: int, other: Seq<char>| 0 <= k < rest.len() implies #[trigger] offers(
            rest[k],
            a,
            b,
            other,
        ) == offers(options[k + 1], a, b, other) by {}
    }
}

/// The first option that allows what is asked for, once or always, is chosen
/// wherever there is one, whatever else is offered. Where none does, the first that
/// rejects it, once or always, is chosen. Where none does either, nothing is.
pub proof fn law_permission_choice(
    params: JsonTree,
    options: Seq<JsonTree>,
    i: int,
    id: Seq<char>,
)
    requires
        holds(params, "options"@, JsonTree::Array(options)),
    ensures
        0 <= i < options.len() && offers(options[i], "allow_once"@, "allow_always"@, id) && (forall|
            k: int,
            other: Seq<char>,
        |
            0 <= k < i ==> !#[trigger] offers(
                options[k],
                "allow_once"@,
                "allow_always"@,
                other,
            )) ==> permission(params) == (Reply::Selected { option_id: id }),
        0 <= i < options.len() && offers(options[i], "reject_once"@, "reject_always"@, id)
            && (forall|k: int, other: Seq<char>|
            0 <= k < i ==> !#[trigger] offers(
                options[k],
                "reject_once"@,
                "reject_always"@,
                other,
            )) && (forall|k: int, other: Seq<char>|
            0 <= k < options.len() ==> !#[trigger] offers(
                options[k],
                "allow_once"@,
                "allow_always"@,
                other,
            )) ==> permission(params) == (Reply::Selected { option_id: id }),
        (forall|k: int, other: Seq<char>|
            0 <= k < options.len() ==> !#[trigger] offers(
                options[k],
                "allow_once"@,
                "allow_always"@,
                other,
            )) && (forall|k: int, other: Seq<char>|
            0 <= k < options.len() ==> !#[trigger] offers(
                options[k],
                "reject_once"@,
                "reject_always"@,
                other,
            )) ==> permission(params) == Reply::<Seq<char>>::Cancelled,
{
    assert(options_of(params) == options);
    lemma_first_of(options, "allow_once"@, "allow_always"@, i, id);
    lemma_first_of(options, "reject_once"@, "reject_always"@, i, id);
}

/// Where no options are told, nothing is chosen.
pub proof fn law_permission_without_options(params: JsonTree)
    requires
        forall|options: Seq<JsonTree>| !#[trigger] holds(
            params,
            "options"@,
            JsonTree::Array(options),
        ),
    ensures
        permission(params) == Reply::<Seq<char>>::Cancelled,
{
    if let Some(JsonTree::Array(options)) = params.get("options"@) {
        assert(holds(params, "options"@, JsonTree::Array(options)));
    }
}

/// An answer tells what it is about, as it is: the option that is chosen, the
/// content of a file, the reason of a failure.
pub proof fn law_answers_tell(id: u64, text: Seq<char>)
    ensures
        holds((Reply::Selected { option_id: text }).message(id), "jsonrpc"@, JsonTree::Text("2.0"@)),
        holds((Reply::Content { content: text }).message(id), "id"@, JsonTree::Int(id as int)),
        ({
            let answer = (Reply::Selected { option_id: text }).message(id);
            &&& answer.get("result"@) matches Some(result) && result.get("outcome"@) matches Some(
                outcome,
            ) && holds(outcome, "outcome"@, JsonTree::Text("selected"@)) && holds(
                outcome,
                "optionId"@,
                JsonTree::Text(text),
            )
        }),
        ({
            let answer = Reply::<Seq<char>>::Cancelled.message(id);
            &&& answer.get("result"@) matches Some(result) && result.get("outcome"@) matches Some(
                outcome,
            ) && holds(outcome, "outcome"@, JsonTree::Text("cancelled"@)) && lacks(
                outcome,
                "optionId"@,
            )
        }),
        ({
            let answer = (Reply::Content { content: text }).message(id);
            &&& answer.get("result"@) matches Some(result) && holds(
                result,
                "content"@,
                JsonTree::Text(text),
            )
        }),
        holds(
            Reply::<Seq<char>>::Written.message(id),
            "result"@,
            JsonTree::Object(Map::empty()),
        ),
        ({
            let answer = (Reply::Failure { message: text }).message(id);
            &&& answer.get("error"@) matches Some(error) && holds(
                error,
                "code"@,
                JsonTree::Int(-32601),
            ) && holds(error, "message"@, JsonTree::Text(text))
        }),
{
    reveal_strlit("jsonrpc");
    reveal_strlit("id");
    reveal_strlit("result");
    reveal_strlit("error");
    reveal_strlit("outcome");
    reveal_strlit("optionId");
    reveal_strlit("code");
    reveal_strlit("message");
    assert("jsonrpc"@.len() == 7 && "id"@.len() == 2 && "result"@.len() == 6 && "error"@.len() == 5);
    assert("outcome"@.len() == 7 && "optionId"@.len() == 8 && "code"@.len() == 4 && "message"@.len()
        == 7);
}

/// The models of answers, tasks and steps keep every text of them.
pub proof fn law_answer_models(reply: Reply, task: FileTask)
    ensures
        match reply {
            Reply::Selected { option_id } => reply@ == (Reply::Selected { option_id: option_id@ }),
            Reply::Cancelled => reply@ == Reply::<Seq<char>>::Cancelled,
            Reply::Content { content } => reply@ == (Reply::Content { content: content@ }),
            Reply::Written => reply@ == Reply::<Seq<char>>::Written,
            Reply::Failure { message } => reply@ == (Reply::Failure { message: message@ }),
        },
        match task {
            FileTask::Read => task@ == FileTask::<Seq<char>>::Read,
            FileTask::Write(None) => task@ == FileTask::<Seq<char>>::Write(None),
            FileTask::Write(Some(content)) => task@ == FileTask::Write(Some(content@)),
        },
{
}

proof fn lemma_methods_differ()
    ensures
        "readTextFile"@ != "writeTextFile"@,
        "readTextFile"@ != "requestPermission"@,
        "readTextFile"@ != "session/request_permission"@,
        "writeTextFile"@ != "requestPermission"@,
        "writeTextFile"@ != "session/request_permission"@,
        forall|method: Seq<char>| #[trigger]
            terminal_method(method) ==> method != "readTextFile"@ && method != "writeTextFile"@
                && method != "requestPermission"@ && method != "session/request_permission"@,
{
    reveal_strlit("requestPermission");
    reveal_strlit("session/request_permission");
    reveal_strlit("readTextFile");
    reveal_strlit("writeTextFile");
    reveal_strlit("createTerminal");
    reveal_strlit("terminalOutput");
    reveal_strlit("waitForTerminalExit");
    reveal_strlit("killTerminal");
    reveal_strlit("releaseTerminal");
    assert("requestPermission"@.len() == 17 && "session/request_permission"@.len() == 26
        && "readTextFile"@.len() == 12 && "writeTextFile"@.len() == 13);
    assert("createTerminal"@.len() == 14 && "terminalOutput"@.len() == 14
        && "waitForTerminalExit"@.len() == 19 && "killTerminal"@.len() == 12
        && "releaseTerminal"@.len() == 15);
    assert("readTextFile"@[0] == 'r' && "killTerminal"@[0] == 'k');
}

/// A request for a file is about the path that it names and, for a file to be
/// written, the content that it holds, as they are; without a path it is refused. A
/// request for permission is answered as such, under both its names.
pub proof fn law_file_requests(params: JsonTree, path: Seq<char>, content: Seq<char>)
    ensures
        server_action("requestPermission"@, params) == ServerAction::Answer(permission(params)),
        server_action("session/request_permission"@, params) == ServerAction::Answer(
            permission(params),
        ),
        holds(params, "path"@, JsonTree::Text(path)) ==> server_action("readTextFile"@, params)
            == (ServerAction::File { path, task: FileTask::Read }),
        holds(params, "path"@, JsonTree::Text(path)) && holds(
            params,
            "content"@,
            JsonTree::Text(content),
        ) ==> server_action("writeTextFile"@, params) == (ServerAction::File {
            path,
            task: FileTask::Write(Some(content)),
        }),
        holds(params, "path"@, JsonTree::Text(path)) && lacks_text(params, "content"@)
            ==> server_action("writeTextFile"@, params) == (ServerAction::File {
            path,
            task: FileTask::Write(None),
        }),
        lacks_text(params, "path"@) ==> server_action("readTextFile"@, params)
            == ServerAction::Answer(Reply::Failure { message: "readTextFile missing path"@ })
            && server_action("writeTextFile"@, params) == ServerAction::Answer(
            Reply::Failure { message: "writeTextFile missing path"@ },
        ),
{
    lemma_methods_differ();
    law_members(params, "path"@, params, path);
    law_members(params, "content"@, params, content);
}

/// Every other request is refused by its name, whatever its parameters are: those
/// about terminals as not implemented, any other as not supported.
pub proof fn law_other_requests(method: Seq<char>, params: JsonTree)
    ensures
        method == "createTerminal"@ || method == "terminalOutput"@ || method
            == "waitForTerminalExit"@ || method == "killTerminal"@ || method == "releaseTerminal"@
            ==> server_action(method, params) == ServerAction::Answer(
            Reply::Failure { message: method + " is not implemented"@ },
        ),
        method != "createTerminal"@ && method != "terminalOutput"@ && method
            != "waitForTerminalExit"@ && method != "killTerminal"@ && method != "releaseTerminal"@
            && method != "readTextFile"@ && method != "writeTextFile"@ && method
            != "requestPermission"@ && method != "session/request_permission"@ ==> server_action(
            method,
            params,
        ) == ServerAction::Answer(
            Reply::Failure { message: "unsupported server request method: "@ + method },
        ),
{
    lemma_methods_differ();
    assert(method == "createTerminal"@ || method == "terminalOutput"@ || method
        == "waitForTerminalExit"@ || method == "killTerminal"@ || method == "releaseTerminal"@
        ==> terminal_method(method));
}

/// What is done with a file follows from what the check of its path comes to: an
/// accepted file is read, or written with the whole content, or refused where there
/// is no content; a refused path is answered with the reason, and with that of the
/// file system where its directory cannot be resolved.
pub proof fn law_file_steps(
    root: Seq<char>,
    raw: Seq<char>,
    content: Seq<char>,
    state: PathState<Seq<char>>,
    resolved: Result<Seq<char>, Seq<char>>,
    link: Option<Seq<char>>,
    task: FileTaskView,
)
    ensures
        path_step(root, raw, state, resolved.ok(), link) matches PathStep::Accept(path)
            ==> file_step(root, raw, FileTask::Read, state, resolved, link) == (FileStep::Read {
            path,
        }) && file_step(root, raw, FileTask::Write(Some(content)), state, resolved, link)
            == (FileStep::Write { path, content }) && file_step(
            root,
            raw,
            FileTask::Write(None),
            state,
            resolved,
            link,
        ) == FileStep::Answer(Reply::Failure { message: "writeTextFile missing content"@ }),
        path_step(root, raw, state, resolved.ok(), link) matches PathStep::Resolve { path, then }
            ==> file_step(root, raw, task, state, resolved, link) == (FileStep::Resolve {
            path,
            then,
        }),
        path_step(root, raw, state, resolved.ok(), link) matches PathStep::Refuse(error) ==> (error
            !is UnresolvedParent || resolved is Ok ==> file_step(
            root,
            raw,
            task,
            state,
            resolved,
            link,
        ) == FileStep::Answer(Reply::Failure { message: error.text() })) && (error
            is UnresolvedParent && resolved is Err ==> file_step(
            root,
            raw,
            task,
            state,
            resolved,
            link,
        ) == FileStep::Answer(
            Reply::Failure { message: error.text() + ": "@ + resolved->Err_0 },
        )),
{
}

/// A file that was read is answered with its whole content, one that was written
/// as written; a failure is answered with the path and the whole reason.
pub proof fn law_file_answers(path: Seq<char>, content: Seq<char>, reason: Seq<char>)
    ensures
        read_answer(path, Ok(content)) == (Reply::Content { content }),
        write_answer(path, Ok(())) == Reply::<Seq<char>>::Written,
        read_answer(path, Err(reason)) == (Reply::Failure {
            message: "failed to read file "@ + path + ": "@ + reason,
        }),
        write_answer(path, Err(reason)) == (Reply::Failure {
            message: "failed to write file "@ + path + ": "@ + reason,
        }),
{
}

/// The models of actions and of steps keep every text of them.
pub proof fn law_serving_models(
    action: ServerAction,
    step: FileStep,
    resolved: Result<String, String>,
)
    ensures
        match action {
            ServerAction::Answer(reply) => action@ == ServerAction::Answer(reply@),
            ServerAction::File { path, task } => action@ == (ServerAction::File {
                path: path@,
                task: task@,
            }),
        },
        match step {
            FileStep::Resolve { path, then } => step@ == (FileStep::Resolve {
                path: path@,
                then: then@,
            }),
            FileStep::Read { path } => step@ == (FileStep::Read { path: path@ }),
            FileStep::Write { path, content } => step@ == (FileStep::Write {
                path: path@,
                content: content@,
            }),
            FileStep::Answer(reply) => step@ == FileStep::Answer(reply@),
        },
        resolved matches Ok(path) ==> resolution(resolved) == Ok::<Seq<char>, Seq<char>>(path@),
        resolved matches Err(reason) ==> resolution(resolved) == Err::<Seq<char>, Seq<char>>(
            reason@,
        ),
{
}

} // verus!
