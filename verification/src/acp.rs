//! The Agent Client Protocol, from the side of the client: the calls that it
//! makes, the lines that carry them, and why a call has no answer.
use vstd::prelude::*;
use vstd::string::*;

use crate::json::{
    compact, compact_text, holds, item_trees, parse, parsed_tree, Json, JsonTree, NESTING_LIMIT,
};
use crate::text::{signed_decimal, signed_decimal_text, trim, trimmed};

verus! {

/// The name that the client gives of itself.
pub open spec fn app_name() -> Seq<char> {
    "acpx-rs"@
}

/// The version of the protocol that the client speaks.
pub const PROTOCOL_VERSION: i64 = 1;

/// A call of the client to the agent.
#[derive(Debug, Clone, PartialEq, Eq)]
pub enum Call<T = String> {
    Initialize { version: T },
    NewSession { cwd: T },
    SetConfigOption { session_id: T, config_id: T, value: T },
    SetMode { session_id: T, mode: T },
    Prompt { session_id: T, text: T },
}

impl View for Call {
    type V = Call<Seq<char>>;

    open spec fn view(&self) -> Call<Seq<char>> {
        match self {
            Call::Initialize { version } => Call::Initialize { version: version@ },
            Call::NewSession { cwd } => Call::NewSession { cwd: cwd@ },
            Call::SetConfigOption { session_id, config_id, value } => Call::SetConfigOption {
                session_id: session_id@,
                config_id: config_id@,
                value: value@,
            },
            Call::SetMode { session_id, mode } => Call::SetMode {
                session_id: session_id@,
                mode: mode@,
            },
            Call::Prompt { session_id, text } => Call::Prompt {
                session_id: session_id@,
                text: text@,
            },
        }
    }
}

/// A JSON string.
pub open spec fn text_tree(text: Seq<char>) -> JsonTree {
    JsonTree::Text(text)
}

impl Call<Seq<char>> {
    /// The name of the method that is called.
    pub open spec fn name(self) -> Seq<char> {
        match self {
            Call::Initialize { .. } => "initialize"@,
            Call::NewSession { .. } => "session/new"@,
            Call::SetConfigOption { .. } => "session/set_config_option"@,
            Call::SetMode { .. } => "session/set_mode"@,
            Call::Prompt { .. } => "session/prompt"@,
        }
    }

    /// The parameters of the call.
    pub open spec fn params(self) -> JsonTree {
        match self {
            Call::Initialize { version } => JsonTree::Object(
                map![
                    "protocolVersion"@ => JsonTree::Int(PROTOCOL_VERSION as int),
                    "clientCapabilities"@ => JsonTree::Object(Map::empty()),
                    "clientInfo"@ => JsonTree::Object(map![
                        "name"@ => text_tree(app_name()),
                        "version"@ => text_tree(version),
                    ]),
                ],
            ),
            Call::NewSession { cwd } => JsonTree::Object(
                map![
                    "cwd"@ => text_tree(cwd),
                    "mcpServers"@ => JsonTree::Array(Seq::empty()),
                ],
            ),
            Call::SetConfigOption { session_id, config_id, value } => JsonTree::Object(
                map![
                    "sessionId"@ => text_tree(session_id),
                    "configId"@ => text_tree(config_id),
                    "value"@ => text_tree(value),
                ],
            ),
            Call::SetMode { session_id, mode } => JsonTree::Object(
                map![
                    "sessionId"@ => text_tree(session_id),
                    "modeId"@ => text_tree(mode),
                ],
            ),
            Call::Prompt { session_id, text } => JsonTree::Object(
                map![
                    "sessionId"@ => text_tree(session_id),
                    "prompt"@ => JsonTree::Array(seq![
                        JsonTree::Object(map![
                            "type"@ => text_tree("text"@),
                            "text"@ => text_tree(text),
                        ]),
                    ]),
                ],
            ),
        }
    }

    /// The message that makes the call, numbered `id`.
    pub open spec fn message(self, id: u64) -> JsonTree {
        JsonTree::Object(
            map![
                "jsonrpc"@ => text_tree("2.0"@),
                "id"@ => JsonTree::Int(id as int),
                "method"@ => text_tree(self.name()),
                "params"@ => self.params(),
            ],
        )
    }
}

impl Call {
    /// The name of the method that is called.
    pub fn method(&self) -> (name: String)
        ensures
            name@ == self@.name(),
    {
        match self {
            Call::Initialize { .. } => "initialize".to_owned(),
            Call::NewSession { .. } => "session/new".to_owned(),
            Call::SetConfigOption { .. } => "session/set_config_option".to_owned(),
            Call::SetMode { .. } => "session/set_mode".to_owned(),
            Call::Prompt { .. } => "session/prompt".to_owned(),
        }
    }

    /// The parameters of the call.
    pub fn parameters(&self) -> (params: Json)
        ensures
            params@ == self@.params(),
            params@.fits((NESTING_LIMIT - 1) as nat),
    {
        match self {
            Call::Initialize { version } => {
                let info = Json::object().with("name", Json::string("acpx-rs")).with(
                    "version",
                    Json::string(version.as_str()),
                );
                Json::object().with("protocolVersion", Json::Unsigned(1)).with(
                    "clientCapabilities",
                    Json::object(),
                ).with("clientInfo", info)
            },
            Call::NewSession { cwd } => {
                let none: Vec<Json> = Vec::new();
                assert(item_trees(none@) =~= Seq::empty());
                Json::object().with("cwd", Json::string(cwd.as_str())).with(
                    "mcpServers",
                    Json::array(none),
                )
            },
            Call::SetConfigOption { session_id, config_id, value } => {
                Json::object().with(
                    "sessionId",
                    Json::string(session_id.as_str()),
                ).with("configId", Json::string(config_id.as_str())).with(
                    "value",
                    Json::string(value.as_str()),
                )
            },
            Call::SetMode { session_id, mode } => {
                Json::object().with(
                    "sessionId",
                    Json::string(session_id.as_str()),
                ).with("modeId", Json::string(mode.as_str()))
            },
            Call::Prompt { session_id, text } => {
                let block = Json::object().with("type", Json::string("text")).with(
                    "text",
                    Json::string(text.as_str()),
                );
                let ghost tree = block@;
                let blocks: Vec<Json> = vec![block];
                assert(item_trees(blocks@) =~= seq![tree]);
                Json::object().with(
                    "sessionId",
                    Json::string(session_id.as_str()),
                ).with("prompt", Json::array(blocks))
            },
        }
    }

    /// The message that makes the call, numbered `id`.
    pub fn message(&self, id: u64) -> (message: Json)
        ensures
            message@ == self@.message(id),
            message@.fits(NESTING_LIMIT as nat),
    {
        Json::object().with("jsonrpc", Json::string("2.0")).with("id", Json::Unsigned(id)).with(
            "method",
            Json::string(self.method().as_str()),
        ).with("params", self.parameters())
    }
}

/// The line holds one document and nothing else: its text, which has no line
/// break and is read back as the same document, and a line break.
pub open spec fn line_of(line: Seq<char>, tree: JsonTree) -> bool {
    &&& line == compact_text(tree).push('\n')
    &&& !compact_text(tree).contains('\n')
    &&& trimmed(line).len() > 0
    &&& parsed_tree(trimmed(line)) == Some(tree)
}

proof fn lemma_trim_line(text: Seq<char>)
    requires
        trimmed(text) == text,
        text.len() > 0,
    ensures
        trimmed(text.push('\n')) == text,
{
    let line = text.push('\n');
    assert(line.drop_last() =~= text);
    assert(line.first() == text.first());
    lemma_trimmed_shrinks(text.drop_first());
    lemma_trimmed_shrinks(text.drop_last());
}

proof fn lemma_trimmed_shrinks(text: Seq<char>)
    ensures
        trimmed(text).len() <= text.len(),
    decreases text.len(),
{
    if text.len() > 0 {
        lemma_trimmed_shrinks(text.drop_first());
        lemma_trimmed_shrinks(text.drop_last());
    }
}

/// Writes a document as a line.
pub fn write_json(message: &Json) -> (line: String)
    requires
        message@.fits(NESTING_LIMIT as nat),
    ensures
        line_of(line@, message@),
{
    let mut line = compact(message);
    proof {
        lemma_trim_line(line@);
    }
    line.push('\n');
    line
}

/// Reads a line that the agent has written; `None` where it is blank or not
/// JSON.
pub fn read_line(line: &str) -> (message: Option<Json>)
    ensures
        message is Some <==> trimmed(line@).len() > 0 && parsed_tree(trimmed(line@)) is Some,
        message matches Some(message) ==> parsed_tree(trimmed(line@)) == Some(message@),
{
    let text = trim(line);
    if text.as_str().is_empty() {
        None
    } else {
        parse(text.as_str())
    }
}

/// The client of an agent: it numbers its calls, each one higher than the one
/// before, so that their answers can be told apart.
#[derive(Debug)]
pub struct AcpClient {
    pub next_id: u64,
}

impl AcpClient {
    /// A client that has made no call.
    pub fn new() -> (client: AcpClient)
        ensures
            client.next_id == 1,
    {
        AcpClient { next_id: 1 }
    }

    /// Makes a call: the number that its answer will carry, and the line to
    /// send.
    pub fn request(&mut self, call: &Call) -> (sent: (u64, String))
        requires
            old(self).next_id < u64::MAX,
        ensures
            sent.0 == old(self).next_id,
            final(self).next_id == old(self).next_id + 1,
            line_of(sent.1@, call@.message(sent.0)),
    {
        let id: u64 = self.next_id;
        self.next_id = self.next_id + 1;
        let message = call.message(id);
        (id, write_json(&message))
    }
}

/// Why a call has no answer.
#[derive(Debug, Clone, PartialEq, Eq)]
pub enum AgentError<T = String> {
    /// The agent refused the call.
    Refused { method: T, message: T },
    /// The answer holds neither a result nor an error.
    NoResult,
    /// The agent ended before it answered.
    Exited { status: T, method: T, stderr: T },
    /// The agent closed its output before it answered.
    Closed { stderr: T },
    /// The agent speaks another version of the protocol.
    UnsupportedProtocol(i64),
    /// The agent opened a session and did not name it.
    NoSessionId,
}

impl View for AgentError {
    type V = AgentError<Seq<char>>;

    open spec fn view(&self) -> AgentError<Seq<char>> {
        match self {
            AgentError::Refused { method, message } => AgentError::Refused {
                method: method@,
                message: message@,
            },
            AgentError::NoResult => AgentError::NoResult,
            AgentError::Exited { status, method, stderr } => AgentError::Exited {
                status: status@,
                method: method@,
                stderr: stderr@,
            },
            AgentError::Closed { stderr } => AgentError::Closed { stderr: stderr@ },
            AgentError::UnsupportedProtocol(version) => AgentError::UnsupportedProtocol(*version),
            AgentError::NoSessionId => AgentError::NoSessionId,
        }
    }
}

/// What the agent last wrote to its standard error, as the end of a message.
pub open spec fn stderr_note(stderr: Seq<char>) -> Seq<char> {
    if stderr.len() == 0 {
        Seq::empty()
    } else {
        ".\nAgent stderr:\n"@ + stderr
    }
}

impl AgentError<Seq<char>> {
    /// The message for a user.
    pub open spec fn text(self) -> Seq<char> {
        match self {
            AgentError::Refused { method, message } => method + " failed: "@ + message,
            AgentError::NoResult => "ACP response missing result"@,
            AgentError::Exited { status, method, stderr } => "agent process exited ("@ + status
                + ") while waiting for "@ + method + " response"@ + stderr_note(stderr),
            AgentError::Closed { stderr } => "agent closed stdout before responding"@
                + stderr_note(stderr),
            AgentError::UnsupportedProtocol(version) => "unsupported ACP protocol version: "@
                + signed_decimal(version as int),
            AgentError::NoSessionId => "session/new did not return sessionId"@,
        }
    }

    /// Whether the agent is gone, which the log of the session reports.
    pub open spec fn gone(self) -> bool {
        self is Exited || self is Closed
    }
}

fn add_stderr(text: String, stderr: &str) -> (out: String)
    ensures
        out@ == text@ + stderr_note(stderr@),
{
    if stderr.is_empty() {
        assert(text@ + stderr_note(stderr@) =~= text@);
        text
    } else {
        let out = text.concat(".\nAgent stderr:\n").concat(stderr);
        assert(out@ =~= text@ + stderr_note(stderr@));
        out
    }
}

impl AgentError {
    /// The message for a user.
    pub fn message(&self) -> (text: String)
        ensures
            text@ == self@.text(),
    {
        match self {
            AgentError::Refused { method, message } => method.clone().concat(" failed: ").concat(
                message.as_str(),
            ),
            AgentError::NoResult => "ACP response missing result".to_owned(),
            AgentError::Exited { status, method, stderr } => add_stderr(
                "agent process exited (".to_owned().concat(status.as_str()).concat(
                    ") while waiting for ",
                ).concat(method.as_str()).concat(" response"),
                stderr.as_str(),
            ),
            AgentError::Closed { stderr } => add_stderr(
                "agent closed stdout before responding".to_owned(),
                stderr.as_str(),
            ),
            AgentError::UnsupportedProtocol(version) => {
                "unsupported ACP protocol version: ".to_owned().concat(
                    signed_decimal_text(*version).as_str(),
                )
            },
            AgentError::NoSessionId => "session/new did not return sessionId".to_owned(),
        }
    }

    /// Whether the agent is gone, which the log of the session reports.
    pub fn is_gone(&self) -> (answer: bool)
        ensures
            answer == self@.gone(),
    {
        matches!(self, AgentError::Exited { .. } | AgentError::Closed { .. })
    }
}

/// A call is a message with the number that it was given, the name of its method
/// and its parameters.
pub proof fn law_call_message(call: Call<Seq<char>>, id: u64)
    ensures
        holds(call.message(id), "jsonrpc"@, JsonTree::Text("2.0"@)),
        holds(call.message(id), "id"@, JsonTree::Int(id as int)),
        holds(call.message(id), "params"@, call.params()),
        holds(
            call.message(id),
            "method"@,
            JsonTree::Text(
                match call {
                    Call::Initialize { .. } => "initialize"@,
                    Call::NewSession { .. } => "session/new"@,
                    Call::SetConfigOption { .. } => "session/set_config_option"@,
                    Call::SetMode { .. } => "session/set_mode"@,
                    Call::Prompt { .. } => "session/prompt"@,
                },
            ),
        ),
{
    reveal_strlit("jsonrpc");
    reveal_strlit("id");
    reveal_strlit("method");
    reveal_strlit("params");
    assert("jsonrpc"@.len() == 7 && "id"@.len() == 2 && "method"@.len() == 6 && "params"@.len()
        == 6);
    assert("method"@[0] == 'm' && "params"@[0] == 'p');
}

/// The parameters of a call hold what the call is about, as it is: the session, the
/// directory, the mode, the option and its value, and the whole text of a prompt,
/// as its only part.
pub proof fn law_call_parameters(
    session_id: Seq<char>,
    text: Seq<char>,
    config_id: Seq<char>,
)
    ensures
        ({
            let params = Call::Prompt { session_id, text }.params();
            &&& holds(params, "sessionId"@, JsonTree::Text(session_id))
            &&& params.get("prompt"@) matches Some(JsonTree::Array(parts)) && parts.len() == 1
                && holds(parts[0], "type"@, JsonTree::Text("text"@)) && holds(
                parts[0],
                "text"@,
                JsonTree::Text(text),
            )
        }),
        ({
            let params = Call::SetMode { session_id, mode: text }.params();
            &&& holds(params, "sessionId"@, JsonTree::Text(session_id))
            &&& holds(params, "modeId"@, JsonTree::Text(text))
        }),
        ({
            let params = Call::SetConfigOption { session_id, config_id, value: text }.params();
            &&& holds(params, "sessionId"@, JsonTree::Text(session_id))
            &&& holds(params, "configId"@, JsonTree::Text(config_id))
            &&& holds(params, "value"@, JsonTree::Text(text))
        }),
        ({
            let params = Call::NewSession { cwd: text }.params();
            &&& holds(params, "cwd"@, JsonTree::Text(text))
            &&& holds(params, "mcpServers"@, JsonTree::Array(Seq::empty()))
        }),
        ({
            let params = Call::Initialize { version: text }.params();
            &&& holds(params, "protocolVersion"@, JsonTree::Int(1))
            &&& holds(params, "clientCapabilities"@, JsonTree::Object(Map::empty()))
            &&& params.get("clientInfo"@) matches Some(info) && holds(
                info,
                "name"@,
                JsonTree::Text("acpx-rs"@),
            ) && holds(info, "version"@, JsonTree::Text(text))
        }),
{
    reveal_strlit("sessionId");
    reveal_strlit("prompt");
    reveal_strlit("type");
    reveal_strlit("text");
    reveal_strlit("modeId");
    reveal_strlit("configId");
    reveal_strlit("value");
    reveal_strlit("cwd");
    reveal_strlit("mcpServers");
    reveal_strlit("protocolVersion");
    reveal_strlit("clientCapabilities");
    reveal_strlit("clientInfo");
    reveal_strlit("name");
    reveal_strlit("version");
    assert("sessionId"@.len() == 9 && "prompt"@.len() == 6 && "modeId"@.len() == 6
        && "configId"@.len() == 8 && "value"@.len() == 5);
    assert("type"@[1] == 'y' && "text"@[1] == 'e');
    assert("cwd"@.len() == 3 && "mcpServers"@.len() == 10);
    assert("protocolVersion"@.len() == 15 && "clientCapabilities"@.len() == 18
        && "clientInfo"@.len() == 10);
    assert("name"@.len() == 4 && "version"@.len() == 7);
}

/// A line that holds a document ends in its only line break, and the document is
/// what is read out of it.
pub proof fn law_line_holds_one_document(line: Seq<char>, tree: JsonTree)
    requires
        line_of(line, tree),
    ensures
        line.len() > 0,
        line.last() == '\n',
        !line.drop_last().contains('\n'),
        trimmed(line).len() > 0,
        parsed_tree(trimmed(line)) == Some(tree),
{
    assert(line.drop_last() =~= compact_text(tree));
}

/// The messages of failures tell what they are about, as it is.
pub proof fn law_failure_texts(a: Seq<char>, b: Seq<char>, stderr: Seq<char>, version: i64)
    ensures
        (AgentError::Refused { method: a, message: b }).text() == a + " failed: "@ + b,
        (AgentError::Exited { status: a, method: b, stderr: Seq::empty() }).text()
            == "agent process exited ("@ + a + ") while waiting for "@ + b + " response"@,
        stderr.len() > 0 ==> (AgentError::Exited { status: a, method: b, stderr }).text()
            == "agent process exited ("@ + a + ") while waiting for "@ + b
            + " response.\nAgent stderr:\n"@ + stderr,
        (AgentError::Closed { stderr: Seq::empty() }).text()
            == "agent closed stdout before responding"@,
        stderr.len() > 0 ==> (AgentError::Closed { stderr }).text()
            == "agent closed stdout before responding.\nAgent stderr:\n"@ + stderr,
        AgentError::<Seq<char>>::UnsupportedProtocol(version).text()
            == "unsupported ACP protocol version: "@ + signed_decimal(version as int),
        (AgentError::Exited { status: a, method: b, stderr }).gone(),
        (AgentError::Closed { stderr }).gone(),
        !(AgentError::Refused { method: a, message: b }).gone(),
        !AgentError::<Seq<char>>::NoResult.gone(),
        !AgentError::<Seq<char>>::NoSessionId.gone(),
        !AgentError::<Seq<char>>::UnsupportedProtocol(version).gone(),
{
    let none = Seq::<char>::empty();
    reveal_strlit(" response.\nAgent stderr:\n");
    reveal_strlit(" response");
    reveal_strlit(".\nAgent stderr:\n");
    reveal_strlit("agent closed stdout before responding.\nAgent stderr:\n");
    reveal_strlit("agent closed stdout before responding");
    let head = "agent process exited ("@ + a + ") while waiting for "@ + b;
    assert(head + " response"@ + none =~= head + " response"@);
    assert(" response"@ + ".\nAgent stderr:\n"@ =~= " response.\nAgent stderr:\n"@);
    assert(head + " response"@ + (".\nAgent stderr:\n"@ + stderr) =~= head
        + " response.\nAgent stderr:\n"@ + stderr);
    assert("agent closed stdout before responding"@ + none
        =~= "agent closed stdout before responding"@);
    assert("agent closed stdout before responding"@ + (".\nAgent stderr:\n"@ + stderr)
        =~= "agent closed stdout before responding.\nAgent stderr:\n"@ + stderr);
}

/// The models of calls and of failures keep every text of them.
pub proof fn law_call_models(call: Call, error: AgentError)
    ensures
        match call {
            Call::Initialize { version } => call@ == (Call::Initialize { version: version@ }),
            Call::NewSession { cwd } => call@ == (Call::NewSession { cwd: cwd@ }),
            Call::SetConfigOption { session_id, config_id, value } => call@ == (
            Call::SetConfigOption {
                session_id: session_id@,
                config_id: config_id@,
                value: value@,
            }),
            Call::SetMode { session_id, mode } => call@ == (Call::SetMode {
                session_id: session_id@,
                mode: mode@,
            }),
            Call::Prompt { session_id, text } => call@ == (Call::Prompt {
                session_id: session_id@,
                text: text@,
            }),
        },
        match error {
            AgentError::Refused { method, message } => error@ == (AgentError::Refused {
                method: method@,
                message: message@,
            }),
            AgentError::NoResult => error@ is NoResult,
            AgentError::Exited { status, method, stderr } => error@ == (AgentError::Exited {
                status: status@,
                method: method@,
                stderr: stderr@,
            }),
            AgentError::Closed { stderr } => error@ == (AgentError::Closed { stderr: stderr@ }),
            AgentError::UnsupportedProtocol(version) => error@ == AgentError::<
                Seq<char>,
            >::UnsupportedProtocol(version),
            AgentError::NoSessionId => error@ is NoSessionId,
        },
{
}

} // verus!
