//! Waiting for the answer to a call, and reading it.
use vstd::prelude::*;

use crate::acp::{AgentError, PROTOCOL_VERSION};
use crate::json::{found, holds, item_trees, lacks, lacks_text, law_members, Json, JsonTree};
use crate::record::maybe;
use crate::text::views;

verus! {

/// What happens while the client waits for an answer.
pub enum AgentEvent<T = String, J = Json> {
    /// The agent has sent a message.
    Message(J),
    /// The agent has sent nothing for a while. It may have ended: then its exit
    /// status is known.
    Silent { exit: Option<T>, stderr: T },
    /// The agent has closed its output.
    Closed { stderr: T },
}

/// The model of an event.
pub type AgentEventView = AgentEvent<Seq<char>, JsonTree>;

impl View for AgentEvent {
    type V = AgentEventView;

    open spec fn view(&self) -> AgentEventView {
        match self {
            AgentEvent::Message(message) => AgentEvent::Message(message@),
            AgentEvent::Silent { exit, stderr } => AgentEvent::Silent {
                exit: maybe(*exit),
                stderr: stderr@,
            },
            AgentEvent::Closed { stderr } => AgentEvent::Closed { stderr: stderr@ },
        }
    }
}

/// What the client does next.
pub enum RequestStep<T = String, J = Json> {
    /// It waits on.
    Wait,
    /// It reports the message, which tells how a session goes on, and waits on.
    Notify(J),
    /// It serves a request of the agent, and waits on.
    Serve { id: u64, method: T, params: J },
    /// The call is answered.
    Return(J),
    /// The call has failed.
    Fail(AgentError<T>),
}

/// The model of a step.
pub type RequestStepView = RequestStep<Seq<char>, JsonTree>;

impl View for RequestStep {
    type V = RequestStepView;

    open spec fn view(&self) -> RequestStepView {
        match self {
            RequestStep::Wait => RequestStep::Wait,
            RequestStep::Notify(message) => RequestStep::Notify(message@),
            RequestStep::Serve { id, method, params } => RequestStep::Serve {
                id: *id,
                method: method@,
                params: params@,
            },
            RequestStep::Return(result) => RequestStep::Return(result@),
            RequestStep::Fail(error) => RequestStep::Fail(error@),
        }
    }
}

/// The number that a message carries.
pub open spec fn message_id(message: JsonTree) -> Option<u64> {
    match message.get("id"@) {
        Some(id) => id.unsigned(),
        None => None,
    }
}

/// The document, or null where there is none.
pub open spec fn or_null(tree: Option<JsonTree>) -> JsonTree {
    match tree {
        Some(tree) => tree,
        None => JsonTree::Null,
    }
}

/// The text, or the default where there is none.
pub open spec fn or_text(text: Option<Seq<char>>, default: Seq<char>) -> Seq<char> {
    match text {
        Some(text) => text,
        None => default,
    }
}

/// The outcome of the call `method` that its answer tells.
pub open spec fn outcome(method: Seq<char>, message: JsonTree) -> RequestStepView {
    match message.get("error"@) {
        Some(error) => RequestStep::Fail(
            AgentError::Refused {
                method,
                message: or_text(error.get_text("message"@), "unknown ACP error"@),
            },
        ),
        None => match message.get("result"@) {
            Some(result) => RequestStep::Return(result),
            None => RequestStep::Fail(AgentError::NoResult),
        },
    }
}

/// What follows from a message of the agent while the call `method`, numbered
/// `id`, is open. A message that names a method is a report on a session or,
/// where it carries a number, a request. Any other message that carries a number
/// is an answer, which counts where the number is that of the call.
pub open spec fn message_step(id: u64, method: Seq<char>, message: JsonTree) -> RequestStepView {
    match (message.get_text("method"@), message_id(message)) {
        (Some(name), number) => if name == "session/update"@ {
            RequestStep::Notify(message)
        } else {
            match number {
                Some(n) => RequestStep::Serve {
                    id: n,
                    method: name,
                    params: or_null(message.get("params"@)),
                },
                None => RequestStep::Wait,
            }
        },
        (None, Some(n)) => if n == id {
            outcome(method, message)
        } else {
            RequestStep::Wait
        },
        (None, None) => RequestStep::Wait,
    }
}

/// What follows from an event while the call `method`, numbered `id`, is open.
pub open spec fn event_step(id: u64, method: Seq<char>, event: AgentEventView) -> RequestStepView {
    match event {
        AgentEvent::Message(message) => message_step(id, method, message),
        AgentEvent::Silent { exit: Some(status), stderr } => RequestStep::Fail(
            AgentError::Exited { status, method, stderr },
        ),
        AgentEvent::Silent { exit: None, .. } => RequestStep::Wait,
        AgentEvent::Closed { stderr } => RequestStep::Fail(AgentError::Closed { stderr }),
    }
}

fn read_outcome(method: &str, message: &Json) -> (step: RequestStep)
    ensures
        step@ == outcome(method@, message@),
{
    match message.get("error") {
        Some(error) => {
            let text = match error.get_str("message") {
                Some(text) => text.to_owned(),
                None => "unknown ACP error".to_owned(),
            };
            RequestStep::Fail(AgentError::Refused { method: method.to_owned(), message: text })
        },
        None => match message.get("result") {
            Some(result) => RequestStep::Return(result.copy()),
            None => RequestStep::Fail(AgentError::NoResult),
        },
    }
}

fn read_message(id: u64, method: &str, message: Json) -> (step: RequestStep)
    ensures
        step@ == message_step(id, method@, message@),
{
    let number: Option<u64> = match message.get("id") {
        Some(number) => number.as_u64(),
        None => None,
    };
    match message.get_str("method") {
        Some(name) => {
            if name.eq("session/update") {
                return RequestStep::Notify(message.copy());
            }
            match number {
                Some(n) => {
                    let params = match message.get("params") {
                        Some(params) => params.copy(),
                        None => Json::Null,
                    };
                    RequestStep::Serve { id: n, method: name.to_owned(), params }
                },
                None => RequestStep::Wait,
            }
        },
        None => match number {
            Some(n) => if n == id {
                read_outcome(method, &message)
            } else {
                RequestStep::Wait
            },
            None => RequestStep::Wait,
        },
    }
}

/// Decides what the client does next while the call `method`, numbered `id`, is
/// open.
pub fn request_step(id: u64, method: &str, event: AgentEvent) -> (step: RequestStep)
    ensures
        step@ == event_step(id, method@, event@),
{
    match event {
        AgentEvent::Message(message) => read_message(id, method, message),
        AgentEvent::Silent { exit: Some(status), stderr } => RequestStep::Fail(
            AgentError::Exited { status, method: method.to_owned(), stderr },
        ),
        AgentEvent::Silent { exit: None, .. } => RequestStep::Wait,
        AgentEvent::Closed { stderr } => RequestStep::Fail(AgentError::Closed { stderr }),
    }
}

/// A call is only ended by a message that carries its own number and names no
/// method: neither an answer to another call, nor a report, nor a request of the
/// agent ends it.
pub proof fn law_only_the_answer_ends_a_call(id: u64, method: Seq<char>, message: JsonTree)
    ensures
        message_step(id, method, message) is Return || message_step(id, method, message) is Fail
            ==> message_id(message) == Some(id) && message.get_text("method"@) is None,
        message_id(message) == Some(id) && message.get_text("method"@) is None ==> message_step(
            id,
            method,
            message,
        ) is Return || message_step(id, method, message) is Fail,
{
}

/// An agent that has ended, or closed its output, ends the call that is open: it
/// is not waited for any longer. The failure tells that the agent is gone, and
/// ends with what the agent last wrote to its standard error.
pub proof fn law_a_dead_agent_ends_the_call(
    id: u64,
    method: Seq<char>,
    status: Seq<char>,
    stderr: Seq<char>,
)
    ensures
        event_step(id, method, AgentEvent::Silent { exit: Some(status), stderr }) matches RequestStep::Fail(
            error,
        ) && error.gone() && stderr.is_suffix_of(error.text()),
        event_step(id, method, AgentEvent::Closed { stderr }) matches RequestStep::Fail(error)
            && error.gone() && stderr.is_suffix_of(error.text()),
{
    let exited = AgentError::Exited { status, method, stderr }.text();
    let closed = AgentError::Closed { stderr }.text();
    assert(stderr =~= exited.subrange(exited.len() - stderr.len(), exited.len() as int));
    assert(stderr =~= closed.subrange(closed.len() - stderr.len(), closed.len() as int));
}

/// The version of the protocol that the agent speaks, from its answer to the
/// first call. An answer without a version counts as version 0.
pub open spec fn spoken_version(result: JsonTree) -> i64 {
    match result.get("protocolVersion"@) {
        Some(version) => match version.signed() {
            Some(n) => n,
            None => 0,
        },
        None => 0,
    }
}

/// Checks that the agent speaks the protocol of the client.
pub fn check_protocol(result: &Json) -> (checked: Result<(), AgentError>)
    ensures
        match checked {
            Ok(_) => spoken_version(result@) == PROTOCOL_VERSION,
            Err(error) => spoken_version(result@) != PROTOCOL_VERSION && error@
                == AgentError::<Seq<char>>::UnsupportedProtocol(spoken_version(result@)),
        },
{
    let version: i64 = match result.get("protocolVersion") {
        Some(version) => match version.as_i64() {
            Some(n) => n,
            None => 0,
        },
        None => 0,
    };
    if version != PROTOCOL_VERSION {
        Err(AgentError::UnsupportedProtocol(version))
    } else {
        Ok(())
    }
}

/// What the agent tells of a session that it has opened.
#[derive(Debug, Clone, PartialEq, Eq)]
pub struct SessionInfo {
    pub session_id: String,
    pub available_modes: Vec<String>,
    pub current_mode: Option<String>,
    pub current_model: Option<String>,
}

/// The names in a list of modes. What is not named is passed over.
pub open spec fn mode_ids(modes: Seq<JsonTree>) -> Seq<Seq<char>>
    decreases modes.len(),
{
    if modes.len() == 0 {
        Seq::empty()
    } else {
        match modes.last().get_text("id"@) {
            Some(id) => mode_ids(modes.drop_last()).push(id),
            None => mode_ids(modes.drop_last()),
        }
    }
}

/// The member of a member, where there is one.
pub open spec fn at(tree: JsonTree, outer: Seq<char>, inner: Seq<char>) -> Option<JsonTree> {
    match tree.get(outer) {
        Some(tree) => tree.get(inner),
        None => None,
    }
}

/// The text of a member of a member, where there is one.
pub open spec fn text_at(tree: JsonTree, outer: Seq<char>, inner: Seq<char>) -> Option<
    Seq<char>,
> {
    match at(tree, outer, inner) {
        Some(tree) => tree.text(),
        None => None,
    }
}

/// The modes that a session can be set to.
pub open spec fn offered_modes(result: JsonTree) -> Seq<Seq<char>> {
    match at(result, "modes"@, "availableModes"@) {
        Some(modes) => match modes.items() {
            Some(items) => mode_ids(items),
            None => Seq::empty(),
        },
        None => Seq::empty(),
    }
}

fn find_at<'a>(json: &'a Json, outer: &str, inner: &str) -> (member: Option<&'a Json>)
    ensures
        found(member) == at(json@, outer@, inner@),
{
    match json.get(outer) {
        Some(json) => json.get(inner),
        None => None,
    }
}

fn find_text_at(json: &Json, outer: &str, inner: &str) -> (text: Option<String>)
    ensures
        maybe(text) == text_at(json@, outer@, inner@),
{
    match find_at(json, outer, inner) {
        Some(json) => match json.as_str() {
            Some(text) => Some(text.to_owned()),
            None => None,
        },
        None => None,
    }
}

fn read_modes(result: &Json) -> (modes: Vec<String>)
    ensures
        views(modes@) == offered_modes(result@),
{
    let mut modes: Vec<String> = Vec::new();
    assert(views(modes@) =~= Seq::<Seq<char>>::empty());
    let list = match find_at(result, "modes", "availableModes") {
        Some(list) => list,
        None => {
            return modes;
        },
    };
    let items = match list.as_array() {
        Some(items) => items,
        None => {
            return modes;
        },
    };
    let ghost trees = item_trees(items@);
    assert(trees.take(0) =~= Seq::empty());
    for i in 0..items.len()
        invariant
            trees == item_trees(items@),
            views(modes@) == mode_ids(trees.take(i as int)),
    {
        assert(trees.take(i + 1).drop_last() =~= trees.take(i as int));
        assert(trees.take(i + 1).last() == items@[i as int]@);
        if let Some(id) = items[i].get_str("id") {
            let ghost before = views(modes@);
            modes.push(id.to_owned());
            assert(views(modes@) =~= before.push(id@));
        }
    }
    assert(trees.take(trees.len() as int) =~= trees);
    modes
}

/// Reads what the agent tells of a session that it has opened.
pub fn new_session(result: &Json) -> (info: Result<SessionInfo, AgentError>)
    ensures
        match info {
            Ok(info) => {
                &&& result@.get_text("sessionId"@) == Some(info.session_id@)
                &&& views(info.available_modes@) == offered_modes(result@)
                &&& maybe(info.current_mode) == text_at(
                    result@,
                    "modes"@,
                    "currentModeId"@,
                )
                &&& maybe(info.current_model) == text_at(
                    result@,
                    "models"@,
                    "currentModelId"@,
                )
            },
            Err(error) => result@.get_text("sessionId"@) is None && error@
                == AgentError::<Seq<char>>::NoSessionId,
        },
{
    match result.get_str("sessionId") {
        Some(session_id) => Ok(
            SessionInfo {
                session_id: session_id.to_owned(),
                available_modes: read_modes(result),
                current_mode: find_text_at(result, "modes", "currentModeId"),
                current_model: find_text_at(result, "models", "currentModelId"),
            },
        ),
        None => Err(AgentError::NoSessionId),
    }
}

/// Every request of the agent is served, whatever its number is and whatever the
/// number of the open call is: a message that names a method other than the report
/// on a session and carries a number. It is served with its own number, method and
/// parameters, which are null where there are none.
pub proof fn law_every_request_is_served(
    id: u64,
    method: Seq<char>,
    message: JsonTree,
    name: Seq<char>,
    n: u64,
    params: JsonTree,
)
    requires
        holds(message, "method"@, JsonTree::Text(name)),
        name != "session/update"@,
        holds(message, "id"@, JsonTree::Int(n as int)),
    ensures
        holds(message, "params"@, params) ==> message_step(id, method, message)
            == (RequestStep::Serve { id: n, method: name, params }),
        lacks(message, "params"@) ==> message_step(id, method, message) == (RequestStep::Serve {
            id: n,
            method: name,
            params: JsonTree::Null,
        }),
{
    if lacks(message, "params"@) {
        if message.get("params"@) is Some {
            assert(holds(message, "params"@, message.get("params"@)->0));
        }
    }
}

/// Every report on a session is passed on, as it is, whether or not it carries a
/// number; a message that names another method and carries no number is passed
/// over.
pub proof fn law_every_report_is_passed_on(
    id: u64,
    method: Seq<char>,
    message: JsonTree,
    name: Seq<char>,
)
    requires
        holds(message, "method"@, JsonTree::Text(name)),
    ensures
        name == "session/update"@ ==> message_step(id, method, message) == RequestStep::<
            Seq<char>,
            JsonTree,
        >::Notify(message),
        name != "session/update"@ && (forall|n: int|
            0 <= n <= u64::MAX ==> !#[trigger] holds(message, "id"@, JsonTree::Int(n)))
            ==> message_step(id, method, message) == RequestStep::<Seq<char>, JsonTree>::Wait,
{
    if message_id(message) is Some {
        let n = message_id(message)->0;
        assert(holds(message, "id"@, JsonTree::Int(n as int)));
    }
}

/// The answer to a call is its outcome: an error fails the call with the method and
/// the message of the error, even beside a result; otherwise the result is what
/// the call returns, as it is. An answer to another call is passed over.
pub proof fn law_answers(
    id: u64,
    method: Seq<char>,
    message: JsonTree,
    n: u64,
    value: JsonTree,
    text: Seq<char>,
)
    requires
        lacks_text(message, "method"@),
        holds(message, "id"@, JsonTree::Int(n as int)),
    ensures
        n != id ==> message_step(id, method, message) is Wait,
        n == id && lacks(message, "error"@) && holds(message, "result"@, value) ==> message_step(
            id,
            method,
            message,
        ) == RequestStep::<Seq<char>, JsonTree>::Return(value),
        n == id && lacks(message, "error"@) && lacks(message, "result"@) ==> message_step(
            id,
            method,
            message,
        ) == RequestStep::<Seq<char>, JsonTree>::Fail(AgentError::NoResult),
        n == id && holds(message, "error"@, value) && holds(value, "message"@, JsonTree::Text(text))
            ==> message_step(id, method, message) == RequestStep::<Seq<char>, JsonTree>::Fail(
            AgentError::Refused { method, message: text },
        ),
        n == id && holds(message, "error"@, value) && lacks_text(value, "message"@)
            ==> message_step(id, method, message) == RequestStep::<Seq<char>, JsonTree>::Fail(
            AgentError::Refused { method, message: "unknown ACP error"@ },
        ),
{
    law_members(message, "method"@, value, text);
    law_members(message, "error"@, value, text);
    law_members(message, "result"@, value, text);
    law_members(value, "message"@, value, text);
}

/// A message that neither names a method nor carries a number is passed over. An
/// agent that is silent and still runs is waited for; one that has ended fails the
/// call with its exit status, and one that has closed its output fails it too, both
/// with what it last wrote to its standard error.
pub proof fn law_waiting(
    id: u64,
    method: Seq<char>,
    message: JsonTree,
    status: Seq<char>,
    stderr: Seq<char>,
)
    ensures
        lacks_text(message, "method"@) && (forall|n: int|
            0 <= n <= u64::MAX ==> !#[trigger] holds(message, "id"@, JsonTree::Int(n)))
            ==> message_step(id, method, message) is Wait,
        event_step(id, method, AgentEvent::Message(message)) == message_step(id, method, message),
        event_step(id, method, AgentEvent::Silent { exit: None, stderr }) is Wait,
        event_step(id, method, AgentEvent::Silent { exit: Some(status), stderr })
            == RequestStep::<Seq<char>, JsonTree>::Fail(
            AgentError::Exited { status, method, stderr },
        ),
        event_step(id, method, AgentEvent::Closed { stderr }) == RequestStep::<
            Seq<char>,
            JsonTree,
        >::Fail(AgentError::Closed { stderr }),
{
    law_members(message, "method"@, message, stderr);
    if message_id(message) is Some {
        let n = message_id(message)->0;
        assert(holds(message, "id"@, JsonTree::Int(n as int)));
    }
}

/// The version that an agent speaks is the one that its answer tells, and 0 where
/// it tells none.
pub proof fn law_spoken_version(result: JsonTree, n: int)
    ensures
        holds(result, "protocolVersion"@, JsonTree::Int(n)) && i64::MIN <= n <= i64::MAX
            ==> spoken_version(result) == n,
        (forall|k: int|
            i64::MIN <= k <= i64::MAX ==> !#[trigger] holds(
                result,
                "protocolVersion"@,
                JsonTree::Int(k),
            )) ==> spoken_version(result) == 0,
{
    if let Some(JsonTree::Int(k)) = result.get("protocolVersion"@) {
        assert(holds(result, "protocolVersion"@, JsonTree::Int(k)));
    }
}

/// The modes of a list are the names of its items, in order; an item without a name
/// is passed over. A list in two parts has the modes of both.
pub proof fn law_mode_ids(a: Seq<JsonTree>, b: Seq<JsonTree>, mode: JsonTree, id: Seq<char>)
    ensures
        mode_ids(a + b) == mode_ids(a) + mode_ids(b),
        holds(mode, "id"@, JsonTree::Text(id)) ==> mode_ids(seq![mode]) == seq![id],
        lacks_text(mode, "id"@) ==> mode_ids(seq![mode]) == Seq::<Seq<char>>::empty(),
        mode_ids(Seq::empty()) == Seq::<Seq<char>>::empty(),
    decreases b.len(),
{
    law_members(mode, "id"@, mode, id);
    reveal_with_fuel(mode_ids, 2);
    assert(seq![mode].drop_last() =~= Seq::<JsonTree>::empty());
    assert(Seq::<Seq<char>>::empty().push(id) =~= seq![id]);
    if b.len() == 0 {
        assert(a + b =~= a);
        assert(mode_ids(a) + mode_ids(b) =~= mode_ids(a));
    } else {
        law_mode_ids(a, b.drop_last(), mode, id);
        assert((a + b).drop_last() =~= a + b.drop_last());
        assert((a + b).last() == b.last());
        assert(mode_ids(a + b) =~= mode_ids(a) + mode_ids(b));
    }
}

/// What an agent tells of a session is found where it tells it: the modes that it
/// offers, in the list of modes, and a text in a member of a member.
pub proof fn law_session_parts(
    result: JsonTree,
    outer: Seq<char>,
    inner: Seq<char>,
    middle: JsonTree,
    text: Seq<char>,
    modes: Seq<JsonTree>,
)
    ensures
        holds(result, outer, middle) && holds(middle, inner, JsonTree::Text(text)) ==> text_at(
            result,
            outer,
            inner,
        ) == Some(text),
        holds(result, outer, middle) && lacks_text(middle, inner) ==> text_at(
            result,
            outer,
            inner,
        ) is None,
        lacks(result, outer) ==> text_at(result, outer, inner) is None,
        holds(result, "modes"@, middle) && holds(middle, "availableModes"@, JsonTree::Array(modes))
            ==> offered_modes(result) == mode_ids(modes),
        holds(result, "modes"@, middle) && (forall|list: Seq<JsonTree>|
            !#[trigger] holds(middle, "availableModes"@, JsonTree::Array(list)))
            ==> offered_modes(result) == Seq::<Seq<char>>::empty(),
        lacks(result, "modes"@) ==> offered_modes(result) == Seq::<Seq<char>>::empty(),
{
    law_members(result, outer, middle, text);
    law_members(middle, inner, middle, text);
    law_members(result, "modes"@, middle, text);
    if let Some(JsonTree::Array(list)) = middle.get("availableModes"@) {
        assert(holds(middle, "availableModes"@, JsonTree::Array(list)));
    }
}

/// The models of events and of steps keep all that they hold.
pub proof fn law_exchange_models(event: AgentEvent, step: RequestStep)
    ensures
        match event {
            AgentEvent::Message(message) => event@ == AgentEvent::<Seq<char>, JsonTree>::Message(
                message@,
            ),
            AgentEvent::Silent { exit: Some(status), stderr } => event@ == (AgentEvent::<
                Seq<char>,
                JsonTree,
            >::Silent { exit: Some(status@), stderr: stderr@ }),
            AgentEvent::Silent { exit: None, stderr } => event@ == (AgentEvent::<
                Seq<char>,
                JsonTree,
            >::Silent { exit: None, stderr: stderr@ }),
            AgentEvent::Closed { stderr } => event@ == (AgentEvent::<
                Seq<char>,
                JsonTree,
            >::Closed { stderr: stderr@ }),
        },
        match step {
            RequestStep::Wait => step@ is Wait,
            RequestStep::Notify(message) => step@ == RequestStep::<Seq<char>, JsonTree>::Notify(
                message@,
            ),
            RequestStep::Serve { id, method, params } => step@ == (RequestStep::Serve {
                id,
                method: method@,
                params: params@,
            }),
            RequestStep::Return(result) => step@ == RequestStep::<Seq<char>, JsonTree>::Return(
                result@,
            ),
            RequestStep::Fail(error) => step@ == RequestStep::<Seq<char>, JsonTree>::Fail(error@),
        },
{
}

} // verus!
