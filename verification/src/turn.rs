//! A turn of a conversation, as the owner of a session runs it: what the agent
//! reports becomes events for the client, and its words become the reply.
use vstd::prelude::*;
use vstd::string::*;

use crate::answer::{or_null, or_text, text_at};
use crate::events::{OwnerEvent, OwnerEventView};
use crate::json::{holds, lacks_text, Json, JsonTree};
use crate::record::{append_history, EntryView, HistoryEntry, RecordView, SessionRecord};

verus! {

/// What an agent reports on a session.
pub open spec fn update_of(message: JsonTree) -> JsonTree {
    or_null(or_null(message.get("params"@)).get("update"@))
}

/// Whether a message reports on the session.
pub open spec fn concerns(message: JsonTree, session_id: Seq<char>) -> bool {
    or_null(message.get("params"@)).get_text("sessionId"@) == Some(session_id)
}

/// The kind of a report; a report without one has the empty kind.
pub open spec fn update_kind(update: JsonTree) -> Seq<char> {
    or_text(update.get_text("sessionUpdate"@), Seq::empty())
}

/// A text in the content of a report; empty where there is none.
pub open spec fn content_text(update: JsonTree, key: Seq<char>) -> Seq<char> {
    or_text(text_at(update, "content"@, key), Seq::empty())
}

/// The event that a report of the agent is. A call of a tool needs a title, and
/// a part of a thought or of the reply needs a text; a report of no kind is a
/// part of the reply. Any other report is no event, nor is one on another
/// session.
pub open spec fn update_event(session_id: Seq<char>, message: JsonTree) -> Option<OwnerEventView> {
    let update = update_of(message);
    let kind = update_kind(update);
    if !concerns(message, session_id) {
        None
    } else if kind == "tool_call"@ || kind == "tool_call_update"@ {
        if content_text(update, "title"@).len() == 0 {
            None
        } else {
            Some(
                OwnerEvent::ToolCall {
                    title: content_text(update, "title"@),
                    status: content_text(update, "status"@),
                    tool_call_id: content_text(update, "toolCallId"@),
                },
            )
        }
    } else if content_text(update, "text"@).len() == 0 {
        None
    } else if kind == "agent_thought_chunk"@ {
        Some(OwnerEvent::Thought { text: content_text(update, "text"@) })
    } else if kind == "agent_message_chunk"@ || kind.len() == 0 {
        Some(OwnerEvent::Chunk { text: content_text(update, "text"@) })
    } else {
        None
    }
}

/// The part of the reply that an event is; empty where it is none.
pub open spec fn spoken(event: Option<OwnerEventView>) -> Seq<char> {
    match event {
        Some(OwnerEvent::Chunk { text }) => text,
        _ => Seq::empty(),
    }
}

/// The reply of a turn in which the agent has said `assembled` and that it ends
/// with the answer `result`. A turn that was cancelled before the agent spoke
/// leaves the word `cancelled`.
pub open spec fn final_reply(assembled: Seq<char>, result: JsonTree) -> Seq<char> {
    if assembled.len() == 0 && result.get_text("stopReason"@) == Some("cancelled"@) {
        "cancelled"@
    } else {
        assembled
    }
}

/// The model of an owner's event that may be missing.
pub open spec fn maybe_owner_event(event: Option<OwnerEvent>) -> Option<OwnerEventView> {
    match event {
        Some(event) => Some(event@),
        None => None,
    }
}

/// A turn that is going on: the reply as far as the agent has spoken.
#[derive(Debug)]
pub struct PromptTurn {
    pub session_id: String,
    pub assembled: String,
}

fn content_string(update: &Json, key: &str) -> (text: String)
    ensures
        text@ == content_text(update@, key@),
{
    match update.get("content") {
        Some(content) => match content.get_str(key) {
            Some(text) => text.to_owned(),
            None => String::new(),
        },
        None => String::new(),
    }
}

/// The event that a report on the session is.
fn read_update(update: &Json) -> (event: Option<OwnerEvent>)
    ensures
        forall|session_id: Seq<char>, message: JsonTree|
            concerns(message, session_id) && update_of(message) == update@ ==> maybe_owner_event(
                event,
            ) == #[trigger] update_event(session_id, message),
{
    let kind = match update.get_str("sessionUpdate") {
        Some(kind) => kind.to_owned(),
        None => String::new(),
    };
    if kind.as_str().eq("tool_call") || kind.as_str().eq("tool_call_update") {
        let title = content_string(update, "title");
        if title.as_str().is_empty() {
            return None;
        }
        return Some(
            OwnerEvent::ToolCall {
                title,
                status: content_string(update, "status"),
                tool_call_id: content_string(update, "toolCallId"),
            },
        );
    }
    let text = content_string(update, "text");
    if text.as_str().is_empty() {
        None
    } else if kind.as_str().eq("agent_thought_chunk") {
        Some(OwnerEvent::Thought { text })
    } else if kind.as_str().eq("agent_message_chunk") || kind.as_str().is_empty() {
        Some(OwnerEvent::Chunk { text })
    } else {
        None
    }
}

impl PromptTurn {
    /// A turn in which the agent has not spoken yet.
    pub fn new(session_id: &str) -> (turn: PromptTurn)
        ensures
            turn.session_id@ == session_id@,
            turn.assembled@ == Seq::<char>::empty(),
    {
        PromptTurn { session_id: session_id.to_owned(), assembled: String::new() }
    }

    /// Takes a report of the agent: the event that it is, which adds to the
    /// reply where the agent speaks.
    pub fn on_update(&mut self, message: &Json) -> (event: Option<OwnerEvent>)
        ensures
            maybe_owner_event(event) == update_event(old(self).session_id@, message@),
            final(self).session_id == old(self).session_id,
            final(self).assembled@ == old(self).assembled@ + spoken(
                update_event(old(self).session_id@, message@),
            ),
    {
        let null = Json::Null;
        let params = match message.get("params") {
            Some(params) => params,
            None => &null,
        };
        let same = match params.get_str("sessionId") {
            Some(id) => id.eq(self.session_id.as_str()),
            None => false,
        };
        if !same {
            assert(self.assembled@ + Seq::<char>::empty() =~= self.assembled@);
            return None;
        }
        let update = match params.get("update") {
            Some(update) => update,
            None => &null,
        };
        let event = read_update(update);
        assert(maybe_owner_event(event) == update_event(self.session_id@, message@));
        match &event {
            Some(OwnerEvent::Chunk { text }) => {
                self.assembled.append(text.as_str());
            },
            _ => {
                assert(self.assembled@ + Seq::<char>::empty() =~= self.assembled@);
            },
        }
        event
    }

    /// Ends the turn with the answer of the agent: the whole reply.
    pub fn finish(self, result: &Json) -> (reply: String)
        ensures
            reply@ == final_reply(self.assembled@, result@),
    {
        let cancelled = match result.get_str("stopReason") {
            Some(reason) => reason.eq("cancelled"),
            None => false,
        };
        if cancelled && self.assembled.as_str().is_empty() {
            "cancelled".to_owned()
        } else {
            self.assembled
        }
    }
}

/// The parts of the reply in the reports of a turn, put together.
pub open spec fn reply_of(session_id: Seq<char>, messages: Seq<JsonTree>) -> Seq<char>
    decreases messages.len(),
{
    if messages.len() == 0 {
        Seq::empty()
    } else {
        reply_of(session_id, messages.drop_last()) + spoken(
            update_event(session_id, messages.last()),
        )
    }
}

/// The texts that a client is shown as the reply, put together: those of the
/// events that are parts of it.
pub open spec fn streamed(events: Seq<Option<OwnerEventView>>) -> Seq<char>
    decreases events.len(),
{
    if events.len() == 0 {
        Seq::empty()
    } else {
        streamed(events.drop_last()) + spoken(events.last())
    }
}

/// The events that the reports of a turn are, one for each report.
pub open spec fn turn_events(session_id: Seq<char>, messages: Seq<JsonTree>) -> Seq<
    Option<OwnerEventView>,
> {
    Seq::new(messages.len(), |i: int| update_event(session_id, messages[i]))
}

/// The reply that is kept is what the client was shown, part by part and in
/// order.
pub proof fn law_reply_is_what_was_streamed(session_id: Seq<char>, messages: Seq<JsonTree>)
    ensures
        reply_of(session_id, messages) == streamed(turn_events(session_id, messages)),
    decreases messages.len(),
{
    if messages.len() > 0 {
        law_reply_is_what_was_streamed(session_id, messages.drop_last());
        assert(turn_events(session_id, messages).drop_last() =~= turn_events(
            session_id,
            messages.drop_last(),
        ));
    }
}

/// Reports on another session leave the turn as it is.
pub proof fn law_other_sessions_are_ignored(session_id: Seq<char>, message: JsonTree)
    ensures
        !concerns(message, session_id) ==> update_event(session_id, message) is None,
{
}

/// The message for a client that went away in the middle of a turn.
pub open spec fn client_gone_text() -> Seq<char> {
    "failed to write event to client (broken pipe)"@
}

/// The message for a client that went away in the middle of a turn.
pub fn client_gone_message() -> (text: String)
    ensures
        text@ == client_gone_text(),
{
    "failed to write event to client (broken pipe)".to_owned()
}

/// Where the failure of a turn came from.
#[derive(PartialEq, Eq, Structural, Debug, Clone, Copy)]
pub enum Fault {
    /// The agent refused the prompt, ended, or could not be reached.
    Agent,
    /// The client went away, or the record could not be kept.
    Elsewhere,
}

/// The record of a session after a client has asked something.
pub open spec fn asked(
    record: RecordView,
    prompt: Seq<char>,
    asked_at: Seq<char>,
    now: Seq<char>,
) -> RecordView {
    record.with_turn(HistoryEntry { role: "user"@, text: prompt, timestamp: asked_at }, now)
}

/// The record of a session after the agent has replied. An empty reply leaves
/// nothing.
pub open spec fn replied(
    record: RecordView,
    reply: Seq<char>,
    replied_at: Seq<char>,
    now: Seq<char>,
) -> RecordView {
    if reply.len() > 0 {
        record.with_turn(
            HistoryEntry { role: "assistant"@, text: reply, timestamp: replied_at },
            now,
        )
    } else {
        record
    }
}

/// Begins a turn: what the client asks is added to the history.
pub fn begin_turn(record: &mut SessionRecord, text: &str, asked_at: String, now: String)
    ensures
        final(record)@ == asked(old(record)@, text@, asked_at@, now@),
{
    append_history(record, "user", text, asked_at, now);
}

/// The event that ends a turn with a reply.
pub open spec fn done_event(reply: Seq<char>) -> OwnerEventView {
    OwnerEvent::Done { stop_reason: "end_turn"@, text: reply }
}

/// Ends a turn in which the agent has replied: the reply is added to the history,
/// and the event for the client tells it. Where an event could not be written to
/// the client, the turn fails with the message for that, and the record stays as
/// it is.
pub fn end_turn(
    record: &mut SessionRecord,
    reply: String,
    write_failed: bool,
    replied_at: String,
    now: String,
) -> (end: Result<OwnerEvent, String>)
    ensures
        match end {
            Ok(event) => {
                &&& !write_failed
                &&& event@ == done_event(reply@)
                &&& final(record)@ == replied(old(record)@, reply@, replied_at@, now@)
            },
            Err(message) => {
                &&& write_failed
                &&& message@ == client_gone_text()
                &&& *final(record) == *old(record)
            },
        },
{
    if write_failed {
        return Err(client_gone_message());
    }
    if !reply.as_str().is_empty() {
        append_history(record, "assistant", reply.as_str(), replied_at, now);
    }
    Ok(OwnerEvent::Done { stop_reason: "end_turn".to_owned(), text: reply })
}

/// Ends a turn with what the call of the agent came to, its reply or the message
/// of its failure: the event for the client, or where the failure of the turn came
/// from and its message. A turn that fails leaves the record as it is.
pub fn handle_prompt(
    record: &mut SessionRecord,
    answer: Result<String, String>,
    write_failed: bool,
    replied_at: String,
    now: String,
) -> (end: Result<OwnerEvent, (Fault, String)>)
    ensures
        match (answer, end) {
            (Ok(reply), Ok(event)) => {
                &&& !write_failed
                &&& event@ == done_event(reply@)
                &&& final(record)@ == replied(old(record)@, reply@, replied_at@, now@)
            },
            (Ok(_), Err((fault, message))) => {
                &&& write_failed
                &&& fault == Fault::Elsewhere
                &&& message@ == client_gone_text()
                &&& *final(record) == *old(record)
            },
            (Err(failure), Err((fault, message))) => {
                &&& fault == Fault::Agent
                &&& message@ == failure@
                &&& *final(record) == *old(record)
            },
            (Err(_), Ok(_)) => false,
        },
{
    match answer {
        Ok(reply) => match end_turn(record, reply, write_failed, replied_at, now) {
            Ok(event) => Ok(event),
            Err(message) => Err((Fault::Elsewhere, message)),
        },
        Err(failure) => Err((Fault::Agent, failure)),
    }
}

/// The only end that a client is told of a turn is the last event: no report of
/// the agent is one.
pub proof fn law_reports_do_not_end_a_turn(session_id: Seq<char>, message: JsonTree)
    ensures
        update_event(session_id, message) matches Some(event) ==> event is Chunk || event is Thought
            || event is ToolCall,
{
}

/// The record of a session after a whole turn: what the client asked is added to
/// the history, and so is the reply, unless it is empty.
pub open spec fn after_turn(
    record: RecordView,
    prompt: Seq<char>,
    asked_at: Seq<char>,
    asked_now: Seq<char>,
    reply: Seq<char>,
    replied_at: Seq<char>,
    replied_now: Seq<char>,
) -> RecordView {
    replied(asked(record, prompt, asked_at, asked_now), reply, replied_at, replied_now)
}

/// A turn is remembered: after it the last reply is that of the turn, unless the
/// agent said nothing, which leaves the last reply as it was. What was said
/// before stays, and the prompt and the reply follow it.
pub proof fn law_turn_is_remembered(
    record: RecordView,
    prompt: Seq<char>,
    asked_at: Seq<char>,
    asked_now: Seq<char>,
    reply: Seq<char>,
    replied_at: Seq<char>,
    replied_now: Seq<char>,
)
    ensures
        ({
            let after = after_turn(
                record,
                prompt,
                asked_at,
                asked_now,
                reply,
                replied_at,
                replied_now,
            );
            let question: EntryView = HistoryEntry {
                role: "user"@,
                text: prompt,
                timestamp: asked_at,
            };
            let answer: EntryView = HistoryEntry {
                role: "assistant"@,
                text: reply,
                timestamp: replied_at,
            };
            &&& reply.len() > 0 ==> after.last_assistant == Some(answer) && after.history
                == record.history + seq![question, answer]
            &&& reply.len() == 0 ==> after.last_assistant == record.last_assistant
                && after.history == record.history + seq![question]
            &&& after.updated_at == if reply.len() > 0 {
                replied_now
            } else {
                asked_now
            }
            &&& after.closed == record.closed
            &&& after.death_reason == record.death_reason
            &&& record.wf() ==> after.wf()
        }),
{
    reveal_strlit("user");
    reveal_strlit("assistant");
    assert("user"@.len() != "assistant"@.len());
    let question: EntryView = HistoryEntry { role: "user"@, text: prompt, timestamp: asked_at };
    let answer: EntryView = HistoryEntry {
        role: "assistant"@,
        text: reply,
        timestamp: replied_at,
    };
    assert(record.history.push(question).drop_last() =~= record.history);
    assert(record.history.push(question) =~= record.history + seq![question]);
    assert(record.history.push(question).push(answer) =~= record.history + seq![
        question,
        answer,
    ]);
}

/// The message reports on the session, and `update` is its report.
pub open spec fn reports(message: JsonTree, session_id: Seq<char>, update: JsonTree) -> bool {
    exists|params: JsonTree| #[trigger]
        holds(message, "params"@, params) && holds(params, "sessionId"@, JsonTree::Text(session_id))
            && holds(params, "update"@, update)
}

/// The content of the report has the member `key`, and it is the string `text`.
pub open spec fn has_content(update: JsonTree, key: Seq<char>, text: Seq<char>) -> bool {
    exists|content: JsonTree| #[trigger]
        holds(update, "content"@, content) && holds(content, key, JsonTree::Text(text))
}

/// The report is of the given kind; one of the empty kind may also name none.
pub open spec fn of_kind(update: JsonTree, kind: Seq<char>) -> bool {
    ||| holds(update, "sessionUpdate"@, JsonTree::Text(kind))
    ||| kind.len() == 0 && lacks_text(update, "sessionUpdate"@)
}

proof fn lemma_report(message: JsonTree, session_id: Seq<char>, update: JsonTree)
    requires
        reports(message, session_id, update),
    ensures
        concerns(message, session_id),
        update_of(message) == update,
{
    let params = choose|params: JsonTree| #[trigger]
        holds(message, "params"@, params) && holds(params, "sessionId"@, JsonTree::Text(session_id))
            && holds(params, "update"@, update);
    assert(message.get("params"@) == Some(params));
}

proof fn lemma_content(update: JsonTree, key: Seq<char>, text: Seq<char>)
    ensures
        has_content(update, key, text) ==> content_text(update, key) == text,
        content_text(update, key).len() > 0 ==> has_content(
            update,
            key,
            content_text(update, key),
        ),
{
    if has_content(update, key, text) {
        let content = choose|content: JsonTree| #[trigger]
            holds(update, "content"@, content) && holds(content, key, JsonTree::Text(text));
        assert(update.get("content"@) == Some(content));
    }
    if content_text(update, key).len() > 0 {
        let content = update.get("content"@)->0;
        assert(holds(update, "content"@, content));
        assert(holds(content, key, JsonTree::Text(content_text(update, key))));
    }
}

proof fn lemma_kind(update: JsonTree, kind: Seq<char>)
    requires
        of_kind(update, kind),
    ensures
        update_kind(update) == kind,
{
    if kind.len() == 0 && lacks_text(update, "sessionUpdate"@) {
        if update.get_text("sessionUpdate"@) is Some {
            let text = update.get_text("sessionUpdate"@)->0;
            assert(holds(update, "sessionUpdate"@, JsonTree::Text(text)));
        }
        assert(kind =~= Seq::empty());
    }
}

proof fn lemma_kinds_differ()
    ensures
        "tool_call"@ != "agent_message_chunk"@,
        "tool_call_update"@ != "agent_message_chunk"@,
        "tool_call"@ != "agent_thought_chunk"@,
        "tool_call_update"@ != "agent_thought_chunk"@,
        "agent_message_chunk"@ != "agent_thought_chunk"@,
        "tool_call"@.len() > 0,
        "tool_call_update"@.len() > 0,
        "agent_thought_chunk"@.len() > 0,
        "agent_message_chunk"@.len() > 0,
{
    reveal_strlit("tool_call");
    reveal_strlit("tool_call_update");
    reveal_strlit("agent_message_chunk");
    reveal_strlit("agent_thought_chunk");
    assert("tool_call"@[0] == 't' && "tool_call_update"@[0] == 't');
    assert("agent_message_chunk"@[6] == 'm' && "agent_thought_chunk"@[6] == 't');
}

/// A report of a part of the reply, or of no kind, is that part of the reply, every
/// character of it; a report of a part of a thought is that part of the thought.
pub proof fn law_parts_are_kept_whole(
    message: JsonTree,
    session_id: Seq<char>,
    update: JsonTree,
    text: Seq<char>,
)
    requires
        reports(message, session_id, update),
        has_content(update, "text"@, text),
        text.len() > 0,
    ensures
        of_kind(update, "agent_message_chunk"@) || of_kind(update, Seq::empty()) ==> update_event(
            session_id,
            message,
        ) == Some(OwnerEvent::<Seq<char>, RecordView>::Chunk { text }),
        of_kind(update, "agent_thought_chunk"@) ==> update_event(session_id, message) == Some(
            OwnerEvent::<Seq<char>, RecordView>::Thought { text },
        ),
{
    lemma_report(message, session_id, update);
    lemma_content(update, "text"@, text);
    lemma_kinds_differ();
    if of_kind(update, "agent_message_chunk"@) {
        lemma_kind(update, "agent_message_chunk"@);
    }
    if of_kind(update, Seq::empty()) {
        lemma_kind(update, Seq::empty());
    }
    if of_kind(update, "agent_thought_chunk"@) {
        lemma_kind(update, "agent_thought_chunk"@);
    }
}

/// A report of a call of a tool, or of how it goes on, is that call where it has a
/// title, with its title, its state and its number as they are told; without a
/// title it is no event, whatever else it holds.
pub proof fn law_tool_calls(
    message: JsonTree,
    session_id: Seq<char>,
    update: JsonTree,
    title: Seq<char>,
    status: Seq<char>,
    tool_call_id: Seq<char>,
)
    requires
        reports(message, session_id, update),
        of_kind(update, "tool_call"@) || of_kind(update, "tool_call_update"@),
    ensures
        has_content(update, "title"@, title) && title.len() > 0 ==> (update_event(
            session_id,
            message,
        ) matches Some(OwnerEvent::ToolCall { title: t, status: s, tool_call_id: c }) && t == title
            && (has_content(update, "status"@, status) ==> s == status) && (s.len() > 0
            ==> has_content(update, "status"@, s)) && (has_content(
            update,
            "toolCallId"@,
            tool_call_id,
        ) ==> c == tool_call_id) && (c.len() > 0 ==> has_content(update, "toolCallId"@, c))),
        (forall|t: Seq<char>| t.len() > 0 ==> !#[trigger] has_content(update, "title"@, t))
            ==> update_event(session_id, message) is None,
{
    lemma_report(message, session_id, update);
    lemma_content(update, "title"@, title);
    lemma_content(update, "status"@, status);
    lemma_content(update, "toolCallId"@, tool_call_id);
    lemma_kinds_differ();
    if of_kind(update, "tool_call"@) {
        lemma_kind(update, "tool_call"@);
    }
    if of_kind(update, "tool_call_update"@) {
        lemma_kind(update, "tool_call_update"@);
    }
}

/// No other report is an event: one without a text, one of another kind, and one
/// that is not on the session.
pub proof fn law_other_reports_are_no_events(
    message: JsonTree,
    session_id: Seq<char>,
    update: JsonTree,
    kind: Seq<char>,
)
    ensures
        (forall|params: JsonTree|
            holds(message, "params"@, params) ==> !#[trigger] holds(
                params,
                "sessionId"@,
                JsonTree::Text(session_id),
            )) ==> update_event(session_id, message) is None,
        reports(message, session_id, update) && of_kind(update, kind) && kind.len() > 0 && kind
            != "tool_call"@ && kind != "tool_call_update"@ && kind != "agent_message_chunk"@ && kind
            != "agent_thought_chunk"@ ==> update_event(session_id, message) is None,
        reports(message, session_id, update) && of_kind(update, kind) && kind != "tool_call"@
            && kind != "tool_call_update"@ && (forall|t: Seq<char>|
            t.len() > 0 ==> !#[trigger] has_content(update, "text"@, t)) ==> update_event(
            session_id,
            message,
        ) is None,
{
    if concerns(message, session_id) {
        let params = or_null(message.get("params"@));
        assert(holds(params, "sessionId"@, JsonTree::Text(session_id)));
        assert(holds(message, "params"@, params));
    }
    if reports(message, session_id, update) && of_kind(update, kind) {
        lemma_report(message, session_id, update);
        lemma_kind(update, kind);
        lemma_content(update, "text"@, Seq::empty());
    }
}

/// The message says `text` as a part of the reply on the session: it is a report
/// of a part of the reply, or of no kind, and `text` is the text of its content.
pub open spec fn says(message: JsonTree, session_id: Seq<char>, text: Seq<char>) -> bool {
    exists|update: JsonTree| #[trigger]
        reports(message, session_id, update) && has_content(update, "text"@, text) && (of_kind(
            update,
            "agent_message_chunk"@,
        ) || of_kind(update, Seq::empty()))
}

/// The reply of a turn is what the messages say, put together in order and
/// unchanged. A message that says nothing adds nothing.
pub proof fn law_reply_is_what_the_messages_say(
    session_id: Seq<char>,
    messages: Seq<JsonTree>,
    texts: Seq<Seq<char>>,
)
    requires
        texts.len() == messages.len(),
        forall|i: int|
            0 <= i < messages.len() ==> {
                ||| says(#[trigger] messages[i], session_id, texts[i])
                ||| texts[i].len() == 0 && forall|text: Seq<char>|
                    text.len() > 0 ==> !#[trigger] says(messages[i], session_id, text)
            },
    ensures
        reply_of(session_id, messages) == texts.flatten(),
    decreases messages.len(),
{
    if messages.len() == 0 {
        assert(texts.flatten() =~= Seq::<char>::empty());
    } else {
        let last = messages.len() - 1;
        let before = texts.drop_last();
        assert forall|i: int| 0 <= i < last implies {
            ||| says(#[trigger] messages.drop_last()[i], session_id, before[i])
            ||| before[i].len() == 0 && forall|text: Seq<char>|
                text.len() > 0 ==> !#[trigger] says(messages.drop_last()[i], session_id, text)
        } by {
            assert(messages.drop_last()[i] == messages[i]);
        }
        law_reply_is_what_the_messages_say(session_id, messages.drop_last(), before);
        lemma_what_a_message_says(messages[last], session_id, texts[last]);
        texts.lemma_flatten_and_flatten_alt_are_equivalent();
        before.lemma_flatten_and_flatten_alt_are_equivalent();
    }
}

proof fn lemma_what_a_message_says(message: JsonTree, session_id: Seq<char>, text: Seq<char>)
    requires
        says(message, session_id, text) || (text.len() == 0 && forall|t: Seq<char>|
            t.len() > 0 ==> !#[trigger] says(message, session_id, t)),
    ensures
        spoken(update_event(session_id, message)) == text,
{
    lemma_kinds_differ();
    let event = update_event(session_id, message);
    if says(message, session_id, text) {
        let update = choose|update: JsonTree| #[trigger]
            reports(message, session_id, update) && has_content(update, "text"@, text) && (of_kind(
                update,
                "agent_message_chunk"@,
            ) || of_kind(update, Seq::empty()));
        lemma_report(message, session_id, update);
        lemma_content(update, "text"@, text);
        if of_kind(update, "agent_message_chunk"@) {
            lemma_kind(update, "agent_message_chunk"@);
        } else {
            lemma_kind(update, Seq::empty());
        }
        assert(spoken(event) =~= text);
    } else if let Some(OwnerEvent::Chunk { text: t }) = event {
        let params = message.get("params"@)->0;
        let update = params.get("update"@)->0;
        assert(holds(message, "params"@, params));
        assert(holds(params, "sessionId"@, JsonTree::Text(session_id)));
        assert(params.get("update"@) is Some) by {
            if params.get("update"@) is None {
                assert(update_of(message) == JsonTree::Null);
            }
        }
        assert(holds(params, "update"@, update));
        assert(reports(message, session_id, update));
        lemma_content(update, "text"@, t);
        if update_kind(update).len() == 0 {
            assert(update_kind(update) =~= Seq::empty());
            match update.get_text("sessionUpdate"@) {
                Some(kind) => {
                    assert(holds(update, "sessionUpdate"@, JsonTree::Text(kind)));
                },
                None => {
                    assert forall|k: Seq<char>| !#[trigger] holds(
                        update,
                        "sessionUpdate"@,
                        JsonTree::Text(k),
                    ) by {}
                },
            }
            assert(of_kind(update, Seq::empty()));
        } else {
            assert(holds(update, "sessionUpdate"@, JsonTree::Text("agent_message_chunk"@)));
            assert(of_kind(update, "agent_message_chunk"@));
        }
        assert(says(message, session_id, t));
        assert(false);
    } else {
        assert(spoken(event) =~= text);
    }
}

/// The reply that is kept is what the agent has said, whatever its answer tells,
/// except where it has said nothing and the turn was cancelled.
pub proof fn law_final_reply(assembled: Seq<char>, result: JsonTree)
    ensures
        assembled.len() > 0 ==> final_reply(assembled, result) == assembled,
        !holds(result, "stopReason"@, JsonTree::Text("cancelled"@)) ==> final_reply(
            assembled,
            result,
        ) == assembled,
        assembled.len() == 0 && holds(result, "stopReason"@, JsonTree::Text("cancelled"@))
            ==> final_reply(assembled, result) == "cancelled"@,
{
}

/// What a turn adds to a record is the prompt and the reply, as they are; the
/// rest of the record is left, and the client is told the whole reply.
pub proof fn law_turn_keeps_the_rest(
    record: RecordView,
    text: Seq<char>,
    at: Seq<char>,
    now: Seq<char>,
)
    ensures
        asked(record, text, at, now).history.last() == (HistoryEntry {
            role: "user"@,
            text,
            timestamp: at,
        }),
        asked(record, text, at, now).history.drop_last() == record.history,
        record == (SessionRecord {
            history: record.history,
            last_assistant: record.last_assistant,
            updated_at: record.updated_at,
            ..asked(record, text, at, now)
        }),
        text.len() == 0 ==> replied(record, text, at, now) == record,
        text.len() > 0 ==> replied(record, text, at, now).history.drop_last() == record.history
            && replied(record, text, at, now).last_assistant == Some(
            replied(record, text, at, now).history.last(),
        ) && replied(record, text, at, now).history.last() == (HistoryEntry {
            role: "assistant"@,
            text,
            timestamp: at,
        }),
        record == (SessionRecord {
            history: record.history,
            last_assistant: record.last_assistant,
            updated_at: record.updated_at,
            ..replied(record, text, at, now)
        }),
        done_event(text) is Done && done_event(text)->Done_text == text
            && done_event(text)->stop_reason == "end_turn"@,
{
    let question: EntryView = HistoryEntry { role: "user"@, text, timestamp: at };
    let answer: EntryView = HistoryEntry { role: "assistant"@, text, timestamp: at };
    assert(record.history.push(question).drop_last() =~= record.history);
    assert(record.history.push(answer).drop_last() =~= record.history);
}

/// An event that may be missing is there in its model exactly where it is there,
/// and is the same. The part of the reply that an event is, is its whole text.
pub proof fn law_owner_event_models(event: Option<OwnerEvent>, view: OwnerEventView)
    ensures
        event is None ==> maybe_owner_event(event) is None,
        event matches Some(e) ==> maybe_owner_event(event) == Some(e@),
        view matches OwnerEvent::Chunk { text } ==> spoken(Some(view)) == text,
        view !is Chunk ==> spoken(Some(view)) == Seq::<char>::empty(),
        spoken(None) == Seq::<char>::empty(),
{
}

} // verus!
