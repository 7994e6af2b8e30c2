//! Sending a prompt to a session and showing what comes back.
use vstd::prelude::*;
use vstd::string::*;

use crate::events::{acp_event, maybe_event, printed_event, AcpEvent, OwnerEvent, OwnerEventView};
use crate::json::JsonTree;
use crate::record::{maybe, RecordView, SessionRecord};
use crate::text::{chars_of, join, joined, views};
use crate::turn::{final_reply, law_reply_is_what_was_streamed, reply_of, streamed, turn_events};

verus! {

/// How long a client that prints events stays silent before it reports that the
/// session is still working, in seconds.
pub const HEARTBEAT_SECS: u64 = 15;

/// Where the text of a prompt comes from.
#[derive(Debug, Clone, PartialEq, Eq)]
pub enum PromptSource<T = String> {
    Stdin,
    File(T),
    Words(T),
    /// No text was given.
    Missing,
}

impl View for PromptSource {
    type V = PromptSource<Seq<char>>;

    open spec fn view(&self) -> PromptSource<Seq<char>> {
        match self {
            PromptSource::Stdin => PromptSource::Stdin,
            PromptSource::File(path) => PromptSource::File(path@),
            PromptSource::Words(text) => PromptSource::Words(text@),
            PromptSource::Missing => PromptSource::Missing,
        }
    }
}

/// Chooses the text of a prompt: a file goes before the words of the command
/// line, and the file `-` is the standard input.
pub fn prompt_source(file: Option<&str>, words: &Vec<String>) -> (source: PromptSource)
    ensures
        source@ == match file {
            Some(path) => if path@ == "-"@ {
                PromptSource::Stdin
            } else {
                PromptSource::File(path@)
            },
            None => if words@.len() == 0 {
                PromptSource::Missing
            } else {
                PromptSource::Words(joined(views(words@), " "@))
            },
        },
{
    match file {
        Some(path) => if path.eq("-") {
            PromptSource::Stdin
        } else {
            PromptSource::File(path.to_owned())
        },
        None => if words.len() == 0 {
            PromptSource::Missing
        } else {
            PromptSource::Words(join(words, " "))
        },
    }
}

/// The message for a prompt without text.
pub fn missing_prompt_message() -> (text: String)
    ensures
        text@ == "no prompt text provided; use trailing args or --file"@,
{
    "no prompt text provided; use trailing args or --file".to_owned()
}

/// The message for a prompt to a session that has no record.
pub fn unknown_session_message(session: &str) -> (text: String)
    ensures
        text@ == "session '"@ + session@ + "' does not exist; run sessions ensure"@,
{
    "session '".to_owned().concat(session).concat("' does not exist; run sessions ensure")
}

/// The reason for which a session takes no prompt; `None` where it does.
pub open spec fn refusal(session: Seq<char>, record: RecordView) -> Option<Seq<char>> {
    if !record.closed {
        None
    } else {
        let base = "session '"@ + session + "' is closed"@;
        Some(
            match record.death_reason {
                Some(reason) => base + ": "@ + reason,
                None => base,
            },
        )
    }
}

/// Tells why a session takes no prompt: it has ended, for the reason that its
/// record gives.
pub fn refuse_closed(session: &str, record: &SessionRecord) -> (message: Option<String>)
    ensures
        maybe(message) == refusal(session@, record@),
{
    if !record.closed {
        return None;
    }
    let base = "session '".to_owned().concat(session).concat("' is closed");
    match &record.death_reason {
        Some(reason) => Some(base.concat(": ").concat(reason.as_str())),
        None => Some(base),
    }
}

/// The message for a session whose owner cannot be reached, from its record as
/// it is then, where there is one.
pub fn not_running_message(session: &str, record: Option<&SessionRecord>) -> (text: String)
    ensures
        text@ == "session '"@ + session@ + "' is not running: "@ + match record {
            Some(record) => match record@.death_reason {
                Some(reason) => reason,
                None => "daemon not reachable"@,
            },
            None => "daemon not reachable"@,
        },
{
    let base = "session '".to_owned().concat(session).concat("' is not running: ");
    match record {
        Some(record) => match &record.death_reason {
            Some(reason) => base.concat(reason.as_str()),
            None => base.concat("daemon not reachable"),
        },
        None => base.concat("daemon not reachable"),
    }
}

/// The event that reports that the session is still working; `None` where it is
/// not time for one, or where no events are printed.
pub fn heartbeat(json_mode: bool, silent_secs: u64) -> (event: Option<AcpEvent>)
    ensures
        maybe_event(event) == if json_mode && silent_secs >= HEARTBEAT_SECS {
            Some(AcpEvent::Status { text: "working\u{2026}"@ })
        } else {
            None
        },
{
    if json_mode && silent_secs >= HEARTBEAT_SECS {
        Some(AcpEvent::Status { text: "working\u{2026}".to_owned() })
    } else {
        None
    }
}

/// What a client shows.
#[derive(Debug, Clone, PartialEq, Eq)]
pub enum Show<T = String> {
    Nothing,
    /// On the standard output.
    Out(T),
    /// On the standard error.
    Aside(T),
    /// On the standard output, as a line of JSON.
    Event(AcpEvent<T>),
}

impl View for Show {
    type V = Show<Seq<char>>;

    open spec fn view(&self) -> Show<Seq<char>> {
        match self {
            Show::Nothing => Show::Nothing,
            Show::Out(text) => Show::Out(text@),
            Show::Aside(text) => Show::Aside(text@),
            Show::Event(event) => Show::Event(event@),
        }
    }
}

/// How a client goes on.
#[derive(Debug, Clone, PartialEq, Eq)]
pub enum Turn<T = String, R = SessionRecord> {
    Continue,
    Finish,
    Fail(T),
    /// The event has no place in the answer to a prompt.
    Unexpected(OwnerEvent<T, R>),
}

impl View for Turn {
    type V = Turn<Seq<char>, RecordView>;

    open spec fn view(&self) -> Turn<Seq<char>, RecordView> {
        match self {
            Turn::Continue => Turn::Continue,
            Turn::Finish => Turn::Finish,
            Turn::Fail(message) => Turn::Fail(message@),
            Turn::Unexpected(event) => Turn::Unexpected(event@),
        }
    }
}

/// What a client shows for an event of the session.
pub open spec fn shown(event: OwnerEventView, json_mode: bool) -> Show<Seq<char>> {
    if json_mode {
        match printed_event(event) {
            Some(printed) => Show::Event(printed),
            None => Show::Nothing,
        }
    } else {
        match event {
            OwnerEvent::Chunk { text } => Show::Out(text),
            OwnerEvent::Thought { text } => Show::Aside(
                "\x1b[2m[thinking] "@ + text + "\x1b[0m"@,
            ),
            OwnerEvent::ToolCall { title, status, .. } => Show::Aside(
                "\x1b[2m[tool: "@ + title + "] "@ + status + "\x1b[0m\n"@,
            ),
            OwnerEvent::Done { text, .. } => if text.len() > 0 && text.last() != '\n' {
                Show::Out("\n"@)
            } else {
                Show::Nothing
            },
            _ => Show::Nothing,
        }
    }
}

/// How a client goes on after an event of the session. A client that prints
/// events passes over those that have no place in the answer.
pub open spec fn turn_after(event: OwnerEventView, json_mode: bool) -> Turn<
    Seq<char>,
    RecordView,
> {
    match event {
        OwnerEvent::Done { .. } => Turn::Finish,
        OwnerEvent::Error { message } => Turn::Fail(message),
        OwnerEvent::Status { .. } | OwnerEvent::Closed => if json_mode {
            Turn::Continue
        } else {
            Turn::Unexpected(event)
        },
        _ => Turn::Continue,
    }
}

/// Handles an event of the session: what is shown first, and how it goes on.
pub fn run_prompt(event: OwnerEvent, json_mode: bool) -> (step: (Show, Turn))
    ensures
        step.0@ == shown(event@, json_mode),
        step.1@ == turn_after(event@, json_mode),
{
    if json_mode {
        let show = match acp_event(&event) {
            Some(printed) => Show::Event(printed),
            None => Show::Nothing,
        };
        let turn = match event {
            OwnerEvent::Done { .. } => Turn::Finish,
            OwnerEvent::Error { message } => Turn::Fail(message),
            _ => Turn::Continue,
        };
        (show, turn)
    } else {
        match event {
            OwnerEvent::Chunk { text } => (Show::Out(text), Turn::Continue),
            OwnerEvent::Thought { text } => (
                Show::Aside(
                    "\x1b[2m[thinking] ".to_owned().concat(text.as_str()).concat("\x1b[0m"),
                ),
                Turn::Continue,
            ),
            OwnerEvent::ToolCall { title, status, .. } => (
                Show::Aside(
                    "\x1b[2m[tool: ".to_owned().concat(title.as_str()).concat("] ").concat(
                        status.as_str(),
                    ).concat("\x1b[0m\n"),
                ),
                Turn::Continue,
            ),
            OwnerEvent::Done { text, .. } => {
                let chars = chars_of(text.as_str());
                if chars.len() > 0 && chars[chars.len() - 1] != '\n' {
                    (Show::Out("\n".to_owned()), Turn::Finish)
                } else {
                    (Show::Nothing, Turn::Finish)
                }
            },
            OwnerEvent::Error { message } => (Show::Nothing, Turn::Fail(message)),
            OwnerEvent::Status { record } => (
                Show::Nothing,
                Turn::Unexpected(OwnerEvent::Status { record }),
            ),
            OwnerEvent::Closed => (Show::Nothing, Turn::Unexpected(OwnerEvent::Closed)),
        }
    }
}

/// The message for a connection that ends before the answer does.
pub fn cut_off_message() -> (text: String)
    ensures
        text@ == "owner closed connection without a final response"@,
{
    "owner closed connection without a final response".to_owned()
}

/// A session that has ended takes no prompt, and whoever sends it one is told
/// the reason for its end where there is one. One that has not ended takes
/// prompts.
pub proof fn law_refusal_tells_the_reason(
    session: Seq<char>,
    record: RecordView,
    reason: Seq<char>,
    now: Seq<char>,
)
    ensures
        refusal(session, record) is Some <==> record.closed,
        refusal(session, record.ended(now)) is Some,
        refusal(session, record.ended_by(reason, now)) == Some(
            "session '"@ + session + "' is closed"@ + ": "@ + reason,
        ),
        refusal(session, record.found_dead(reason, now)) == Some(
            "session '"@ + session + "' is closed"@ + ": "@ + match record.death_reason {
                Some(known) => known,
                None => reason,
            },
        ),
{
}

/// What a client that shows text prints on the standard output for the events of
/// a session, put together.
pub open spec fn printed(events: Seq<Option<OwnerEventView>>) -> Seq<char>
    decreases events.len(),
{
    if events.len() == 0 {
        Seq::empty()
    } else {
        printed(events.drop_last()) + match events.last() {
            Some(event) => match shown(event, false) {
                Show::Out(text) => text,
                _ => Seq::empty(),
            },
            None => Seq::empty(),
        }
    }
}

proof fn lemma_printed_is_streamed(session_id: Seq<char>, messages: Seq<JsonTree>)
    ensures
        printed(turn_events(session_id, messages)) == streamed(turn_events(session_id, messages)),
    decreases messages.len(),
{
    if messages.len() > 0 {
        lemma_printed_is_streamed(session_id, messages.drop_last());
        assert(turn_events(session_id, messages).drop_last() =~= turn_events(
            session_id,
            messages.drop_last(),
        ));
    }
}

/// Over a turn a client that shows text prints exactly the words of the agent,
/// and ends the last line where they do not. Of the reply that is kept nothing
/// is missing and nothing is added, except where the turn was cancelled before
/// the agent spoke: then only an empty line is printed.
pub proof fn law_client_prints_the_reply(
    session_id: Seq<char>,
    messages: Seq<JsonTree>,
    result: JsonTree,
    stop_reason: Seq<char>,
)
    ensures
        ({
            let spoken = reply_of(session_id, messages);
            let reply = final_reply(spoken, result);
            let done: OwnerEventView = OwnerEvent::Done { stop_reason, text: reply };
            let out = printed(turn_events(session_id, messages).push(Some(done)));
            &&& out == if reply.len() > 0 && reply.last() != '\n' {
                spoken.push('\n')
            } else {
                spoken
            }
            &&& spoken.len() > 0 ==> reply == spoken
        }),
{
    let spoken = reply_of(session_id, messages);
    let reply = final_reply(spoken, result);
    let done: OwnerEventView = OwnerEvent::Done { stop_reason, text: reply };
    let events = turn_events(session_id, messages);
    lemma_printed_is_streamed(session_id, messages);
    law_reply_is_what_was_streamed(session_id, messages);
    assert(events.push(Some(done)).drop_last() =~= events);
    reveal_strlit("\n");
    assert(spoken + "\n"@ =~= spoken.push('\n'));
    assert(spoken + Seq::<char>::empty() =~= spoken);
}

/// A program that reads the events of a turn sees its end: the event that ends
/// the turn is printed as its end or as an error, and no other is.
pub proof fn law_the_end_is_printed(event: OwnerEventView)
    ensures
        turn_after(event, true) is Continue <==> !(printed_event(event) matches Some(printed) && (
        printed is Done || printed is Error)),
        turn_after(event, true) !is Unexpected,
        turn_after(event, true) is Fail <==> turn_after(event, false) is Fail,
        turn_after(event, true) is Finish <==> turn_after(event, false) is Finish,
{
}

/// What a session that has ended answers to a prompt is made of the name of the
/// session and, where there is one, the whole reason.
pub proof fn law_refusal_text(session: Seq<char>, record: RecordView)
    requires
        record.closed,
    ensures
        record.death_reason is None ==> refusal(session, record) == Some(
            "session '"@ + session + "' is closed"@,
        ),
        record.death_reason matches Some(reason) ==> refusal(session, record) == Some(
            "session '"@ + session + "' is closed: "@ + reason,
        ),
{
    reveal_strlit("' is closed: ");
    reveal_strlit("' is closed");
    reveal_strlit(": ");
    if let Some(reason) = record.death_reason {
        assert("session '"@ + session + "' is closed"@ + ": "@ + reason =~= "session '"@ + session
            + "' is closed: "@ + reason);
    }
}

/// A client that shows text puts the reply on the standard output as it is, and
/// thoughts and calls of tools, with their whole text, beside it; at the end it
/// ends the line where the reply has not. A client that prints events shows what
/// is printed for the event, and nothing else.
pub proof fn law_what_is_shown(
    event: OwnerEventView,
    text: Seq<char>,
    title: Seq<char>,
    status: Seq<char>,
    tool_call_id: Seq<char>,
)
    ensures
        shown(OwnerEvent::Chunk { text }, false) == Show::Out(text),
        shown(OwnerEvent::Thought { text }, false) == Show::Aside(
            "\x1b[2m[thinking] "@ + text + "\x1b[0m"@,
        ),
        shown(OwnerEvent::ToolCall { title, status, tool_call_id }, false) == Show::Aside(
            "\x1b[2m[tool: "@ + title + "] "@ + status + "\x1b[0m\n"@,
        ),
        shown(OwnerEvent::Done { stop_reason: status, text }, false) == if text.len() == 0
            || text.last() == '\n' {
            Show::Nothing
        } else {
            Show::Out("\n"@)
        },
        event is Status || event is Closed || event is Error ==> shown(event, false)
            == Show::<Seq<char>>::Nothing,
        printed_event(event) is None ==> shown(event, true) == Show::<Seq<char>>::Nothing,
        printed_event(event) matches Some(printed) ==> shown(event, true) == Show::Event(printed),
{
}

/// A turn goes on until it is done or has failed, and fails with the message that
/// the session tells. A client that shows text also stops at what has no place in
/// a turn.
pub proof fn law_how_a_turn_goes_on(event: OwnerEventView, json_mode: bool)
    ensures
        turn_after(event, json_mode) is Finish <==> event is Done,
        turn_after(event, json_mode) is Fail <==> event is Error,
        turn_after(event, json_mode) matches Turn::Fail(message) ==> event == (OwnerEvent::<
            Seq<char>,
            RecordView,
        >::Error { message }),
        turn_after(event, json_mode) is Unexpected <==> !json_mode && (event is Status
            || event is Closed),
        turn_after(event, json_mode) matches Turn::Unexpected(unexpected) ==> unexpected == event,
{
}

/// The models of what is shown, of how a turn goes on and of the source of a prompt
/// keep every text of them.
pub proof fn law_prompt_models(show: Show, turn: Turn, source: PromptSource)
    ensures
        match show {
            Show::Nothing => show@ is Nothing,
            Show::Out(text) => show@ == Show::Out(text@),
            Show::Aside(text) => show@ == Show::Aside(text@),
            Show::Event(event) => show@ == Show::Event(event@),
        },
        match turn {
            Turn::Continue => turn@ is Continue,
            Turn::Finish => turn@ is Finish,
            Turn::Fail(message) => turn@ == Turn::<Seq<char>, RecordView>::Fail(message@),
            Turn::Unexpected(event) => turn@ == Turn::<Seq<char>, RecordView>::Unexpected(event@),
        },
        match source {
            PromptSource::Stdin => source@ is Stdin,
            PromptSource::File(path) => source@ == PromptSource::File(path@),
            PromptSource::Words(text) => source@ == PromptSource::Words(text@),
            PromptSource::Missing => source@ is Missing,
        },
{
}

} // verus!
