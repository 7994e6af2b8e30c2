//! The messages between the owner of a session and its clients, and the events
//! that a client reports.
use vstd::prelude::*;
use vstd::string::*;

use crate::record::{RecordView, SessionRecord};

verus! {

/// What a client asks of the owner of a session.
#[derive(Debug, Clone, PartialEq, Eq)]
pub enum OwnerRequest {
    Status,
    Prompt { text: String },
    Close,
}

/// What the owner of a session tells a client.
#[derive(Debug, Clone, PartialEq, Eq)]
pub enum OwnerEvent<T = String, R = SessionRecord> {
    Status { record: R },
    Chunk { text: T },
    Thought { text: T },
    ToolCall { title: T, status: T, tool_call_id: T },
    Done { stop_reason: T, text: T },
    Closed,
    Error { message: T },
}

/// The model of an owner's event.
pub type OwnerEventView = OwnerEvent<Seq<char>, RecordView>;

impl View for OwnerEvent {
    type V = OwnerEventView;

    open spec fn view(&self) -> OwnerEventView {
        match self {
            OwnerEvent::Status { record } => OwnerEvent::Status { record: record@ },
            OwnerEvent::Chunk { text } => OwnerEvent::Chunk { text: text@ },
            OwnerEvent::Thought { text } => OwnerEvent::Thought { text: text@ },
            OwnerEvent::ToolCall { title, status, tool_call_id } => OwnerEvent::ToolCall {
                title: title@,
                status: status@,
                tool_call_id: tool_call_id@,
            },
            OwnerEvent::Done { stop_reason, text } => OwnerEvent::Done {
                stop_reason: stop_reason@,
                text: text@,
            },
            OwnerEvent::Closed => OwnerEvent::Closed,
            OwnerEvent::Error { message } => OwnerEvent::Error { message: message@ },
        }
    }
}

/// The events that a client prints for a program that reads its output.
#[derive(Debug, Clone, PartialEq, Eq)]
pub enum AcpEvent<T = String> {
    TextDelta { text: T, stream: T, tag: T },
    Status { text: T },
    Done { stop_reason: T },
    Error { message: T },
}

/// The model of a printed event.
pub type AcpEventView = AcpEvent<Seq<char>>;

impl View for AcpEvent {
    type V = AcpEventView;

    open spec fn view(&self) -> AcpEventView {
        match self {
            AcpEvent::TextDelta { text, stream, tag } => AcpEvent::TextDelta {
                text: text@,
                stream: stream@,
                tag: tag@,
            },
            AcpEvent::Status { text } => AcpEvent::Status { text: text@ },
            AcpEvent::Done { stop_reason } => AcpEvent::Done { stop_reason: stop_reason@ },
            AcpEvent::Error { message } => AcpEvent::Error { message: message@ },
        }
    }
}

/// The model of a printed event that may be missing.
pub open spec fn maybe_event(event: Option<AcpEvent>) -> Option<AcpEventView> {
    match event {
        Some(event) => Some(event@),
        None => None,
    }
}

/// The event that is printed for an owner's event. Of the calls of a tool only
/// the start is shown; the state of a session and its end are not events of a
/// turn.
pub open spec fn printed_event(event: OwnerEventView) -> Option<AcpEventView> {
    match event {
        OwnerEvent::Chunk { text } => Some(
            AcpEvent::TextDelta { text, stream: "output"@, tag: "agent_message_chunk"@ },
        ),
        OwnerEvent::Thought { text } => Some(
            AcpEvent::TextDelta { text, stream: "thought"@, tag: "agent_thought_chunk"@ },
        ),
        OwnerEvent::ToolCall { title, status, .. } => if status == "in_progress"@ {
            Some(AcpEvent::Status { text: "using "@ + title })
        } else {
            None
        },
        OwnerEvent::Done { stop_reason, .. } => Some(AcpEvent::Done { stop_reason }),
        OwnerEvent::Error { message } => Some(AcpEvent::Error { message }),
        OwnerEvent::Status { .. } => None,
        OwnerEvent::Closed => None,
    }
}

/// The event that is printed for an owner's event.
pub fn acp_event(event: &OwnerEvent) -> (printed: Option<AcpEvent>)
    ensures
        maybe_event(printed) == printed_event(event@),
{
    match event {
        OwnerEvent::Chunk { text } => Some(
            AcpEvent::TextDelta {
                text: text.clone(),
                stream: "output".to_owned(),
                tag: "agent_message_chunk".to_owned(),
            },
        ),
        OwnerEvent::Thought { text } => Some(
            AcpEvent::TextDelta {
                text: text.clone(),
                stream: "thought".to_owned(),
                tag: "agent_thought_chunk".to_owned(),
            },
        ),
        OwnerEvent::ToolCall { title, status, .. } => {
            if status.as_str().eq("in_progress") {
                Some(AcpEvent::Status { text: "using ".to_owned().concat(title.as_str()) })
            } else {
                None
            }
        },
        OwnerEvent::Done { stop_reason, .. } => Some(
            AcpEvent::Done { stop_reason: stop_reason.clone() },
        ),
        OwnerEvent::Error { message } => Some(AcpEvent::Error { message: message.clone() }),
        OwnerEvent::Status { .. } => None,
        OwnerEvent::Closed => None,
    }
}

/// The models of events keep every text of them.
pub proof fn law_event_models(event: OwnerEvent, printed: AcpEvent)
    ensures
        match event {
            OwnerEvent::Status { record } => event@ is Status && event@->record == record@,
            OwnerEvent::Chunk { text } => event@ is Chunk && event@->Chunk_text == text@,
            OwnerEvent::Thought { text } => event@ is Thought && event@->Thought_text == text@,
            OwnerEvent::ToolCall { title, status, tool_call_id } => event@ is ToolCall
                && event@->title == title@ && event@->status == status@ && event@->tool_call_id
                == tool_call_id@,
            OwnerEvent::Done { stop_reason, text } => event@ is Done && event@->stop_reason
                == stop_reason@ && event@->Done_text == text@,
            OwnerEvent::Closed => event@ is Closed,
            OwnerEvent::Error { message } => event@ is Error && event@->message == message@,
        },
        match printed {
            AcpEvent::TextDelta { text, stream, tag } => printed@ is TextDelta
                && printed@->TextDelta_text == text@ && printed@->stream == stream@ && printed@->tag
                == tag@,
            AcpEvent::Status { text } => printed@ is Status && printed@->Status_text == text@,
            AcpEvent::Done { stop_reason } => printed@ is Done && printed@->stop_reason
                == stop_reason@,
            AcpEvent::Error { message } => printed@ is Error && printed@->message == message@,
        },
{
}

/// Every part of the reply and every thought is printed with its whole text, and
/// marked as what it is; the end of a turn is printed with its reason, an error
/// with its message. A call of a tool is printed exactly where it begins, by its
/// title. Nothing else is printed.
pub proof fn law_printed_events(
    text: Seq<char>,
    title: Seq<char>,
    status: Seq<char>,
    tool_call_id: Seq<char>,
    record: RecordView,
)
    ensures
        printed_event(OwnerEvent::Chunk { text }) matches Some(AcpEvent::TextDelta {
            text: shown,
            stream,
            tag,
        }) && shown == text && stream == "output"@ && tag == "agent_message_chunk"@,
        printed_event(OwnerEvent::Thought { text }) matches Some(AcpEvent::TextDelta {
            text: shown,
            stream,
            tag,
        }) && shown == text && stream == "thought"@ && tag == "agent_thought_chunk"@,
        printed_event(OwnerEvent::Done { stop_reason: status, text }) matches Some(AcpEvent::Done {
            stop_reason,
        }) && stop_reason == status,
        printed_event(OwnerEvent::Error { message: text }) matches Some(AcpEvent::Error { message })
            && message == text,
        printed_event(OwnerEvent::ToolCall { title, status, tool_call_id }) is Some <==> status
            == "in_progress"@,
        status == "in_progress"@ ==> (printed_event(
            OwnerEvent::ToolCall { title, status, tool_call_id },
        ) matches Some(AcpEvent::Status { text: line }) && line == "using "@ + title),
        printed_event(OwnerEvent::Status { record }) is None,
        printed_event(OwnerEvent::Closed) is None,
{
}

/// An event that may be missing is there in its model exactly where it is there,
/// and is the same.
pub proof fn law_optional_event(event: Option<AcpEvent>)
    ensures
        event is None ==> maybe_event(event) is None,
        event matches Some(e) ==> maybe_event(event) == Some(e@),
{
}

} // verus!
