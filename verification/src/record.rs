//! The record of a session, as it is kept on disk, and what happens to it in
//! the life of the session.
use vstd::prelude::*;

verus! {

/// One turn of a conversation: who spoke, what was said, and when.
#[derive(Debug, Clone, PartialEq, Eq)]
pub struct HistoryEntry<T = String> {
    pub role: T,
    pub text: T,
    pub timestamp: T,
}

/// The model of a turn.
pub type EntryView = HistoryEntry<Seq<char>>;

/// The record of a session.
#[derive(Debug, Clone, PartialEq, Eq)]
pub struct SessionRecord<T = String, H = Vec<HistoryEntry>> {
    pub name: T,
    pub cwd: T,
    pub agent_command: T,
    pub socket_path: T,
    pub pid: Option<u32>,
    pub agent_pid: Option<u32>,
    pub acp_session_id: Option<T>,
    pub closed: bool,
    pub created_at: T,
    pub updated_at: T,
    pub last_assistant: Option<HistoryEntry<T>>,
    pub history: H,
    pub config_model: Option<T>,
    pub config_mode: Option<T>,
    /// The last failure of the agent or, where the session did not end cleanly,
    /// why it ended.
    pub death_reason: Option<T>,
}

/// The model of a record.
pub type RecordView = SessionRecord<Seq<char>, Seq<EntryView>>;

impl View for HistoryEntry {
    type V = EntryView;

    open spec fn view(&self) -> EntryView {
        HistoryEntry { role: self.role@, text: self.text@, timestamp: self.timestamp@ }
    }
}

/// The characters of a text that may be missing.
pub open spec fn maybe(text: Option<String>) -> Option<Seq<char>> {
    match text {
        Some(text) => Some(text@),
        None => None,
    }
}

/// The model of a turn that may be missing.
pub open spec fn maybe_entry(entry: Option<HistoryEntry>) -> Option<EntryView> {
    match entry {
        Some(entry) => Some(entry@),
        None => None,
    }
}

/// The models of the turns of a conversation.
pub open spec fn entries(history: Seq<HistoryEntry>) -> Seq<EntryView> {
    Seq::new(history.len(), |i: int| history[i]@)
}

impl View for SessionRecord {
    type V = RecordView;

    open spec fn view(&self) -> RecordView {
        SessionRecord {
            name: self.name@,
            cwd: self.cwd@,
            agent_command: self.agent_command@,
            socket_path: self.socket_path@,
            pid: self.pid,
            agent_pid: self.agent_pid,
            acp_session_id: maybe(self.acp_session_id),
            closed: self.closed,
            created_at: self.created_at@,
            updated_at: self.updated_at@,
            last_assistant: maybe_entry(self.last_assistant),
            history: entries(self.history@),
            config_model: maybe(self.config_model),
            config_mode: maybe(self.config_mode),
            death_reason: maybe(self.death_reason),
        }
    }
}

/// The model of a record that may be missing.
pub open spec fn maybe_record(record: Option<&SessionRecord>) -> Option<RecordView> {
    match record {
        Some(record) => Some(record@),
        None => None,
    }
}

impl HistoryEntry {
    /// A copy of the turn.
    pub fn copy(&self) -> (entry: HistoryEntry)
        ensures
            entry@ == self@,
    {
        HistoryEntry {
            role: self.role.clone(),
            text: self.text.clone(),
            timestamp: self.timestamp.clone(),
        }
    }
}

/// The last turn of a conversation in which the assistant spoke.
pub open spec fn latest_reply(history: Seq<EntryView>) -> Option<EntryView>
    decreases history.len(),
{
    if history.len() == 0 {
        None
    } else if history.last().role == "assistant"@ {
        Some(history.last())
    } else {
        latest_reply(history.drop_last())
    }
}

impl SessionRecord<Seq<char>, Seq<EntryView>> {
    /// The reply that the record keeps apart is the last one of its history.
    pub open spec fn wf(self) -> bool {
        self.last_assistant == latest_reply(self.history)
    }

    /// The record with a turn added to its history.
    pub open spec fn with_turn(self, entry: EntryView, updated_at: Seq<char>) -> RecordView {
        SessionRecord {
            last_assistant: if entry.role == "assistant"@ {
                Some(entry)
            } else {
                self.last_assistant
            },
            history: self.history.push(entry),
            updated_at,
            ..self
        }
    }

    /// The record of a session that has ended cleanly.
    pub open spec fn ended(self, updated_at: Seq<char>) -> RecordView {
        SessionRecord { closed: true, updated_at, ..self }
    }

    /// The record of a session that has ended for a reason.
    pub open spec fn ended_by(self, reason: Seq<char>, updated_at: Seq<char>) -> RecordView {
        SessionRecord { death_reason: Some(reason), ..self.ended(updated_at) }
    }

    /// The record of a session that was found to have ended: a reason that is
    /// known already stays.
    pub open spec fn found_dead(self, reason: Seq<char>, updated_at: Seq<char>) -> RecordView {
        match self.death_reason {
            Some(_) => self.ended(updated_at),
            None => self.ended_by(reason, updated_at),
        }
    }

    /// The record of a session whose owner is running.
    pub open spec fn running(
        self,
        pid: u32,
        agent_pid: u32,
        session_id: Seq<char>,
        updated_at: Seq<char>,
    ) -> RecordView {
        SessionRecord {
            pid: Some(pid),
            agent_pid: Some(agent_pid),
            acp_session_id: Some(session_id),
            updated_at,
            ..self
        }
    }

    /// The owner of the session is running and its agent has opened a session.
    pub open spec fn ready(self) -> bool {
        self.pid is Some && self.acp_session_id is Some
    }
}

/// Adds a turn to the history of a session. A turn of the assistant is kept as
/// the last reply, too.
pub fn append_history(
    record: &mut SessionRecord,
    role: &str,
    text: &str,
    timestamp: String,
    updated_at: String,
)
    ensures
        final(record)@ == old(record)@.with_turn(
            HistoryEntry { role: role@, text: text@, timestamp: timestamp@ },
            updated_at@,
        ),
{
    let entry = HistoryEntry { role: role.to_owned(), text: text.to_owned(), timestamp };
    if role.eq("assistant") {
        record.last_assistant = Some(entry.copy());
    }
    record.history.push(entry);
    record.updated_at = updated_at;
    assert(entries(record.history@) =~= old(record)@.history.push(entry@));
}

impl SessionRecord {
    /// Marks the session as ended.
    pub fn close(&mut self, now: String)
        ensures
            final(self)@ == old(self)@.ended(now@),
    {
        self.closed = true;
        self.updated_at = now;
    }

    /// Marks the session as ended for a reason.
    pub fn close_by(&mut self, reason: String, now: String)
        ensures
            final(self)@ == old(self)@.ended_by(reason@, now@),
    {
        self.death_reason = Some(reason);
        self.close(now);
    }

    /// Marks the session as ended after its owner was found to be gone. A reason
    /// that is known already stays.
    pub fn close_dead(&mut self, reason: &str, now: String)
        ensures
            final(self)@ == old(self)@.found_dead(reason@, now@),
    {
        if self.death_reason.is_none() {
            self.death_reason = Some(reason.to_owned());
        }
        self.close(now);
    }

    /// Notes that the owner of the session is running.
    pub fn start(&mut self, pid: u32, agent_pid: u32, session_id: String, now: String)
        ensures
            final(self)@ == old(self)@.running(pid, agent_pid, session_id@, now@),
    {
        self.pid = Some(pid);
        self.agent_pid = Some(agent_pid);
        self.acp_session_id = Some(session_id);
        self.updated_at = now;
    }

    /// Whether the owner of the session is running and its agent has opened a
    /// session.
    pub fn is_ready(&self) -> (answer: bool)
        ensures
            answer == self@.ready(),
    {
        self.pid.is_some() && self.acp_session_id.is_some()
    }
}

/// Whatever happens to a record, the reply that it keeps apart stays the last
/// one of its history.
pub proof fn law_last_reply_kept(
    record: RecordView,
    entry: EntryView,
    reason: Seq<char>,
    pid: u32,
    agent_pid: u32,
    session_id: Seq<char>,
    now: Seq<char>,
)
    requires
        record.wf(),
    ensures
        record.with_turn(entry, now).wf(),
        record.ended(now).wf(),
        record.ended_by(reason, now).wf(),
        record.found_dead(reason, now).wf(),
        record.running(pid, agent_pid, session_id, now).wf(),
{
    assert(record.history.push(entry).drop_last() =~= record.history);
}

/// A turn is added at the end of the history, and nothing that was said before
/// is changed or lost.
pub proof fn law_history_only_grows(record: RecordView, entry: EntryView, now: Seq<char>)
    ensures
        record.with_turn(entry, now).history.drop_last() == record.history,
        record.with_turn(entry, now).history.last() == entry,
        entry.role == "assistant"@ ==> record.with_turn(entry, now).last_assistant == Some(entry),
        entry.role != "assistant"@ ==> record.with_turn(entry, now).last_assistant
            == record.last_assistant,
{
    assert(record.history.push(entry).drop_last() =~= record.history);
}

/// A session that has ended stays ended, with the reason that is known first,
/// and keeps its conversation.
pub proof fn law_ended_stays_ended(record: RecordView, reason: Seq<char>, a: Seq<char>, b: Seq<char>)
    ensures
        record.ended(a).closed,
        record.ended(a).ended(b) == record.ended(b),
        record.ended(a).death_reason == record.death_reason,
        record.found_dead(reason, a).closed,
        record.found_dead(reason, a).death_reason is Some,
        record.death_reason is Some ==> record.found_dead(reason, a).death_reason
            == record.death_reason,
        record.found_dead(reason, a).found_dead(reason, b) == record.found_dead(reason, b),
        record.ended(a).history == record.history,
        record.ended_by(reason, a).history == record.history,
        record.found_dead(reason, a).history == record.history,
        record.ended(a).last_assistant == record.last_assistant,
        record.ended_by(reason, a).last_assistant == record.last_assistant,
        record.found_dead(reason, a).last_assistant == record.last_assistant,
{
}

/// The model of a record keeps every field of it.
pub proof fn law_record_model(record: SessionRecord, i: int)
    ensures
        record@.name == record.name@,
        record@.cwd == record.cwd@,
        record@.agent_command == record.agent_command@,
        record@.socket_path == record.socket_path@,
        record@.pid == record.pid,
        record@.agent_pid == record.agent_pid,
        record@.closed == record.closed,
        record@.created_at == record.created_at@,
        record@.updated_at == record.updated_at@,
        record@.history.len() == record.history@.len(),
        0 <= i < record.history@.len() ==> record@.history[i].role == record.history@[i].role@
            && record@.history[i].text == record.history@[i].text@ && record@.history[i].timestamp
            == record.history@[i].timestamp@,
        record.last_assistant is Some <==> record@.last_assistant is Some,
        record.last_assistant matches Some(entry) ==> record@.last_assistant == Some(entry@),
        record.acp_session_id is Some <==> record@.acp_session_id is Some,
        record.acp_session_id matches Some(id) ==> record@.acp_session_id == Some(id@),
        record.config_model is Some <==> record@.config_model is Some,
        record.config_model matches Some(model) ==> record@.config_model == Some(model@),
        record.config_mode is Some <==> record@.config_mode is Some,
        record.config_mode matches Some(mode) ==> record@.config_mode == Some(mode@),
        record.death_reason is Some <==> record@.death_reason is Some,
        record.death_reason matches Some(reason) ==> record@.death_reason == Some(reason@),
{
}

/// Each change of a record sets what it is about and leaves the rest: putting the
/// old values of those fields back gives the old record.
pub proof fn law_changes_keep_the_rest(
    record: RecordView,
    entry: EntryView,
    reason: Seq<char>,
    pid: u32,
    agent_pid: u32,
    session_id: Seq<char>,
    now: Seq<char>,
)
    ensures
        record == (SessionRecord {
            history: record.history,
            last_assistant: record.last_assistant,
            updated_at: record.updated_at,
            ..record.with_turn(entry, now)
        }),
        record == (SessionRecord {
            closed: record.closed,
            updated_at: record.updated_at,
            ..record.ended(now)
        }),
        record == (SessionRecord {
            closed: record.closed,
            updated_at: record.updated_at,
            death_reason: record.death_reason,
            ..record.ended_by(reason, now)
        }),
        record == (SessionRecord {
            closed: record.closed,
            updated_at: record.updated_at,
            death_reason: record.death_reason,
            ..record.found_dead(reason, now)
        }),
        record == (SessionRecord {
            pid: record.pid,
            agent_pid: record.agent_pid,
            acp_session_id: record.acp_session_id,
            updated_at: record.updated_at,
            ..record.running(pid, agent_pid, session_id, now)
        }),
        record.with_turn(entry, now).updated_at == now,
        record.ended(now).updated_at == now,
        record.ended_by(reason, now).updated_at == now,
        record.found_dead(reason, now).updated_at == now,
        record.running(pid, agent_pid, session_id, now).updated_at == now,
        record.ended_by(reason, now).closed,
        record.ended_by(reason, now).death_reason == Some(reason),
        record.death_reason is None ==> record.found_dead(reason, now).death_reason == Some(reason),
        record.running(pid, agent_pid, session_id, now).pid == Some(pid),
        record.running(pid, agent_pid, session_id, now).agent_pid == Some(agent_pid),
        record.running(pid, agent_pid, session_id, now).acp_session_id == Some(session_id),
        record.running(pid, agent_pid, session_id, now).ready(),
        record.pid is None || record.acp_session_id is None ==> !record.ready(),
{
}

/// A text, a turn or a record that may be missing is there in its model exactly
/// where it is there, and is the same.
pub proof fn law_optional_models(
    text: Option<String>,
    entry: Option<HistoryEntry>,
    record: Option<&SessionRecord>,
)
    ensures
        text is None ==> maybe(text) is None,
        text matches Some(t) ==> maybe(text) == Some(t@),
        entry is None ==> maybe_entry(entry) is None,
        entry matches Some(e) ==> maybe_entry(entry) == Some(e@),
        record is None ==> maybe_record(record) is None,
        record matches Some(r) ==> maybe_record(record) == Some(r@),
{
}

} // verus!
