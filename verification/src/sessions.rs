//! The commands on sessions: which record a command works on, whether a session
//! is reused or made anew, and what is told of it.
use vstd::prelude::*;
use vstd::string::*;

use crate::acp::text_tree;
use crate::json::{
    holds, item_trees, parsed_tree, pretty, pretty_text, Json, JsonTree, NESTING_LIMIT,
};
use crate::paths::{path_join, safe_form, SessionPaths};
use crate::record::{entries, maybe, maybe_record, EntryView, RecordView, SessionRecord};
use crate::text::views;
use crate::turn::{after_turn, law_turn_is_remembered};

verus! {

/// What a user asks for.
#[derive(Debug, Clone, PartialEq, Eq)]
pub enum Command {
    Prompt { session: String },
    Status { session: String },
    Ensure { name: String },
    Last { name: String },
    Close { name: String },
    List,
    Cleanup,
    /// Runs the owner of the session with the given record.
    Serve { record: String },
    /// Runs the guardian of the session with the given record.
    Guard { record: String },
}

/// What a command starts with: the directories, which are made first, and the
/// record that it works on, where it works on one.
pub struct Plan {
    pub paths: SessionPaths,
    pub dirs: Vec<String>,
    pub record_path: Option<String>,
}

/// The record that a command works on.
pub open spec fn record_of(sessions_dir: Seq<char>, command: Command) -> Option<Seq<char>> {
    match command {
        Command::Prompt { session: name }
        | Command::Status { session: name }
        | Command::Ensure { name }
        | Command::Last { name }
        | Command::Close { name } => Some(path_join(sessions_dir, safe_form(name@) + ".json"@)),
        Command::List => None,
        Command::Cleanup => None,
        Command::Serve { record } => Some(record@),
        Command::Guard { record } => Some(record@),
    }
}

/// Starts a command.
pub fn run(home: &str, command: &Command) -> (plan: Plan)
    ensures
        plan.paths.root@ == home@,
        plan.paths.wf(),
        views(plan.dirs@) == seq![
            plan.paths.sessions_dir@,
            plan.paths.sockets_dir@,
            plan.paths.logs_dir@,
        ],
        maybe(plan.record_path) == record_of(plan.paths.sessions_dir@, *command),
{
    let paths = SessionPaths::new(home);
    let dirs = paths.ensure_dirs();
    let record_path = match command {
        Command::Prompt { session } => Some(paths.record_path(session.as_str())),
        Command::Status { session } => Some(paths.record_path(session.as_str())),
        Command::Ensure { name } => Some(paths.record_path(name.as_str())),
        Command::Last { name } => Some(paths.record_path(name.as_str())),
        Command::Close { name } => Some(paths.record_path(name.as_str())),
        Command::List => None,
        Command::Cleanup => None,
        Command::Serve { record } => Some(record.clone()),
        Command::Guard { record } => Some(record.clone()),
    };
    Plan { paths, dirs, record_path }
}

/// What ensuring a session comes to.
#[derive(PartialEq, Eq, Structural, Debug, Clone, Copy)]
pub enum EnsureStep {
    /// The session is running and is used as it is.
    Reuse,
    /// The session is made anew.
    Create,
    /// The owner of the session is gone: the old record is marked as ended, the
    /// socket is removed, and the session is made anew.
    Replace,
}

/// A session is used as it is where it has not ended, its owner is alive and
/// its socket answers.
pub open spec fn ensure_step(
    old: Option<RecordView>,
    pid_alive: bool,
    socket_alive: bool,
) -> EnsureStep {
    match old {
        Some(record) => if record.closed {
            EnsureStep::Create
        } else if pid_alive && socket_alive {
            EnsureStep::Reuse
        } else if !pid_alive {
            EnsureStep::Replace
        } else {
            EnsureStep::Create
        },
        None => EnsureStep::Create,
    }
}

/// Decides whether a session is reused or made anew.
pub fn run_sessions_ensure(
    old: Option<&SessionRecord>,
    pid_alive: bool,
    socket_alive: bool,
) -> (step: EnsureStep)
    ensures
        step == ensure_step(maybe_record(old), pid_alive, socket_alive),
{
    match old {
        Some(record) => if record.closed {
            EnsureStep::Create
        } else if pid_alive && socket_alive {
            EnsureStep::Reuse
        } else if !pid_alive {
            EnsureStep::Replace
        } else {
            EnsureStep::Create
        },
        None => EnsureStep::Create,
    }
}

/// The reason that is noted for a session whose owner is gone when it is
/// ensured.
pub open spec fn dead_at_ensure() -> Seq<char> {
    "daemon found dead during session ensure"@
}

/// Marks the record of a session that is replaced as ended.
pub fn mark_replaced(record: &mut SessionRecord, now: String)
    ensures
        final(record)@ == old(record)@.found_dead(dead_at_ensure(), now@),
{
    record.close_dead("daemon found dead during session ensure", now);
}

/// What a session is made from.
#[derive(Debug, Clone, PartialEq, Eq)]
pub struct SessionSpec {
    pub name: String,
    pub cwd: String,
    pub agent_command: String,
    pub socket_path: String,
    pub model: Option<String>,
    pub mode: Option<String>,
}

/// The record of a session that is being made: nobody runs it yet. The
/// conversation, and the time at which the session was first made, are those of
/// the record before.
pub open spec fn fresh_record(
    spec: SessionSpec,
    old: Option<RecordView>,
    created_at: Seq<char>,
    updated_at: Seq<char>,
) -> RecordView {
    SessionRecord {
        name: spec.name@,
        cwd: spec.cwd@,
        agent_command: spec.agent_command@,
        socket_path: spec.socket_path@,
        pid: None,
        agent_pid: None,
        acp_session_id: None,
        closed: false,
        created_at: match old {
            Some(old) => old.created_at,
            None => created_at,
        },
        updated_at,
        last_assistant: match old {
            Some(old) => old.last_assistant,
            None => None,
        },
        history: match old {
            Some(old) => old.history,
            None => Seq::empty(),
        },
        config_model: maybe(spec.model),
        config_mode: maybe(spec.mode),
        death_reason: None,
    }
}

/// The model of a record that may be missing.
pub open spec fn owned_record(record: Option<SessionRecord>) -> Option<RecordView> {
    match record {
        Some(record) => Some(record@),
        None => None,
    }
}

/// Makes the record of a session.
pub fn new_record(
    spec: SessionSpec,
    old: Option<SessionRecord>,
    created_at: String,
    updated_at: String,
) -> (record: SessionRecord)
    ensures
        record@ == fresh_record(spec, owned_record(old), created_at@, updated_at@),
{
    let (history, last_assistant, created_at) = match old {
        Some(old) => (old.history, old.last_assistant, old.created_at),
        None => (Vec::new(), None, created_at),
    };
    assert(old is None ==> entries(history@) =~= Seq::empty());
    SessionRecord {
        name: spec.name,
        cwd: spec.cwd,
        agent_command: spec.agent_command,
        socket_path: spec.socket_path,
        pid: None,
        agent_pid: None,
        acp_session_id: None,
        closed: false,
        created_at,
        updated_at,
        last_assistant,
        history,
        config_model: spec.model,
        config_mode: spec.mode,
        death_reason: None,
    }
}

/// Making a session anew loses nothing of its conversation, nor the time at
/// which it was first made; it forgets how the session ended, and waits for an
/// owner.
pub proof fn law_ensure_keeps_conversation(
    spec: SessionSpec,
    old: RecordView,
    created_at: Seq<char>,
    updated_at: Seq<char>,
)
    ensures
        fresh_record(spec, Some(old), created_at, updated_at).history == old.history,
        fresh_record(spec, Some(old), created_at, updated_at).last_assistant == old.last_assistant,
        fresh_record(spec, Some(old), created_at, updated_at).created_at == old.created_at,
        old.wf() ==> fresh_record(spec, Some(old), created_at, updated_at).wf(),
        fresh_record(spec, None, created_at, updated_at).wf(),
        !fresh_record(spec, Some(old), created_at, updated_at).closed,
        !fresh_record(spec, Some(old), created_at, updated_at).ready(),
        fresh_record(spec, Some(old), created_at, updated_at).death_reason is None,
{
}

/// Ensuring a session twice makes it once: as long as its owner is alive and its
/// socket answers, a session that has been made is used as it is.
pub proof fn law_ensure_twice(
    spec: SessionSpec,
    old: Option<RecordView>,
    created_at: Seq<char>,
    updated_at: Seq<char>,
    pid: u32,
    agent_pid: u32,
    session_id: Seq<char>,
    now: Seq<char>,
)
    ensures
        ({
            let made = fresh_record(spec, old, created_at, updated_at).running(
                pid,
                agent_pid,
                session_id,
                now,
            );
            &&& made.ready()
            &&& ensure_step(Some(made), true, true) == EnsureStep::Reuse
            &&& ensure_step(Some(made.ended(now)), true, true) == EnsureStep::Create
            &&& ensure_step(Some(made), false, true) == EnsureStep::Replace
        }),
{
}

/// How waiting for a session goes on.
#[derive(PartialEq, Eq, Structural, Debug, Clone, Copy)]
pub enum WaitStep {
    Ready,
    Wait,
    TimedOut,
}

/// Decides whether to wait on for a session that is being made. Its record is
/// looked at only where its socket answers.
pub fn wait_for_ready_record(
    expired: bool,
    socket_alive: bool,
    record: Option<&SessionRecord>,
) -> (step: WaitStep)
    ensures
        step == if expired {
            WaitStep::TimedOut
        } else if socket_alive && (maybe_record(record) matches Some(record)
            && record.ready()) {
            WaitStep::Ready
        } else {
            WaitStep::Wait
        },
{
    if expired {
        return WaitStep::TimedOut;
    }
    match record {
        Some(record) => if socket_alive && record.is_ready() {
            WaitStep::Ready
        } else {
            WaitStep::Wait
        },
        None => WaitStep::Wait,
    }
}

/// The message for a session that does not come up in time.
pub fn timed_out_message() -> (text: String)
    ensures
        text@ == "session daemon did not become ready before timeout"@,
{
    "session daemon did not become ready before timeout".to_owned()
}

/// Where the state of a session is told from.
#[derive(PartialEq, Eq, Structural, Debug, Clone, Copy)]
pub enum StatusStep {
    /// The owner of the session is asked.
    AskOwner,
    /// The record is shown.
    ShowRecord,
}

/// Decides where the state of a session is told from: its owner knows best.
pub fn run_status(socket_alive: bool) -> (step: StatusStep)
    ensures
        step == if socket_alive {
            StatusStep::AskOwner
        } else {
            StatusStep::ShowRecord
        },
{
    if socket_alive {
        StatusStep::AskOwner
    } else {
        StatusStep::ShowRecord
    }
}

/// The last reply that a record keeps.
pub open spec fn last_reply(record: RecordView) -> Option<Seq<char>> {
    match record.last_assistant {
        Some(entry) => Some(entry.text),
        None => None,
    }
}

/// Tells the last reply of a session.
pub fn run_sessions_last(record: &SessionRecord, name: &str) -> (reply: Result<String, String>)
    ensures
        match reply {
            Ok(text) => last_reply(record@) == Some(text@),
            Err(message) => last_reply(record@) is None && message@ == "session '"@ + name@
                + "' has no assistant reply yet"@,
        },
{
    match &record.last_assistant {
        Some(entry) => Ok(entry.text.clone()),
        None => Err(
            "session '".to_owned().concat(name).concat("' has no assistant reply yet"),
        ),
    }
}

/// The reply of a turn is told again after the turn, after the session has
/// ended, for whatever reason, and after it has been made anew. A turn in which
/// the agent said nothing leaves the reply before it to be told.
pub proof fn law_last_reply_is_told(
    record: RecordView,
    prompt: Seq<char>,
    reply: Seq<char>,
    reason: Seq<char>,
    spec: SessionSpec,
    asked_at: Seq<char>,
    asked_now: Seq<char>,
    replied_at: Seq<char>,
    replied_now: Seq<char>,
    at: Seq<char>,
)
    ensures
        ({
            let after = after_turn(
                record,
                prompt,
                asked_at,
                asked_now,
                reply,
                replied_at,
                replied_now,
            );
            let told = if reply.len() > 0 {
                Some(reply)
            } else {
                last_reply(record)
            };
            &&& last_reply(after) == told
            &&& last_reply(after.ended(at)) == told
            &&& last_reply(after.ended_by(reason, at)) == told
            &&& last_reply(after.found_dead(reason, at)) == told
            &&& last_reply(fresh_record(spec, Some(after), at, at)) == told
        }),
{
    law_turn_is_remembered(
        record,
        prompt,
        asked_at,
        asked_now,
        reply,
        replied_at,
        replied_now,
    );
}

/// How a session is doing, as far as a list tells.
pub open spec fn session_status(record: RecordView, pid_alive: bool, socket_alive: bool) -> Seq<
    char,
> {
    if record.closed {
        "closed"@
    } else if pid_alive && socket_alive {
        "running"@
    } else {
        "stale"@
    }
}

/// The owner of a session was running and is gone, and its record does not say
/// so.
pub open spec fn found_gone(record: RecordView, pid_alive: bool, socket_alive: bool) -> bool {
    !record.closed && record.pid is Some && !pid_alive && !socket_alive
}

/// The record of a session after it was listed: the end of a session whose
/// owner is gone is noted.
pub open spec fn listed_record(
    record: RecordView,
    pid_alive: bool,
    socket_alive: bool,
    now: Seq<char>,
) -> RecordView {
    if found_gone(record, pid_alive, socket_alive) {
        record.found_dead("daemon found dead during list"@, now)
    } else {
        record
    }
}

/// What a list tells of a session.
#[derive(Debug, Clone, PartialEq, Eq)]
pub struct SessionSummary {
    pub name: String,
    pub status: String,
    pub agent_command: String,
    pub created_at: String,
    pub updated_at: String,
    pub pid: Option<u32>,
    pub history_len: usize,
    pub death_reason: Option<String>,
}

impl SessionSummary {
    /// The summary tells of the record, with the given status.
    pub open spec fn tells(self, record: RecordView, status: Seq<char>) -> bool {
        &&& self.name@ == record.name
        &&& self.status@ == status
        &&& self.agent_command@ == record.agent_command
        &&& self.created_at@ == record.created_at
        &&& self.updated_at@ == record.updated_at
        &&& self.pid == record.pid
        &&& self.history_len == record.history.len()
        &&& maybe(self.death_reason) == record.death_reason
    }

    /// The summary as a document.
    pub open spec fn tree(self) -> JsonTree {
        JsonTree::Object(
            map![
                "name"@ => text_tree(self.name@),
                "status"@ => text_tree(self.status@),
                "agent_command"@ => text_tree(self.agent_command@),
                "created_at"@ => text_tree(self.created_at@),
                "updated_at"@ => text_tree(self.updated_at@),
                "pid"@ => match self.pid {
                    Some(pid) => JsonTree::Int(pid as int),
                    None => JsonTree::Null,
                },
                "history_len"@ => JsonTree::Int(self.history_len as int),
                "death_reason"@ => match self.death_reason {
                    Some(reason) => text_tree(reason@),
                    None => JsonTree::Null,
                },
            ],
        )
    }

    /// The summary as a document.
    pub fn to_json(&self) -> (json: Json)
        ensures
            json@ == self.tree(),
            json@.fits((NESTING_LIMIT - 1) as nat),
    {
        let pid = match self.pid {
            Some(pid) => Json::Unsigned(pid as u64),
            None => Json::Null,
        };
        let death_reason = match &self.death_reason {
            Some(reason) => Json::string(reason.as_str()),
            None => Json::Null,
        };
        Json::object().with("name", Json::string(self.name.as_str())).with(
            "status",
            Json::string(self.status.as_str()),
        ).with("agent_command", Json::string(self.agent_command.as_str())).with(
            "created_at",
            Json::string(self.created_at.as_str()),
        ).with("updated_at", Json::string(self.updated_at.as_str())).with("pid", pid).with(
            "history_len",
            Json::Unsigned(self.history_len as u64),
        ).with("death_reason", death_reason)
    }
}

/// Lists a session: what is told of it, or nothing where only sessions that have
/// not ended are asked for, and whether its record has changed and is to be
/// kept.
pub fn run_sessions_list(
    record: &mut SessionRecord,
    active_only: bool,
    pid_alive: bool,
    socket_alive: bool,
    now: String,
) -> (listed: Option<(SessionSummary, bool)>)
    ensures
        match listed {
            Some((summary, changed)) => {
                &&& !(active_only && old(record)@.closed)
                &&& changed == found_gone(old(record)@, pid_alive, socket_alive)
                &&& final(record)@ == listed_record(
                    old(record)@,
                    pid_alive,
                    socket_alive,
                    now@,
                )
                &&& summary.tells(
                    final(record)@,
                    session_status(old(record)@, pid_alive, socket_alive),
                )
            },
            None => active_only && old(record)@.closed && final(record)@ == old(record)@,
        },
{
    if active_only && record.closed {
        return None;
    }
    let mut changed = false;
    let status = if record.closed {
        "closed".to_owned()
    } else if pid_alive && socket_alive {
        "running".to_owned()
    } else {
        if record.pid.is_some() && !pid_alive && !socket_alive {
            record.close_dead("daemon found dead during list", now);
            changed = true;
        }
        "stale".to_owned()
    };
    let summary = SessionSummary {
        name: record.name.clone(),
        status,
        agent_command: record.agent_command.clone(),
        created_at: record.created_at.clone(),
        updated_at: record.updated_at.clone(),
        pid: record.pid,
        history_len: record.history.len(),
        death_reason: record.death_reason.clone(),
    };
    Some((summary, changed))
}

/// The documents of a list.
pub open spec fn summary_trees(summaries: Seq<SessionSummary>) -> Seq<JsonTree> {
    Seq::new(summaries.len(), |i: int| summaries[i].tree())
}

/// Writes a list of sessions.
pub fn write_list(summaries: &Vec<SessionSummary>) -> (text: String)
    ensures
        text@ == pretty_text(JsonTree::Array(summary_trees(summaries@))),
        parsed_tree(text@) == Some(JsonTree::Array(summary_trees(summaries@))),
{
    let mut items: Vec<Json> = Vec::new();
    for i in 0..summaries.len()
        invariant
            items@.len() == i,
            forall|k: int|
                0 <= k < i ==> (#[trigger] items@[k])@ == summaries@[k].tree() && items@[k]@.fits(
                    (NESTING_LIMIT - 1) as nat,
                ),
    {
        items.push(summaries[i].to_json());
    }
    assert(item_trees(items@) =~= summary_trees(summaries@));
    let list = Json::array(items);
    pretty(&list)
}

/// A session whose owner is gone is listed as stale once, and as closed from
/// then on, with a reason for its end.
pub proof fn law_list_notes_the_end(record: RecordView, socket_alive: bool, now: Seq<char>)
    requires
        !record.closed,
        record.pid is Some,
    ensures
        session_status(record, false, false) == "stale"@,
        session_status(listed_record(record, false, false, now), false, socket_alive) == "closed"@,
        listed_record(record, false, false, now).death_reason is Some,
        listed_record(record, false, false, now).history == record.history,
        listed_record(record, true, true, now) == record,
{
}

/// A command on a session works on the record of that session, whatever the
/// command is; the owner and the guardian work on the record that they are given,
/// and the commands on all sessions on none.
pub proof fn law_commands_find_their_record(dir: Seq<char>, name: String)
    ensures
        record_of(dir, Command::Prompt { session: name }) == Some(
            path_join(dir, safe_form(name@) + ".json"@),
        ),
        record_of(dir, Command::Status { session: name }) == record_of(
            dir,
            Command::Prompt { session: name },
        ),
        record_of(dir, Command::Ensure { name }) == record_of(
            dir,
            Command::Prompt { session: name },
        ),
        record_of(dir, Command::Last { name }) == record_of(dir, Command::Prompt { session: name }),
        record_of(dir, Command::Close { name }) == record_of(dir, Command::Prompt { session: name }),
        record_of(dir, Command::List) is None,
        record_of(dir, Command::Cleanup) is None,
        record_of(dir, Command::Serve { record: name }) == Some(name@),
        record_of(dir, Command::Guard { record: name }) == Some(name@),
{
}

/// A session is used as it is exactly where it has not ended, its owner is alive
/// and its socket answers. Any other session is made anew; the old record is marked
/// as ended exactly where it does not say so and its owner is gone.
pub proof fn law_when_a_session_is_reused(record: RecordView, pid_alive: bool, socket_alive: bool)
    ensures
        ensure_step(Some(record), pid_alive, socket_alive) == EnsureStep::Reuse <==> !record.closed
            && pid_alive && socket_alive,
        ensure_step(Some(record), pid_alive, socket_alive) == EnsureStep::Replace
            <==> !record.closed && !pid_alive,
        ensure_step(None, pid_alive, socket_alive) == EnsureStep::Create,
{
}

/// Whatever record there was before, the record of a session that is made has the
/// name, the working directory, the agent command, the socket, the model and the
/// mode that were asked for, and belongs to nobody yet. Of the old record it takes
/// the history, the last reply and the time of its making and nothing else: two old
/// records that agree on these give the same new one.
pub proof fn law_session_is_made_as_asked(
    spec: SessionSpec,
    old: Option<RecordView>,
    a: RecordView,
    b: RecordView,
    created_at: Seq<char>,
    updated_at: Seq<char>,
)
    ensures
        ({
            let made = fresh_record(spec, old, created_at, updated_at);
            &&& made.name == spec.name@
            &&& made.cwd == spec.cwd@
            &&& made.agent_command == spec.agent_command@
            &&& made.socket_path == spec.socket_path@
            &&& made.config_model is Some <==> spec.model is Some
            &&& spec.model matches Some(model) ==> made.config_model == Some(model@)
            &&& made.config_mode is Some <==> spec.mode is Some
            &&& spec.mode matches Some(mode) ==> made.config_mode == Some(mode@)
            &&& made.updated_at == updated_at
            &&& made.pid is None
            &&& made.agent_pid is None
            &&& made.acp_session_id is None
            &&& made.death_reason is None
            &&& !made.closed
        }),
        fresh_record(spec, None, created_at, updated_at).history == Seq::<EntryView>::empty(),
        fresh_record(spec, None, created_at, updated_at).last_assistant is None,
        fresh_record(spec, None, created_at, updated_at).created_at == created_at,
        a.history == b.history && a.last_assistant == b.last_assistant && a.created_at
            == b.created_at ==> fresh_record(spec, Some(a), created_at, updated_at) == fresh_record(
            spec,
            Some(b),
            created_at,
            updated_at,
        ),
{
}

/// A session is listed as closed where its record says so, as running where it does
/// not and both its owner and its socket are alive, and as stale otherwise. Its end
/// is noted exactly where it had an owner, and neither the owner nor the socket is
/// alive; a reason that is known stays.
pub proof fn law_how_a_session_is_listed(
    record: RecordView,
    pid_alive: bool,
    socket_alive: bool,
    now: Seq<char>,
)
    ensures
        record.closed ==> session_status(record, pid_alive, socket_alive) == "closed"@,
        !record.closed && pid_alive && socket_alive ==> session_status(
            record,
            pid_alive,
            socket_alive,
        ) == "running"@,
        !record.closed && !(pid_alive && socket_alive) ==> session_status(
            record,
            pid_alive,
            socket_alive,
        ) == "stale"@,
        found_gone(record, pid_alive, socket_alive) <==> !record.closed && record.pid is Some
            && !pid_alive && !socket_alive,
        !found_gone(record, pid_alive, socket_alive) ==> listed_record(
            record,
            pid_alive,
            socket_alive,
            now,
        ) == record,
        found_gone(record, pid_alive, socket_alive) ==> listed_record(
            record,
            pid_alive,
            socket_alive,
            now,
        ) == (SessionRecord {
            closed: true,
            updated_at: now,
            death_reason: if record.death_reason is Some {
                record.death_reason
            } else {
                Some("daemon found dead during list"@)
            },
            ..record
        }),
{
}

/// What a list tells of a session is what its record holds, under the names of a
/// document.
pub proof fn law_summary_tells_the_record(
    summary: SessionSummary,
    record: RecordView,
    status: Seq<char>,
)
    requires
        summary.tells(record, status),
    ensures
        holds(summary.tree(), "name"@, JsonTree::Text(record.name)),
        holds(summary.tree(), "status"@, JsonTree::Text(status)),
        holds(summary.tree(), "agent_command"@, JsonTree::Text(record.agent_command)),
        holds(summary.tree(), "created_at"@, JsonTree::Text(record.created_at)),
        holds(summary.tree(), "updated_at"@, JsonTree::Text(record.updated_at)),
        holds(summary.tree(), "history_len"@, JsonTree::Int(record.history.len() as int)),
        record.pid matches Some(pid) ==> holds(summary.tree(), "pid"@, JsonTree::Int(pid as int)),
        record.pid is None ==> holds(summary.tree(), "pid"@, JsonTree::Null),
        record.death_reason matches Some(reason) ==> holds(
            summary.tree(),
            "death_reason"@,
            JsonTree::Text(reason),
        ),
        record.death_reason is None ==> holds(summary.tree(), "death_reason"@, JsonTree::Null),
{
    reveal_strlit("name");
    reveal_strlit("status");
    reveal_strlit("agent_command");
    reveal_strlit("created_at");
    reveal_strlit("updated_at");
    reveal_strlit("pid");
    reveal_strlit("history_len");
    reveal_strlit("death_reason");
    assert("name"@.len() == 4 && "status"@.len() == 6 && "agent_command"@.len() == 13
        && "created_at"@.len() == 10 && "updated_at"@.len() == 10 && "pid"@.len() == 3
        && "history_len"@.len() == 11 && "death_reason"@.len() == 12);
    assert("created_at"@[0] == 'c' && "updated_at"@[0] == 'u');
}

/// A list tells of every session, in order.
pub proof fn law_list_tells_all(summaries: Seq<SessionSummary>, i: int)
    requires
        0 <= i < summaries.len(),
    ensures
        summary_trees(summaries).len() == summaries.len(),
        summary_trees(summaries)[i] == summaries[i].tree(),
{
}

/// The last reply that is told is the text of the reply that the record keeps.
pub proof fn law_last_reply_of_a_record(record: RecordView)
    ensures
        record.last_assistant is None <==> last_reply(record) is None,
        record.last_assistant matches Some(entry) ==> last_reply(record) == Some(entry.text),
{
}

/// A record that may be missing is there in its model exactly where it is there, and
/// is the same.
pub proof fn law_owned_record(record: Option<SessionRecord>)
    ensures
        record is None ==> owned_record(record) is None,
        record matches Some(r) ==> owned_record(record) == Some(r@),
{
}

} // verus!
