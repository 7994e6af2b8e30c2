//! The owner of a session: how it sets the agent up, what it does about the
//! requests of its clients, when it ends, and how its guardian notes that it
//! ended unexpectedly.
use vstd::prelude::*;
use vstd::string::*;

use crate::acp::Call;
use crate::answer::SessionInfo;
use crate::events::{OwnerEvent, OwnerEventView, OwnerRequest};
use crate::json::found_text;
use crate::prompt::{refusal, turn_after, Turn};
use crate::record::{append_history, maybe, EntryView, HistoryEntry, RecordView, SessionRecord};
use crate::text::{
    chars_of, decimal, decimal_text, signed_decimal, signed_decimal_text, string_of, views,
};
use crate::turn::Fault;

verus! {

/// How long the owner of a session waits for a client before it ends, in
/// seconds.
pub const IDLE_TIMEOUT_SECS: u64 = 1800;

/// What is done about the mode that a session is to have.
#[derive(Debug, Clone, PartialEq, Eq)]
pub enum ModeStep<T = String> {
    /// No mode is asked for.
    Nothing,
    /// The agent is in the mode already.
    AlreadyActive(T),
    /// The agent offers modes, and this is none of them.
    Unavailable(T),
    /// The agent is told the mode.
    Change(T),
}

impl View for ModeStep {
    type V = ModeStep<Seq<char>>;

    open spec fn view(&self) -> ModeStep<Seq<char>> {
        match self {
            ModeStep::Nothing => ModeStep::Nothing,
            ModeStep::AlreadyActive(mode) => ModeStep::AlreadyActive(mode@),
            ModeStep::Unavailable(mode) => ModeStep::Unavailable(mode@),
            ModeStep::Change(mode) => ModeStep::Change(mode@),
        }
    }
}

/// What is done about the mode that a session is to have. An agent that does
/// not tell its modes is taken to offer every one.
pub open spec fn mode_step(
    wanted: Option<Seq<char>>,
    current: Option<Seq<char>>,
    offered: Seq<Seq<char>>,
) -> ModeStep<Seq<char>> {
    match wanted {
        None => ModeStep::Nothing,
        Some(mode) => if current == Some(mode) {
            ModeStep::AlreadyActive(mode)
        } else if offered.len() > 0 && !offered.contains(mode) {
            ModeStep::Unavailable(mode)
        } else {
            ModeStep::Change(mode)
        },
    }
}

fn contains(texts: &Vec<String>, text: &str) -> (answer: bool)
    ensures
        answer == views(texts@).contains(text@),
{
    for i in 0..texts.len()
        invariant
            forall|k: int| 0 <= k < i ==> views(texts@)[k] != text@,
    {
        assert(views(texts@)[i as int] == texts@[i as int]@);
        if texts[i].as_str().eq(text) {
            return true;
        }
    }
    false
}

fn is_current(current: &Option<String>, wanted: &str) -> (answer: bool)
    ensures
        answer == (maybe(*current) == Some(wanted@)),
{
    match current {
        Some(current) => current.as_str().eq(wanted),
        None => false,
    }
}

/// Decides what is done about the mode that a session is to have.
pub fn configure_mode(wanted: Option<&str>, info: &SessionInfo) -> (step: ModeStep)
    ensures
        step@ == mode_step(
            found_text(wanted),
            maybe(info.current_mode),
            views(info.available_modes@),
        ),
{
    match wanted {
        None => ModeStep::Nothing,
        Some(mode) => if is_current(&info.current_mode, mode) {
            ModeStep::AlreadyActive(mode.to_owned())
        } else if info.available_modes.len() > 0 && !contains(&info.available_modes, mode) {
            ModeStep::Unavailable(mode.to_owned())
        } else {
            ModeStep::Change(mode.to_owned())
        },
    }
}

/// Where the first slash of a text is.
pub open spec fn first_slash(text: Seq<char>) -> Option<int>
    decreases text.len(),
{
    if text.len() == 0 {
        None
    } else if text[0] == '/' {
        Some(0)
    } else {
        match first_slash(text.drop_first()) {
            Some(i) => Some(i + 1),
            None => None,
        }
    }
}

/// The options that the name of a model sets. A name may have two parts, with a
/// slash between them: the model and the effort that it makes.
pub open spec fn model_options(model: Seq<char>) -> Seq<(Seq<char>, Seq<char>)> {
    match first_slash(model) {
        Some(i) => seq![
            ("model"@, model.take(i)),
            ("reasoning_effort"@, model.skip(i + 1)),
        ],
        None => seq![("model"@, model)],
    }
}

/// The models of options.
pub open spec fn option_views(options: Seq<(String, String)>) -> Seq<(Seq<char>, Seq<char>)> {
    Seq::new(options.len(), |i: int| (options[i].0@, options[i].1@))
}

proof fn lemma_first_slash(text: Seq<char>, i: int)
    requires
        0 <= i <= text.len(),
        forall|k: int| 0 <= k < i ==> text[k] != '/',
    ensures
        i < text.len() && text[i] == '/' ==> first_slash(text) == Some(i),
        i == text.len() ==> first_slash(text) is None,
    decreases text.len(),
{
    if i > 0 {
        let rest = text.drop_first();
        assert forall|k: int| 0 <= k < i - 1 implies rest[k] != '/' by {
            assert(rest[k] == text[k + 1]);
        }
        lemma_first_slash(rest, i - 1);
    }
}

/// Decides which options are set for the model that a session is to have, in
/// order; `None` where the agent uses that model already, or none is asked for.
pub fn configure_model(wanted: Option<&str>, info: &SessionInfo) -> (options: Option<
    Vec<(String, String)>,
>)
    ensures
        match (options, found_text(wanted)) {
            (Some(options), Some(model)) => maybe(info.current_model) != Some(model)
                && option_views(options@) == model_options(model),
            (None, Some(model)) => maybe(info.current_model) == Some(model),
            (None, None) => true,
            (Some(_), None) => false,
        },
{
    let model = match wanted {
        Some(model) => model,
        None => {
            return None;
        },
    };
    if is_current(&info.current_model, model) {
        return None;
    }
    let chars = chars_of(model);
    let mut options: Vec<(String, String)> = Vec::new();
    let end: usize = chars.len();
    for i in 0..end
        invariant
            end == chars@.len(),
            chars@ == model@,
            wanted == Some(model),
            maybe(info.current_model) != Some(model@),
            options@.len() == 0,
            forall|k: int| 0 <= k < i ==> chars@[k] != '/',
    {
        if chars[i] == '/' {
            let base = string_of(&chars, 0, i);
            let effort = string_of(&chars, i + 1, end);
            options.push(("model".to_owned(), base));
            options.push(("reasoning_effort".to_owned(), effort));
            proof {
                lemma_first_slash(chars@, i as int);
                assert(base@ =~= model@.take(i as int));
                assert(effort@ =~= model@.skip(i + 1));
                assert(option_views(options@) =~= model_options(model@));
            }
            return Some(options);
        }
    }
    options.push(("model".to_owned(), model.to_owned()));
    proof {
        lemma_first_slash(chars@, chars@.len() as int);
        assert(option_views(options@) =~= model_options(model@));
    }
    Some(options)
}

proof fn lemma_slash_found(text: Seq<char>)
    ensures
        match first_slash(text) {
            Some(i) => 0 <= i < text.len() && text[i] == '/' && forall|k: int|
                0 <= k < i ==> text[k] != '/',
            None => forall|k: int| 0 <= k < text.len() ==> text[k] != '/',
        },
    decreases text.len(),
{
    if text.len() > 0 && text[0] != '/' {
        let rest = text.drop_first();
        lemma_slash_found(rest);
        assert forall|k: int| 0 < k < text.len() implies text[k] == rest[k - 1] by {}
    }
}

/// The options of a model hold its whole name: the parts, put together with a
/// slash again, are the name, and the model part holds no slash.
pub proof fn law_model_options(model: Seq<char>)
    ensures
        model_options(model).len() == 2 ==> model_options(model)[0].1.push('/')
            + model_options(model)[1].1 == model,
        model_options(model).len() == 1 ==> model_options(model)[0].1 == model,
        model_options(model).len() == 1 || model_options(model).len() == 2,
        !model_options(model)[0].1.contains('/'),
{
    lemma_slash_found(model);
    match first_slash(model) {
        Some(i) => {
            assert(model.take(i).push('/') + model.skip(i + 1) =~= model);
        },
        None => {},
    }
}

/// The calls that set the options of a model.
pub open spec fn option_calls(
    session_id: Seq<char>,
    options: Seq<(Seq<char>, Seq<char>)>,
) -> Seq<Call<Seq<char>>> {
    Seq::new(
        options.len(),
        |i: int|
            Call::SetConfigOption { session_id, config_id: options[i].0, value: options[i].1 },
    )
}

/// The calls that set a session up: first the mode, where it is to be changed,
/// then the model, where the agent uses another one.
pub open spec fn setup_calls(
    session_id: Seq<char>,
    mode: ModeStep<Seq<char>>,
    model: Option<Seq<char>>,
    current_model: Option<Seq<char>>,
) -> Seq<Call<Seq<char>>> {
    let first = match mode {
        ModeStep::Change(mode) => seq![Call::SetMode { session_id, mode }],
        _ => Seq::empty(),
    };
    match model {
        Some(model) => if current_model == Some(model) {
            first
        } else {
            first + option_calls(session_id, model_options(model))
        },
        None => first,
    }
}

/// The models of calls.
pub open spec fn call_views(calls: Seq<Call>) -> Seq<Call<Seq<char>>> {
    Seq::new(calls.len(), |i: int| calls[i]@)
}

/// Decides which calls set a session up to have the mode and the model of its
/// record, in order.
pub fn configure(record: &SessionRecord, info: &SessionInfo) -> (calls: Vec<Call>)
    ensures
        call_views(calls@) == setup_calls(
            info.session_id@,
            mode_step(
                record@.config_mode,
                maybe(info.current_mode),
                views(info.available_modes@),
            ),
            record@.config_model,
            maybe(info.current_model),
        ),
{
    let mut calls: Vec<Call> = Vec::new();
    let wanted_mode = match &record.config_mode {
        Some(mode) => Some(mode.as_str()),
        None => None,
    };
    let wanted_model = match &record.config_model {
        Some(model) => Some(model.as_str()),
        None => None,
    };
    if let ModeStep::Change(mode) = configure_mode(wanted_mode, info) {
        calls.push(Call::SetMode { session_id: info.session_id.clone(), mode });
    }
    let ghost first = call_views(calls@);
    assert(first =~= setup_calls(
        info.session_id@,
        mode_step(record@.config_mode, maybe(info.current_mode), views(info.available_modes@)),
        None,
        maybe(info.current_model),
    ));
    if let Some(options) = configure_model(wanted_model, info) {
        let ghost all = option_calls(info.session_id@, option_views(options@));
        for i in 0..options.len()
            invariant
                all == option_calls(info.session_id@, option_views(options@)),
                call_views(calls@) == first + all.take(i as int),
        {
            let ghost before = calls@;
            calls.push(
                Call::SetConfigOption {
                    session_id: info.session_id.clone(),
                    config_id: options[i].0.clone(),
                    value: options[i].1.clone(),
                },
            );
            assert(call_views(calls@) =~= call_views(before).push(all[i as int]));
            assert(all.take(i + 1) =~= all.take(i as int).push(all[i as int]));
        }
        assert(all.take(all.len() as int) =~= all);
    }
    calls
}

/// What a call that sets a session up leaves where it fails: a warning, as an
/// agent may support neither modes nor options. `None` where the failure of the
/// call is the end of the session.
pub open spec fn tolerated(call: Call<Seq<char>>, error: Seq<char>) -> Option<Seq<char>> {
    match call {
        Call::SetMode { .. } => Some(
            "warning: set_mode failed (agent may not support it): "@ + error,
        ),
        Call::SetConfigOption { config_id, .. } => Some(
            "warning: set_config_option("@ + config_id + ") failed: "@ + error,
        ),
        Call::Initialize { .. } => None,
        Call::NewSession { .. } => None,
        Call::Prompt { .. } => None,
    }
}

/// The warning that a call leaves where it fails with the message `error`;
/// `None` where the failure is not tolerated.
pub fn tolerate(call: &Call, error: &str) -> (warning: Option<String>)
    ensures
        maybe(warning) == tolerated(call@, error@),
{
    match call {
        Call::SetMode { .. } => Some(
            "warning: set_mode failed (agent may not support it): ".to_owned().concat(error),
        ),
        Call::SetConfigOption { config_id, .. } => Some(
            "warning: set_config_option(".to_owned().concat(config_id.as_str()).concat(
                ") failed: ",
            ).concat(error),
        ),
        Call::Initialize { .. } => None,
        Call::NewSession { .. } => None,
        Call::Prompt { .. } => None,
    }
}

/// Setting a session up never fails: every call that it takes may fail, and
/// leaves a warning that tells why.
pub proof fn law_configuration_is_not_fatal(
    session_id: Seq<char>,
    mode: ModeStep<Seq<char>>,
    model: Option<Seq<char>>,
    current_model: Option<Seq<char>>,
    error: Seq<char>,
)
    ensures
        forall|i: int|
            0 <= i < setup_calls(session_id, mode, model, current_model).len() ==> (tolerated(
                #[trigger] setup_calls(session_id, mode, model, current_model)[i],
                error,
            ) matches Some(warning) && error.is_suffix_of(warning)),
{
    let calls = setup_calls(session_id, mode, model, current_model);
    assert forall|i: int| 0 <= i < calls.len() implies (tolerated(
        #[trigger] calls[i],
        error,
    ) matches Some(warning) && error.is_suffix_of(warning)) by {
        let warning = tolerated(calls[i], error)->0;
        assert(error =~= warning.subrange(warning.len() - error.len(), warning.len() as int));
    }
}

/// Why the owner of a session ends while no client asks for anything.
#[derive(PartialEq, Eq, Structural, Debug, Clone, Copy)]
pub enum ExitReason {
    /// It was told to end.
    Signal,
    /// No client came for too long.
    Idle,
    /// The agent has ended.
    AgentDied,
}

/// What the owner of a session learns.
#[derive(Debug, Clone, PartialEq, Eq)]
pub enum DaemonEvent {
    /// No client has come: whether it was told to end, how long ago the last
    /// client came, and whether the agent has ended.
    Quiet { shutdown: bool, idle_secs: u64, agent_dead: bool },
    /// A client came and asked for nothing.
    NoRequest,
    /// A client asks for something.
    Request(OwnerRequest),
    /// A turn has failed, and the agent may have ended.
    TurnFailed { agent_dead: bool },
}

/// What the owner of a session does.
#[derive(Debug, Clone, PartialEq, Eq)]
pub enum DaemonAction<T = String> {
    /// It waits a while and looks again.
    Pause,
    /// It waits for the next client.
    Listen,
    /// It tells the client the record of the session.
    Report,
    /// It runs a turn with the text of the client.
    RunTurn { text: T },
    /// It marks the session as ended, tells the client, and ends.
    Close,
    /// It marks the session as ended, and ends.
    Exit(ExitReason),
    /// It marks the session as ended by the failure of the turn, and ends.
    Die,
}

impl View for DaemonAction {
    type V = DaemonAction<Seq<char>>;

    open spec fn view(&self) -> DaemonAction<Seq<char>> {
        match self {
            DaemonAction::Pause => DaemonAction::Pause,
            DaemonAction::Listen => DaemonAction::Listen,
            DaemonAction::Report => DaemonAction::Report,
            DaemonAction::RunTurn { text } => DaemonAction::RunTurn { text: text@ },
            DaemonAction::Close => DaemonAction::Close,
            DaemonAction::Exit(reason) => DaemonAction::Exit(*reason),
            DaemonAction::Die => DaemonAction::Die,
        }
    }
}

/// What the owner of a session does about what it learns.
pub open spec fn daemon_action(event: DaemonEvent) -> DaemonAction<Seq<char>> {
    match event {
        DaemonEvent::Quiet { shutdown, idle_secs, agent_dead } => if shutdown {
            DaemonAction::Exit(ExitReason::Signal)
        } else if idle_secs >= IDLE_TIMEOUT_SECS {
            DaemonAction::Exit(ExitReason::Idle)
        } else if agent_dead {
            DaemonAction::Exit(ExitReason::AgentDied)
        } else {
            DaemonAction::Pause
        },
        DaemonEvent::NoRequest => DaemonAction::Listen,
        DaemonEvent::Request(OwnerRequest::Status) => DaemonAction::Report,
        DaemonEvent::Request(OwnerRequest::Prompt { text }) => DaemonAction::RunTurn {
            text: text@,
        },
        DaemonEvent::Request(OwnerRequest::Close) => DaemonAction::Close,
        DaemonEvent::TurnFailed { agent_dead } => if agent_dead {
            DaemonAction::Die
        } else {
            DaemonAction::Listen
        },
    }
}

/// Decides what the owner of a session does about what it learns.
pub fn run_session_daemon(event: DaemonEvent) -> (action: DaemonAction)
    ensures
        action@ == daemon_action(event),
{
    match event {
        DaemonEvent::Quiet { shutdown, idle_secs, agent_dead } => if shutdown {
            DaemonAction::Exit(ExitReason::Signal)
        } else if idle_secs >= IDLE_TIMEOUT_SECS {
            DaemonAction::Exit(ExitReason::Idle)
        } else if agent_dead {
            DaemonAction::Exit(ExitReason::AgentDied)
        } else {
            DaemonAction::Pause
        },
        DaemonEvent::NoRequest => DaemonAction::Listen,
        DaemonEvent::Request(OwnerRequest::Status) => DaemonAction::Report,
        DaemonEvent::Request(OwnerRequest::Prompt { text }) => DaemonAction::RunTurn { text },
        DaemonEvent::Request(OwnerRequest::Close) => DaemonAction::Close,
        DaemonEvent::TurnFailed { agent_dead } => if agent_dead {
            DaemonAction::Die
        } else {
            DaemonAction::Listen
        },
    }
}

/// What an action leaves of the record of the session. `failure` is the message
/// of the turn that has failed.
pub open spec fn record_after(
    record: RecordView,
    action: DaemonAction<Seq<char>>,
    failure: Seq<char>,
    now: Seq<char>,
) -> RecordView {
    match action {
        DaemonAction::Close | DaemonAction::Exit(_) => record.ended(now),
        DaemonAction::Die => record.ended_by(failure, now),
        _ => record,
    }
}

/// Whether the owner of a session ends after an action.
pub open spec fn ends(action: DaemonAction<Seq<char>>) -> bool {
    action is Close || action is Exit || action is Die
}

/// Whether the owner of a session ends after an action.
pub fn is_end(action: &DaemonAction) -> (answer: bool)
    ensures
        answer == ends(action@),
{
    matches!(action, DaemonAction::Close | DaemonAction::Exit(_) | DaemonAction::Die)
}

/// Notes in the record what an action comes to, and tells whether the owner of
/// the session ends.
pub fn settle(
    record: &mut SessionRecord,
    action: &DaemonAction,
    failure: &str,
    now: String,
) -> (exit: bool)
    ensures
        exit == ends(action@),
        final(record)@ == record_after(old(record)@, action@, failure@, now@),
{
    match action {
        DaemonAction::Close => {
            record.close(now);
            true
        },
        DaemonAction::Exit(_) => {
            record.close(now);
            true
        },
        DaemonAction::Die => {
            record.close_by(failure.to_owned(), now);
            true
        },
        _ => false,
    }
}

/// What the owner of a session says as it ends by itself.
pub open spec fn farewell(action: DaemonAction<Seq<char>>, failure: Seq<char>) -> Option<
    Seq<char>,
> {
    match action {
        DaemonAction::Exit(ExitReason::Signal) => Some(
            "received shutdown signal, daemon exiting cleanly"@,
        ),
        DaemonAction::Exit(ExitReason::Idle) => Some(
            "idle timeout ("@ + decimal(IDLE_TIMEOUT_SECS as nat) + "s), daemon exiting"@,
        ),
        DaemonAction::Exit(ExitReason::AgentDied) => Some("agent died while idle, daemon exiting"@),
        DaemonAction::Die => Some("agent is dead, daemon exiting: "@ + failure),
        _ => None,
    }
}

/// What the owner of a session says as it ends by itself.
pub fn say_farewell(action: &DaemonAction, failure: &str) -> (line: Option<String>)
    ensures
        maybe(line) == farewell(action@, failure@),
{
    match action {
        DaemonAction::Exit(ExitReason::Signal) => Some(
            "received shutdown signal, daemon exiting cleanly".to_owned(),
        ),
        DaemonAction::Exit(ExitReason::Idle) => Some(
            "idle timeout (".to_owned().concat(decimal_text(IDLE_TIMEOUT_SECS).as_str()).concat(
                "s), daemon exiting",
            ),
        ),
        DaemonAction::Exit(ExitReason::AgentDied) => Some(
            "agent died while idle, daemon exiting".to_owned(),
        ),
        DaemonAction::Die => Some("agent is dead, daemon exiting: ".to_owned().concat(failure)),
        _ => None,
    }
}

/// The owner of a session ends exactly where it is told to, by a signal or by a
/// client, where no client has come for too long, and where the agent has ended;
/// nothing else that it learns ends it.
pub proof fn law_owner_ends_for_a_reason(event: DaemonEvent)
    ensures
        ends(daemon_action(event)) <==> match event {
            DaemonEvent::Quiet { shutdown, idle_secs, agent_dead } => shutdown || idle_secs
                >= IDLE_TIMEOUT_SECS || agent_dead,
            DaemonEvent::NoRequest => false,
            DaemonEvent::Request(request) => request is Close,
            DaemonEvent::TurnFailed { agent_dead } => agent_dead,
        },
{
}

/// The owner of a session never ends without marking the session as ended, and
/// as long as it goes on it leaves the record as it is.
pub proof fn law_exit_closes_the_record(
    record: RecordView,
    action: DaemonAction<Seq<char>>,
    failure: Seq<char>,
    now: Seq<char>,
)
    ensures
        ends(action) ==> record_after(record, action, failure, now).closed,
        !ends(action) ==> record_after(record, action, failure, now) == record,
        action is Die ==> record_after(record, action, failure, now).death_reason == Some(failure),
{
}

/// The record of a session after a turn has failed: the failure is a turn of its
/// history, and one of the agent is told as the reason, too. The session itself
/// goes on.
pub open spec fn after_failure(
    record: RecordView,
    fault: Fault,
    message: Seq<char>,
    timestamp: Seq<char>,
    updated_at: Seq<char>,
) -> RecordView {
    let noted = record.with_turn(
        HistoryEntry { role: "error"@, text: message, timestamp },
        updated_at,
    );
    match fault {
        Fault::Agent => SessionRecord { death_reason: Some(message), ..noted },
        Fault::Elsewhere => noted,
    }
}

/// Notes in the record that a turn has failed.
pub fn record_failure(
    record: &mut SessionRecord,
    fault: Fault,
    message: &str,
    timestamp: String,
    updated_at: String,
)
    ensures
        final(record)@ == after_failure(
            old(record)@,
            fault,
            message@,
            timestamp@,
            updated_at@,
        ),
{
    append_history(record, "error", message, timestamp, updated_at);
    if let Fault::Agent = fault {
        record.death_reason = Some(message.to_owned());
    }
}

/// What the client is told of a turn that has failed.
pub open spec fn failure_told(message: Seq<char>) -> OwnerEventView {
    OwnerEvent::Error { message }
}

/// The event that tells the client that its turn has failed.
pub fn failure_event(message: &str) -> (event: OwnerEvent)
    ensures
        event@ == failure_told(message@),
{
    OwnerEvent::Error { message: message.to_owned() }
}

/// A turn that fails is told to the client, whose turn fails with the same
/// message, and is kept in the history, which leaves the last reply as it is. A
/// failure of the agent is kept as the reason as well, whether or not the agent
/// has ended. Where it has not, the session stays open as it was; where it has,
/// the failure is the reason for the end of the session, and whoever sends it
/// another prompt is told so.
pub proof fn law_failures_are_kept(
    session: Seq<char>,
    record: RecordView,
    fault: Fault,
    message: Seq<char>,
    stamp: Seq<char>,
    now: Seq<char>,
    json_mode: bool,
)
    ensures
        ({
            let entry: EntryView = HistoryEntry {
                role: "error"@,
                text: message,
                timestamp: stamp,
            };
            let failed = after_failure(record, fault, message, stamp, now);
            let alive = daemon_action(DaemonEvent::TurnFailed { agent_dead: false });
            let dead = daemon_action(DaemonEvent::TurnFailed { agent_dead: true });
            let end = record_after(failed, dead, message, now);
            &&& turn_after(failure_told(message), json_mode) == Turn::<
                Seq<char>,
                RecordView,
            >::Fail(message)
            &&& failed.history == record.history.push(entry)
            &&& failed.last_assistant == record.last_assistant
            &&& failed.closed == record.closed
            &&& record.wf() ==> failed.wf()
            &&& fault is Agent ==> failed.death_reason == Some(message)
            &&& fault is Elsewhere ==> failed.death_reason == record.death_reason
            &&& !ends(alive)
            &&& record_after(failed, alive, message, now) == failed
            &&& ends(dead)
            &&& end.history == failed.history
            &&& end.closed
            &&& end.death_reason == Some(message)
            &&& refusal(session, end) == Some(
                "session '"@ + session + "' is closed"@ + ": "@ + message,
            )
        }),
{
    reveal_strlit("error");
    reveal_strlit("assistant");
    assert("error"@.len() != "assistant"@.len());
    let entry: EntryView = HistoryEntry { role: "error"@, text: message, timestamp: stamp };
    assert(record.history.push(entry).drop_last() =~= record.history);
}

/// Why an owner ended that did not mark its session as ended.
pub open spec fn unexpected_end(exit_code: Option<i32>) -> Seq<char> {
    match exit_code {
        Some(code) => "daemon exited unexpectedly (exit code "@ + signed_decimal(code as int)
            + ")"@,
        None => "daemon killed by signal"@,
    }
}

/// The record of a session after its owner has ended.
pub open spec fn guarded(record: RecordView, exit_code: Option<i32>, now: Seq<char>) -> RecordView {
    if record.closed {
        record
    } else {
        record.ended_by(unexpected_end(exit_code), now)
    }
}

/// Looks at the record of a session after its owner has ended: where it does not
/// say that the session has ended, it is marked so, with the reason, which is
/// told.
pub fn run_session_guardian(
    record: &mut SessionRecord,
    exit_code: Option<i32>,
    now: String,
) -> (reason: Option<String>)
    ensures
        maybe(reason) == if old(record)@.closed {
            None
        } else {
            Some(unexpected_end(exit_code))
        },
        final(record)@ == guarded(old(record)@, exit_code, now@),
{
    if record.closed {
        return None;
    }
    let reason = match exit_code {
        Some(code) => "daemon exited unexpectedly (exit code ".to_owned().concat(
            signed_decimal_text(code as i64).as_str(),
        ).concat(")"),
        None => "daemon killed by signal".to_owned(),
    };
    record.close_by(reason.clone(), now);
    Some(reason)
}

/// However the owner of a session ends, the record says afterwards that the
/// session has ended. What the owner itself has noted is left as it is; where it
/// has noted nothing, there is a reason.
pub proof fn law_every_end_is_noted(record: RecordView, exit_code: Option<i32>, now: Seq<char>)
    ensures
        ({
            let after = guarded(record, exit_code, now);
            &&& after.closed
            &&& record.closed ==> after == record
            &&& !record.closed ==> after.death_reason == Some(unexpected_end(exit_code))
            &&& after.history == record.history
            &&& after.last_assistant == record.last_assistant
        }),
{
}

/// The mode of a session is set exactly where one is asked for that the agent is
/// not in, and that it offers or does not tell; it is the mode that was asked for.
pub proof fn law_when_the_mode_is_set(
    wanted: Option<Seq<char>>,
    current: Option<Seq<char>>,
    offered: Seq<Seq<char>>,
    mode: Seq<char>,
)
    ensures
        mode_step(wanted, current, offered) == ModeStep::Change(mode) <==> wanted == Some(mode)
            && current != Some(mode) && (offered.len() == 0 || offered.contains(mode)),
        mode_step(wanted, current, offered) == ModeStep::AlreadyActive(mode) <==> wanted == Some(
            mode,
        ) && current == Some(mode),
        mode_step(wanted, current, offered) == ModeStep::Unavailable(mode) <==> wanted == Some(mode)
            && current != Some(mode) && offered.len() > 0 && !offered.contains(mode),
        mode_step(wanted, current, offered) is Nothing <==> wanted is None,
{
}

/// The name of a model without a slash is the model. A name with one is the model
/// before the first slash and the effort after it, both as they are.
pub proof fn law_model_parts(model: Seq<char>, base: Seq<char>, effort: Seq<char>)
    ensures
        !model.contains('/') ==> model_options(model) == seq![("model"@, model)],
        !base.contains('/') ==> model_options(base + seq!['/'] + effort) == seq![
            ("model"@, base),
            ("reasoning_effort"@, effort),
        ],
{
    if !model.contains('/') {
        lemma_first_slash(model, model.len() as int);
    }
    if !base.contains('/') {
        let whole = base + seq!['/'] + effort;
        assert forall|k: int| 0 <= k < base.len() implies whole[k] != '/' by {
            assert(whole[k] == base[k]);
        }
        lemma_first_slash(whole, base.len() as int);
        assert(whole.take(base.len() as int) =~= base);
        assert(whole.skip(base.len() as int + 1) =~= effort);
    }
}

/// The calls that set a session up are one for the mode, where it is to be set,
/// and then those for the model, where one is asked for that the agent does not
/// use: the two do not depend on each other. They name the session.
pub proof fn law_setup(
    session_id: Seq<char>,
    wanted: Option<Seq<char>>,
    current: Option<Seq<char>>,
    offered: Seq<Seq<char>>,
    mode: Seq<char>,
    model: Seq<char>,
    current_model: Option<Seq<char>>,
    base: Seq<char>,
    effort: Seq<char>,
)
    ensures
        ({
            let sets_mode = wanted == Some(mode) && current != Some(mode) && (offered.len() == 0
                || offered.contains(mode));
            let no_mode = wanted is None || current == wanted || (offered.len() > 0
                && !offered.contains(wanted->0));
            let step = mode_step(wanted, current, offered);
            let without = setup_calls(session_id, step, None, current_model);
            let calls = setup_calls(session_id, step, Some(model), current_model);
            &&& sets_mode ==> without == seq![Call::SetMode { session_id, mode }]
            &&& no_mode ==> without == Seq::<Call<Seq<char>>>::empty()
            &&& current_model == Some(model) ==> calls == without
            &&& current_model != Some(model) && !model.contains('/') ==> calls == without + seq![
                Call::SetConfigOption { session_id, config_id: "model"@, value: model },
            ]
            &&& current_model != Some(model) && model == base + seq!['/'] + effort
                && !base.contains('/') ==> calls == without + seq![
                Call::SetConfigOption { session_id, config_id: "model"@, value: base },
                Call::SetConfigOption { session_id, config_id: "reasoning_effort"@, value: effort },
            ]
        }),
{
    law_model_parts(model, base, effort);
    let step = mode_step(wanted, current, offered);
    let without = setup_calls(session_id, step, None, current_model);
    let calls = setup_calls(session_id, step, Some(model), current_model);
    if current_model != Some(model) && !model.contains('/') {
        assert(calls =~= without + seq![
            Call::SetConfigOption { session_id, config_id: "model"@, value: model },
        ]);
    }
    if current_model != Some(model) && model == base + seq!['/'] + effort && !base.contains('/') {
        assert(calls =~= without + seq![
            Call::SetConfigOption { session_id, config_id: "model"@, value: base },
            Call::SetConfigOption { session_id, config_id: "reasoning_effort"@, value: effort },
        ]);
    }
}

/// The models of lists of options and of calls are those of their items, in order.
pub proof fn law_list_models(options: Seq<(String, String)>, calls: Seq<Call>, i: int)
    ensures
        option_views(options).len() == options.len(),
        0 <= i < options.len() ==> option_views(options)[i].0 == options[i].0@ && option_views(
            options,
        )[i].1 == options[i].1@,
        call_views(calls).len() == calls.len(),
        0 <= i < calls.len() ==> call_views(calls)[i] == calls[i]@,
{
}

/// The warning for a call that sets a session up tells which call it was and the
/// whole failure; the failure of any other call is not tolerated.
pub proof fn law_warnings(
    session_id: Seq<char>,
    config_id: Seq<char>,
    value: Seq<char>,
    error: Seq<char>,
)
    ensures
        tolerated(Call::SetMode { session_id, mode: value }, error) == Some(
            "warning: set_mode failed (agent may not support it): "@ + error,
        ),
        tolerated(Call::SetConfigOption { session_id, config_id, value }, error) == Some(
            "warning: set_config_option("@ + config_id + ") failed: "@ + error,
        ),
        tolerated(Call::Initialize { version: value }, error) is None,
        tolerated(Call::NewSession { cwd: value }, error) is None,
        tolerated(Call::Prompt { session_id, text: value }, error) is None,
{
}

/// Every request of a client is done, and as it was asked: the record is told, a
/// turn is run with the whole text, the session is ended. While no client comes, a
/// signal goes before the time that has passed, and that before the end of the
/// agent.
pub proof fn law_requests_of_clients(
    text: String,
    idle_secs: u64,
    agent_dead: bool,
    shutdown: bool,
)
    ensures
        daemon_action(DaemonEvent::Request(OwnerRequest::Status)) is Report,
        daemon_action(DaemonEvent::Request(OwnerRequest::Prompt { text })) == (
        DaemonAction::RunTurn { text: text@ }),
        daemon_action(DaemonEvent::Request(OwnerRequest::Close)) is Close,
        daemon_action(DaemonEvent::NoRequest) is Listen,
        daemon_action(DaemonEvent::TurnFailed { agent_dead: false }) is Listen,
        daemon_action(DaemonEvent::TurnFailed { agent_dead: true }) is Die,
        daemon_action(DaemonEvent::Quiet { shutdown: true, idle_secs, agent_dead })
            == DaemonAction::<Seq<char>>::Exit(ExitReason::Signal),
        idle_secs >= 1800 ==> daemon_action(
            DaemonEvent::Quiet { shutdown: false, idle_secs, agent_dead },
        ) == DaemonAction::<Seq<char>>::Exit(ExitReason::Idle),
        idle_secs < 1800 ==> daemon_action(
            DaemonEvent::Quiet { shutdown: false, idle_secs, agent_dead: true },
        ) == DaemonAction::<Seq<char>>::Exit(ExitReason::AgentDied),
        idle_secs < 1800 ==> daemon_action(
            DaemonEvent::Quiet { shutdown: false, idle_secs, agent_dead: false },
        ) is Pause,
{
}

/// The owner of a session ends with the three actions that say so and with no
/// other. Of the record an end changes that it has ended and when, and the failure
/// of a turn that ends the session is its reason; nothing else is changed.
pub proof fn law_what_an_end_changes(
    record: RecordView,
    text: Seq<char>,
    reason: ExitReason,
    failure: Seq<char>,
    now: Seq<char>,
)
    ensures
        ends(DaemonAction::<Seq<char>>::Close),
        ends(DaemonAction::<Seq<char>>::Exit(reason)),
        ends(DaemonAction::<Seq<char>>::Die),
        !ends(DaemonAction::<Seq<char>>::Pause),
        !ends(DaemonAction::<Seq<char>>::Listen),
        !ends(DaemonAction::<Seq<char>>::Report),
        !ends(DaemonAction::RunTurn { text }),
        record_after(record, DaemonAction::Close, failure, now) == (SessionRecord {
            closed: true,
            updated_at: now,
            ..record
        }),
        record_after(record, DaemonAction::Exit(reason), failure, now) == (SessionRecord {
            closed: true,
            updated_at: now,
            ..record
        }),
        record_after(record, DaemonAction::Die, failure, now) == (SessionRecord {
            closed: true,
            updated_at: now,
            death_reason: Some(failure),
            ..record
        }),
{
}

/// As it ends by itself, the owner of a session says why, and nothing where a
/// client has asked for it.
pub proof fn law_farewells(failure: Seq<char>)
    ensures
        farewell(DaemonAction::Die, failure) == Some("agent is dead, daemon exiting: "@ + failure),
        farewell(DaemonAction::Exit(ExitReason::Signal), failure) == Some(
            "received shutdown signal, daemon exiting cleanly"@,
        ),
        farewell(DaemonAction::Exit(ExitReason::AgentDied), failure) == Some(
            "agent died while idle, daemon exiting"@,
        ),
        farewell(DaemonAction::Exit(ExitReason::Idle), failure) == Some(
            "idle timeout ("@ + decimal(1800) + "s), daemon exiting"@,
        ),
        farewell(DaemonAction::Close, failure) is None,
{
}

/// A turn that fails changes the history, the time of the change and, where the
/// agent failed, the reason; the rest of the record is left.
pub proof fn law_failure_keeps_the_rest(
    record: RecordView,
    fault: Fault,
    message: Seq<char>,
    stamp: Seq<char>,
    now: Seq<char>,
)
    ensures
        record == (SessionRecord {
            history: record.history,
            updated_at: record.updated_at,
            death_reason: record.death_reason,
            ..after_failure(record, fault, message, stamp, now)
        }),
        after_failure(record, fault, message, stamp, now).updated_at == now,
        failure_told(message) is Error && failure_told(message)->message == message,
{
    reveal_strlit("error");
    reveal_strlit("assistant");
    assert("error"@.len() != "assistant"@.len());
}

/// An owner that ended without marking its session as ended leaves its exit code as
/// the reason, or that it was killed where there is none.
pub proof fn law_unexpected_ends(record: RecordView, code: i32, now: Seq<char>)
    ensures
        unexpected_end(Some(code)) == "daemon exited unexpectedly (exit code "@ + signed_decimal(
            code as int,
        ) + ")"@,
        unexpected_end(None) == "daemon killed by signal"@,
        record.closed ==> guarded(record, Some(code), now) == record && guarded(record, None, now)
            == record,
        !record.closed ==> guarded(record, Some(code), now) == (SessionRecord {
            closed: true,
            updated_at: now,
            death_reason: Some(unexpected_end(Some(code))),
            ..record
        }) && guarded(record, None, now) == (SessionRecord {
            closed: true,
            updated_at: now,
            death_reason: Some(unexpected_end(None)),
            ..record
        }),
{
}

/// The models of steps and of actions keep every text of them.
pub proof fn law_owner_models(step: ModeStep, action: DaemonAction)
    ensures
        match step {
            ModeStep::Nothing => step@ is Nothing,
            ModeStep::AlreadyActive(mode) => step@ == ModeStep::AlreadyActive(mode@),
            ModeStep::Unavailable(mode) => step@ == ModeStep::Unavailable(mode@),
            ModeStep::Change(mode) => step@ == ModeStep::Change(mode@),
        },
        match action {
            DaemonAction::Pause => action@ is Pause,
            DaemonAction::Listen => action@ is Listen,
            DaemonAction::Report => action@ is Report,
            DaemonAction::RunTurn { text } => action@ == (DaemonAction::RunTurn { text: text@ }),
            DaemonAction::Close => action@ is Close,
            DaemonAction::Exit(reason) => action@ == DaemonAction::<Seq<char>>::Exit(reason),
            DaemonAction::Die => action@ is Die,
        },
{
}

} // verus!
