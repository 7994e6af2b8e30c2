//! Cleaning up: sessions whose owner is gone, old records, large and old logs,
//! and sockets that belong to nobody.
use vstd::prelude::*;
use vstd::string::*;

use crate::record::{maybe, maybe_record, RecordView, SessionRecord};
use crate::text::{decimal, decimal_text};

verus! {

/// How long the record of a session that has ended is kept, in days.
pub const MAX_SESSION_AGE_DAYS: u64 = 14;

/// How long the log of a session that has ended is kept, in days.
pub const MAX_LOG_AGE_DAYS: u64 = 7;

/// How large a log may grow, in bytes.
pub const MAX_LOG_SIZE: u64 = 524_288_000;

/// How much is kept of a log that has grown too large, in bytes.
pub const LOG_TAIL_KEEP: u64 = 10_485_760;

/// The bytes of a megabyte.
pub const MEGABYTE: u64 = 1_048_576;

/// The seconds of a day.
pub const DAY_SECS: u64 = 86_400;

/// What a user asks of a cleanup.
#[derive(Debug, Clone, PartialEq, Eq)]
pub struct CleanupArgs {
    pub max_session_age_days: Option<u64>,
    pub max_log_age_days: Option<u64>,
    pub max_log_size_mb: Option<u64>,
    /// Without it nothing is changed.
    pub force: bool,
}

/// Something that is to be cleaned up: the line that tells of it, and whether it
/// is to be done or only told.
#[derive(Debug, Clone, PartialEq, Eq)]
pub struct Finding<T = String> {
    pub line: T,
    pub apply: bool,
}

/// The model of a finding that may be missing.
pub open spec fn finding(found: Option<Finding>) -> Option<Finding<Seq<char>>> {
    match found {
        Some(found) => Some(Finding { line: found.line@, apply: found.apply }),
        None => None,
    }
}

/// A cleanup: its limits, and how many things it has found.
#[derive(Debug, Clone, PartialEq, Eq)]
pub struct Cleanup {
    pub max_session_age: u64,
    pub max_log_age: u64,
    pub max_log_size: u64,
    pub dry_run: bool,
    pub cleaned: u32,
}

/// The number, or the default where there is none.
pub open spec fn or_number(n: Option<u64>, default: u64) -> u64 {
    match n {
        Some(n) => n,
        None => default,
    }
}

/// The process number of an owner as a line shows it.
pub open spec fn pid_text(pid: Option<u32>) -> Seq<char> {
    match pid {
        Some(pid) => "Some("@ + decimal(pid as nat) + ")"@,
        None => "None"@,
    }
}

fn show_pid(pid: Option<u32>) -> (text: String)
    ensures
        text@ == pid_text(pid),
{
    match pid {
        Some(pid) => "Some(".to_owned().concat(decimal_text(pid as u64).as_str()).concat(")"),
        None => "None".to_owned(),
    }
}

/// The owner of a session is gone and its record does not say so.
pub open spec fn reapable(record: RecordView, pid_alive: bool) -> bool {
    !record.closed && !pid_alive
}

/// The record of a session that has ended is old.
pub open spec fn prunable(record: RecordView, age_secs: u64, max_days: u64) -> bool {
    record.closed && age_secs / DAY_SECS >= max_days
}

/// A log is old, and its session has ended or has no record.
pub open spec fn deletable(record: Option<RecordView>, age_secs: u64, max_days: u64) -> bool {
    age_secs / DAY_SECS >= max_days && orphaned(record)
}

/// A session has ended or has no record.
pub open spec fn orphaned(record: Option<RecordView>) -> bool {
    match record {
        Some(record) => record.closed,
        None => true,
    }
}

impl Cleanup {
    /// The cleanup with one more finding counted, where there is one.
    pub open spec fn counted(self, found: bool) -> Cleanup {
        if found {
            Cleanup { cleaned: (self.cleaned + 1) as u32, ..self }
        } else {
            self
        }
    }

    /// The finding, to be done unless nothing is to be changed.
    pub open spec fn told(self, found: bool, line: Seq<char>) -> Option<Finding<Seq<char>>> {
        if found {
            Some(Finding { line, apply: !self.dry_run })
        } else {
            None
        }
    }

    /// A cleanup that has found nothing yet. What a user does not ask for has
    /// its default.
    pub fn new(args: &CleanupArgs) -> (cleanup: Cleanup)
        requires
            args.max_log_size_mb matches Some(mb) ==> mb * MEGABYTE <= u64::MAX,
        ensures
            cleanup == (Cleanup {
                max_session_age: or_number(args.max_session_age_days, MAX_SESSION_AGE_DAYS),
                max_log_age: or_number(args.max_log_age_days, MAX_LOG_AGE_DAYS),
                max_log_size: match args.max_log_size_mb {
                    Some(mb) => (mb * MEGABYTE) as u64,
                    None => MAX_LOG_SIZE,
                },
                dry_run: !args.force,
                cleaned: 0,
            }),
    {
        Cleanup {
            max_session_age: match args.max_session_age_days {
                Some(days) => days,
                None => MAX_SESSION_AGE_DAYS,
            },
            max_log_age: match args.max_log_age_days {
                Some(days) => days,
                None => MAX_LOG_AGE_DAYS,
            },
            max_log_size: match args.max_log_size_mb {
                Some(mb) => mb * MEGABYTE,
                None => MAX_LOG_SIZE,
            },
            dry_run: !args.force,
            cleaned: 0,
        }
    }

    fn find(&mut self, line: String) -> (found: Option<Finding>)
        requires
            old(self).cleaned < u32::MAX,
        ensures
            finding(found) == old(self).told(true, line@),
            *final(self) == old(self).counted(true),
    {
        self.cleaned = self.cleaned + 1;
        Some(Finding { line, apply: !self.dry_run })
    }

    /// Looks at a record: its session is to be marked as ended, and its socket
    /// removed, where its owner is gone.
    pub fn reap(&mut self, record: &SessionRecord, pid_alive: bool) -> (found: Option<Finding>)
        requires
            old(self).cleaned < u32::MAX,
        ensures
            finding(found) == old(self).told(
                reapable(record@, pid_alive),
                "reap: "@ + record.name@ + " (pid="@ + pid_text(record.pid) + ", daemon dead)"@,
            ),
            *final(self) == old(self).counted(reapable(record@, pid_alive)),
    {
        if record.closed || pid_alive {
            return None;
        }
        self.find(
            "reap: ".to_owned().concat(record.name.as_str()).concat(" (pid=").concat(
                show_pid(record.pid).as_str(),
            ).concat(", daemon dead)"),
        )
    }

    /// Looks at a record: its file is to be removed where the session has ended
    /// and the file has not been changed for long.
    pub fn prune(&mut self, record: &SessionRecord, age_secs: u64) -> (found: Option<Finding>)
        requires
            old(self).cleaned < u32::MAX,
        ensures
            finding(found) == old(self).told(
                prunable(record@, age_secs, old(self).max_session_age),
                "prune: session record "@ + record.name@ + " ("@ + decimal(
                    (age_secs / DAY_SECS) as nat,
                ) + "d old)"@,
            ),
            *final(self) == old(self).counted(
                prunable(record@, age_secs, old(self).max_session_age),
            ),
    {
        let age_days: u64 = age_secs / DAY_SECS;
        if !record.closed || age_days < self.max_session_age {
            return None;
        }
        self.find(
            "prune: session record ".to_owned().concat(record.name.as_str()).concat(" (").concat(
                decimal_text(age_days).as_str(),
            ).concat("d old)"),
        )
    }

    /// Looks at a log: it is to be shortened where it has grown too large.
    pub fn truncate(&mut self, file_name: &str, size: u64) -> (found: Option<Finding>)
        requires
            old(self).cleaned < u32::MAX,
        ensures
            finding(found) == old(self).told(
                size > old(self).max_log_size,
                "truncate: "@ + file_name@ + " ("@ + decimal((size / MEGABYTE) as nat) + "MB > "@
                    + decimal((old(self).max_log_size / MEGABYTE) as nat) + "MB)"@,
            ),
            *final(self) == old(self).counted(size > old(self).max_log_size),
    {
        if size <= self.max_log_size {
            return None;
        }
        self.find(
            "truncate: ".to_owned().concat(file_name).concat(" (").concat(
                decimal_text(size / MEGABYTE).as_str(),
            ).concat("MB > ").concat(decimal_text(self.max_log_size / MEGABYTE).as_str()).concat(
                "MB)",
            ),
        )
    }

    /// Looks at a log: it is to be removed where it has not been changed for
    /// long and its session has ended or has no record.
    pub fn delete_log(
        &mut self,
        file_name: &str,
        age_secs: u64,
        record: Option<&SessionRecord>,
    ) -> (found: Option<Finding>)
        requires
            old(self).cleaned < u32::MAX,
        ensures
            finding(found) == old(self).told(
                deletable(maybe_record(record), age_secs, old(self).max_log_age),
                "delete: log "@ + file_name@ + " ("@ + decimal((age_secs / DAY_SECS) as nat)
                    + "d old)"@,
            ),
            *final(self) == old(self).counted(
                deletable(maybe_record(record), age_secs, old(self).max_log_age),
            ),
    {
        let age_days: u64 = age_secs / DAY_SECS;
        if age_days < self.max_log_age || !is_orphaned(record) {
            return None;
        }
        self.find(
            "delete: log ".to_owned().concat(file_name).concat(" (").concat(
                decimal_text(age_days).as_str(),
            ).concat("d old)"),
        )
    }

    /// Looks at a socket: it is to be removed where its session has ended or has
    /// no record.
    pub fn remove_socket(&mut self, file_name: &str, record: Option<&SessionRecord>) -> (found:
        Option<Finding>)
        requires
            old(self).cleaned < u32::MAX,
        ensures
            finding(found) == old(self).told(
                orphaned(maybe_record(record)),
                "remove: orphan socket "@ + file_name@,
            ),
            *final(self) == old(self).counted(orphaned(maybe_record(record))),
    {
        if !is_orphaned(record) {
            return None;
        }
        self.find("remove: orphan socket ".to_owned().concat(file_name))
    }

    /// The line that tells, before anything else, that nothing will be changed.
    pub fn notice(&self) -> (line: Option<String>)
        ensures
            maybe(line) == if self.dry_run {
                Some("dry-run mode (use --force to apply changes)"@)
            } else {
                None
            },
    {
        if self.dry_run {
            Some("dry-run mode (use --force to apply changes)".to_owned())
        } else {
            None
        }
    }

    /// The line that tells how many things were found.
    pub fn summary(&self) -> (line: String)
        ensures
            line@ == decimal(self.cleaned as nat) + " items "@ + if self.dry_run {
                "would be cleaned"@
            } else {
                "cleaned"@
            },
    {
        let line = decimal_text(self.cleaned as u64).concat(" items ");
        if self.dry_run {
            line.concat("would be cleaned")
        } else {
            line.concat("cleaned")
        }
    }
}

fn is_orphaned(record: Option<&SessionRecord>) -> (answer: bool)
    ensures
        answer == orphaned(maybe_record(record)),
{
    match record {
        Some(record) => record.closed,
        None => true,
    }
}

/// Without `force` nothing is changed: whatever is found is only told.
pub proof fn law_dry_run_changes_nothing(cleanup: Cleanup, found: bool, line: Seq<char>)
    requires
        cleanup.dry_run,
    ensures
        cleanup.told(found, line) matches Some(finding) ==> !finding.apply,
        cleanup.counted(found).dry_run,
{
}

/// A session that is running is left alone: its record is neither marked nor
/// removed, and its log and its socket stay.
pub proof fn law_running_sessions_are_left_alone(
    record: RecordView,
    age_secs: u64,
    max_session_days: u64,
    max_log_days: u64,
)
    requires
        !record.closed,
    ensures
        !reapable(record, true),
        !prunable(record, age_secs, max_session_days),
        !deletable(Some(record), age_secs, max_log_days),
        !orphaned(Some(record)),
{
}

/// A session that has been marked as ended is not marked again, and its socket
/// is then free to be removed.
pub proof fn law_reaped_once(record: RecordView, pid_alive: bool, now: Seq<char>)
    ensures
        !reapable(record.ended(now), pid_alive),
        orphaned(Some(record.ended(now))),
{
}

/// For every limit of so many days, the record of a session that has ended is
/// pruned, and the log of a session that has ended or has no record is deleted,
/// exactly where it is at least so many whole days old: at that many times 86400
/// seconds, and not at one second less.
pub proof fn law_age_limits(record: RecordView, age_secs: u64, days: u64)
    ensures
        prunable(record, age_secs, days) <==> record.closed && age_secs >= days * 86400,
        deletable(None, age_secs, days) <==> age_secs >= days * 86400,
        deletable(Some(record), age_secs, days) <==> record.closed && age_secs >= days * 86400,
{
    assert(age_secs / DAY_SECS >= days <==> age_secs >= days * 86400);
}

/// A session is reaped exactly where it has not ended and its owner is gone, and a
/// socket belongs to nobody exactly where its session has ended or has no record.
pub proof fn law_who_is_gone(record: RecordView, pid_alive: bool)
    ensures
        reapable(record, pid_alive) <==> !record.closed && !pid_alive,
        orphaned(Some(record)) <==> record.closed,
        orphaned(None),
{
}

/// The limits of a user count wherever they are given.
pub proof fn law_limits_of_the_user(n: u64, default: u64)
    ensures
        or_number(Some(n), default) == n,
        or_number(None, default) == default,
{
}

/// What is found is told by its line and counted once, and is done unless nothing
/// is to be changed; what is not found is neither. The limits stay as they are.
pub proof fn law_findings(cleanup: Cleanup, line: Seq<char>, pid: u32)
    requires
        cleanup.cleaned < u32::MAX,
    ensures
        cleanup.told(true, line) == Some(Finding { line, apply: !cleanup.dry_run }),
        cleanup.told(false, line) is None,
        cleanup.counted(false) == cleanup,
        cleanup.counted(true).cleaned == cleanup.cleaned + 1,
        cleanup == (Cleanup { cleaned: cleanup.cleaned, ..cleanup.counted(true) }),
        pid_text(None) == "None"@,
        pid_text(Some(pid)) == "Some("@ + decimal(pid as nat) + ")"@,
{
}

/// A finding that may be missing is there in its model exactly where it is there,
/// and is the same.
pub proof fn law_finding_model(found: Option<Finding>)
    ensures
        found is None ==> finding(found) is None,
        found matches Some(f) ==> (finding(found) matches Some(view) && view.line == f.line@
            && view.apply == f.apply),
{
}

} // verus!
