//! What the details panel shows of a group or a task.

use vstd::prelude::*;
use vstd::string::*;
use vstd::utf8::{decode_utf8, encode_utf8, encode_utf8_decode_utf8, is_char_boundary};

use crate::state::{Snapshot, TaskResult, TaskStatus, TaskView};
use crate::text::{decimal, decimal_signed, digits, join, same_text, signed_digits};

verus! {

/// A span of time in the short form of the panel: hours, minutes and
/// seconds, of which the leading ones are left out while they are zero. A
/// negative span shows only what is left over of it beyond whole minutes.
pub open spec fn duration_text(seconds: int) -> Seq<char> {
    if seconds < 0 {
        let over = (-seconds) % 60;
        if over == 0 {
            digits(0) + seq!['s']
        } else {
            seq!['-'] + digits(over as nat) + seq!['s']
        }
    } else {
        let hours = seconds / 3600;
        let minutes = (seconds % 3600) / 60;
        let secs = seconds % 60;
        if hours > 0 {
            digits(hours as nat) + seq!['h', ' '] + digits(minutes as nat) + seq!['m', ' '] + digits(
                secs as nat,
            ) + seq!['s']
        } else if minutes > 0 {
            digits(minutes as nat) + seq!['m', ' '] + digits(secs as nat) + seq!['s']
        } else {
            digits(secs as nat) + seq!['s']
        }
    }
}

/// Writes a span of `seconds` seconds in the short form of the panel.
pub fn format_duration(seconds: i64) -> (text: String)
    ensures
        text@ == duration_text(seconds as int),
{
    proof {
        reveal_strlit("-");
        reveal_strlit("s");
        reveal_strlit("h ");
        reveal_strlit("m ");
    }
    if seconds < 0 {
        let below: u64 = if seconds == i64::MIN {
            9223372036854775808u64
        } else {
            (-seconds) as u64
        };
        let over: u64 = below % 60;
        if over == 0 {
            let text = join(decimal(0).as_str(), "s");
            assert(text@ =~= duration_text(seconds as int));
            text
        } else {
            let mut text = String::from_str("-");
            text.append(decimal(over).as_str());
            text.append("s");
            assert(text@ =~= duration_text(seconds as int));
            text
        }
    } else {
        let total: u64 = seconds as u64;
        let hours: u64 = total / 3600;
        let minutes: u64 = (total % 3600) / 60;
        let secs: u64 = total % 60;
        let mut text = String::new();
        if hours > 0 {
            text.append(decimal(hours).as_str());
            text.append("h ");
            text.append(decimal(minutes).as_str());
            text.append("m ");
        } else if minutes > 0 {
            text.append(decimal(minutes).as_str());
            text.append("m ");
        }
        text.append(decimal(secs).as_str());
        text.append("s");
        assert(text@ =~= duration_text(seconds as int));
        text
    }
}

/// How many tasks of a group there are in each status.
#[derive(Debug, Clone, Copy, PartialEq, Eq, Structural)]
pub struct GroupSummary {
    pub total: usize,
    pub running: usize,
    pub queued: usize,
    pub paused: usize,
    pub stashed: usize,
    pub done: usize,
}

/// The kinds of status that the panel counts.
#[derive(Debug, Clone, Copy, PartialEq, Eq, Structural)]
pub enum StatusKind {
    Locked,
    Stashed,
    Queued,
    Running,
    Paused,
    Done,
}

/// The kind of a status.
pub open spec fn kind_of(status: TaskStatus) -> StatusKind {
    match status {
        TaskStatus::Locked => StatusKind::Locked,
        TaskStatus::Stashed => StatusKind::Stashed,
        TaskStatus::Queued => StatusKind::Queued,
        TaskStatus::Running { .. } => StatusKind::Running,
        TaskStatus::Paused { .. } => StatusKind::Paused,
        TaskStatus::Done { .. } => StatusKind::Done,
    }
}

/// The number of tasks of `group`; with a kind, of those of that kind only.
pub open spec fn count_tasks(tasks: Seq<TaskView>, group: Seq<char>, kind: Option<StatusKind>) -> nat
    decreases tasks.len(),
{
    if tasks.len() == 0 {
        0
    } else {
        let last = tasks.last();
        let counts = last.group == group && (kind is None || kind == Some(kind_of(last.status)));
        count_tasks(tasks.drop_last(), group, kind) + if counts {
            1nat
        } else {
            0nat
        }
    }
}

/// The counts of the tasks of `group`, by status.
pub open spec fn summary_of(tasks: Seq<TaskView>, group: Seq<char>) -> GroupSummary {
    GroupSummary {
        total: count_tasks(tasks, group, None) as usize,
        running: count_tasks(tasks, group, Some(StatusKind::Running)) as usize,
        queued: count_tasks(tasks, group, Some(StatusKind::Queued)) as usize,
        paused: count_tasks(tasks, group, Some(StatusKind::Paused)) as usize,
        stashed: count_tasks(tasks, group, Some(StatusKind::Stashed)) as usize,
        done: count_tasks(tasks, group, Some(StatusKind::Done)) as usize,
    }
}

/// No more tasks are counted than there are.
pub proof fn lemma_count_bounded(tasks: Seq<TaskView>, group: Seq<char>, kind: Option<StatusKind>)
    ensures
        count_tasks(tasks, group, kind) <= tasks.len(),
    decreases tasks.len(),
{
    if tasks.len() > 0 {
        lemma_count_bounded(tasks.drop_last(), group, kind);
    }
}

/// Counts the tasks of `group` in the snapshot, by status.
pub fn summarize(snapshot: &Snapshot, group: &str) -> (summary: GroupSummary)
    ensures
        summary == summary_of(snapshot@.tasks, group@),
{
    let tasks = snapshot.tasks();
    let ghost all = snapshot@.tasks;
    let mut summary = GroupSummary {
        total: 0,
        running: 0,
        queued: 0,
        paused: 0,
        stashed: 0,
        done: 0,
    };
    let mut i: usize = 0;
    assert(all.subrange(0, 0) =~= Seq::empty());
    while i < tasks.len()
        invariant
            i <= tasks.len(),
            all == tasks.deep_view(),
            summary.total == count_tasks(all.subrange(0, i as int), group@, None),
            summary.running == count_tasks(
                all.subrange(0, i as int),
                group@,
                Some(StatusKind::Running),
            ),
            summary.queued == count_tasks(
                all.subrange(0, i as int),
                group@,
                Some(StatusKind::Queued),
            ),
            summary.paused == count_tasks(
                all.subrange(0, i as int),
                group@,
                Some(StatusKind::Paused),
            ),
            summary.stashed == count_tasks(
                all.subrange(0, i as int),
                group@,
                Some(StatusKind::Stashed),
            ),
            summary.done == count_tasks(all.subrange(0, i as int), group@, Some(StatusKind::Done)),
        decreases tasks.len() - i,
    {
        proof {
            let seen = all.subrange(0, i as int);
            let next = all.subrange(0, i + 1);
            assert(all[i as int] == tasks@[i as int]@);
            assert(next.drop_last() =~= seen);
            assert(next.last() == all[i as int]);
            lemma_count_bounded(seen, group@, None);
            lemma_count_bounded(seen, group@, Some(StatusKind::Running));
            lemma_count_bounded(seen, group@, Some(StatusKind::Queued));
            lemma_count_bounded(seen, group@, Some(StatusKind::Paused));
            lemma_count_bounded(seen, group@, Some(StatusKind::Stashed));
            lemma_count_bounded(seen, group@, Some(StatusKind::Done));
        }
        if same_text(tasks[i].group.as_str(), group) {
            summary.total = summary.total + 1;
            match tasks[i].status {
                TaskStatus::Running { .. } => {
                    summary.running = summary.running + 1;
                },
                TaskStatus::Queued => {
                    summary.queued = summary.queued + 1;
                },
                TaskStatus::Paused { .. } => {
                    summary.paused = summary.paused + 1;
                },
                TaskStatus::Stashed => {
                    summary.stashed = summary.stashed + 1;
                },
                TaskStatus::Done { .. } => {
                    summary.done = summary.done + 1;
                },
                TaskStatus::Locked => {},
            }
        }
        i += 1;
    }
    assert(all.subrange(0, i as int) =~= all);
    summary
}

/// The word for a task's status; for a task that is done, for how it ended.
pub open spec fn status_word(status: TaskStatus) -> Seq<char> {
    match status {
        TaskStatus::Running { .. } => "Running"@,
        TaskStatus::Paused { .. } => "Paused"@,
        TaskStatus::Queued => "Queued"@,
        TaskStatus::Stashed => "Stashed"@,
        TaskStatus::Locked => "Locked"@,
        TaskStatus::Done { result, .. } => match result {
            TaskResult::Success => "Success"@,
            TaskResult::Failed(_) => "Failed"@,
            TaskResult::FailedToSpawn => "Failed to spawn"@,
            TaskResult::Killed => "Killed"@,
            TaskResult::Errored => "Errored"@,
            TaskResult::DependencyFailed => "Dependency failed"@,
        },
    }
}

/// The word that the panel shows for `status`.
pub fn status_label(status: TaskStatus) -> (label: &'static str)
    ensures
        label@ == status_word(status),
{
    match status {
        TaskStatus::Running { .. } => "Running",
        TaskStatus::Paused { .. } => "Paused",
        TaskStatus::Queued => "Queued",
        TaskStatus::Stashed => "Stashed",
        TaskStatus::Locked => "Locked",
        TaskStatus::Done { result, .. } => match result {
            TaskResult::Success => "Success",
            TaskResult::Failed(_) => "Failed",
            TaskResult::FailedToSpawn => "Failed to spawn",
            TaskResult::Killed => "Killed",
            TaskResult::Errored => "Errored",
            TaskResult::DependencyFailed => "Dependency failed",
        },
    }
}

/// Whether a path can be shown: it is short enough to stay whole, or its
/// last 47 bytes start between two characters.
pub open spec fn can_show_path(path: Seq<char>) -> bool {
    encode_utf8(path).len() > 50 ==> is_char_boundary(
        encode_utf8(path),
        encode_utf8(path).len() - 47,
    )
}

/// A path as the panel shows it: whole while its UTF-8 form has no more than
/// 50 bytes, else three dots and the text of its last 47 bytes.
pub open spec fn shown_path(path: Seq<char>) -> Seq<char> {
    let bytes = encode_utf8(path);
    if bytes.len() > 50 {
        seq!['.', '.', '.'] + decode_utf8(bytes.subrange(bytes.len() - 47, bytes.len() as int))
    } else {
        path
    }
}

/// The path as the panel shows it. The cut must not fall inside a character.
pub fn path_display(path: &str) -> (text: String)
    requires
        can_show_path(path@),
    ensures
        text@ == shown_path(path@),
{
    let len: usize = path.as_bytes().len();
    if len > 50 {
        let (_, tail) = path.split_at(len - 47);
        proof {
            reveal_strlit("...");
            encode_utf8_decode_utf8(tail@);
        }
        let text = join("...", tail);
        assert(text@ =~= shown_path(path@));
        text
    } else {
        String::from_str(path)
    }
}

/// The exit code that the panel shows for a status: the code of a task that
/// failed, zero for one that succeeded, and a dash for every other.
pub open spec fn exit_code_shown(status: TaskStatus) -> Seq<char> {
    match status {
        TaskStatus::Done { result: TaskResult::Failed(code), .. } => signed_digits(code as int),
        TaskStatus::Done { result: TaskResult::Success, .. } => digits(0),
        _ => seq!['-'],
    }
}

/// The exit code as the panel shows it.
pub fn exit_code_text(status: TaskStatus) -> (text: String)
    ensures
        text@ == exit_code_shown(status),
{
    match status {
        TaskStatus::Done { result: TaskResult::Failed(code), .. } => decimal_signed(code as i64),
        TaskStatus::Done { result: TaskResult::Success, .. } => decimal(0),
        _ => {
            proof {
                reveal_strlit("-");
            }
            let text = String::from_str("-");
            assert(text@ =~= seq!['-']);
            text
        },
    }
}

/// When a task began to run, in seconds since the epoch; none for a task
/// that has not begun.
pub open spec fn started_at(status: TaskStatus) -> Option<i64> {
    match status {
        TaskStatus::Running { start } => Some(start),
        TaskStatus::Paused { start } => Some(start),
        TaskStatus::Done { start, .. } => Some(start),
        _ => None,
    }
}

/// When a task ended, in seconds since the epoch; none for a task that has
/// not ended.
pub open spec fn ended_at(status: TaskStatus) -> Option<i64> {
    match status {
        TaskStatus::Done { end, .. } => Some(end),
        _ => None,
    }
}

/// The seconds from `from` to `to`, kept within what an `i64` holds.
pub open spec fn span(from: i64, to: i64) -> i64 {
    if to - from > i64::MAX {
        i64::MAX
    } else if to - from < i64::MIN {
        i64::MIN
    } else {
        (to - from) as i64
    }
}

/// The duration that the panel shows: for a task that runs or is paused the
/// time since its start, for one that is done the time from start to end, and
/// a dash for every other.
pub open spec fn shown_duration(status: TaskStatus, now: i64) -> Seq<char> {
    match status {
        TaskStatus::Running { start } => duration_text(span(start, now) as int),
        TaskStatus::Paused { start } => duration_text(span(start, now) as int),
        TaskStatus::Done { start, end, .. } => duration_text(span(start, end) as int),
        _ => seq!['-'],
    }
}

/// The start of the task, where there is one to show.
pub fn start_time(status: TaskStatus) -> (start: Option<i64>)
    ensures
        start == started_at(status),
{
    match status {
        TaskStatus::Running { start } => Some(start),
        TaskStatus::Paused { start } => Some(start),
        TaskStatus::Done { start, .. } => Some(start),
        _ => None,
    }
}

/// The end of the task, where there is one to show.
pub fn end_time(status: TaskStatus) -> (end: Option<i64>)
    ensures
        end == ended_at(status),
{
    match status {
        TaskStatus::Done { end, .. } => Some(end),
        _ => None,
    }
}

/// The seconds from `from` to `to`.
pub fn seconds_between(from: i64, to: i64) -> (seconds: i64)
    ensures
        seconds == span(from, to),
{
    if from >= 0 {
        if to < i64::MIN + from {
            i64::MIN
        } else {
            to - from
        }
    } else if to > i64::MAX + from {
        i64::MAX
    } else {
        to - from
    }
}

/// The duration as the panel shows it, at the time `now`.
pub fn duration_display(status: TaskStatus, now: i64) -> (text: String)
    ensures
        text@ == shown_duration(status, now),
{
    match status {
        TaskStatus::Running { start } => format_duration(seconds_between(start, now)),
        TaskStatus::Paused { start } => format_duration(seconds_between(start, now)),
        TaskStatus::Done { start, end, .. } => format_duration(seconds_between(start, end)),
        _ => {
            proof {
                reveal_strlit("-");
            }
            let text = String::from_str("-");
            assert(text@ =~= seq!['-']);
            text
        },
    }
}

} // verus!
