//! The requests that the daemon understands, and what its answers mean.
//!
//! Each operation is one request and one answer. This module builds the
//! request and reads the answer; carrying both over the connection is left to
//! the caller.

use vstd::prelude::*;
use vstd::string::*;

use crate::state::{Snapshot, SnapshotView};
use crate::text::{copy_bytes, copy_label, join};

verus! {

/// The tasks that a request is about.
#[derive(Debug)]
pub enum TaskSelection {
    TaskIds(Vec<usize>),
    Group(String),
    All,
}

/// A selection of tasks as a value.
pub enum TaskSelectionView {
    TaskIds(Seq<usize>),
    Group(Seq<char>),
    All,
}

impl View for TaskSelection {
    type V = TaskSelectionView;

    open spec fn view(&self) -> TaskSelectionView {
        match self {
            TaskSelection::TaskIds(ids) => TaskSelectionView::TaskIds(ids@),
            TaskSelection::Group(name) => TaskSelectionView::Group(name@),
            TaskSelection::All => TaskSelectionView::All,
        }
    }
}

/// What of a task can be edited, as the daemon hands it out for editing.
#[derive(Debug)]
pub struct EditableTask {
    pub id: usize,
    pub original_command: String,
    pub path: Vec<u8>,
    pub label: Option<String>,
    pub priority: i32,
}

/// An editable task as a value.
pub struct EditableTaskView {
    pub id: usize,
    pub original_command: Seq<char>,
    pub path: Seq<u8>,
    pub label: Option<Seq<char>>,
    pub priority: i32,
}

impl View for EditableTask {
    type V = EditableTaskView;

    open spec fn view(&self) -> EditableTaskView {
        EditableTaskView {
            id: self.id,
            original_command: self.original_command@,
            path: self.path@,
            label: self.label.deep_view(),
            priority: self.priority,
        }
    }
}

impl DeepView for EditableTask {
    type V = EditableTaskView;

    open spec fn deep_view(&self) -> EditableTaskView {
        self@
    }
}

impl Clone for EditableTask {
    fn clone(&self) -> (copy: Self)
        ensures
            copy@ == self@,
    {
        EditableTask {
            id: self.id,
            original_command: self.original_command.clone(),
            path: copy_bytes(&self.path),
            label: copy_label(&self.label),
            priority: self.priority,
        }
    }
}

/// The fields of a task that a restart submits again, as a new entry of the queue.
#[derive(Debug)]
pub struct RestartOptions {
    pub command: String,
    pub path: Vec<u8>,
    pub envs: Vec<(String, String)>,
    pub group: String,
    pub priority: Option<i32>,
    pub label: Option<String>,
    pub start_immediately: bool,
    pub stashed: bool,
}

/// Restart options as a value.
pub struct RestartOptionsView {
    pub command: Seq<char>,
    pub path: Seq<u8>,
    pub envs: Seq<(Seq<char>, Seq<char>)>,
    pub group: Seq<char>,
    pub priority: Option<i32>,
    pub label: Option<Seq<char>>,
    pub start_immediately: bool,
    pub stashed: bool,
}

impl View for RestartOptions {
    type V = RestartOptionsView;

    open spec fn view(&self) -> RestartOptionsView {
        RestartOptionsView {
            command: self.command@,
            path: self.path@,
            envs: self.envs.deep_view(),
            group: self.group@,
            priority: self.priority,
            label: self.label.deep_view(),
            start_immediately: self.start_immediately,
            stashed: self.stashed,
        }
    }
}

/// One message to the daemon. A restart and an add both put a new task into
/// the queue; an add runs in the working directory of the client.
#[derive(Debug)]
#[allow(inconsistent_fields)]
pub enum Request {
    Status,
    Kill { tasks: TaskSelection },
    Pause { tasks: TaskSelection, wait: bool },
    Start { tasks: TaskSelection },
    Log { tasks: TaskSelection, send_logs: bool, lines: Option<usize> },
    Restart(RestartOptions),
    Clean { successful_only: bool, group: Option<String> },
    Add {
        command: String,
        envs: Vec<(String, String)>,
        group: String,
        start_immediately: bool,
        stashed: bool,
        dependencies: Vec<usize>,
        priority: Option<i32>,
        label: Option<String>,
    },
    Remove(Vec<usize>),
    EditRequest(Vec<usize>),
    EditRestore(Vec<usize>),
    EditedTasks(Vec<EditableTask>),
    Stash { tasks: TaskSelection },
    Enqueue { tasks: TaskSelection },
    Switch { task_id_1: usize, task_id_2: usize },
    Parallel { parallel_tasks: usize, group: String },
}

/// A request as a value.
#[allow(inconsistent_fields)]
pub enum RequestView {
    Status,
    Kill { tasks: TaskSelectionView },
    Pause { tasks: TaskSelectionView, wait: bool },
    Start { tasks: TaskSelectionView },
    Log { tasks: TaskSelectionView, send_logs: bool, lines: Option<usize> },
    Restart(RestartOptionsView),
    Clean { successful_only: bool, group: Option<Seq<char>> },
    Add {
        command: Seq<char>,
        envs: Seq<(Seq<char>, Seq<char>)>,
        group: Seq<char>,
        start_immediately: bool,
        stashed: bool,
        dependencies: Seq<usize>,
        priority: Option<i32>,
        label: Option<Seq<char>>,
    },
    Remove(Seq<usize>),
    EditRequest(Seq<usize>),
    EditRestore(Seq<usize>),
    EditedTasks(Seq<EditableTaskView>),
    Stash { tasks: TaskSelectionView },
    Enqueue { tasks: TaskSelectionView },
    Switch { task_id_1: usize, task_id_2: usize },
    Parallel { parallel_tasks: usize, group: Seq<char> },
}

impl View for Request {
    type V = RequestView;

    open spec fn view(&self) -> RequestView {
        match self {
            Request::Status => RequestView::Status,
            Request::Kill { tasks } => RequestView::Kill { tasks: tasks@ },
            Request::Pause { tasks, wait } => RequestView::Pause { tasks: tasks@, wait: *wait },
            Request::Start { tasks } => RequestView::Start { tasks: tasks@ },
            Request::Log { tasks, send_logs, lines } => RequestView::Log {
                tasks: tasks@,
                send_logs: *send_logs,
                lines: *lines,
            },
            Request::Restart(options) => RequestView::Restart(options@),
            Request::Clean { successful_only, group } => RequestView::Clean {
                successful_only: *successful_only,
                group: group.deep_view(),
            },
            Request::Add {
                command,
                envs,
                group,
                start_immediately,
                stashed,
                dependencies,
                priority,
                label,
            } => RequestView::Add {
                command: command@,
                envs: envs.deep_view(),
                group: group@,
                start_immediately: *start_immediately,
                stashed: *stashed,
                dependencies: dependencies@,
                priority: *priority,
                label: label.deep_view(),
            },
            Request::Remove(ids) => RequestView::Remove(ids@),
            Request::EditRequest(ids) => RequestView::EditRequest(ids@),
            Request::EditRestore(ids) => RequestView::EditRestore(ids@),
            Request::EditedTasks(tasks) => RequestView::EditedTasks(tasks.deep_view()),
            Request::Stash { tasks } => RequestView::Stash { tasks: tasks@ },
            Request::Enqueue { tasks } => RequestView::Enqueue { tasks: tasks@ },
            Request::Switch { task_id_1, task_id_2 } => RequestView::Switch {
                task_id_1: *task_id_1,
                task_id_2: *task_id_2,
            },
            Request::Parallel { parallel_tasks, group } => RequestView::Parallel {
                parallel_tasks: *parallel_tasks,
                group: group@,
            },
        }
    }
}

/// The output of one task, as the daemon sends it.
#[derive(Debug)]
pub struct TaskLog {
    pub task_id: usize,
    pub output: Option<Vec<u8>>,
}

/// A task's output as a value.
pub struct TaskLogView {
    pub task_id: usize,
    pub output: Option<Seq<u8>>,
}

impl View for TaskLog {
    type V = TaskLogView;

    open spec fn view(&self) -> TaskLogView {
        TaskLogView {
            task_id: self.task_id,
            output: match self.output {
                Some(bytes) => Some(bytes@),
                None => None,
            },
        }
    }
}

impl DeepView for TaskLog {
    type V = TaskLogView;

    open spec fn deep_view(&self) -> TaskLogView {
        self@
    }
}

/// One message from the daemon. `Other` stands for the kinds that answer no
/// request of this client.
#[derive(Debug)]
pub enum Response {
    AddedTask(usize),
    Edit(Vec<EditableTask>),
    Status(Snapshot),
    Log(Vec<TaskLog>),
    Success(String),
    Failure(String),
    Other,
}

/// A response as a value.
pub enum ResponseView {
    AddedTask(usize),
    Edit(Seq<EditableTaskView>),
    Status(SnapshotView),
    Log(Seq<TaskLogView>),
    Success(Seq<char>),
    Failure(Seq<char>),
    Other,
}

impl View for Response {
    type V = ResponseView;

    open spec fn view(&self) -> ResponseView {
        match self {
            Response::AddedTask(id) => ResponseView::AddedTask(*id),
            Response::Edit(tasks) => ResponseView::Edit(tasks.deep_view()),
            Response::Status(snapshot) => ResponseView::Status(snapshot@),
            Response::Log(logs) => ResponseView::Log(logs.deep_view()),
            Response::Success(text) => ResponseView::Success(text@),
            Response::Failure(text) => ResponseView::Failure(text@),
            Response::Other => ResponseView::Other,
        }
    }
}

/// How one round trip ended: the request could not be sent, no answer could
/// be received, or an answer came.
#[derive(Debug)]
pub enum Exchange {
    SendFailed(String),
    ReceiveFailed(String),
    Received(Response),
}

/// The end of a round trip as a value.
pub enum ExchangeView {
    SendFailed(Seq<char>),
    ReceiveFailed(Seq<char>),
    Received(ResponseView),
}

impl View for Exchange {
    type V = ExchangeView;

    open spec fn view(&self) -> ExchangeView {
        match self {
            Exchange::SendFailed(reason) => ExchangeView::SendFailed(reason@),
            Exchange::ReceiveFailed(reason) => ExchangeView::ReceiveFailed(reason@),
            Exchange::Received(response) => ExchangeView::Received(response@),
        }
    }
}

/// What an operation that succeeded hands back.
#[derive(Debug)]
pub enum Reply {
    Done,
    Status(Snapshot),
    Log(String),
    Added(usize),
    Edit(EditableTask),
}

/// A reply as a value.
pub enum ReplyView {
    Done,
    Status(SnapshotView),
    Log(Seq<char>),
    Added(usize),
    Edit(EditableTaskView),
}

impl View for Reply {
    type V = ReplyView;

    open spec fn view(&self) -> ReplyView {
        match self {
            Reply::Done => ReplyView::Done,
            Reply::Status(snapshot) => ReplyView::Status(snapshot@),
            Reply::Log(text) => ReplyView::Log(text@),
            Reply::Added(id) => ReplyView::Added(*id),
            Reply::Edit(task) => ReplyView::Edit(task@),
        }
    }
}

/// The outcome of an operation as a value: the reply, or the reason of the failure.
pub open spec fn outcome_view(outcome: Result<Reply, String>) -> Result<ReplyView, Seq<char>> {
    match outcome {
        Ok(reply) => Ok(reply@),
        Err(reason) => Err(reason@),
    }
}

/// The group that the daemon always has.
pub open spec fn default_group() -> Seq<char> {
    "default"@
}

/// The request for the daemon's tasks and groups.
pub fn get_state() -> (request: Request)
    ensures
        request@ == RequestView::Status,
{
    Request::Status
}

/// The request to kill the tasks `task_ids`.
pub fn kill(task_ids: Vec<usize>) -> (request: Request)
    ensures
        request@ == (RequestView::Kill { tasks: TaskSelectionView::TaskIds(task_ids@) }),
{
    Request::Kill { tasks: TaskSelection::TaskIds(task_ids) }
}

/// The request to pause the default group, without waiting for its tasks.
pub fn pause() -> (request: Request)
    ensures
        request@ == (RequestView::Pause {
            tasks: TaskSelectionView::Group(default_group()),
            wait: false,
        }),
{
    pause_group("default")
}

/// The request to let the default group run.
pub fn start() -> (request: Request)
    ensures
        request@ == (RequestView::Start { tasks: TaskSelectionView::Group(default_group()) }),
{
    start_group("default")
}

/// The request to pause the group `group`, without waiting for its tasks.
pub fn pause_group(group: &str) -> (request: Request)
    ensures
        request@ == (RequestView::Pause { tasks: TaskSelectionView::Group(group@), wait: false }),
{
    Request::Pause { tasks: TaskSelection::Group(String::from_str(group)), wait: false }
}

/// The request to let the group `group` run.
pub fn start_group(group: &str) -> (request: Request)
    ensures
        request@ == (RequestView::Start { tasks: TaskSelectionView::Group(group@) }),
{
    Request::Start { tasks: TaskSelection::Group(String::from_str(group)) }
}

/// The request for all the output of the task `task_id`.
pub fn get_log(task_id: usize) -> (request: Request)
    ensures
        request@ == (RequestView::Log {
            tasks: TaskSelectionView::TaskIds(seq![task_id]),
            send_logs: true,
            lines: None,
        }),
{
    let ids: Vec<usize> = vec![task_id];
    assert(ids@ =~= seq![task_id]);
    Request::Log { tasks: TaskSelection::TaskIds(ids), send_logs: true, lines: None }
}

/// The request to submit a copy of a task as a new entry of the queue.
pub fn restart(options: RestartOptions) -> (request: Request)
    ensures
        request@ == RequestView::Restart(options@),
{
    Request::Restart(options)
}

/// The request to clean the finished tasks, of one group or of all.
pub fn clean(successful_only: bool, group: Option<&str>) -> (request: Request)
    ensures
        request@ == (RequestView::Clean {
            successful_only,
            group: match group {
                Some(name) => Some(name@),
                None => None,
            },
        }),
{
    let group = match group {
        Some(name) => Some(String::from_str(name)),
        None => None,
    };
    Request::Clean { successful_only, group }
}

/// What a plain add carries: the command and the group, and beyond them
/// nothing: no environment, no dependencies, no priority and no label; the
/// task is put into the queue, neither started at once nor stashed.
pub open spec fn plain_add(command: Seq<char>, group: Seq<char>) -> RequestView {
    RequestView::Add {
        command,
        envs: Seq::empty(),
        group,
        start_immediately: false,
        stashed: false,
        dependencies: Seq::empty(),
        priority: None,
        label: None,
    }
}

/// The request to add the task `command` to the group `group`.
pub fn add(command: String, group: &str) -> (request: Request)
    ensures
        request@ == plain_add(command@, group@),
{
    let envs: Vec<(String, String)> = Vec::new();
    let dependencies: Vec<usize> = Vec::new();
    assert(envs.deep_view() =~= Seq::empty());
    assert(dependencies@ =~= Seq::empty());
    Request::Add {
        command,
        envs,
        group: String::from_str(group),
        start_immediately: false,
        stashed: false,
        dependencies,
        priority: None,
        label: None,
    }
}

/// The request to remove the tasks `task_ids`.
pub fn remove(task_ids: Vec<usize>) -> (request: Request)
    ensures
        request@ == RequestView::Remove(task_ids@),
{
    Request::Remove(task_ids)
}

/// The request to pause the tasks `task_ids`, without waiting for them.
pub fn pause_tasks(task_ids: Vec<usize>) -> (request: Request)
    ensures
        request@ == (RequestView::Pause {
            tasks: TaskSelectionView::TaskIds(task_ids@),
            wait: false,
        }),
{
    Request::Pause { tasks: TaskSelection::TaskIds(task_ids), wait: false }
}

/// The request to start or resume the tasks `task_ids`.
pub fn start_tasks(task_ids: Vec<usize>) -> (request: Request)
    ensures
        request@ == (RequestView::Start { tasks: TaskSelectionView::TaskIds(task_ids@) }),
{
    Request::Start { tasks: TaskSelection::TaskIds(task_ids) }
}

/// The request to hand out the task `task_id` for editing.
pub fn edit_request(task_id: usize) -> (request: Request)
    ensures
        request@ == RequestView::EditRequest(seq![task_id]),
{
    let ids: Vec<usize> = vec![task_id];
    assert(ids@ =~= seq![task_id]);
    Request::EditRequest(ids)
}

/// The request to give up the edit of the task `task_id`.
pub fn edit_restore(task_id: usize) -> (request: Request)
    ensures
        request@ == RequestView::EditRestore(seq![task_id]),
{
    let ids: Vec<usize> = vec![task_id];
    assert(ids@ =~= seq![task_id]);
    Request::EditRestore(ids)
}

/// The request to take over an edited task.
pub fn edit_submit(task: EditableTask) -> (request: Request)
    ensures
        request@ == RequestView::EditedTasks(seq![task@]),
{
    let tasks: Vec<EditableTask> = vec![task];
    assert(tasks.deep_view() =~= seq![task@]);
    Request::EditedTasks(tasks)
}

/// The request to stash the tasks `task_ids`.
pub fn stash(task_ids: Vec<usize>) -> (request: Request)
    ensures
        request@ == (RequestView::Stash { tasks: TaskSelectionView::TaskIds(task_ids@) }),
{
    Request::Stash { tasks: TaskSelection::TaskIds(task_ids) }
}

/// The request to put the stashed tasks `task_ids` back into the queue.
pub fn enqueue(task_ids: Vec<usize>) -> (request: Request)
    ensures
        request@ == (RequestView::Enqueue { tasks: TaskSelectionView::TaskIds(task_ids@) }),
{
    Request::Enqueue { tasks: TaskSelection::TaskIds(task_ids) }
}

/// The request to let two tasks change places in the queue.
pub fn switch(task_id_1: usize, task_id_2: usize) -> (request: Request)
    ensures
        request@ == (RequestView::Switch { task_id_1, task_id_2 }),
{
    Request::Switch { task_id_1, task_id_2 }
}

/// The request to let the group `group` run `limit` tasks at a time.
pub fn parallel(group: &str, limit: usize) -> (request: Request)
    ensures
        request@ == (RequestView::Parallel { parallel_tasks: limit, group: group@ }),
{
    Request::Parallel { parallel_tasks: limit, group: String::from_str(group) }
}

/// What the daemon's refusal of a request is called in the failure's reason.
pub open spec fn refusal_prefix(request: RequestView) -> Seq<char> {
    match request {
        RequestView::Status => "Daemon error: "@,
        RequestView::Kill { .. } => "Failed to kill task: "@,
        RequestView::Pause { tasks, .. } => match tasks {
            TaskSelectionView::TaskIds(_) => "Failed to pause task: "@,
            _ => "Failed to pause daemon: "@,
        },
        RequestView::Start { tasks } => match tasks {
            TaskSelectionView::TaskIds(_) => "Failed to start task: "@,
            _ => "Failed to start daemon: "@,
        },
        RequestView::Log { .. } => "Failed to get log: "@,
        RequestView::Restart(_) => "Failed to restart task: "@,
        RequestView::Clean { .. } => "Failed to clean tasks: "@,
        RequestView::Add { .. } => "Failed to add task: "@,
        RequestView::Remove(_) => "Failed to remove task: "@,
        RequestView::EditRequest(_) => "Failed to edit task: "@,
        RequestView::EditRestore(_) => "Failed to restore task: "@,
        RequestView::EditedTasks(_) => "Failed to submit edit: "@,
        RequestView::Stash { .. } => "Failed to stash task: "@,
        RequestView::Enqueue { .. } => "Failed to enqueue task: "@,
        RequestView::Switch { .. } => "Failed to switch tasks: "@,
        RequestView::Parallel { .. } => "Failed to set parallel limit: "@,
    }
}

/// The reason given where the answer is of a kind that the request does not ask for.
pub open spec fn unexpected() -> Seq<char> {
    "Unexpected response from daemon"@
}

/// The text shown for a task whose output the daemon did not send.
pub open spec fn no_output() -> Seq<char> {
    "(No output)"@
}

/// The text shown for a task that the daemon's answer does not mention.
pub open spec fn no_log() -> Seq<char> {
    "(No log found for this "@ + "task)"@
}

/// The reason given where the daemon hands out nothing to edit.
pub open spec fn nothing_to_edit() -> Seq<char> {
    "No task returned for editing"@
}

/// What `String::from_utf8_lossy` of the standard library makes of `bytes`:
/// the text that they encode, with the replacement character in the place of
/// every stretch that is no valid UTF-8.
pub uninterp spec fn utf8_lossy(bytes: Seq<u8>) -> Seq<char>;

/// Calls `String::from_utf8_lossy`. The text that comes back depends on the
/// bytes alone, and the contract gives it its name. Of bytes that are valid
/// UTF-8 the function hands back the text that they encode, unchanged; the
/// contract claims this and no more.
#[verifier::external_body]
fn decode_lossy(bytes: &Vec<u8>) -> (text: String)
    ensures
        text@ == utf8_lossy(bytes@),
        vstd::utf8::valid_utf8(bytes@) ==> text@ == vstd::utf8::decode_utf8(bytes@),
{
    String::from_utf8_lossy(bytes).into_owned()
}

/// The first entry for the task `task_id`, if the logs have one.
pub open spec fn log_entry(logs: Seq<TaskLogView>, task_id: usize) -> Option<TaskLogView>
    decreases logs.len(),
{
    if logs.len() == 0 {
        None
    } else if logs[0].task_id == task_id {
        Some(logs[0])
    } else {
        log_entry(logs.drop_first(), task_id)
    }
}

/// The text to show for what was found of a task's log: `found` says whether
/// the logs hold an entry for the task, `decoded` is the entry's output as text.
pub open spec fn shown_log(found: bool, decoded: Option<Seq<char>>) -> Seq<char> {
    if !found {
        no_log()
    } else {
        match decoded {
            Some(text) => text,
            None => no_output(),
        }
    }
}

/// The text of the task's log in the daemon's answer.
pub open spec fn log_text(logs: Seq<TaskLogView>, task_id: usize) -> Seq<char> {
    match log_entry(logs, task_id) {
        Some(entry) => shown_log(
            true,
            match entry.output {
                Some(bytes) => Some(utf8_lossy(bytes)),
                None => None,
            },
        ),
        None => shown_log(false, None),
    }
}

/// The task whose log a request asks for: the first that it names.
pub open spec fn logged_task(request: RequestView) -> Option<usize> {
    match request {
        RequestView::Log { tasks: TaskSelectionView::TaskIds(ids), .. } => if ids.len() > 0 {
            Some(ids[0])
        } else {
            None
        },
        _ => None,
    }
}

/// What an answer means to the request that it answers. A restart puts a
/// new task into the queue, so the daemon may acknowledge it as it does an
/// added task.
pub open spec fn read_response(request: RequestView, response: ResponseView) -> Result<
    ReplyView,
    Seq<char>,
> {
    match response {
        ResponseView::Failure(text) => Err(refusal_prefix(request) + text),
        ResponseView::Status(snapshot) => if request is Status {
            Ok(ReplyView::Status(snapshot))
        } else {
            Err(unexpected())
        },
        ResponseView::Log(logs) => if request is Log {
            match logged_task(request) {
                Some(task_id) => Ok(ReplyView::Log(log_text(logs, task_id))),
                None => Ok(ReplyView::Log(no_log())),
            }
        } else {
            Err(unexpected())
        },
        ResponseView::AddedTask(id) => if request is Add || request is Restart {
            Ok(ReplyView::Added(id))
        } else {
            Err(unexpected())
        },
        ResponseView::Edit(tasks) => if request is EditRequest {
            if tasks.len() > 0 {
                Ok(ReplyView::Edit(tasks.last()))
            } else {
                Err(nothing_to_edit())
            }
        } else {
            Err(unexpected())
        },
        ResponseView::Success(_) => if request is Status || request is Log || request is Add
            || request is EditRequest {
            Err(unexpected())
        } else {
            Ok(ReplyView::Done)
        },
        ResponseView::Other => Err(unexpected()),
    }
}

/// What the end of a round trip means to the request that was sent: a
/// failure to send or to receive is passed on with its reason, which, for the
/// request of the daemon's state, says that no answer was received.
pub open spec fn read_exchange(request: RequestView, exchange: ExchangeView) -> Result<
    ReplyView,
    Seq<char>,
> {
    match exchange {
        ExchangeView::SendFailed(reason) => Err(reason),
        ExchangeView::ReceiveFailed(reason) => if request is Status {
            Err("Failed to receive response: "@ + reason)
        } else {
            Err(reason)
        },
        ExchangeView::Received(response) => read_response(request, response),
    }
}

/// The text to show for what was found of a task's log.
pub fn log_shown(found: bool, decoded: Option<String>) -> (text: String)
    ensures
        text@ == shown_log(found, decoded.deep_view()),
{
    if !found {
        join("(No log found for this ", "task)")
    } else {
        match decoded {
            Some(text) => text,
            None => String::from_str("(No output)"),
        }
    }
}

/// The text of the log of the task `task_id` in the daemon's answer.
pub fn read_log(logs: &Vec<TaskLog>, task_id: usize) -> (text: String)
    ensures
        text@ == log_text(logs.deep_view(), task_id),
{
    let mut i: usize = 0;
    assert(logs.deep_view().skip(0) =~= logs.deep_view());
    while i < logs.len()
        invariant
            i <= logs.len(),
            log_entry(logs.deep_view(), task_id) == log_entry(
                logs.deep_view().skip(i as int),
                task_id,
            ),
        decreases logs.len() - i,
    {
        proof {
            let rest = logs.deep_view().skip(i as int);
            assert(rest[0] == logs@[i as int]@);
            assert(rest.drop_first() =~= logs.deep_view().skip(i + 1));
        }
        if logs[i].task_id == task_id {
            let decoded = match &logs[i].output {
                Some(bytes) => Some(decode_lossy(bytes)),
                None => None,
            };
            return log_shown(true, decoded);
        }
        i += 1;
    }
    log_shown(false, None)
}

/// The prefix under which the daemon's refusal of `request` is reported.
fn refusal_label(request: &Request) -> (label: &'static str)
    ensures
        label@ == refusal_prefix(request@),
{
    match request {
        Request::Status => "Daemon error: ",
        Request::Kill { .. } => "Failed to kill task: ",
        Request::Pause { tasks, .. } => match tasks {
            TaskSelection::TaskIds(_) => "Failed to pause task: ",
            _ => "Failed to pause daemon: ",
        },
        Request::Start { tasks } => match tasks {
            TaskSelection::TaskIds(_) => "Failed to start task: ",
            _ => "Failed to start daemon: ",
        },
        Request::Log { .. } => "Failed to get log: ",
        Request::Restart(_) => "Failed to restart task: ",
        Request::Clean { .. } => "Failed to clean tasks: ",
        Request::Add { .. } => "Failed to add task: ",
        Request::Remove(_) => "Failed to remove task: ",
        Request::EditRequest(_) => "Failed to edit task: ",
        Request::EditRestore(_) => "Failed to restore task: ",
        Request::EditedTasks(_) => "Failed to submit edit: ",
        Request::Stash { .. } => "Failed to stash task: ",
        Request::Enqueue { .. } => "Failed to enqueue task: ",
        Request::Switch { .. } => "Failed to switch tasks: ",
        Request::Parallel { .. } => "Failed to set parallel limit: ",
    }
}

/// Reads the daemon's answer to `request`: the reply that the request asks
/// for, or the reason why there is none. An answer of another kind than the
/// request asks for is a failure.
pub fn interpret_response(request: &Request, response: Response) -> (outcome: Result<
    Reply,
    String,
>)
    ensures
        outcome_view(outcome) == read_response(request@, response@),
{
    match response {
        Response::Failure(text) => Err(join(refusal_label(request), text.as_str())),
        Response::Status(snapshot) => match request {
            Request::Status => Ok(Reply::Status(snapshot)),
            _ => Err(String::from_str("Unexpected response from daemon")),
        },
        Response::Log(logs) => match request {
            Request::Log { tasks, .. } => match tasks {
                TaskSelection::TaskIds(ids) => if ids.len() > 0 {
                    Ok(Reply::Log(read_log(&logs, ids[0])))
                } else {
                    Ok(Reply::Log(log_shown(false, None)))
                },
                _ => Ok(Reply::Log(log_shown(false, None))),
            },
            _ => Err(String::from_str("Unexpected response from daemon")),
        },
        Response::AddedTask(id) => match request {
            Request::Add { .. } | Request::Restart(_) => Ok(Reply::Added(id)),
            _ => Err(String::from_str("Unexpected response from daemon")),
        },
        Response::Edit(mut tasks) => match request {
            Request::EditRequest(_) => {
                let ghost all = tasks.deep_view();
                match tasks.pop() {
                    Some(task) => {
                        assert(all.last() == task@);
                        Ok(Reply::Edit(task))
                    },
                    None => Err(String::from_str("No task returned for editing")),
                }
            },
            _ => Err(String::from_str("Unexpected response from daemon")),
        },
        Response::Success(_) => match request {
            Request::Status | Request::Log { .. } | Request::Add { .. } | Request::EditRequest(
                _,
            ) => Err(String::from_str("Unexpected response from daemon")),
            _ => Ok(Reply::Done),
        },
        Response::Other => Err(String::from_str("Unexpected response from daemon")),
    }
}

/// Reads how the round trip of `request` ended: see `interpret_response` for
/// an answer that came; a failure to send or to receive is a failure of the
/// operation.
pub fn interpret(request: &Request, exchange: Exchange) -> (outcome: Result<Reply, String>)
    ensures
        outcome_view(outcome) == read_exchange(request@, exchange@),
{
    match exchange {
        Exchange::SendFailed(reason) => Err(reason),
        Exchange::ReceiveFailed(reason) => match request {
            Request::Status => Err(join("Failed to receive response: ", reason.as_str())),
            _ => Err(reason),
        },
        Exchange::Received(response) => interpret_response(request, response),
    }
}

} // verus!
