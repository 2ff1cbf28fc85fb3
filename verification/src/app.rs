//! The session controller: the cached snapshot, the selection, the mode of
//! the interface, and what each intent of the user does to them.
//!
//! The controller never talks to the daemon itself. Where an intent needs the
//! daemon, `handle_action` hands back the request to send; the caller sends
//! it and reports how that ended through `resume`, which may ask for one more
//! request, the refresh that follows every change.

use vstd::prelude::*;
use vstd::string::*;

use crate::names::NameSet;
use crate::pueue_client::{
    EditableTask, EditableTaskView, Reply, ReplyView, Request, RequestView, RestartOptions,
    RestartOptionsView, TaskSelectionView,
};
use crate::state::{GroupStatus, Snapshot, SnapshotView, Task, TaskStatus, TaskView};
use crate::text::{copy_bytes, copy_label, copy_pairs, is_blank, join, str_is_blank};
pub use crate::tree::{Node, TreeItem, TreeSelection};
use crate::tree::{
    folded_hidden, headers_in_order, lemma_tree_shape, tasks_in_order, first_row, first_task_in, group_list, move_to, moved_bottom, moved_down, moved_top, moved_up,
    position_of, position_of_selection, project, reconcile, reconcile_selection, tree,
    display_order,
};
use crate::ui::input::{TextInput, TextInputView};

verus! {

/// What the user wants done.
#[derive(Debug, Clone, Copy, PartialEq, Eq, Structural)]
pub enum Action {
    NavigateUp,
    NavigateDown,
    NavigateTop,
    NavigateBottom,
    KillTask,
    TogglePause,
    ToggleTaskPause,
    Refresh,
    ViewLogs,
    CloseLogs,
    RestartTask,
    CleanFinished,
    FollowLogs,
    ScrollLogUp,
    ScrollLogDown,
    ScrollLogPageUp,
    ScrollLogPageDown,
    StartAddTask,
    StartEditTask,
    RemoveTask,
    SubmitInput,
    CancelInput,
    InputChar(char),
    InputBackspace,
    InputDelete,
    InputLeft,
    InputRight,
    InputHome,
    InputEnd,
    StashTask,
    EnqueueTask,
    SwitchUp,
    SwitchDown,
    IncreaseParallel,
    DecreaseParallel,
    CollapseGroup,
    ExpandGroup,
    ConfirmAction,
    CancelConfirm,
    Quit,
}

/// What the text dialog is for.
#[derive(Debug)]
pub enum InputMode {
    AddTask,
    EditTask(EditableTask),
}

/// The purpose of the text dialog as a value.
pub enum InputModeView {
    AddTask,
    EditTask(EditableTaskView),
}

impl View for InputMode {
    type V = InputModeView;

    open spec fn view(&self) -> InputModeView {
        match self {
            InputMode::AddTask => InputModeView::AddTask,
            InputMode::EditTask(task) => InputModeView::EditTask(task@),
        }
    }
}

/// The mode that decides what a key means.
#[derive(Debug, Clone, Copy, PartialEq, Eq, Structural)]
pub enum Mode {
    Normal,
    TextInput,
    LogViewer,
    ConfirmDelete,
}

/// What a request to the daemon was sent for; it decides what its outcome
/// does to the controller.
#[derive(Debug, Clone, Copy, PartialEq, Eq, Structural)]
pub enum Operation {
    Refresh,
    Kill,
    PauseGroup,
    ResumeGroup,
    ResumeTask,
    PauseTask,
    StartTask,
    OpenLogs,
    FollowLogs,
    TailLogs,
    Restart,
    Clean,
    Remove,
    Add,
    RequestEdit,
    SubmitEdit,
    RestoreEdit,
    Stash,
    Enqueue,
    Switch,
    IncreaseParallel,
    DecreaseParallel,
}

/// A request that the caller is to send, and what it was made for.
#[derive(Debug)]
pub struct Pending {
    pub operation: Operation,
    pub request: Request,
}

/// What the caller does next.
#[derive(Debug)]
pub enum Step {
    /// Nothing is outstanding: wait for the next event.
    Continue,
    /// End the session.
    Quit,
    /// Send the request and hand its outcome to `App::resume`.
    Call(Pending),
}

/// A step as a value.
pub enum StepView {
    Continue,
    Quit,
    Call(Operation, RequestView),
}

impl View for Step {
    type V = StepView;

    open spec fn view(&self) -> StepView {
        match self {
            Step::Continue => StepView::Continue,
            Step::Quit => StepView::Quit,
            Step::Call(pending) => StepView::Call(pending.operation, pending.request@),
        }
    }
}

/// The state of a session.
#[derive(Debug)]
pub struct App {
    pub state: Option<Snapshot>,
    pub show_log_modal: bool,
    pub log_content: Option<String>,
    pub log_scroll: usize,
    pub follow_mode: bool,
    pub error_message: Option<String>,
    pub input_mode: Option<InputMode>,
    pub text_input: TextInput,
    pub confirm_delete: Option<usize>,
    pub selection: TreeSelection,
    pub collapsed_groups: NameSet,
}

/// The state of a session as a value.
pub struct AppView {
    pub state: Option<SnapshotView>,
    pub show_log_modal: bool,
    pub log_content: Option<Seq<char>>,
    pub log_scroll: usize,
    pub follow_mode: bool,
    pub error_message: Option<Seq<char>>,
    pub input_mode: Option<InputModeView>,
    pub text_input: TextInputView,
    pub confirm_delete: Option<usize>,
    pub selection: Node,
    pub collapsed_groups: Set<Seq<char>>,
}

impl View for App {
    type V = AppView;

    open spec fn view(&self) -> AppView {
        AppView {
            state: match self.state {
                Some(snapshot) => Some(snapshot@),
                None => None,
            },
            show_log_modal: self.show_log_modal,
            log_content: self.log_content.deep_view(),
            log_scroll: self.log_scroll,
            follow_mode: self.follow_mode,
            error_message: self.error_message.deep_view(),
            input_mode: match self.input_mode {
                Some(mode) => Some(mode@),
                None => None,
            },
            text_input: self.text_input@,
            confirm_delete: self.confirm_delete,
            selection: self.selection@,
            collapsed_groups: self.collapsed_groups@,
        }
    }
}

/// The request for the state of the daemon.
pub open spec fn refresh_call() -> StepView {
    StepView::Call(Operation::Refresh, RequestView::Status)
}

/// The request for the log of one task.
pub open spec fn log_request(id: usize) -> RequestView {
    RequestView::Log { tasks: TaskSelectionView::TaskIds(seq![id]), send_logs: true, lines: None }
}

/// The request that is about the one task `id`.
pub open spec fn only(id: usize) -> TaskSelectionView {
    TaskSelectionView::TaskIds(seq![id])
}

/// The copy of a task that a restart submits: it is put into the queue,
/// neither started at once nor stashed.
pub open spec fn restart_options(task: TaskView) -> RestartOptionsView {
    RestartOptionsView {
        command: task.command,
        path: task.path,
        envs: task.envs,
        group: task.group,
        priority: Some(task.priority),
        label: task.label,
        start_immediately: false,
        stashed: false,
    }
}

/// A task in this status can change places with its neighbour in the queue.
pub open spec fn can_switch(status: TaskStatus) -> bool {
    status is Queued || status is Stashed
}

/// The offset after one line up: it stops at the top.
pub open spec fn scrolled_up(offset: usize) -> usize {
    if offset > 0 {
        (offset - 1) as usize
    } else {
        0
    }
}

/// The offset after `lines` lines down: it stops at the largest offset.
pub open spec fn scrolled_down(offset: usize, lines: usize) -> usize {
    if offset + lines <= usize::MAX {
        (offset + lines) as usize
    } else {
        usize::MAX
    }
}

/// The offset after a page up: it stops at the top.
pub open spec fn paged_up(offset: usize) -> usize {
    if offset >= 20 {
        (offset - 20) as usize
    } else {
        0
    }
}

/// The limit that a group is asked to lower its own to: one less, and never
/// below one; none where the limit is one already.
pub open spec fn lowered(limit: usize) -> Option<usize> {
    if limit > 1 {
        Some((limit - 1) as usize)
    } else {
        None
    }
}

/// The limit that a group is asked to raise its own to: one more; none where
/// no larger number can be written.
pub open spec fn raised(limit: usize) -> Option<usize> {
    if limit < usize::MAX {
        Some((limit + 1) as usize)
    } else {
        None
    }
}

/// Under which words a failed operation is reported to the user. Operations
/// whose failures are passed over in silence have none.
pub open spec fn banner_prefix(operation: Operation) -> Seq<char> {
    match operation {
        Operation::Refresh => "Failed to connect to pueue daemon: "@,
        Operation::Kill => "Failed to kill task: "@,
        Operation::PauseGroup => "Failed to pause group: "@,
        Operation::ResumeGroup => "Failed to resume group: "@,
        Operation::ResumeTask => "Failed to resume task: "@,
        Operation::PauseTask => "Failed to pause task: "@,
        Operation::StartTask => "Failed to start task: "@,
        Operation::OpenLogs => "Failed to get logs: "@,
        Operation::FollowLogs => "Failed to get logs: "@,
        Operation::TailLogs => Seq::empty(),
        Operation::Restart => "Failed to restart task: "@,
        Operation::Clean => "Failed to clean tasks: "@,
        Operation::Remove => "Failed to remove task: "@,
        Operation::Add => "Failed to add task: "@,
        Operation::RequestEdit => "Failed to edit task: "@,
        Operation::SubmitEdit => "Failed to save edit: "@,
        Operation::RestoreEdit => Seq::empty(),
        Operation::Stash => "Failed to stash task: "@,
        Operation::Enqueue => "Failed to enqueue task: "@,
        Operation::Switch => "Failed to switch tasks: "@,
        Operation::IncreaseParallel => "Failed to increase parallel: "@,
        Operation::DecreaseParallel => "Failed to decrease parallel: "@,
    }
}

/// The reason given where an operation brought a reply of a kind that it has
/// no use for.
pub open spec fn unexpected_reply() -> Seq<char> {
    "Unexpected response from daemon"@
}

/// What went wrong, if anything, for an operation that needs a reply of one
/// kind: the failure's reason, or that the reply is of another kind.
pub open spec fn failure_of(outcome: Result<ReplyView, Seq<char>>) -> Seq<char> {
    match outcome {
        Err(reason) => reason,
        Ok(_) => unexpected_reply(),
    }
}

impl AppView {
    /// The state in which a session starts.
    pub open spec fn initial() -> AppView {
        AppView {
            state: None,
            show_log_modal: false,
            log_content: None,
            log_scroll: 0,
            follow_mode: false,
            error_message: None,
            input_mode: None,
            text_input: TextInputView::empty(),
            confirm_delete: None,
            selection: Node::Group("default"@),
            collapsed_groups: Set::empty(),
        }
    }

    /// The parts that carry an invariant of their own keep it.
    pub open spec fn well_formed(self) -> bool {
        &&& self.text_input.well_formed()
        &&& match self.state {
            Some(snapshot) => snapshot.well_formed(),
            None => true,
        }
    }

    /// The flattened tree that the user sees.
    pub open spec fn items(self) -> Seq<Node> {
        match self.state {
            Some(snapshot) => tree(snapshot, self.collapsed_groups),
            None => Seq::empty(),
        }
    }

    /// The names of the groups in the order of display.
    pub open spec fn group_list(self) -> Seq<Seq<char>> {
        match self.state {
            Some(snapshot) => display_order(snapshot.group_names()),
            None => Seq::empty(),
        }
    }

    /// The id of the selected task, where a task is selected.
    pub open spec fn selected_task_id(self) -> Option<usize> {
        self.selection.task_id()
    }

    /// The selected task, where a task is selected that the snapshot holds.
    pub open spec fn selected_task(self) -> Option<TaskView> {
        match (self.selected_task_id(), self.state) {
            (Some(id), Some(snapshot)) => snapshot.task(id),
            _ => None,
        }
    }

    /// The mode that decides what a key means.
    pub open spec fn mode(self) -> Mode {
        if self.input_mode is Some {
            Mode::TextInput
        } else if self.show_log_modal {
            Mode::LogViewer
        } else if self.confirm_delete is Some {
            Mode::ConfirmDelete
        } else {
            Mode::Normal
        }
    }

    /// The state with the selection moved to `selection`.
    pub open spec fn select(self, selection: Node) -> AppView {
        AppView { selection, ..self }
    }

    /// The state with the failure of `operation` shown to the user.
    pub open spec fn report(self, operation: Operation, reason: Seq<char>) -> AppView {
        AppView { error_message: Some(banner_prefix(operation) + reason), ..self }
    }

    /// The state with the text dialog closed and its buffer emptied.
    pub open spec fn dialog_closed(self) -> AppView {
        AppView { input_mode: None, text_input: TextInputView::empty(), ..self }
    }

    /// The state with the text buffer replaced.
    pub open spec fn typed(self, text_input: TextInputView) -> AppView {
        AppView { text_input, ..self }
    }

    /// The state with the log scrolled to `log_scroll`.
    pub open spec fn scrolled(self, log_scroll: usize) -> AppView {
        AppView { log_scroll, ..self }
    }

    /// Moving the selection through the tree.
    pub open spec fn navigate(self, action: Action) -> AppView {
        match action {
            Action::NavigateUp => self.select(moved_up(self.selection, self.items())),
            Action::NavigateDown => self.select(moved_down(self.selection, self.items())),
            Action::NavigateTop => self.select(moved_top(self.selection, self.items())),
            Action::NavigateBottom => self.select(moved_bottom(self.selection, self.items())),
            _ => self,
        }
    }

    /// Killing the selected task. Nothing is asked of the daemon where a group
    /// is selected.
    pub open spec fn kill_task(self) -> StepView {
        match self.selected_task_id() {
            Some(id) => StepView::Call(Operation::Kill, RequestView::Kill { tasks: only(id) }),
            None => StepView::Continue,
        }
    }

    /// Pausing the group of the selection, or letting it run where it is
    /// paused. Where the snapshot does not hold the group, the snapshot is
    /// fetched anew.
    pub open spec fn toggle_pause(self) -> StepView {
        let name = self.selection.group();
        match self.state {
            None => StepView::Continue,
            Some(snapshot) => match snapshot.group(name) {
                Some(group) => if group.status == GroupStatus::Paused {
                    StepView::Call(
                        Operation::ResumeGroup,
                        RequestView::Start { tasks: TaskSelectionView::Group(name) },
                    )
                } else {
                    StepView::Call(
                        Operation::PauseGroup,
                        RequestView::Pause { tasks: TaskSelectionView::Group(name), wait: false },
                    )
                },
                None => refresh_call(),
            },
        }
    }

    /// Pausing, resuming or starting the selected task, by its status. A task
    /// that is done or locked is left alone.
    pub open spec fn toggle_task_pause(self) -> StepView {
        match self.selected_task() {
            Some(task) => match task.status {
                TaskStatus::Paused { .. } => StepView::Call(
                    Operation::ResumeTask,
                    RequestView::Start { tasks: only(task.id) },
                ),
                TaskStatus::Running { .. } => StepView::Call(
                    Operation::PauseTask,
                    RequestView::Pause { tasks: only(task.id), wait: false },
                ),
                TaskStatus::Queued => StepView::Call(
                    Operation::StartTask,
                    RequestView::Start { tasks: only(task.id) },
                ),
                TaskStatus::Stashed => StepView::Call(
                    Operation::StartTask,
                    RequestView::Start { tasks: only(task.id) },
                ),
                _ => StepView::Continue,
            },
            None => StepView::Continue,
        }
    }

    /// Opening the log of the selected task, or closing the log that is open.
    pub open spec fn view_logs(self) -> (AppView, StepView) {
        if !self.show_log_modal {
            match self.selected_task_id() {
                Some(id) => (self, StepView::Call(Operation::OpenLogs, log_request(id))),
                None => (self, StepView::Continue),
            }
        } else {
            (
                AppView { show_log_modal: false, log_content: None, follow_mode: false, ..self },
                StepView::Continue,
            )
        }
    }

    /// Closing the log and dropping its text.
    pub open spec fn close_logs(self) -> AppView {
        AppView {
            show_log_modal: false,
            log_content: None,
            log_scroll: 0,
            follow_mode: false,
            ..self
        }
    }

    /// Following the log of the selected task: where the log is open, this
    /// switches following on or off; where not, the log is fetched.
    pub open spec fn follow_logs(self) -> (AppView, StepView) {
        match self.selected_task_id() {
            Some(id) => if self.show_log_modal {
                (AppView { follow_mode: !self.follow_mode, ..self }, StepView::Continue)
            } else {
                (self, StepView::Call(Operation::FollowLogs, log_request(id)))
            },
            None => (self, StepView::Continue),
        }
    }

    /// Scrolling the log.
    pub open spec fn scroll(self, action: Action) -> AppView {
        match action {
            Action::ScrollLogUp => self.scrolled(scrolled_up(self.log_scroll)),
            Action::ScrollLogDown => self.scrolled(scrolled_down(self.log_scroll, 1)),
            Action::ScrollLogPageUp => self.scrolled(paged_up(self.log_scroll)),
            Action::ScrollLogPageDown => self.scrolled(scrolled_down(self.log_scroll, 20)),
            _ => self,
        }
    }

    /// Restarting the selected task: a copy of it is submitted as a new entry.
    pub open spec fn restart_task(self) -> StepView {
        match self.selected_task() {
            Some(task) => StepView::Call(
                Operation::Restart,
                RequestView::Restart(restart_options(task)),
            ),
            None => StepView::Continue,
        }
    }

    /// Cleaning the finished tasks of the group of the selection.
    pub open spec fn clean_finished(self) -> StepView {
        StepView::Call(
            Operation::Clean,
            RequestView::Clean { successful_only: false, group: Some(self.selection.group()) },
        )
    }

    /// Opening the dialog for a new task.
    pub open spec fn start_add_task(self) -> AppView {
        AppView {
            text_input: TextInputView::empty(),
            input_mode: Some(InputModeView::AddTask),
            ..self
        }
    }

    /// Asking the daemon for the selected task, to edit it.
    pub open spec fn start_edit_task(self) -> StepView {
        match self.selected_task_id() {
            Some(id) => StepView::Call(Operation::RequestEdit, RequestView::EditRequest(seq![id])),
            None => StepView::Continue,
        }
    }

    /// Asking for the removal of the selected task: it is noted as awaiting
    /// confirmation, unless it is running.
    pub open spec fn remove_task(self) -> AppView {
        match self.selected_task() {
            Some(task) => if task.status is Running {
                self
            } else {
                AppView { confirm_delete: Some(task.id), ..self }
            },
            None => self,
        }
    }

    /// Confirming the removal that awaits confirmation.
    pub open spec fn confirm(self) -> (AppView, StepView) {
        match self.confirm_delete {
            Some(id) => (
                AppView { confirm_delete: None, ..self },
                StepView::Call(Operation::Remove, RequestView::Remove(seq![id])),
            ),
            None => (self, StepView::Continue),
        }
    }

    /// Giving up the removal that awaits confirmation.
    pub open spec fn cancel_confirm(self) -> AppView {
        AppView { confirm_delete: None, ..self }
    }

    /// Submitting the text of the dialog: a blank text is dropped; another is
    /// sent as a new task of the selection's group, or as the new command of
    /// the task in editing. Either way the dialog closes.
    pub open spec fn submit_input(self) -> (AppView, StepView) {
        match self.input_mode {
            Some(mode) => {
                let command = self.text_input.text;
                if is_blank(command) {
                    (self.dialog_closed(), StepView::Continue)
                } else {
                    match mode {
                        InputModeView::AddTask => (
                            self.dialog_closed(),
                            StepView::Call(
                                Operation::Add,
                                crate::pueue_client::plain_add(command, self.selection.group()),
                            ),
                        ),
                        InputModeView::EditTask(task) => (
                            self.dialog_closed(),
                            StepView::Call(
                                Operation::SubmitEdit,
                                RequestView::EditedTasks(
                                    seq![EditableTaskView { original_command: command, ..task }],
                                ),
                            ),
                        ),
                    }
                }
            },
            None => (self, StepView::Continue),
        }
    }

    /// Leaving the dialog: a task in editing is given back to the daemon.
    pub open spec fn cancel_input(self) -> (AppView, StepView) {
        match self.input_mode {
            Some(InputModeView::EditTask(task)) => (
                self.dialog_closed(),
                StepView::Call(Operation::RestoreEdit, RequestView::EditRestore(seq![task.id])),
            ),
            Some(InputModeView::AddTask) => (self.dialog_closed(), StepView::Continue),
            None => (self, StepView::Continue),
        }
    }

    /// Editing the text of the dialog.
    pub open spec fn edit_text(self, action: Action) -> AppView {
        match action {
            Action::InputChar(c) => self.typed(self.text_input.insert(c)),
            Action::InputBackspace => self.typed(self.text_input.delete_char()),
            Action::InputDelete => self.typed(self.text_input.delete_forward()),
            Action::InputLeft => self.typed(self.text_input.move_left()),
            Action::InputRight => self.typed(self.text_input.move_right()),
            Action::InputHome => self.typed(self.text_input.move_start()),
            Action::InputEnd => self.typed(self.text_input.move_end()),
            _ => self,
        }
    }

    /// Stashing the selected task, which has to be queued.
    pub open spec fn stash_task(self) -> StepView {
        match self.selected_task() {
            Some(task) => if task.status is Queued {
                StepView::Call(Operation::Stash, RequestView::Stash { tasks: only(task.id) })
            } else {
                StepView::Continue
            },
            None => StepView::Continue,
        }
    }

    /// Putting the selected task back into the queue, which has to be stashed.
    pub open spec fn enqueue_task(self) -> StepView {
        match self.selected_task() {
            Some(task) => if task.status is Stashed {
                StepView::Call(Operation::Enqueue, RequestView::Enqueue { tasks: only(task.id) })
            } else {
                StepView::Continue
            },
            None => StepView::Continue,
        }
    }

    /// Letting the selected task change places with the task before it
    /// (`up`) or behind it in the order of ids. Both have to be queued or
    /// stashed.
    pub open spec fn switch_task(self, up: bool) -> StepView {
        match (self.selected_task_id(), self.state) {
            (Some(id), Some(snapshot)) => match snapshot.task_index(id) {
                Some(at) => {
                    let other = if up {
                        at - 1
                    } else {
                        at + 1
                    };
                    if 0 <= other < snapshot.tasks.len() && can_switch(snapshot.tasks[at].status)
                        && can_switch(snapshot.tasks[other].status) {
                        StepView::Call(
                            Operation::Switch,
                            RequestView::Switch {
                                task_id_1: id,
                                task_id_2: snapshot.tasks[other].id,
                            },
                        )
                    } else {
                        StepView::Continue
                    }
                },
                None => StepView::Continue,
            },
            _ => StepView::Continue,
        }
    }

    /// Raising (`up`) or lowering by one the number of tasks that the group
    /// of the selection runs at a time.
    pub open spec fn change_parallel(self, up: bool) -> StepView {
        let name = self.selection.group();
        match self.state {
            Some(snapshot) => match snapshot.group(name) {
                Some(group) => {
                    let limit = if up {
                        raised(group.parallel_tasks)
                    } else {
                        lowered(group.parallel_tasks)
                    };
                    match limit {
                        Some(parallel_tasks) => StepView::Call(
                            if up {
                                Operation::IncreaseParallel
                            } else {
                                Operation::DecreaseParallel
                            },
                            RequestView::Parallel { parallel_tasks, group: name },
                        ),
                        None => StepView::Continue,
                    }
                },
                None => StepView::Continue,
            },
            None => StepView::Continue,
        }
    }

    /// Folding the selected group, or unfolding it where it is folded; from a
    /// task, going to its group.
    pub open spec fn collapse(self) -> AppView {
        match self.selection {
            Node::Group(name) => if self.collapsed_groups.contains(name) {
                AppView { collapsed_groups: self.collapsed_groups.remove(name), ..self }
            } else {
                AppView { collapsed_groups: self.collapsed_groups.insert(name), ..self }
            },
            Node::Task(group, _) => self.select(Node::Group(group)),
        }
    }

    /// Unfolding the selected group, or, where it is unfolded, going to its
    /// first task; from a task, opening its log.
    pub open spec fn expand(self) -> (AppView, StepView) {
        match self.selection {
            Node::Group(name) => if self.collapsed_groups.contains(name) {
                (
                    AppView { collapsed_groups: self.collapsed_groups.remove(name), ..self },
                    StepView::Continue,
                )
            } else {
                match self.state {
                    Some(snapshot) => match first_row(snapshot.tasks, name) {
                        Some(row) => (self.select(row), StepView::Continue),
                        None => (self, StepView::Continue),
                    },
                    None => (self, StepView::Continue),
                }
            },
            Node::Task(_, id) => (self, StepView::Call(Operation::OpenLogs, log_request(id))),
        }
    }

    /// What an intent does: the state that follows, and what the caller is to
    /// do next.
    pub open spec fn act(self, action: Action) -> (AppView, StepView) {
        match action {
            Action::NavigateUp | Action::NavigateDown | Action::NavigateTop
            | Action::NavigateBottom => (self.navigate(action), StepView::Continue),
            Action::KillTask => (self, self.kill_task()),
            Action::TogglePause => (self, self.toggle_pause()),
            Action::ToggleTaskPause => (self, self.toggle_task_pause()),
            Action::Refresh => (self, refresh_call()),
            Action::ViewLogs => self.view_logs(),
            Action::CloseLogs => (self.close_logs(), StepView::Continue),
            Action::RestartTask => (self, self.restart_task()),
            Action::CleanFinished => (self, self.clean_finished()),
            Action::FollowLogs => self.follow_logs(),
            Action::ScrollLogUp | Action::ScrollLogDown | Action::ScrollLogPageUp
            | Action::ScrollLogPageDown => (self.scroll(action), StepView::Continue),
            Action::StartAddTask => (self.start_add_task(), StepView::Continue),
            Action::StartEditTask => (self, self.start_edit_task()),
            Action::RemoveTask => (self.remove_task(), StepView::Continue),
            Action::SubmitInput => self.submit_input(),
            Action::CancelInput => self.cancel_input(),
            Action::InputChar(_) | Action::InputBackspace | Action::InputDelete
            | Action::InputLeft | Action::InputRight | Action::InputHome | Action::InputEnd => (
                self.edit_text(action),
                StepView::Continue,
            ),
            Action::StashTask => (self, self.stash_task()),
            Action::EnqueueTask => (self, self.enqueue_task()),
            Action::SwitchUp => (self, self.switch_task(true)),
            Action::SwitchDown => (self, self.switch_task(false)),
            Action::IncreaseParallel => (self, self.change_parallel(true)),
            Action::DecreaseParallel => (self, self.change_parallel(false)),
            Action::CollapseGroup => (self.collapse(), StepView::Continue),
            Action::ExpandGroup => self.expand(),
            Action::ConfirmAction => self.confirm(),
            Action::CancelConfirm => (self.cancel_confirm(), StepView::Continue),
            Action::Quit => (self, StepView::Quit),
        }
    }

    /// The state after a snapshot came: it replaces the old one, the error
    /// is gone, and the selection is reconciled with the new tree.
    pub open spec fn refreshed(self, snapshot: SnapshotView) -> AppView {
        AppView {
            state: Some(snapshot),
            error_message: None,
            selection: reconcile(self.selection, tree(snapshot, self.collapsed_groups)),
            ..self
        }
    }

    /// What the outcome of a fetch of the log does, by what the log was
    /// fetched for.
    pub open spec fn log_arrived(self, operation: Operation, text: Seq<char>) -> AppView {
        match operation {
            Operation::OpenLogs => AppView {
                log_content: Some(text),
                log_scroll: 0,
                show_log_modal: true,
                ..self
            },
            Operation::FollowLogs => AppView {
                log_content: Some(text),
                log_scroll: usize::MAX,
                show_log_modal: true,
                follow_mode: true,
                ..self
            },
            _ => AppView { log_content: Some(text), log_scroll: usize::MAX, ..self },
        }
    }

    /// What the outcome of a request does: the state that follows, and what
    /// the caller is to do next.
    pub open spec fn resume(self, operation: Operation, outcome: Result<ReplyView, Seq<char>>) -> (
        AppView,
        StepView,
    ) {
        match operation {
            Operation::Refresh => match outcome {
                Ok(ReplyView::Status(snapshot)) => (self.refreshed(snapshot), StepView::Continue),
                _ => (self.report(operation, failure_of(outcome)), StepView::Continue),
            },
            Operation::OpenLogs | Operation::FollowLogs => match outcome {
                Ok(ReplyView::Log(text)) => (
                    self.log_arrived(operation, text),
                    StepView::Continue,
                ),
                _ => (self.report(operation, failure_of(outcome)), StepView::Continue),
            },
            Operation::TailLogs => match outcome {
                Ok(ReplyView::Log(text)) => (
                    self.log_arrived(operation, text),
                    StepView::Continue,
                ),
                _ => (self, StepView::Continue),
            },
            Operation::RequestEdit => match outcome {
                Ok(ReplyView::Edit(task)) => (
                    AppView {
                        text_input: TextInputView::holding(task.original_command),
                        input_mode: Some(InputModeView::EditTask(task)),
                        ..self
                    },
                    StepView::Continue,
                ),
                _ => (self.report(operation, failure_of(outcome)), StepView::Continue),
            },
            Operation::RestoreEdit => (self, StepView::Continue),
            Operation::ResumeTask | Operation::PauseTask | Operation::StartTask
            | Operation::Clean => match outcome {
                Ok(_) => (self, refresh_call()),
                Err(reason) => (self.report(operation, reason), refresh_call()),
            },
            _ => match outcome {
                Ok(_) => (self, refresh_call()),
                Err(reason) => (self.report(operation, reason), StepView::Continue),
            },
        }
    }

    /// What a tick of the clock asks for while a log is followed.
    pub open spec fn refresh_logs(self) -> StepView {
        match self.selected_task_id() {
            Some(id) => if self.follow_mode {
                StepView::Call(Operation::TailLogs, log_request(id))
            } else {
                StepView::Continue
            },
            None => StepView::Continue,
        }
    }
}

impl App {
    /// A session that has seen nothing of the daemon yet: the selection is
    /// on the default group, nothing is folded, and no dialog is open.
    pub fn new() -> (app: Self)
        ensures
            app@ == AppView::initial(),
    {
        App {
            state: None,
            show_log_modal: false,
            log_content: None,
            log_scroll: 0,
            follow_mode: false,
            error_message: None,
            input_mode: None,
            text_input: TextInput::new(),
            confirm_delete: None,
            selection: TreeSelection::Group(String::from_str("default")),
            collapsed_groups: NameSet::new(),
        }
    }

    /// The mode that decides what a key means.
    pub fn mode(&self) -> (mode: Mode)
        ensures
            mode == self@.mode(),
    {
        if self.input_mode.is_some() {
            Mode::TextInput
        } else if self.show_log_modal {
            Mode::LogViewer
        } else if self.confirm_delete.is_some() {
            Mode::ConfirmDelete
        } else {
            Mode::Normal
        }
    }

    /// The id of the selected task, where a task is selected.
    pub fn get_selected_task_id(&self) -> (id: Option<usize>)
        ensures
            id == self@.selected_task_id(),
    {
        match &self.selection {
            TreeSelection::Task(_, task_id) => Some(*task_id),
            TreeSelection::Group(_) => None,
        }
    }

    /// The name of the group of the selection.
    pub fn get_selected_group(&self) -> (name: &str)
        ensures
            name@ == self@.selection.group(),
    {
        match &self.selection {
            TreeSelection::Group(name) => name.as_str(),
            TreeSelection::Task(group, _) => group.as_str(),
        }
    }

    /// The flattened tree of what is to be seen, for moving in it.
    pub fn get_tree_items(&self) -> (items: Vec<TreeItem>)
        ensures
            items.deep_view() == self@.items(),
            headers_in_order(items.deep_view()),
            tasks_in_order(items.deep_view()),
            folded_hidden(items.deep_view(), self@.collapsed_groups),
    {
        match &self.state {
            Some(snapshot) => project(snapshot, &self.collapsed_groups),
            None => {
                let items: Vec<TreeItem> = Vec::new();
                assert(items.deep_view() =~= Seq::empty());
                items
            },
        }
    }

    /// Where the selection stands among `items`.
    pub fn get_selection_position(&self, items: &Vec<TreeItem>) -> (found: Option<usize>)
        ensures
            match found {
                Some(at) => position_of(self@.selection, items.deep_view()) == Some(at as int),
                None => position_of(self@.selection, items.deep_view()) is None,
            },
    {
        position_of_selection(&self.selection, items)
    }

    /// Moves the selection onto `item`.
    pub fn select_tree_item(&mut self, item: &TreeItem)
        ensures
            final(self)@ == old(self)@.select(item@),
    {
        self.selection = move_to(item);
    }

    /// All tasks with their ids, in the order of the ids.
    pub fn get_task_list(&self) -> (tasks: Vec<(usize, &Task)>)
        ensures
            match self@.state {
                Some(snapshot) => tasks@.len() == snapshot.tasks.len() && forall|i: int|
                    0 <= i < tasks@.len() ==> (#[trigger] tasks@[i]).0 == snapshot.tasks[i].id
                        && tasks@[i].1@ == snapshot.tasks[i],
                None => tasks@.len() == 0,
            },
    {
        let mut list: Vec<(usize, &Task)> = Vec::new();
        match &self.state {
            Some(snapshot) => {
                let tasks = snapshot.tasks();
                let mut i: usize = 0;
                while i < tasks.len()
                    invariant
                        i <= tasks.len(),
                        list@.len() == i,
                        tasks.deep_view() == snapshot@.tasks,
                        forall|j: int|
                            0 <= j < i ==> (#[trigger] list@[j]).0 == snapshot@.tasks[j].id
                                && list@[j].1@ == snapshot@.tasks[j],
                    decreases tasks.len() - i,
                {
                    assert(tasks.deep_view()[i as int] == tasks@[i as int]@);
                    list.push((tasks[i].id, &tasks[i]));
                    i += 1;
                }
            },
            None => {},
        }
        list
    }

    /// The names of all groups in the order of display: the default group
    /// first, the others by name.
    pub fn get_group_list(&self) -> (names: Vec<String>)
        ensures
            names.deep_view() == self@.group_list(),
    {
        match &self.state {
            Some(snapshot) => group_list(snapshot),
            None => {
                let names: Vec<String> = Vec::new();
                assert(names.deep_view() =~= Seq::empty());
                names
            },
        }
    }

    /// Makes sure that the selection points into the tree: where it does not,
    /// it moves to the first item, or to the default group in an empty tree.
    pub fn validate_selection(&mut self)
        ensures
            final(self)@ == old(self)@.select(reconcile(old(self)@.selection, old(self)@.items())),
    {
        let items = self.get_tree_items();
        let kept = reconcile_selection(self.selection.clone(), &items);
        self.selection = kept;
    }

    /// The selected task, where a task is selected that the snapshot holds.
    fn selected_task(&self) -> (found: Option<&Task>)
        ensures
            found.deep_view() == self@.selected_task(),
    {
        match (self.get_selected_task_id(), &self.state) {
            (Some(id), Some(snapshot)) => snapshot.find_task(id),
            _ => None,
        }
    }

    /// Asks for the snapshot to be fetched anew.
    pub fn refresh(&self) -> (step: Step)
        ensures
            step@ == refresh_call(),
    {
        Step::Call(Pending { operation: Operation::Refresh, request: crate::pueue_client::get_state() })
    }

    /// While a log is followed, asks for the log of the selected task to be
    /// fetched anew.
    pub fn refresh_logs(&self) -> (step: Step)
        ensures
            step@ == self@.refresh_logs(),
    {
        match self.get_selected_task_id() {
            Some(id) => if self.follow_mode {
                call(Operation::TailLogs, crate::pueue_client::get_log(id))
            } else {
                Step::Continue
            },
            None => Step::Continue,
        }
    }

    fn navigate(&mut self, action: Action)
        ensures
            final(self)@ == old(self)@.navigate(action),
    {
        let items = self.get_tree_items();
        match action {
            Action::NavigateUp => {
                match self.get_selection_position(&items) {
                    Some(at) => if at > 0 {
                        assert(items.deep_view()[at - 1] == items@[at - 1]@);
                        self.select_tree_item(&items[at - 1]);
                    },
                    None => {},
                }
            },
            Action::NavigateDown => {
                match self.get_selection_position(&items) {
                    Some(at) => if at + 1 < items.len() {
                        assert(items.deep_view()[at + 1] == items@[at + 1]@);
                        self.select_tree_item(&items[at + 1]);
                    },
                    None => {},
                }
            },
            Action::NavigateTop => {
                if items.len() > 0 {
                    assert(items.deep_view()[0] == items@[0]@);
                    self.select_tree_item(&items[0]);
                }
            },
            Action::NavigateBottom => {
                if items.len() > 0 {
                    assert(items.deep_view().last() == items@[items.len() - 1]@);
                    self.select_tree_item(&items[items.len() - 1]);
                }
            },
            _ => {},
        }
    }

    fn kill_task(&self) -> (step: Step)
        ensures
            step@ == self@.kill_task(),
    {
        match self.get_selected_task_id() {
            Some(id) => call(Operation::Kill, crate::pueue_client::kill(one(id))),
            None => Step::Continue,
        }
    }

    fn toggle_pause(&self) -> (step: Step)
        ensures
            step@ == self@.toggle_pause(),
    {
        let name = self.get_selected_group();
        match &self.state {
            None => Step::Continue,
            Some(snapshot) => match snapshot.find_group(name) {
                Some(group) => match group.status {
                    GroupStatus::Paused => call(
                        Operation::ResumeGroup,
                        crate::pueue_client::start_group(name),
                    ),
                    _ => call(Operation::PauseGroup, crate::pueue_client::pause_group(name)),
                },
                None => self.refresh(),
            },
        }
    }

    fn toggle_task_pause(&self) -> (step: Step)
        ensures
            step@ == self@.toggle_task_pause(),
    {
        match self.selected_task() {
            Some(task) => match task.status {
                TaskStatus::Paused { .. } => call(
                    Operation::ResumeTask,
                    crate::pueue_client::start_tasks(one(task.id)),
                ),
                TaskStatus::Running { .. } => call(
                    Operation::PauseTask,
                    crate::pueue_client::pause_tasks(one(task.id)),
                ),
                TaskStatus::Queued | TaskStatus::Stashed => call(
                    Operation::StartTask,
                    crate::pueue_client::start_tasks(one(task.id)),
                ),
                _ => Step::Continue,
            },
            None => Step::Continue,
        }
    }

    fn view_logs(&mut self) -> (step: Step)
        ensures
            (final(self)@, step@) == old(self)@.view_logs(),
    {
        if !self.show_log_modal {
            match self.get_selected_task_id() {
                Some(id) => call(Operation::OpenLogs, crate::pueue_client::get_log(id)),
                None => Step::Continue,
            }
        } else {
            self.show_log_modal = false;
            self.log_content = None;
            self.follow_mode = false;
            Step::Continue
        }
    }

    fn close_logs(&mut self)
        ensures
            final(self)@ == old(self)@.close_logs(),
    {
        self.show_log_modal = false;
        self.log_content = None;
        self.log_scroll = 0;
        self.follow_mode = false;
    }

    fn follow_logs(&mut self) -> (step: Step)
        ensures
            (final(self)@, step@) == old(self)@.follow_logs(),
    {
        match self.get_selected_task_id() {
            Some(id) => if self.show_log_modal {
                self.follow_mode = !self.follow_mode;
                Step::Continue
            } else {
                call(Operation::FollowLogs, crate::pueue_client::get_log(id))
            },
            None => Step::Continue,
        }
    }

    fn scroll(&mut self, action: Action)
        ensures
            final(self)@ == old(self)@.scroll(action),
    {
        match action {
            Action::ScrollLogUp => {
                if self.log_scroll > 0 {
                    self.log_scroll = self.log_scroll - 1;
                }
            },
            Action::ScrollLogDown => {
                if self.log_scroll < usize::MAX {
                    self.log_scroll = self.log_scroll + 1;
                }
            },
            Action::ScrollLogPageUp => {
                if self.log_scroll >= 20 {
                    self.log_scroll = self.log_scroll - 20;
                } else {
                    self.log_scroll = 0;
                }
            },
            Action::ScrollLogPageDown => {
                if self.log_scroll <= usize::MAX - 20 {
                    self.log_scroll = self.log_scroll + 20;
                } else {
                    self.log_scroll = usize::MAX;
                }
            },
            _ => {},
        }
    }

    fn restart_task(&self) -> (step: Step)
        ensures
            step@ == self@.restart_task(),
    {
        match self.selected_task() {
            Some(task) => {
                let options = RestartOptions {
                    command: task.command.clone(),
                    path: copy_bytes(&task.path),
                    envs: copy_pairs(&task.envs),
                    group: task.group.clone(),
                    priority: Some(task.priority),
                    label: copy_label(&task.label),
                    start_immediately: false,
                    stashed: false,
                };
                call(Operation::Restart, crate::pueue_client::restart(options))
            },
            None => Step::Continue,
        }
    }

    fn clean_finished(&self) -> (step: Step)
        ensures
            step@ == self@.clean_finished(),
    {
        call(Operation::Clean, crate::pueue_client::clean(false, Some(self.get_selected_group())))
    }

    fn start_add_task(&mut self)
        ensures
            final(self)@ == old(self)@.start_add_task(),
    {
        self.text_input.clear();
        self.input_mode = Some(InputMode::AddTask);
    }

    fn start_edit_task(&self) -> (step: Step)
        ensures
            step@ == self@.start_edit_task(),
    {
        match self.get_selected_task_id() {
            Some(id) => call(Operation::RequestEdit, crate::pueue_client::edit_request(id)),
            None => Step::Continue,
        }
    }

    fn remove_task(&mut self)
        ensures
            final(self)@ == old(self)@.remove_task(),
    {
        let asked = match self.selected_task() {
            Some(task) => match task.status {
                TaskStatus::Running { .. } => None,
                _ => Some(task.id),
            },
            None => None,
        };
        match asked {
            Some(id) => {
                self.confirm_delete = Some(id);
            },
            None => {},
        }
    }

    fn confirm(&mut self) -> (step: Step)
        ensures
            (final(self)@, step@) == old(self)@.confirm(),
    {
        match self.confirm_delete {
            Some(id) => {
                self.confirm_delete = None;
                call(Operation::Remove, crate::pueue_client::remove(one(id)))
            },
            None => Step::Continue,
        }
    }

    fn submit_input(&mut self) -> (step: Step)
        ensures
            (final(self)@, step@) == old(self)@.submit_input(),
    {
        let mut mode: Option<InputMode> = None;
        core::mem::swap(&mut self.input_mode, &mut mode);
        match mode {
            Some(mode) => {
                let command = self.text_input.value().clone();
                self.text_input.clear();
                if str_is_blank(command.as_str()) {
                    Step::Continue
                } else {
                    match mode {
                        InputMode::AddTask => call(
                            Operation::Add,
                            crate::pueue_client::add(command, self.get_selected_group()),
                        ),
                        InputMode::EditTask(task) => {
                            let edited = EditableTask {
                                id: task.id,
                                original_command: command,
                                path: task.path,
                                label: task.label,
                                priority: task.priority,
                            };
                            call(Operation::SubmitEdit, crate::pueue_client::edit_submit(edited))
                        },
                    }
                }
            },
            None => Step::Continue,
        }
    }

    fn cancel_input(&mut self) -> (step: Step)
        ensures
            (final(self)@, step@) == old(self)@.cancel_input(),
    {
        let mut mode: Option<InputMode> = None;
        core::mem::swap(&mut self.input_mode, &mut mode);
        match mode {
            Some(InputMode::EditTask(task)) => {
                self.text_input.clear();
                call(Operation::RestoreEdit, crate::pueue_client::edit_restore(task.id))
            },
            Some(InputMode::AddTask) => {
                self.text_input.clear();
                Step::Continue
            },
            None => Step::Continue,
        }
    }

    fn edit_text(&mut self, action: Action)
        ensures
            final(self)@ == old(self)@.edit_text(action),
    {
        match action {
            Action::InputChar(c) => self.text_input.insert(c),
            Action::InputBackspace => self.text_input.delete_char(),
            Action::InputDelete => self.text_input.delete_forward(),
            Action::InputLeft => self.text_input.move_left(),
            Action::InputRight => self.text_input.move_right(),
            Action::InputHome => self.text_input.move_start(),
            Action::InputEnd => self.text_input.move_end(),
            _ => {},
        }
    }

    fn stash_task(&self) -> (step: Step)
        ensures
            step@ == self@.stash_task(),
    {
        match self.selected_task() {
            Some(task) => match task.status {
                TaskStatus::Queued => call(
                    Operation::Stash,
                    crate::pueue_client::stash(one(task.id)),
                ),
                _ => Step::Continue,
            },
            None => Step::Continue,
        }
    }

    fn enqueue_task(&self) -> (step: Step)
        ensures
            step@ == self@.enqueue_task(),
    {
        match self.selected_task() {
            Some(task) => match task.status {
                TaskStatus::Stashed => call(
                    Operation::Enqueue,
                    crate::pueue_client::enqueue(one(task.id)),
                ),
                _ => Step::Continue,
            },
            None => Step::Continue,
        }
    }

    fn switch_task(&self, up: bool) -> (step: Step)
        ensures
            step@ == self@.switch_task(up),
    {
        match (self.get_selected_task_id(), &self.state) {
            (Some(id), Some(snapshot)) => match snapshot.task_position(id) {
                Some(at) => {
                    let tasks = snapshot.tasks();
                    if up && at == 0 {
                        return Step::Continue;
                    }
                    if !up && tasks.len() - at <= 1 {
                        return Step::Continue;
                    }
                    let other: usize = if up {
                        at - 1
                    } else {
                        at + 1
                    };
                    assert(tasks.deep_view()[at as int] == tasks@[at as int]@);
                    assert(tasks.deep_view()[other as int] == tasks@[other as int]@);
                    if may_switch(tasks[at].status) && may_switch(tasks[other].status) {
                        call(Operation::Switch, crate::pueue_client::switch(id, tasks[other].id))
                    } else {
                        Step::Continue
                    }
                },
                None => Step::Continue,
            },
            _ => Step::Continue,
        }
    }

    fn change_parallel(&self, up: bool) -> (step: Step)
        ensures
            step@ == self@.change_parallel(up),
    {
        let name = self.get_selected_group();
        match &self.state {
            Some(snapshot) => match snapshot.find_group(name) {
                Some(group) => {
                    let current: usize = group.parallel_tasks;
                    if up {
                        if current < usize::MAX {
                            call(
                                Operation::IncreaseParallel,
                                crate::pueue_client::parallel(name, current + 1),
                            )
                        } else {
                            Step::Continue
                        }
                    } else if current > 1 {
                        call(
                            Operation::DecreaseParallel,
                            crate::pueue_client::parallel(name, current - 1),
                        )
                    } else {
                        Step::Continue
                    }
                },
                None => Step::Continue,
            },
            None => Step::Continue,
        }
    }

    fn collapse(&mut self)
        ensures
            final(self)@ == old(self)@.collapse(),
    {
        let name = String::from_str(self.get_selected_group());
        match &self.selection {
            TreeSelection::Group(_) => {
                if self.collapsed_groups.contains(name.as_str()) {
                    self.collapsed_groups.remove(name.as_str());
                } else {
                    self.collapsed_groups.insert(name);
                }
            },
            TreeSelection::Task(_, _) => {
                self.selection = TreeSelection::Group(name);
            },
        }
    }

    fn expand(&mut self) -> (step: Step)
        ensures
            (final(self)@, step@) == old(self)@.expand(),
    {
        let name = String::from_str(self.get_selected_group());
        match self.get_selected_task_id() {
            None => {
                if self.collapsed_groups.contains(name.as_str()) {
                    self.collapsed_groups.remove(name.as_str());
                } else {
                    let first = match &self.state {
                        Some(snapshot) => first_task_in(snapshot, name.as_str()),
                        None => None,
                    };
                    match first {
                        Some(id) => {
                            self.selection = TreeSelection::Task(name, id);
                        },
                        None => {},
                    }
                }
                Step::Continue
            },
            Some(id) => call(Operation::OpenLogs, crate::pueue_client::get_log(id)),
        }
    }

    /// Does what the intent `action` asks for, as far as that can be done
    /// without the daemon, and says what the caller is to do next.
    pub fn handle_action(&mut self, action: Action) -> (step: Step)
        ensures
            (final(self)@, step@) == old(self)@.act(action),
    {
        match action {
            Action::NavigateUp | Action::NavigateDown | Action::NavigateTop
            | Action::NavigateBottom => {
                self.navigate(action);
                Step::Continue
            },
            Action::KillTask => self.kill_task(),
            Action::TogglePause => self.toggle_pause(),
            Action::ToggleTaskPause => self.toggle_task_pause(),
            Action::Refresh => self.refresh(),
            Action::ViewLogs => self.view_logs(),
            Action::CloseLogs => {
                self.close_logs();
                Step::Continue
            },
            Action::RestartTask => self.restart_task(),
            Action::CleanFinished => self.clean_finished(),
            Action::FollowLogs => self.follow_logs(),
            Action::ScrollLogUp | Action::ScrollLogDown | Action::ScrollLogPageUp
            | Action::ScrollLogPageDown => {
                self.scroll(action);
                Step::Continue
            },
            Action::StartAddTask => {
                self.start_add_task();
                Step::Continue
            },
            Action::StartEditTask => self.start_edit_task(),
            Action::RemoveTask => {
                self.remove_task();
                Step::Continue
            },
            Action::SubmitInput => self.submit_input(),
            Action::CancelInput => self.cancel_input(),
            Action::InputChar(_) | Action::InputBackspace | Action::InputDelete
            | Action::InputLeft | Action::InputRight | Action::InputHome | Action::InputEnd => {
                self.edit_text(action);
                Step::Continue
            },
            Action::StashTask => self.stash_task(),
            Action::EnqueueTask => self.enqueue_task(),
            Action::SwitchUp => self.switch_task(true),
            Action::SwitchDown => self.switch_task(false),
            Action::IncreaseParallel => self.change_parallel(true),
            Action::DecreaseParallel => self.change_parallel(false),
            Action::CollapseGroup => {
                self.collapse();
                Step::Continue
            },
            Action::ExpandGroup => self.expand(),
            Action::ConfirmAction => self.confirm(),
            Action::CancelConfirm => {
                self.confirm_delete = None;
                Step::Continue
            },
            Action::Quit => Step::Quit,
        }
    }

    fn report(&mut self, operation: Operation, reason: &str)
        ensures
            final(self)@ == old(self)@.report(operation, reason@),
    {
        self.error_message = Some(join(banner_label(operation), reason));
    }

    fn report_outcome(&mut self, operation: Operation, outcome: Result<Reply, String>)
        ensures
            final(self)@ == old(self)@.report(
                operation,
                failure_of(crate::pueue_client::outcome_view(outcome)),
            ),
    {
        match outcome {
            Err(reason) => self.report(operation, reason.as_str()),
            Ok(_) => self.report(operation, "Unexpected response from daemon"),
        }
    }

    fn refreshed(&mut self, snapshot: Snapshot)
        ensures
            final(self)@ == old(self)@.refreshed(snapshot@),
    {
        self.state = Some(snapshot);
        self.error_message = None;
        self.validate_selection();
    }

    fn log_arrived(&mut self, operation: Operation, text: String)
        ensures
            final(self)@ == old(self)@.log_arrived(operation, text@),
    {
        self.log_content = Some(text);
        match operation {
            Operation::OpenLogs => {
                self.log_scroll = 0;
                self.show_log_modal = true;
            },
            Operation::FollowLogs => {
                self.log_scroll = usize::MAX;
                self.show_log_modal = true;
                self.follow_mode = true;
            },
            _ => {
                self.log_scroll = usize::MAX;
            },
        }
    }

    /// Takes in how the request of `operation` ended, and says what the
    /// caller is to do next: after a change that the daemon accepted, to
    /// fetch the snapshot anew.
    pub fn resume(&mut self, operation: Operation, outcome: Result<Reply, String>) -> (step: Step)
        ensures
            (final(self)@, step@) == old(self)@.resume(
                operation,
                crate::pueue_client::outcome_view(outcome),
            ),
    {
        match operation {
            Operation::Refresh => {
                match outcome {
                    Ok(Reply::Status(snapshot)) => self.refreshed(snapshot),
                    other => self.report_outcome(operation, other),
                }
                Step::Continue
            },
            Operation::OpenLogs | Operation::FollowLogs => {
                match outcome {
                    Ok(Reply::Log(text)) => self.log_arrived(operation, text),
                    other => self.report_outcome(operation, other),
                }
                Step::Continue
            },
            Operation::TailLogs => {
                match outcome {
                    Ok(Reply::Log(text)) => self.log_arrived(operation, text),
                    _ => {},
                }
                Step::Continue
            },
            Operation::RequestEdit => {
                match outcome {
                    Ok(Reply::Edit(task)) => {
                        self.text_input = TextInput::with_value(task.original_command.clone());
                        self.input_mode = Some(InputMode::EditTask(task));
                    },
                    other => self.report_outcome(operation, other),
                }
                Step::Continue
            },
            Operation::RestoreEdit => Step::Continue,
            Operation::ResumeTask | Operation::PauseTask | Operation::StartTask
            | Operation::Clean => {
                match outcome {
                    Ok(_) => {},
                    Err(reason) => self.report(operation, reason.as_str()),
                }
                self.refresh()
            },
            _ => match outcome {
                Ok(_) => self.refresh(),
                Err(reason) => {
                    self.report(operation, reason.as_str());
                    Step::Continue
                },
            },
        }
    }
}

impl Default for App {
    fn default() -> (app: Self)
        ensures
            app@ == AppView::initial(),
    {
        App::new()
    }
}

/// The step that asks for `request` to be sent for `operation`.
fn call(operation: Operation, request: Request) -> (step: Step)
    ensures
        step@ == StepView::Call(operation, request@),
{
    Step::Call(Pending { operation, request })
}

/// The list that holds `id` alone.
fn one(id: usize) -> (ids: Vec<usize>)
    ensures
        ids@ == seq![id],
{
    let ids: Vec<usize> = vec![id];
    assert(ids@ =~= seq![id]);
    ids
}

/// Whether a task in this status can change places in the queue.
fn may_switch(status: TaskStatus) -> (b: bool)
    ensures
        b == can_switch(status),
{
    match status {
        TaskStatus::Queued | TaskStatus::Stashed => true,
        _ => false,
    }
}

/// The words under which a failure of `operation` is reported.
fn banner_label(operation: Operation) -> (label: &'static str)
    ensures
        label@ == banner_prefix(operation),
{
    match operation {
        Operation::Refresh => "Failed to connect to pueue daemon: ",
        Operation::Kill => "Failed to kill task: ",
        Operation::PauseGroup => "Failed to pause group: ",
        Operation::ResumeGroup => "Failed to resume group: ",
        Operation::ResumeTask => "Failed to resume task: ",
        Operation::PauseTask => "Failed to pause task: ",
        Operation::StartTask => "Failed to start task: ",
        Operation::OpenLogs => "Failed to get logs: ",
        Operation::FollowLogs => "Failed to get logs: ",
        Operation::TailLogs => {
            proof {
                reveal_strlit("");
            }
            assert(""@ =~= Seq::<char>::empty());
            ""
        },
        Operation::Restart => "Failed to restart task: ",
        Operation::Clean => "Failed to clean tasks: ",
        Operation::Remove => "Failed to remove task: ",
        Operation::Add => "Failed to add task: ",
        Operation::RequestEdit => "Failed to edit task: ",
        Operation::SubmitEdit => "Failed to save edit: ",
        Operation::RestoreEdit => {
            proof {
                reveal_strlit("");
            }
            assert(""@ =~= Seq::<char>::empty());
            ""
        },
        Operation::Stash => "Failed to stash task: ",
        Operation::Enqueue => "Failed to enqueue task: ",
        Operation::Switch => "Failed to switch tasks: ",
        Operation::IncreaseParallel => "Failed to increase parallel: ",
        Operation::DecreaseParallel => "Failed to decrease parallel: ",
    }
}

impl AppView {
    /// The state after the intent `action` was handled `times` times in a row.
    pub open spec fn repeated(self, action: Action, times: nat) -> AppView
        decreases times,
    {
        if times == 0 {
            self
        } else {
            self.act(action).0.repeated(action, (times - 1) as nat)
        }
    }
}

/// Moving up from the first item, and moving down from the last one, changes
/// nothing and asks nothing of the daemon.
pub proof fn lemma_navigation_boundary(app: AppView)
    ensures
        position_of(app.selection, app.items()) == Some(0int) ==> app.act(Action::NavigateUp) == (
            app,
            StepView::Continue,
        ),
        position_of(app.selection, app.items()) == Some(app.items().len() - 1) ==> app.act(
            Action::NavigateDown,
        ) == (app, StepView::Continue),
{
}

/// However often the log is scrolled up, its offset goes down by one line
/// each time until it is zero, and stays there.
pub proof fn lemma_scroll_floor(app: AppView, times: nat)
    ensures
        app.repeated(Action::ScrollLogUp, times).log_scroll == if app.log_scroll >= times {
            app.log_scroll - times
        } else {
            0
        },
    decreases times,
{
    if times > 0 {
        lemma_scroll_floor(app.act(Action::ScrollLogUp).0, (times - 1) as nat);
    }
}

/// Lowering the limit of a group never asks for a limit below one: the
/// daemon is asked for one less than the group has, and for nothing where the
/// group has one or none.
pub proof fn lemma_parallel_floor(app: AppView)
    ensures
        app.act(Action::DecreaseParallel).0 == app,
        match app.act(Action::DecreaseParallel).1 {
            StepView::Call(operation, RequestView::Parallel { parallel_tasks, group }) => {
                &&& operation == Operation::DecreaseParallel
                &&& parallel_tasks >= 1
                &&& group == app.selection.group()
                &&& app.state is Some
                &&& app.state.unwrap().group(group) is Some
                &&& app.state.unwrap().group(group).unwrap().parallel_tasks == parallel_tasks + 1
            },
            StepView::Continue => true,
            _ => false,
        },
{
}

/// What is refused without asking the daemon: the removal of a task that is
/// running leaves no removal to confirm, and killing does nothing while a
/// group is selected.
pub proof fn lemma_guards(app: AppView)
    ensures
        app.selected_task() is Some && app.selected_task().unwrap().status is Running ==> app.act(
            Action::RemoveTask,
        ) == (app, StepView::Continue),
        app.selection is Group ==> app.act(Action::KillTask) == (app, StepView::Continue),
        app.selected_task() is Some && !(app.selected_task().unwrap().status is Queued) ==> app.act(
            Action::StashTask,
        ) == (app, StepView::Continue),
        app.selected_task() is Some && !(app.selected_task().unwrap().status is Stashed)
            ==> app.act(Action::EnqueueTask) == (app, StepView::Continue),
{
}

/// After a snapshot came, the selection has a position in the tree, unless
/// the tree is empty; then it is the default group.
pub proof fn lemma_refresh_keeps_selection(app: AppView, snapshot: SnapshotView)
    ensures
        ({
            let after = app.resume(Operation::Refresh, Ok(ReplyView::Status(snapshot))).0;
            &&& after.state == Some(snapshot)
            &&& after.items().len() > 0 ==> position_of(after.selection, after.items()) is Some
            &&& after.items().len() == 0 ==> after.selection == Node::Group("default"@)
        }),
{
    crate::tree::lemma_reconcile_resolves(app.selection, tree(snapshot, app.collapsed_groups));
}

/// A failed fetch of the snapshot keeps the snapshot that was there, and
/// shows the failure.
pub proof fn lemma_failed_refresh_keeps_snapshot(app: AppView, reason: Seq<char>)
    ensures
        ({
            let after = app.resume(Operation::Refresh, Err(reason)).0;
            &&& after.state == app.state
            &&& after.selection == app.selection
            &&& after.error_message == Some("Failed to connect to pueue daemon: "@ + reason)
        }),
{
}

/// Whatever the snapshot and whatever is folded, the tree that the user sees
/// has the default group, if there is one, as its first header, the other
/// headers in the order of their names, the rows of each group in the strict
/// order of their ids, and no row of a folded group.
pub proof fn lemma_items_shape(app: AppView)
    requires
        app.well_formed(),
    ensures
        app.state is Some && app.state.unwrap().group_names().contains("default"@)
            ==> app.items().len() > 0 && app.items()[0] == Node::Group("default"@),
        headers_in_order(app.items()),
        tasks_in_order(app.items()),
        folded_hidden(app.items(), app.collapsed_groups),
{
    match app.state {
        Some(snapshot) => {
            lemma_tree_shape(snapshot, app.collapsed_groups);
        },
        None => {},
    }
}

} // verus!
