use lazypueue::app::{Action, App, Operation, Pending, Step, TreeItem, TreeSelection};
use lazypueue::pueue_client::{EditableTask, Reply, Request, TaskSelection};
use lazypueue::state::{Group, GroupStatus, Snapshot, Task, TaskStatus};

fn group(name: &str, status: GroupStatus, parallel_tasks: usize) -> Group {
    Group { name: name.to_string(), status, parallel_tasks }
}

fn task(id: usize, command: &str, group: &str, status: TaskStatus) -> Task {
    Task {
        id,
        command: command.to_string(),
        path: b"/work".to_vec(),
        envs: vec![("A".to_string(), "1".to_string())],
        group: group.to_string(),
        dependencies: vec![],
        priority: 3,
        label: Some("nightly".to_string()),
        created_at: 100,
        status,
    }
}

fn two_groups() -> Snapshot {
    let mut snapshot = Snapshot::new();
    snapshot.insert_group(group("default", GroupStatus::Running, 2));
    snapshot.insert_group(group("build", GroupStatus::Paused, 1));
    snapshot.insert_task(task(1, "echo hi", "default", TaskStatus::Queued));
    snapshot.insert_task(task(2, "make", "build", TaskStatus::Running { start: 5 }));
    snapshot
}

fn app_with(snapshot: Snapshot) -> App {
    let mut app = App::new();
    let step = app.resume(Operation::Refresh, Ok(Reply::Status(snapshot)));
    assert!(matches!(step, Step::Continue));
    app
}

fn select_task(app: &mut App, group: &str, id: usize) {
    app.selection = TreeSelection::Task(group.to_string(), id);
}

fn pending(step: Step) -> Pending {
    match step {
        Step::Call(pending) => pending,
        other => panic!("no request: {:?}", other),
    }
}

fn ids(selection: &TaskSelection) -> Vec<usize> {
    match selection {
        TaskSelection::TaskIds(ids) => ids.clone(),
        other => panic!("no ids: {:?}", other),
    }
}

fn is_refresh(step: Step) -> bool {
    matches!(step, Step::Call(Pending { operation: Operation::Refresh, request: Request::Status }))
}

#[test]
fn two_groups_project_and_navigate() {
    let mut app = app_with(two_groups());
    assert_eq!(
        app.get_tree_items(),
        vec![
            TreeItem::Group("default".to_string()),
            TreeItem::Task("default".to_string(), 1),
            TreeItem::Group("build".to_string()),
            TreeItem::Task("build".to_string(), 2),
        ]
    );
    select_task(&mut app, "build", 2);
    assert!(matches!(app.handle_action(Action::NavigateUp), Step::Continue));
    assert_eq!(app.selection, TreeSelection::Group("build".to_string()));
}

#[test]
fn navigation_stops_at_both_ends() {
    let mut app = app_with(two_groups());
    assert_eq!(app.selection, TreeSelection::Group("default".to_string()));
    app.handle_action(Action::NavigateUp);
    assert_eq!(app.selection, TreeSelection::Group("default".to_string()));
    app.handle_action(Action::NavigateBottom);
    assert_eq!(app.selection, TreeSelection::Task("build".to_string(), 2));
    app.handle_action(Action::NavigateDown);
    assert_eq!(app.selection, TreeSelection::Task("build".to_string(), 2));
    app.handle_action(Action::NavigateTop);
    assert_eq!(app.selection, TreeSelection::Group("default".to_string()));
    app.handle_action(Action::NavigateDown);
    assert_eq!(app.selection, TreeSelection::Task("default".to_string(), 1));
    assert_eq!(app.get_selection_position(&app.get_tree_items()), Some(1));
}

#[test]
fn navigation_does_nothing_without_a_snapshot() {
    let mut app = App::new();
    for action in [
        Action::NavigateUp,
        Action::NavigateDown,
        Action::NavigateTop,
        Action::NavigateBottom,
    ] {
        assert!(matches!(app.handle_action(action), Step::Continue));
        assert_eq!(app.selection, TreeSelection::Group("default".to_string()));
    }
}

#[test]
fn stash_then_enqueue_then_stash_refused() {
    let mut app = app_with(two_groups());
    select_task(&mut app, "default", 1);

    let first = pending(app.handle_action(Action::StashTask));
    assert_eq!(first.operation, Operation::Stash);
    match &first.request {
        Request::Stash { tasks } => assert_eq!(ids(tasks), vec![1]),
        other => panic!("{:?}", other),
    }
    assert!(is_refresh(app.resume(first.operation, Ok(Reply::Done))));

    let mut stashed = two_groups();
    stashed.insert_task(task(1, "echo hi", "default", TaskStatus::Stashed));
    assert!(matches!(app.resume(Operation::Refresh, Ok(Reply::Status(stashed))), Step::Continue));
    assert_eq!(app.selection, TreeSelection::Task("default".to_string(), 1));

    let second = pending(app.handle_action(Action::EnqueueTask));
    assert_eq!(second.operation, Operation::Enqueue);
    match &second.request {
        Request::Enqueue { tasks } => assert_eq!(ids(tasks), vec![1]),
        other => panic!("{:?}", other),
    }

    assert!(matches!(app.handle_action(Action::StashTask), Step::Continue));
    assert!(app.error_message.is_none());
}

#[test]
fn submit_adds_to_the_group_of_the_selection() {
    let mut app = app_with(two_groups());
    app.selection = TreeSelection::Group("build".to_string());
    app.handle_action(Action::StartAddTask);
    assert!(matches!(app.input_mode, Some(lazypueue::app::InputMode::AddTask)));
    for c in "sleep 5".chars() {
        app.handle_action(Action::InputChar(c));
    }
    let call = pending(app.handle_action(Action::SubmitInput));
    assert_eq!(call.operation, Operation::Add);
    match &call.request {
        Request::Add {
            command,
            envs,
            group,
            start_immediately,
            stashed,
            dependencies,
            priority,
            label,
        } => {
            assert_eq!(command, "sleep 5");
            assert_eq!(group, "build");
            assert!(!*start_immediately);
            assert!(!*stashed);
            assert!(envs.is_empty());
            assert!(dependencies.is_empty());
            assert_eq!(*priority, None);
            assert_eq!(*label, None);
        }
        other => panic!("{:?}", other),
    }
    assert!(app.input_mode.is_none());
    assert_eq!(app.text_input.value().as_str(), "");
    assert_eq!(app.text_input.cursor(), 0);
    assert!(is_refresh(app.resume(Operation::Add, Ok(Reply::Added(3)))));
}

#[test]
fn blank_text_is_dropped_on_submit() {
    let mut app = app_with(two_groups());
    app.handle_action(Action::StartAddTask);
    for c in " \t ".chars() {
        app.handle_action(Action::InputChar(c));
    }
    assert!(matches!(app.handle_action(Action::SubmitInput), Step::Continue));
    assert!(app.input_mode.is_none());
    assert_eq!(app.text_input.value().as_str(), "");
    assert!(matches!(app.handle_action(Action::SubmitInput), Step::Continue));
}

#[test]
fn vanished_task_resets_the_selection() {
    let mut app = app_with(two_groups());
    select_task(&mut app, "build", 2);
    let mut cleaned = Snapshot::new();
    cleaned.insert_group(group("default", GroupStatus::Running, 2));
    cleaned.insert_group(group("build", GroupStatus::Paused, 1));
    cleaned.insert_task(task(1, "echo hi", "default", TaskStatus::Queued));
    app.resume(Operation::Refresh, Ok(Reply::Status(cleaned)));
    assert_eq!(app.selection, TreeSelection::Group("default".to_string()));
    assert_eq!(app.get_selection_position(&app.get_tree_items()), Some(0));

    select_task(&mut app, "default", 1);
    app.resume(Operation::Refresh, Ok(Reply::Status(Snapshot::new())));
    assert_eq!(app.selection, TreeSelection::Group("default".to_string()));
    assert!(app.get_tree_items().is_empty());
}

#[test]
fn failed_refresh_keeps_the_snapshot_and_shows_the_failure() {
    let mut app = app_with(two_groups());
    select_task(&mut app, "build", 2);
    let step = app.resume(Operation::Refresh, Err("no socket".to_string()));
    assert!(matches!(step, Step::Continue));
    assert_eq!(
        app.error_message.as_deref(),
        Some("Failed to connect to pueue daemon: no socket")
    );
    assert_eq!(app.state.as_ref().unwrap().tasks().len(), 2);
    assert_eq!(app.selection, TreeSelection::Task("build".to_string(), 2));
    app.resume(Operation::Refresh, Ok(Reply::Status(two_groups())));
    assert!(app.error_message.is_none());
    app.resume(Operation::Refresh, Ok(Reply::Done));
    assert_eq!(
        app.error_message.as_deref(),
        Some("Failed to connect to pueue daemon: Unexpected response from daemon")
    );
}

#[test]
fn scrolling_up_stops_at_zero() {
    let mut app = App::new();
    app.log_scroll = 3;
    for expected in [2, 1, 0, 0, 0] {
        app.handle_action(Action::ScrollLogUp);
        assert_eq!(app.log_scroll, expected);
    }
    app.handle_action(Action::ScrollLogPageUp);
    assert_eq!(app.log_scroll, 0);
    app.handle_action(Action::ScrollLogDown);
    assert_eq!(app.log_scroll, 1);
    app.handle_action(Action::ScrollLogPageDown);
    assert_eq!(app.log_scroll, 21);
    app.handle_action(Action::ScrollLogPageUp);
    assert_eq!(app.log_scroll, 1);
    app.log_scroll = usize::MAX - 5;
    app.handle_action(Action::ScrollLogPageDown);
    assert_eq!(app.log_scroll, usize::MAX);
    app.handle_action(Action::ScrollLogDown);
    assert_eq!(app.log_scroll, usize::MAX);
}

#[test]
fn parallel_limit_never_goes_below_one() {
    let mut app = app_with(two_groups());
    app.selection = TreeSelection::Group("build".to_string());
    assert!(matches!(app.handle_action(Action::DecreaseParallel), Step::Continue));
    let up = pending(app.handle_action(Action::IncreaseParallel));
    assert_eq!(up.operation, Operation::IncreaseParallel);
    match &up.request {
        Request::Parallel { parallel_tasks, group } => {
            assert_eq!(*parallel_tasks, 2);
            assert_eq!(group, "build");
        }
        other => panic!("{:?}", other),
    }
    select_task(&mut app, "default", 1);
    let down = pending(app.handle_action(Action::DecreaseParallel));
    assert_eq!(down.operation, Operation::DecreaseParallel);
    match &down.request {
        Request::Parallel { parallel_tasks, group } => {
            assert_eq!(*parallel_tasks, 1);
            assert_eq!(group, "default");
        }
        other => panic!("{:?}", other),
    }
    app.selection = TreeSelection::Group("none".to_string());
    assert!(matches!(app.handle_action(Action::DecreaseParallel), Step::Continue));
    assert!(matches!(app.handle_action(Action::IncreaseParallel), Step::Continue));
}

#[test]
fn running_task_is_not_removed_and_groups_are_not_killed() {
    let mut app = app_with(two_groups());
    select_task(&mut app, "build", 2);
    assert!(matches!(app.handle_action(Action::RemoveTask), Step::Continue));
    assert_eq!(app.confirm_delete, None);
    app.selection = TreeSelection::Group("build".to_string());
    assert!(matches!(app.handle_action(Action::KillTask), Step::Continue));
    assert!(matches!(app.handle_action(Action::RemoveTask), Step::Continue));
    assert_eq!(app.confirm_delete, None);
    assert!(app.error_message.is_none());
}

#[test]
fn removal_waits_for_confirmation() {
    let mut app = app_with(two_groups());
    select_task(&mut app, "default", 1);
    assert!(matches!(app.handle_action(Action::RemoveTask), Step::Continue));
    assert_eq!(app.confirm_delete, Some(1));
    app.handle_action(Action::CancelConfirm);
    assert_eq!(app.confirm_delete, None);
    assert!(matches!(app.handle_action(Action::ConfirmAction), Step::Continue));

    app.handle_action(Action::RemoveTask);
    let call = pending(app.handle_action(Action::ConfirmAction));
    assert_eq!(call.operation, Operation::Remove);
    match &call.request {
        Request::Remove(ids) => assert_eq!(ids, &vec![1]),
        other => panic!("{:?}", other),
    }
    assert_eq!(app.confirm_delete, None);
    let step = app.resume(Operation::Remove, Err("busy".to_string()));
    assert!(matches!(step, Step::Continue));
    assert_eq!(app.error_message.as_deref(), Some("Failed to remove task: busy"));
}

#[test]
fn kill_asks_for_the_selected_task() {
    let mut app = app_with(two_groups());
    select_task(&mut app, "build", 2);
    let call = pending(app.handle_action(Action::KillTask));
    assert_eq!(call.operation, Operation::Kill);
    match &call.request {
        Request::Kill { tasks } => assert_eq!(ids(tasks), vec![2]),
        other => panic!("{:?}", other),
    }
    assert!(is_refresh(app.resume(Operation::Kill, Ok(Reply::Done))));
    assert!(matches!(app.resume(Operation::Kill, Err("gone".to_string())), Step::Continue));
    assert_eq!(app.error_message.as_deref(), Some("Failed to kill task: gone"));
}

#[test]
fn toggle_pause_goes_by_the_state_of_the_group() {
    let mut app = app_with(two_groups());
    let call = pending(app.handle_action(Action::TogglePause));
    assert_eq!(call.operation, Operation::PauseGroup);
    match &call.request {
        Request::Pause { tasks: TaskSelection::Group(name), wait } => {
            assert_eq!(name, "default");
            assert!(!*wait);
        }
        other => panic!("{:?}", other),
    }
    select_task(&mut app, "build", 2);
    let call = pending(app.handle_action(Action::TogglePause));
    assert_eq!(call.operation, Operation::ResumeGroup);
    match &call.request {
        Request::Start { tasks: TaskSelection::Group(name) } => assert_eq!(name, "build"),
        other => panic!("{:?}", other),
    }
    app.selection = TreeSelection::Group("none".to_string());
    assert!(is_refresh(app.handle_action(Action::TogglePause)));
    assert!(matches!(App::new().handle_action(Action::TogglePause), Step::Continue));
}

#[test]
fn toggle_task_pause_goes_by_the_status_of_the_task() {
    let mut snapshot = two_groups();
    snapshot.insert_task(task(3, "a", "default", TaskStatus::Paused { start: 1 }));
    snapshot.insert_task(task(4, "b", "default", TaskStatus::Stashed));
    snapshot.insert_task(task(
        5,
        "c",
        "default",
        TaskStatus::Done { start: 1, end: 2, result: lazypueue::state::TaskResult::Success },
    ));
    snapshot.insert_task(task(6, "d", "default", TaskStatus::Locked));
    let mut app = app_with(snapshot);

    let expect = |app: &mut App, group: &str, id: usize, operation: Operation, pause: bool| {
        select_task(app, group, id);
        let call = pending(app.handle_action(Action::ToggleTaskPause));
        assert_eq!(call.operation, operation);
        match &call.request {
            Request::Pause { tasks, wait } => {
                assert!(pause);
                assert!(!*wait);
                assert_eq!(ids(tasks), vec![id]);
            }
            Request::Start { tasks } => {
                assert!(!pause);
                assert_eq!(ids(tasks), vec![id]);
            }
            other => panic!("{:?}", other),
        }
    };
    expect(&mut app, "default", 1, Operation::StartTask, false);
    expect(&mut app, "build", 2, Operation::PauseTask, true);
    expect(&mut app, "default", 3, Operation::ResumeTask, false);
    expect(&mut app, "default", 4, Operation::StartTask, false);
    for id in [5, 6, 99] {
        select_task(&mut app, "default", id);
        assert!(matches!(app.handle_action(Action::ToggleTaskPause), Step::Continue));
    }
    assert!(is_refresh(app.resume(Operation::PauseTask, Err("no".to_string()))));
    assert_eq!(app.error_message.as_deref(), Some("Failed to pause task: no"));
    assert!(is_refresh(app.resume(Operation::ResumeTask, Ok(Reply::Done))));
}

#[test]
fn restart_submits_a_copy_of_the_task() {
    let mut app = app_with(two_groups());
    select_task(&mut app, "build", 2);
    let call = pending(app.handle_action(Action::RestartTask));
    assert_eq!(call.operation, Operation::Restart);
    match &call.request {
        Request::Restart(options) => {
            assert_eq!(options.command, "make");
            assert_eq!(options.path, b"/work".to_vec());
            assert_eq!(options.envs, vec![("A".to_string(), "1".to_string())]);
            assert_eq!(options.group, "build");
            assert_eq!(options.priority, Some(3));
            assert_eq!(options.label.as_deref(), Some("nightly"));
            assert!(!options.start_immediately);
            assert!(!options.stashed);
        }
        other => panic!("{:?}", other),
    }
    assert_eq!(app.state.as_ref().unwrap().find_task(2).unwrap().command, "make");
    assert!(is_refresh(app.resume(Operation::Restart, Ok(Reply::Added(3)))));
    assert!(is_refresh(app.resume(Operation::Restart, Ok(Reply::Done))));
    assert!(matches!(app.resume(Operation::Restart, Err("no".to_string())), Step::Continue));
    assert_eq!(app.error_message.as_deref(), Some("Failed to restart task: no"));
    select_task(&mut app, "build", 9);
    assert!(matches!(app.handle_action(Action::RestartTask), Step::Continue));
}

#[test]
fn clean_is_scoped_to_the_group_of_the_selection() {
    let mut app = app_with(two_groups());
    select_task(&mut app, "build", 2);
    let call = pending(app.handle_action(Action::CleanFinished));
    assert_eq!(call.operation, Operation::Clean);
    match &call.request {
        Request::Clean { successful_only, group } => {
            assert!(!*successful_only);
            assert_eq!(group.as_deref(), Some("build"));
        }
        other => panic!("{:?}", other),
    }
    assert!(is_refresh(app.resume(Operation::Clean, Err("x".to_string()))));
    assert_eq!(app.error_message.as_deref(), Some("Failed to clean tasks: x"));
    assert!(is_refresh(app.resume(Operation::Clean, Ok(Reply::Done))));
}

#[test]
fn switch_needs_a_neighbour_that_can_move() {
    let mut snapshot = Snapshot::new();
    snapshot.insert_group(group("default", GroupStatus::Running, 1));
    snapshot.insert_task(task(1, "a", "default", TaskStatus::Queued));
    snapshot.insert_task(task(4, "b", "default", TaskStatus::Stashed));
    snapshot.insert_task(task(6, "c", "default", TaskStatus::Running { start: 0 }));
    let mut app = app_with(snapshot);

    select_task(&mut app, "default", 4);
    let call = pending(app.handle_action(Action::SwitchUp));
    assert_eq!(call.operation, Operation::Switch);
    match &call.request {
        Request::Switch { task_id_1, task_id_2 } => assert_eq!((*task_id_1, *task_id_2), (4, 1)),
        other => panic!("{:?}", other),
    }
    assert!(matches!(app.handle_action(Action::SwitchDown), Step::Continue));
    select_task(&mut app, "default", 1);
    assert!(matches!(app.handle_action(Action::SwitchUp), Step::Continue));
    let call = pending(app.handle_action(Action::SwitchDown));
    match &call.request {
        Request::Switch { task_id_1, task_id_2 } => assert_eq!((*task_id_1, *task_id_2), (1, 4)),
        other => panic!("{:?}", other),
    }
    select_task(&mut app, "default", 6);
    assert!(matches!(app.handle_action(Action::SwitchUp), Step::Continue));
    assert!(matches!(app.handle_action(Action::SwitchDown), Step::Continue));
    app.selection = TreeSelection::Group("default".to_string());
    assert!(matches!(app.handle_action(Action::SwitchUp), Step::Continue));
}

#[test]
fn collapse_and_expand() {
    let mut app = app_with(two_groups());
    select_task(&mut app, "build", 2);
    app.handle_action(Action::CollapseGroup);
    assert_eq!(app.selection, TreeSelection::Group("build".to_string()));
    app.handle_action(Action::CollapseGroup);
    assert!(app.collapsed_groups.contains("build"));
    assert_eq!(app.get_tree_items().len(), 3);
    app.handle_action(Action::CollapseGroup);
    assert!(!app.collapsed_groups.contains("build"));
    app.handle_action(Action::CollapseGroup);
    assert!(matches!(app.handle_action(Action::ExpandGroup), Step::Continue));
    assert!(!app.collapsed_groups.contains("build"));
    assert_eq!(app.selection, TreeSelection::Group("build".to_string()));
    assert!(matches!(app.handle_action(Action::ExpandGroup), Step::Continue));
    assert_eq!(app.selection, TreeSelection::Task("build".to_string(), 2));
    let call = pending(app.handle_action(Action::ExpandGroup));
    assert_eq!(call.operation, Operation::OpenLogs);
    match &call.request {
        Request::Log { tasks, send_logs, lines } => {
            assert_eq!(ids(tasks), vec![2]);
            assert!(*send_logs);
            assert_eq!(*lines, None);
        }
        other => panic!("{:?}", other),
    }
}

#[test]
fn logs_open_follow_and_close() {
    let mut app = app_with(two_groups());
    assert!(matches!(app.handle_action(Action::ViewLogs), Step::Continue));
    assert!(matches!(app.handle_action(Action::FollowLogs), Step::Continue));
    select_task(&mut app, "build", 2);

    let call = pending(app.handle_action(Action::ViewLogs));
    assert_eq!(call.operation, Operation::OpenLogs);
    app.log_scroll = 9;
    assert!(matches!(app.resume(call.operation, Ok(Reply::Log("a\nb".to_string()))), Step::Continue));
    assert!(app.show_log_modal);
    assert_eq!(app.log_content.as_deref(), Some("a\nb"));
    assert_eq!(app.log_scroll, 0);
    assert!(!app.follow_mode);

    assert!(matches!(app.handle_action(Action::FollowLogs), Step::Continue));
    assert!(app.follow_mode);
    let tail = pending(app.refresh_logs());
    assert_eq!(tail.operation, Operation::TailLogs);
    app.resume(tail.operation, Ok(Reply::Log("a\nb\nc".to_string())));
    assert_eq!(app.log_content.as_deref(), Some("a\nb\nc"));
    assert_eq!(app.log_scroll, usize::MAX);
    app.resume(Operation::TailLogs, Err("lost".to_string()));
    assert!(app.error_message.is_none());
    assert_eq!(app.log_content.as_deref(), Some("a\nb\nc"));
    assert!(matches!(app.handle_action(Action::FollowLogs), Step::Continue));
    assert!(!app.follow_mode);
    assert!(matches!(app.refresh_logs(), Step::Continue));

    assert!(matches!(app.handle_action(Action::ViewLogs), Step::Continue));
    assert!(!app.show_log_modal);
    assert!(app.log_content.is_none());

    let call = pending(app.handle_action(Action::FollowLogs));
    assert_eq!(call.operation, Operation::FollowLogs);
    app.resume(call.operation, Ok(Reply::Log("x".to_string())));
    assert!(app.show_log_modal && app.follow_mode);
    assert_eq!(app.log_scroll, usize::MAX);
    app.handle_action(Action::CloseLogs);
    assert!(!app.show_log_modal && !app.follow_mode);
    assert!(app.log_content.is_none());
    assert_eq!(app.log_scroll, 0);

    app.resume(Operation::OpenLogs, Err("nope".to_string()));
    assert_eq!(app.error_message.as_deref(), Some("Failed to get logs: nope"));
    assert!(!app.show_log_modal);
}

#[test]
fn editing_a_task() {
    let mut app = app_with(two_groups());
    assert!(matches!(app.handle_action(Action::StartEditTask), Step::Continue));
    select_task(&mut app, "default", 1);
    let call = pending(app.handle_action(Action::StartEditTask));
    assert_eq!(call.operation, Operation::RequestEdit);
    match &call.request {
        Request::EditRequest(ids) => assert_eq!(ids, &vec![1]),
        other => panic!("{:?}", other),
    }
    let editable = EditableTask {
        id: 1,
        original_command: "echo hi".to_string(),
        path: b"/work".to_vec(),
        label: None,
        priority: 3,
    };
    assert!(matches!(
        app.resume(Operation::RequestEdit, Ok(Reply::Edit(editable.clone()))),
        Step::Continue
    ));
    assert_eq!(app.text_input.value().as_str(), "echo hi");
    assert_eq!(app.text_input.cursor(), 7);
    app.handle_action(Action::InputChar('!'));
    let call = pending(app.handle_action(Action::SubmitInput));
    assert_eq!(call.operation, Operation::SubmitEdit);
    match &call.request {
        Request::EditedTasks(tasks) => {
            assert_eq!(tasks.len(), 1);
            assert_eq!(tasks[0].id, 1);
            assert_eq!(tasks[0].original_command, "echo hi!");
            assert_eq!(tasks[0].path, b"/work".to_vec());
            assert_eq!(tasks[0].priority, 3);
        }
        other => panic!("{:?}", other),
    }
    assert!(app.input_mode.is_none());
    assert!(matches!(app.resume(Operation::SubmitEdit, Err("e".to_string())), Step::Continue));
    assert_eq!(app.error_message.as_deref(), Some("Failed to save edit: e"));

    app.resume(Operation::RequestEdit, Ok(Reply::Edit(editable)));
    let call = pending(app.handle_action(Action::CancelInput));
    assert_eq!(call.operation, Operation::RestoreEdit);
    match &call.request {
        Request::EditRestore(ids) => assert_eq!(ids, &vec![1]),
        other => panic!("{:?}", other),
    }
    assert!(app.input_mode.is_none());
    assert_eq!(app.text_input.value().as_str(), "");
    app.error_message = None;
    assert!(matches!(app.resume(Operation::RestoreEdit, Err("e".to_string())), Step::Continue));
    assert!(app.error_message.is_none());

    app.resume(Operation::RequestEdit, Err("locked".to_string()));
    assert_eq!(app.error_message.as_deref(), Some("Failed to edit task: locked"));
    assert!(app.input_mode.is_none());

    app.handle_action(Action::StartAddTask);
    app.handle_action(Action::InputChar('x'));
    assert!(matches!(app.handle_action(Action::CancelInput), Step::Continue));
    assert_eq!(app.text_input.value().as_str(), "");
    assert!(matches!(app.handle_action(Action::CancelInput), Step::Continue));
}

#[test]
fn text_keys_edit_the_buffer() {
    let mut app = App::new();
    for c in "abc".chars() {
        app.handle_action(Action::InputChar(c));
    }
    app.handle_action(Action::InputLeft);
    app.handle_action(Action::InputBackspace);
    assert_eq!(app.text_input.value().as_str(), "ac");
    app.handle_action(Action::InputDelete);
    assert_eq!(app.text_input.value().as_str(), "a");
    app.handle_action(Action::InputHome);
    assert_eq!(app.text_input.cursor(), 0);
    app.handle_action(Action::InputRight);
    assert_eq!(app.text_input.cursor(), 1);
    app.handle_action(Action::InputHome);
    app.handle_action(Action::InputEnd);
    assert_eq!(app.text_input.cursor(), 1);
}

#[test]
fn quit_and_refresh() {
    let mut app = App::new();
    assert!(matches!(app.handle_action(Action::Quit), Step::Quit));
    assert!(is_refresh(app.handle_action(Action::Refresh)));
    assert!(is_refresh(app.refresh()));
    let other = App::default();
    assert!(other.state.is_none());
    assert_eq!(other.get_selected_task_id(), None);
    assert_eq!(other.get_selected_group(), "default");
    assert!(other.get_task_list().is_empty());
    assert!(other.get_group_list().is_empty());
}

#[test]
fn lists_of_tasks_and_groups() {
    let mut app = app_with(two_groups());
    select_task(&mut app, "build", 2);
    assert_eq!(app.get_selected_task_id(), Some(2));
    assert_eq!(app.get_selected_group(), "build");
    let tasks: Vec<(usize, &str)> =
        app.get_task_list().iter().map(|(id, t)| (*id, t.command.as_str())).collect();
    assert_eq!(tasks, vec![(1, "echo hi"), (2, "make")]);
    assert_eq!(app.get_group_list(), vec!["default", "build"]);
    app.select_tree_item(&TreeItem::Group("default".to_string()));
    assert_eq!(app.selection, TreeSelection::Group("default".to_string()));
    app.selection = TreeSelection::Group("gone".to_string());
    app.validate_selection();
    assert_eq!(app.selection, TreeSelection::Group("default".to_string()));
}
