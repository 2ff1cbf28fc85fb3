use lazypueue::pueue_client::{
    add, clean, edit_request, edit_restore, edit_submit, enqueue, get_log, get_state, interpret,
    interpret_response, kill, log_shown, parallel, pause, pause_group, pause_tasks, read_log,
    remove, restart, start, start_group, start_tasks, stash, switch, EditableTask, Exchange,
    Reply, Request, Response, RestartOptions, TaskLog, TaskSelection,
};
use lazypueue::state::Snapshot;

fn editable(id: usize, command: &str) -> EditableTask {
    EditableTask {
        id,
        original_command: command.to_string(),
        path: b"/".to_vec(),
        label: None,
        priority: 0,
    }
}

fn no_log() -> String {
    ["(No log found for this", "task)"].join(" ")
}

fn options() -> RestartOptions {
    RestartOptions {
        command: "make".to_string(),
        path: b"/src".to_vec(),
        envs: vec![],
        group: "build".to_string(),
        priority: Some(1),
        label: None,
        start_immediately: false,
        stashed: false,
    }
}

fn all_requests() -> Vec<(Request, &'static str)> {
    vec![
        (get_state(), "Daemon error: "),
        (kill(vec![1]), "Failed to kill task: "),
        (pause(), "Failed to pause daemon: "),
        (start(), "Failed to start daemon: "),
        (pause_group("build"), "Failed to pause daemon: "),
        (start_group("build"), "Failed to start daemon: "),
        (get_log(1), "Failed to get log: "),
        (restart(options()), "Failed to restart task: "),
        (clean(false, None), "Failed to clean tasks: "),
        (add("ls".to_string(), "default"), "Failed to add task: "),
        (remove(vec![1]), "Failed to remove task: "),
        (pause_tasks(vec![1]), "Failed to pause task: "),
        (start_tasks(vec![1]), "Failed to start task: "),
        (edit_request(1), "Failed to edit task: "),
        (edit_restore(1), "Failed to restore task: "),
        (edit_submit(editable(1, "ls")), "Failed to submit edit: "),
        (stash(vec![1]), "Failed to stash task: "),
        (enqueue(vec![1]), "Failed to enqueue task: "),
        (switch(1, 2), "Failed to switch tasks: "),
        (parallel("build", 2), "Failed to set parallel limit: "),
    ]
}

#[test]
fn requests_carry_their_arguments() {
    assert!(matches!(get_state(), Request::Status));
    assert!(matches!(kill(vec![4, 5]), Request::Kill { tasks: TaskSelection::TaskIds(ids) } if ids == vec![4, 5]));
    assert!(matches!(pause(), Request::Pause { tasks: TaskSelection::Group(g), wait: false } if g == "default"));
    assert!(matches!(start(), Request::Start { tasks: TaskSelection::Group(g) } if g == "default"));
    assert!(matches!(pause_group("b"), Request::Pause { tasks: TaskSelection::Group(g), wait: false } if g == "b"));
    assert!(matches!(start_group("b"), Request::Start { tasks: TaskSelection::Group(g) } if g == "b"));
    assert!(matches!(get_log(9), Request::Log { tasks: TaskSelection::TaskIds(ids), send_logs: true, lines: None } if ids == vec![9]));
    assert!(matches!(restart(options()), Request::Restart(o) if o.command == "make" && o.group == "build"));
    assert!(matches!(clean(true, Some("b")), Request::Clean { successful_only: true, group: Some(g) } if g == "b"));
    assert!(matches!(clean(false, None), Request::Clean { successful_only: false, group: None }));
    assert!(matches!(
        add("ls".to_string(), "b"),
        Request::Add {
            command,
            envs,
            group,
            start_immediately: false,
            stashed: false,
            dependencies,
            priority: None,
            label: None,
        } if command == "ls" && group == "b" && envs.is_empty() && dependencies.is_empty()
    ));
    assert!(matches!(remove(vec![3]), Request::Remove(ids) if ids == vec![3]));
    assert!(matches!(pause_tasks(vec![3]), Request::Pause { tasks: TaskSelection::TaskIds(ids), wait: false } if ids == vec![3]));
    assert!(matches!(start_tasks(vec![3]), Request::Start { tasks: TaskSelection::TaskIds(ids) } if ids == vec![3]));
    assert!(matches!(edit_request(3), Request::EditRequest(ids) if ids == vec![3]));
    assert!(matches!(edit_restore(3), Request::EditRestore(ids) if ids == vec![3]));
    assert!(matches!(edit_submit(editable(3, "x")), Request::EditedTasks(t) if t.len() == 1 && t[0].id == 3 && t[0].original_command == "x"));
    assert!(matches!(stash(vec![3]), Request::Stash { tasks: TaskSelection::TaskIds(ids) } if ids == vec![3]));
    assert!(matches!(enqueue(vec![3]), Request::Enqueue { tasks: TaskSelection::TaskIds(ids) } if ids == vec![3]));
    assert!(matches!(switch(3, 4), Request::Switch { task_id_1: 3, task_id_2: 4 }));
    assert!(matches!(parallel("b", 7), Request::Parallel { parallel_tasks: 7, group } if group == "b"));
}

#[test]
fn refusal_is_reported_under_the_name_of_the_operation() {
    for (request, prefix) in all_requests() {
        let outcome = interpret_response(&request, Response::Failure("no".to_string()));
        assert_eq!(outcome.unwrap_err(), format!("{}no", prefix), "{:?}", request);
    }
}

#[test]
fn answer_of_another_kind_is_a_failure() {
    for (request, _) in all_requests() {
        let outcome = interpret_response(&request, Response::Other);
        assert_eq!(outcome.unwrap_err(), "Unexpected response from daemon", "{:?}", request);
        let expects_payload = matches!(
            request,
            Request::Status | Request::Log { .. } | Request::Add { .. } | Request::EditRequest(_)
        );
        let outcome = interpret_response(&request, Response::Success("ok".to_string()));
        if expects_payload {
            assert_eq!(outcome.unwrap_err(), "Unexpected response from daemon");
        } else {
            assert!(matches!(outcome, Ok(Reply::Done)), "{:?}", request);
        }
        if !matches!(request, Request::Status) {
            let outcome = interpret_response(&request, Response::Status(Snapshot::new()));
            assert_eq!(outcome.unwrap_err(), "Unexpected response from daemon");
        }
        if !matches!(request, Request::Add { .. } | Request::Restart(_)) {
            let outcome = interpret_response(&request, Response::AddedTask(1));
            assert_eq!(outcome.unwrap_err(), "Unexpected response from daemon");
        }
        if !matches!(request, Request::Log { .. }) {
            let outcome = interpret_response(&request, Response::Log(vec![]));
            assert_eq!(outcome.unwrap_err(), "Unexpected response from daemon");
        }
        if !matches!(request, Request::EditRequest(_)) {
            let outcome = interpret_response(&request, Response::Edit(vec![editable(1, "x")]));
            assert_eq!(outcome.unwrap_err(), "Unexpected response from daemon");
        }
    }
}

#[test]
fn payloads_are_handed_back() {
    let outcome = interpret_response(&get_state(), Response::Status(Snapshot::new()));
    assert!(matches!(outcome, Ok(Reply::Status(s)) if s.tasks().is_empty()));
    let outcome = interpret_response(&add("ls".to_string(), "default"), Response::AddedTask(12));
    assert!(matches!(outcome, Ok(Reply::Added(12))));
    let outcome = interpret_response(&restart(options()), Response::AddedTask(13));
    assert!(matches!(outcome, Ok(Reply::Added(13))));
    let outcome = interpret_response(&restart(options()), Response::Success("ok".to_string()));
    assert!(matches!(outcome, Ok(Reply::Done)));
    let outcome = interpret_response(
        &edit_request(2),
        Response::Edit(vec![editable(1, "first"), editable(2, "last")]),
    );
    assert!(matches!(outcome, Ok(Reply::Edit(t)) if t.id == 2 && t.original_command == "last"));
    let outcome = interpret_response(&edit_request(2), Response::Edit(vec![]));
    assert_eq!(outcome.unwrap_err(), "No task returned for editing");
}

#[test]
fn log_text_is_decoded_leniently() {
    let logs = vec![
        TaskLog { task_id: 1, output: Some(b"hello\nworld".to_vec()) },
        TaskLog { task_id: 2, output: None },
        TaskLog { task_id: 3, output: Some(vec![b'a', 0xFF, b'b']) },
        TaskLog { task_id: 4, output: Some("gr\u{fc}n".as_bytes().to_vec()) },
    ];
    assert_eq!(read_log(&logs, 1), "hello\nworld");
    assert_eq!(read_log(&logs, 2), "(No output)");
    assert_eq!(read_log(&logs, 3), "a\u{FFFD}b");
    assert_eq!(read_log(&logs, 4), "gr\u{fc}n");
    assert_eq!(read_log(&logs, 5), no_log());
    assert_eq!(log_shown(true, Some("x".to_string())), "x");
    assert_eq!(log_shown(true, None), "(No output)");
    assert_eq!(log_shown(false, Some("x".to_string())), no_log());

    let outcome = interpret_response(&get_log(3), Response::Log(logs));
    assert!(matches!(outcome, Ok(Reply::Log(text)) if text == "a\u{FFFD}b"));
    let outcome = interpret_response(&get_log(3), Response::Log(vec![]));
    assert!(matches!(outcome, Ok(Reply::Log(text)) if text == no_log()));
}

#[test]
fn transport_failures_are_passed_on() {
    let outcome = interpret(&get_state(), Exchange::SendFailed("broken pipe".to_string()));
    assert_eq!(outcome.unwrap_err(), "broken pipe");
    let outcome = interpret(&get_state(), Exchange::ReceiveFailed("eof".to_string()));
    assert_eq!(outcome.unwrap_err(), "Failed to receive response: eof");
    let outcome = interpret(&kill(vec![1]), Exchange::ReceiveFailed("eof".to_string()));
    assert_eq!(outcome.unwrap_err(), "eof");
    let outcome = interpret(&kill(vec![1]), Exchange::SendFailed("x".to_string()));
    assert_eq!(outcome.unwrap_err(), "x");
    let outcome =
        interpret(&kill(vec![1]), Exchange::Received(Response::Success("done".to_string())));
    assert!(matches!(outcome, Ok(Reply::Done)));
    let outcome = interpret(&kill(vec![1]), Exchange::Received(Response::Failure("f".to_string())));
    assert_eq!(outcome.unwrap_err(), "Failed to kill task: f");
}
