use lazypueue::app::{TreeItem, TreeSelection};
use lazypueue::names::NameSet;
use lazypueue::state::{Group, GroupStatus, Snapshot, Task, TaskStatus};
use lazypueue::tree::{
    first_task_in, group_list, move_to, position_of_selection, project, reconcile_selection,
};

fn group(name: &str) -> Group {
    Group { name: name.to_string(), status: GroupStatus::Running, parallel_tasks: 1 }
}

fn task(id: usize, group: &str) -> Task {
    Task {
        id,
        command: "true".to_string(),
        path: b"/".to_vec(),
        envs: vec![],
        group: group.to_string(),
        dependencies: vec![],
        priority: 0,
        label: None,
        created_at: 0,
        status: TaskStatus::Queued,
    }
}

fn header(name: &str) -> TreeItem {
    TreeItem::Group(name.to_string())
}

fn row(group: &str, id: usize) -> TreeItem {
    TreeItem::Task(group.to_string(), id)
}

fn sample() -> Snapshot {
    let mut snapshot = Snapshot::new();
    for name in ["zeta", "default", "alpha", "build"] {
        snapshot.insert_group(group(name));
    }
    for (id, name) in [(7, "build"), (2, "default"), (5, "alpha"), (1, "build"), (9, "default")] {
        snapshot.insert_task(task(id, name));
    }
    snapshot
}

#[test]
fn default_group_comes_first_then_the_others_by_name() {
    assert_eq!(group_list(&sample()), vec!["default", "alpha", "build", "zeta"]);
    let mut without_default = Snapshot::new();
    without_default.insert_group(group("b"));
    without_default.insert_group(group("a"));
    assert_eq!(group_list(&without_default), vec!["a", "b"]);
    assert!(group_list(&Snapshot::new()).is_empty());
}

#[test]
fn tree_lists_tasks_under_their_group_by_id() {
    let items = project(&sample(), &NameSet::new());
    assert_eq!(
        items,
        vec![
            header("default"),
            row("default", 2),
            row("default", 9),
            header("alpha"),
            row("alpha", 5),
            header("build"),
            row("build", 1),
            row("build", 7),
            header("zeta"),
        ]
    );
}

#[test]
fn folded_group_shows_its_header_only() {
    let mut folded = NameSet::new();
    folded.insert("build".to_string());
    folded.insert("gone".to_string());
    let items = project(&sample(), &folded);
    assert_eq!(
        items,
        vec![
            header("default"),
            row("default", 2),
            row("default", 9),
            header("alpha"),
            row("alpha", 5),
            header("build"),
            header("zeta"),
        ]
    );
}

#[test]
fn tasks_of_unknown_groups_have_no_row() {
    let mut snapshot = Snapshot::new();
    snapshot.insert_group(group("default"));
    snapshot.insert_task(task(1, "orphan"));
    assert_eq!(project(&snapshot, &NameSet::new()), vec![header("default")]);
    assert!(project(&Snapshot::new(), &NameSet::new()).is_empty());
}

#[test]
fn position_is_the_index_of_the_selection() {
    let items = project(&sample(), &NameSet::new());
    let at = |s: TreeSelection| position_of_selection(&s, &items);
    assert_eq!(at(TreeSelection::Group("default".to_string())), Some(0));
    assert_eq!(at(TreeSelection::Task("build".to_string(), 7)), Some(7));
    assert_eq!(at(TreeSelection::Group("zeta".to_string())), Some(8));
    assert_eq!(at(TreeSelection::Task("build".to_string(), 2)), None);
    assert_eq!(at(TreeSelection::Task("default".to_string(), 3)), None);
    assert_eq!(at(TreeSelection::Group("none".to_string())), None);
}

#[test]
fn move_to_selects_the_item() {
    assert_eq!(move_to(&header("build")), TreeSelection::Group("build".to_string()));
    assert_eq!(move_to(&row("build", 4)), TreeSelection::Task("build".to_string(), 4));
}

#[test]
fn reconcile_keeps_what_is_there_and_resets_what_is_not() {
    let items = project(&sample(), &NameSet::new());
    let kept = reconcile_selection(TreeSelection::Task("alpha".to_string(), 5), &items);
    assert_eq!(kept, TreeSelection::Task("alpha".to_string(), 5));
    let reset = reconcile_selection(TreeSelection::Task("alpha".to_string(), 6), &items);
    assert_eq!(reset, TreeSelection::Group("default".to_string()));
    let empty: Vec<TreeItem> = Vec::new();
    let fallback = reconcile_selection(TreeSelection::Task("alpha".to_string(), 5), &empty);
    assert_eq!(fallback, TreeSelection::Group("default".to_string()));
}

#[test]
fn reconcile_twice_is_reconcile_once() {
    let items = project(&sample(), &NameSet::new());
    for selection in [
        TreeSelection::Task("alpha".to_string(), 6),
        TreeSelection::Task("build".to_string(), 1),
        TreeSelection::Group("gone".to_string()),
    ] {
        let once = reconcile_selection(selection, &items);
        let twice = reconcile_selection(once.clone(), &items);
        assert_eq!(once, twice);
        assert!(position_of_selection(&twice, &items).is_some());
    }
}

#[test]
fn first_task_is_the_lowest_id_of_the_group() {
    let snapshot = sample();
    assert_eq!(first_task_in(&snapshot, "build"), Some(1));
    assert_eq!(first_task_in(&snapshot, "default"), Some(2));
    assert_eq!(first_task_in(&snapshot, "zeta"), None);
}
