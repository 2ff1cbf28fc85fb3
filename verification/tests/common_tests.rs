use lazypueue::names::NameSet;
use lazypueue::state::{Group, GroupStatus, Snapshot, Task, TaskStatus};
use lazypueue::text::{
    char_is_space, decimal, decimal_signed, rank, same_text, str_is_blank, Rank,
};

fn group(name: &str, status: GroupStatus, parallel_tasks: usize) -> Group {
    Group { name: name.to_string(), status, parallel_tasks }
}

fn task(id: usize, command: &str, group: &str, status: TaskStatus) -> Task {
    Task {
        id,
        command: command.to_string(),
        path: b"/tmp".to_vec(),
        envs: vec![("HOME".to_string(), "/root".to_string())],
        group: group.to_string(),
        dependencies: vec![],
        priority: 0,
        label: None,
        created_at: 0,
        status,
    }
}

#[test]
fn white_space_is_what_std_trims() {
    let mut code: u32 = 0;
    while code <= 0x10FFFF {
        if let Some(c) = char::from_u32(code) {
            assert_eq!(char_is_space(c), c.is_whitespace(), "U+{:04X}", code);
        }
        code += 1;
    }
}

#[test]
fn blank_is_empty_after_trim() {
    for s in ["", " ", "\t\n ", "a", " a ", "\u{3000}", "\u{2003}x", "sleep 5"] {
        assert_eq!(str_is_blank(s), s.trim().is_empty(), "{:?}", s);
    }
}

#[test]
fn rank_orders_names_as_std_does() {
    let names = ["", "a", "ab", "b", "default", "build", "Default", "zz", "é", "z", "日本"];
    for a in names {
        for b in names {
            let expected = match a.cmp(b) {
                std::cmp::Ordering::Less => Rank::Before,
                std::cmp::Ordering::Equal => Rank::Same,
                std::cmp::Ordering::Greater => Rank::After,
            };
            assert_eq!(rank(a, b), expected, "{:?} {:?}", a, b);
            assert_eq!(same_text(a, b), a == b);
        }
    }
}

#[test]
fn decimal_writes_numbers() {
    assert_eq!(decimal(0), "0");
    assert_eq!(decimal(7), "7");
    assert_eq!(decimal(10), "10");
    assert_eq!(decimal(1234567890), "1234567890");
    assert_eq!(decimal(u64::MAX), u64::MAX.to_string());
    assert_eq!(decimal_signed(0), "0");
    assert_eq!(decimal_signed(-7), "-7");
    assert_eq!(decimal_signed(i64::MIN), i64::MIN.to_string());
    assert_eq!(decimal_signed(i64::MAX), i64::MAX.to_string());
}

#[test]
fn name_set_is_a_set() {
    let mut set = NameSet::new();
    assert!(!set.contains("build"));
    set.insert("build".to_string());
    set.insert("build".to_string());
    set.insert("test".to_string());
    assert!(set.contains("build"));
    assert!(set.contains("test"));
    set.remove("build");
    assert!(!set.contains("build"));
    assert!(set.contains("test"));
    set.remove("absent");
    assert!(set.contains("test"));
}

#[test]
fn snapshot_keeps_tasks_and_groups_in_order() {
    let mut snapshot = Snapshot::new();
    snapshot.insert_group(group("default", GroupStatus::Running, 1));
    snapshot.insert_group(group("build", GroupStatus::Paused, 2));
    snapshot.insert_group(group("zeta", GroupStatus::Running, 3));
    snapshot.insert_group(group("build", GroupStatus::Running, 4));
    let names: Vec<&str> = snapshot.groups().iter().map(|g| g.name.as_str()).collect();
    assert_eq!(names, vec!["build", "default", "zeta"]);
    assert_eq!(snapshot.find_group("build").unwrap().parallel_tasks, 4);
    assert_eq!(snapshot.find_group("build").unwrap().status, GroupStatus::Running);
    assert!(snapshot.find_group("none").is_none());

    snapshot.insert_task(task(5, "five", "default", TaskStatus::Queued));
    snapshot.insert_task(task(1, "one", "build", TaskStatus::Stashed));
    snapshot.insert_task(task(3, "three", "default", TaskStatus::Queued));
    snapshot.insert_task(task(3, "drei", "default", TaskStatus::Locked));
    let ids: Vec<usize> = snapshot.tasks().iter().map(|t| t.id).collect();
    assert_eq!(ids, vec![1, 3, 5]);
    assert_eq!(snapshot.find_task(3).unwrap().command, "drei");
    assert_eq!(snapshot.find_task(3).unwrap().status, TaskStatus::Locked);
    assert_eq!(snapshot.task_position(5), Some(2));
    assert_eq!(snapshot.task_position(4), None);
    assert!(snapshot.find_task(2).is_none());

    let copy = snapshot.clone();
    assert_eq!(copy.tasks().len(), 3);
    assert_eq!(copy.groups().len(), 3);
    assert_eq!(copy.find_task(1).unwrap().envs, vec![("HOME".to_string(), "/root".to_string())]);
}
