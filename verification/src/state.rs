//! The daemon's tasks and groups as the controller last saw them.

use vstd::prelude::*;

use crate::text::{
    copy_bytes, copy_ids, copy_label, copy_pairs, lemma_lex_asymmetric, lemma_lex_irreflexive, lemma_lex_total,
    lemma_lex_transitive, lex_lt, rank, Rank,
};

verus! {

/// How a finished task ended.
#[derive(Debug, Clone, Copy, PartialEq, Eq, Structural)]
pub enum TaskResult {
    Success,
    Failed(i32),
    FailedToSpawn,
    Killed,
    Errored,
    DependencyFailed,
}

/// Where a task stands in its life. Times are seconds since the Unix epoch.
#[derive(Debug, Clone, Copy, PartialEq, Eq, Structural)]
pub enum TaskStatus {
    Locked,
    Stashed,
    Queued,
    Running { start: i64 },
    Paused { start: i64 },
    Done { start: i64, end: i64, result: TaskResult },
}

/// Whether a group runs its tasks.
#[derive(Debug, Clone, Copy, PartialEq, Eq, Structural)]
pub enum GroupStatus {
    Running,
    Paused,
    Reset,
}

/// One task of the daemon. The path is held as the bytes that the system
/// knows it by, which need be no text.
#[derive(Debug)]
pub struct Task {
    pub id: usize,
    pub command: String,
    pub path: Vec<u8>,
    pub envs: Vec<(String, String)>,
    pub group: String,
    pub dependencies: Vec<usize>,
    pub priority: i32,
    pub label: Option<String>,
    pub created_at: i64,
    pub status: TaskStatus,
}

/// A task as a value.
pub struct TaskView {
    pub id: usize,
    pub command: Seq<char>,
    pub path: Seq<u8>,
    pub envs: Seq<(Seq<char>, Seq<char>)>,
    pub group: Seq<char>,
    pub dependencies: Seq<usize>,
    pub priority: i32,
    pub label: Option<Seq<char>>,
    pub created_at: i64,
    pub status: TaskStatus,
}

impl View for Task {
    type V = TaskView;

    open spec fn view(&self) -> TaskView {
        TaskView {
            id: self.id,
            command: self.command@,
            path: self.path@,
            envs: self.envs.deep_view(),
            group: self.group@,
            dependencies: self.dependencies@,
            priority: self.priority,
            label: self.label.deep_view(),
            created_at: self.created_at,
            status: self.status,
        }
    }
}

impl DeepView for Task {
    type V = TaskView;

    open spec fn deep_view(&self) -> TaskView {
        self@
    }
}

impl Clone for Task {
    fn clone(&self) -> (copy: Self)
        ensures
            copy@ == self@,
    {
        Task {
            id: self.id,
            command: self.command.clone(),
            path: copy_bytes(&self.path),
            envs: copy_pairs(&self.envs),
            group: self.group.clone(),
            dependencies: copy_ids(&self.dependencies),
            priority: self.priority,
            label: copy_label(&self.label),
            created_at: self.created_at,
            status: self.status,
        }
    }
}

/// One group of the daemon, under its name.
#[derive(Debug)]
pub struct Group {
    pub name: String,
    pub status: GroupStatus,
    pub parallel_tasks: usize,
}

/// A group as a value.
pub struct GroupView {
    pub name: Seq<char>,
    pub status: GroupStatus,
    pub parallel_tasks: usize,
}

impl View for Group {
    type V = GroupView;

    open spec fn view(&self) -> GroupView {
        GroupView { name: self.name@, status: self.status, parallel_tasks: self.parallel_tasks }
    }
}

impl DeepView for Group {
    type V = GroupView;

    open spec fn deep_view(&self) -> GroupView {
        self@
    }
}

impl Clone for Group {
    fn clone(&self) -> (copy: Self)
        ensures
            copy@ == self@,
    {
        Group { name: self.name.clone(), status: self.status, parallel_tasks: self.parallel_tasks }
    }
}

/// A snapshot as a value: the tasks in the order of their ids, the groups in
/// the order of their names.
pub struct SnapshotView {
    pub tasks: Seq<TaskView>,
    pub groups: Seq<GroupView>,
}

/// No task comes twice, and the tasks stand in the order of their ids.
pub open spec fn tasks_ascend(tasks: Seq<TaskView>) -> bool {
    forall|i: int, j: int| 0 <= i < j < tasks.len() ==> tasks[i].id < tasks[j].id
}

/// No group comes twice, and the groups stand in the order of their names.
pub open spec fn groups_ascend(groups: Seq<GroupView>) -> bool {
    forall|i: int, j: int| 0 <= i < j < groups.len() ==> lex_lt(groups[i].name, groups[j].name)
}

/// The number of tasks whose id is below `id`: the place of `id` in the order.
pub open spec fn task_slot(tasks: Seq<TaskView>, id: usize) -> int
    decreases tasks.len(),
{
    if tasks.len() == 0 {
        0
    } else {
        task_slot(tasks.drop_last(), id) + if tasks.last().id < id {
            1int
        } else {
            0int
        }
    }
}

/// The number of groups whose name comes before `name`: the place of `name` in
/// the order.
pub open spec fn group_slot(groups: Seq<GroupView>, name: Seq<char>) -> int
    decreases groups.len(),
{
    if groups.len() == 0 {
        0
    } else {
        group_slot(groups.drop_last(), name) + if lex_lt(groups.last().name, name) {
            1int
        } else {
            0int
        }
    }
}

/// `tasks` with `task` in the place of the task of its id, or, where none has
/// it, put in where the order of ids wants it.
pub open spec fn with_task(tasks: Seq<TaskView>, task: TaskView, at: int) -> Seq<TaskView> {
    if at < tasks.len() && tasks[at].id == task.id {
        tasks.update(at, task)
    } else {
        tasks.insert(at, task)
    }
}

/// `groups` with `group` in the place of the group of its name, or, where none
/// has it, put in where the order of names wants it.
pub open spec fn with_group(groups: Seq<GroupView>, group: GroupView, at: int) -> Seq<GroupView> {
    if at < groups.len() && groups[at].name == group.name {
        groups.update(at, group)
    } else {
        groups.insert(at, group)
    }
}

impl SnapshotView {
    /// Tasks and groups are each in order, which makes ids and names unique.
    pub open spec fn well_formed(self) -> bool {
        &&& tasks_ascend(self.tasks)
        &&& groups_ascend(self.groups)
    }

    /// The snapshot that holds nothing.
    pub open spec fn empty() -> SnapshotView {
        SnapshotView { tasks: Seq::empty(), groups: Seq::empty() }
    }

    /// The names of the groups, in their order.
    pub open spec fn group_names(self) -> Seq<Seq<char>> {
        Seq::new(self.groups.len(), |i: int| self.groups[i].name)
    }

    /// Where the task of this id stands, if there is one.
    pub open spec fn task_index(self, id: usize) -> Option<int> {
        if exists|i: int| 0 <= i < self.tasks.len() && self.tasks[i].id == id {
            Some(choose|i: int| 0 <= i < self.tasks.len() && self.tasks[i].id == id)
        } else {
            None
        }
    }

    /// The task of this id, if there is one.
    pub open spec fn task(self, id: usize) -> Option<TaskView> {
        match self.task_index(id) {
            Some(i) => Some(self.tasks[i]),
            None => None,
        }
    }

    /// The group of this name, if there is one.
    pub open spec fn group(self, name: Seq<char>) -> Option<GroupView> {
        if exists|i: int| 0 <= i < self.groups.len() && self.groups[i].name == name {
            Some(self.groups[choose|i: int| 0 <= i < self.groups.len() && self.groups[i].name == name])
        } else {
            None
        }
    }

    /// The snapshot after `task` was put in.
    pub open spec fn insert_task(self, task: TaskView) -> SnapshotView {
        SnapshotView {
            tasks: with_task(self.tasks, task, task_slot(self.tasks, task.id)),
            groups: self.groups,
        }
    }

    /// The snapshot after `group` was put in.
    pub open spec fn insert_group(self, group: GroupView) -> SnapshotView {
        SnapshotView {
            tasks: self.tasks,
            groups: with_group(self.groups, group, group_slot(self.groups, group.name)),
        }
    }
}

/// In a list split at `at` into ids below `id` and ids not below it, `at` is
/// the place of `id`.
proof fn lemma_task_slot(tasks: Seq<TaskView>, id: usize, at: int)
    requires
        0 <= at <= tasks.len(),
        forall|i: int| 0 <= i < at ==> tasks[i].id < id,
        forall|i: int| at <= i < tasks.len() ==> tasks[i].id >= id,
    ensures
        task_slot(tasks, id) == at,
    decreases tasks.len(),
{
    if tasks.len() > 0 {
        let rest = tasks.drop_last();
        if at == tasks.len() {
            lemma_task_slot(rest, id, at - 1);
        } else {
            lemma_task_slot(rest, id, at);
        }
    }
}

/// In a list split at `at` into names before `name` and names not before it,
/// `at` is the place of `name`.
proof fn lemma_group_slot(groups: Seq<GroupView>, name: Seq<char>, at: int)
    requires
        0 <= at <= groups.len(),
        forall|i: int| 0 <= i < at ==> lex_lt(groups[i].name, name),
        forall|i: int| at <= i < groups.len() ==> !lex_lt(groups[i].name, name),
    ensures
        group_slot(groups, name) == at,
    decreases groups.len(),
{
    if groups.len() > 0 {
        let rest = groups.drop_last();
        if at == groups.len() {
            lemma_group_slot(rest, name, at - 1);
        } else {
            lemma_group_slot(rest, name, at);
        }
    }
}

/// The tasks and groups of the daemon at one moment, each kept in order.
#[derive(Debug)]
pub struct Snapshot {
    tasks: Vec<Task>,
    groups: Vec<Group>,
}

impl View for Snapshot {
    type V = SnapshotView;

    closed spec fn view(&self) -> SnapshotView {
        SnapshotView { tasks: self.tasks.deep_view(), groups: self.groups.deep_view() }
    }
}

impl Snapshot {
    #[verifier::type_invariant]
    spec fn in_order(self) -> bool {
        self@.well_formed()
    }

    /// A snapshot without tasks or groups.
    pub fn new() -> (snapshot: Self)
        ensures
            snapshot@ == SnapshotView::empty(),
    {
        let snapshot = Snapshot { tasks: Vec::new(), groups: Vec::new() };
        assert(snapshot@.tasks =~= Seq::empty());
        assert(snapshot@.groups =~= Seq::empty());
        snapshot
    }

    /// The tasks, in the order of their ids.
    pub fn tasks(&self) -> (tasks: &Vec<Task>)
        ensures
            tasks.deep_view() == self@.tasks,
            self@.well_formed(),
    {
        proof {
            use_type_invariant(self);
        }
        &self.tasks
    }

    /// The groups, in the order of their names.
    pub fn groups(&self) -> (groups: &Vec<Group>)
        ensures
            groups.deep_view() == self@.groups,
            self@.well_formed(),
    {
        proof {
            use_type_invariant(self);
        }
        &self.groups
    }

    /// Where the task of this id stands among the tasks.
    pub fn task_position(&self, id: usize) -> (found: Option<usize>)
        ensures
            match found {
                Some(at) => self@.task_index(id) == Some(at as int) && at < self@.tasks.len()
                    && self@.tasks[at as int].id == id,
                None => self@.task_index(id) is None,
            },
    {
        let mut i: usize = 0;
        while i < self.tasks.len()
            invariant
                i <= self.tasks.len(),
                forall|j: int| 0 <= j < i ==> self.tasks@[j].id != id,
            decreases self.tasks.len() - i,
        {
            if self.tasks[i].id == id {
                proof {
                    use_type_invariant(self);
                    assert(self@.tasks[i as int].id == id);
                    let k = choose|k: int| 0 <= k < self@.tasks.len() && self@.tasks[k].id == id;
                    assert(self@.tasks[k] == self.tasks@[k]@);
                    assert(k == i);
                }
                return Some(i);
            }
            i += 1;
        }
        proof {
            assert forall|k: int| 0 <= k < self@.tasks.len() implies self@.tasks[k].id != id by {
                assert(self@.tasks[k] == self.tasks@[k]@);
            }
        }
        None
    }

    /// The task of this id.
    pub fn find_task(&self, id: usize) -> (found: Option<&Task>)
        ensures
            found.deep_view() == self@.task(id),
    {
        match self.task_position(id) {
            Some(at) => {
                assert(self@.tasks[at as int] == self.tasks@[at as int]@);
                Some(&self.tasks[at])
            },
            None => None,
        }
    }

    /// The group of this name.
    pub fn find_group(&self, name: &str) -> (found: Option<&Group>)
        ensures
            found.deep_view() == self@.group(name@),
    {
        proof {
            use_type_invariant(self);
        }
        let mut i: usize = 0;
        while i < self.groups.len()
            invariant
                i <= self.groups.len(),
                forall|j: int| 0 <= j < i ==> self.groups@[j].name@ != name@,
            decreases self.groups.len() - i,
        {
            if rank(self.groups[i].name.as_str(), name) == Rank::Same {
                proof {
                    use_type_invariant(self);
                    assert(self@.groups[i as int].name == name@);
                    let k = choose|k: int|
                        0 <= k < self@.groups.len() && self@.groups[k].name == name@;
                    assert(self@.groups[k] == self.groups@[k]@);
                    if k > i {
                        lemma_lex_asymmetric(self@.groups[i as int].name, self@.groups[k].name);
                    }
                    assert(k == i);
                }
                return Some(&self.groups[i]);
            }
            i += 1;
        }
        proof {
            assert forall|k: int| 0 <= k < self@.groups.len() implies self@.groups[k].name
                != name@ by {
                assert(self@.groups[k] == self.groups@[k]@);
            }
        }
        None
    }

    /// Puts `task` in: in the place of the task of its id, or, where none has
    /// it, where the order of ids wants it.
    pub fn insert_task(&mut self, task: Task)
        ensures
            final(self)@ == old(self)@.insert_task(task@),
    {
        proof {
            use_type_invariant(&*self);
        }
        let mut at: usize = 0;
        while at < self.tasks.len() && self.tasks[at].id < task.id
            invariant
                at <= self.tasks.len(),
                forall|j: int| 0 <= j < at ==> self.tasks@[j].id < task.id,
            decreases self.tasks.len() - at,
        {
            at += 1;
        }
        let ghost before = self@.tasks;
        proof {
            assert forall|j: int| 0 <= j < at implies before[j].id < task.id by {
                assert(before[j] == self.tasks@[j]@);
            }
            assert forall|j: int| at <= j < before.len() implies before[j].id >= task.id by {
                assert(before[at as int] == self.tasks@[at as int]@);
            }
            lemma_task_slot(before, task.id, at as int);
        }
        let mut tasks: Vec<Task> = Vec::new();
        core::mem::swap(&mut self.tasks, &mut tasks);
        if at < tasks.len() && tasks[at].id == task.id {
            proof {
                assert(before[at as int] == tasks@[at as int]@);
            }
            tasks.set(at, task);
            assert(tasks.deep_view() =~= before.update(at as int, task@));
        } else {
            proof {
                if at < tasks.len() {
                    assert(before[at as int] == tasks@[at as int]@);
                }
            }
            tasks.insert(at, task);
            assert(tasks.deep_view() =~= before.insert(at as int, task@));
        }
        self.tasks = tasks;
    }

    /// Puts `group` in: in the place of the group of its name, or, where none
    /// has it, where the order of names wants it.
    pub fn insert_group(&mut self, group: Group)
        ensures
            final(self)@ == old(self)@.insert_group(group@),
    {
        proof {
            use_type_invariant(&*self);
        }
        let mut at: usize = 0;
        let mut found: Rank = Rank::After;
        while at < self.groups.len()
            invariant
                at <= self.groups.len(),
                forall|j: int| 0 <= j < at ==> lex_lt(self.groups@[j].name@, group.name@),
            ensures
                at <= self.groups.len(),
                forall|j: int| 0 <= j < at ==> lex_lt(self.groups@[j].name@, group.name@),
                at < self.groups.len() ==> (found == Rank::Same <==> self.groups@[at as int].name@
                    == group.name@),
                at < self.groups.len() ==> (found == Rank::After <==> lex_lt(
                    group.name@,
                    self.groups@[at as int].name@,
                )),
                at < self.groups.len() ==> found != Rank::Before,
            decreases self.groups.len() - at,
        {
            found = rank(self.groups[at].name.as_str(), group.name.as_str());
            if found != Rank::Before {
                break;
            }
            at += 1;
        }
        let ghost before = self@.groups;
        proof {
            assert forall|j: int| 0 <= j < before.len() implies before[j] == self.groups@[j]@ by {}
            if at < before.len() {
                lemma_lex_total(before[at as int].name, group.name@);
                if found == Rank::After {
                    lemma_lex_asymmetric(group.name@, before[at as int].name);
                } else {
                    lemma_lex_irreflexive(group.name@);
                }
            }
            assert forall|i: int| at <= i < before.len() implies !lex_lt(
                before[i].name,
                group.name@,
            ) by {
                if i > at && lex_lt(before[i].name, group.name@) {
                    lemma_lex_transitive(before[at as int].name, before[i].name, group.name@);
                }
            }
            lemma_group_slot(before, group.name@, at as int);
        }
        let mut groups: Vec<Group> = Vec::new();
        core::mem::swap(&mut self.groups, &mut groups);
        if at < groups.len() && found == Rank::Same {
            groups.set(at, group);
            assert(groups.deep_view() =~= before.update(at as int, group@));
        } else {
            proof {
                assert forall|i: int| at <= i < before.len() implies lex_lt(
                    group.name@,
                    #[trigger] before[i].name,
                ) by {
                    if i > at {
                        lemma_lex_transitive(group.name@, before[at as int].name, before[i].name);
                    }
                }
            }
            groups.insert(at, group);
            assert(groups.deep_view() =~= before.insert(at as int, group@));
        }
        self.groups = groups;
    }
}

impl Clone for Snapshot {
    fn clone(&self) -> (copy: Self)
        ensures
            copy@ == self@,
    {
        proof {
            use_type_invariant(self);
        }
        let mut tasks: Vec<Task> = Vec::new();
        let mut i: usize = 0;
        while i < self.tasks.len()
            invariant
                i <= self.tasks.len(),
                tasks@.len() == i,
                forall|j: int| 0 <= j < i ==> tasks@[j]@ == self.tasks@[j]@,
            decreases self.tasks.len() - i,
        {
            tasks.push(self.tasks[i].clone());
            i += 1;
        }
        let mut groups: Vec<Group> = Vec::new();
        let mut i: usize = 0;
        while i < self.groups.len()
            invariant
                i <= self.groups.len(),
                groups@.len() == i,
                forall|j: int| 0 <= j < i ==> groups@[j]@ == self.groups@[j]@,
            decreases self.groups.len() - i,
        {
            groups.push(self.groups[i].clone());
            i += 1;
        }
        assert(tasks.deep_view() =~= self.tasks.deep_view());
        assert(groups.deep_view() =~= self.groups.deep_view());
        Snapshot { tasks, groups }
    }
}

} // verus!
