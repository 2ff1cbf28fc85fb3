//! The tree that the user moves in: group headers with their tasks below
//! them, and the selection that points into it.

use vstd::prelude::*;
use vstd::string::*;

use crate::names::NameSet;
use crate::state::{tasks_ascend, Snapshot, SnapshotView, TaskView};
use crate::text::{lemma_lex_asymmetric, lex_lt, same_text};

verus! {

/// A place in the tree as a value: the header of a group, or the row of a
/// task under the group it belongs to.
pub enum Node {
    Group(Seq<char>),
    Task(Seq<char>, usize),
}

impl Node {
    /// The group that the place belongs to.
    pub open spec fn group(self) -> Seq<char> {
        match self {
            Node::Group(name) => name,
            Node::Task(group, _) => group,
        }
    }

    /// The id of the task, where the place is a task's row.
    pub open spec fn task_id(self) -> Option<usize> {
        match self {
            Node::Group(_) => None,
            Node::Task(_, id) => Some(id),
        }
    }
}

/// What is selected: a group, or a task within a group.
#[derive(Debug, PartialEq, Eq)]
pub enum TreeSelection {
    Group(String),
    Task(String, usize),
}

/// One line of the flattened tree.
#[derive(Debug, PartialEq, Eq)]
pub enum TreeItem {
    Group(String),
    Task(String, usize),
}

impl View for TreeSelection {
    type V = Node;

    open spec fn view(&self) -> Node {
        match self {
            TreeSelection::Group(name) => Node::Group(name@),
            TreeSelection::Task(group, id) => Node::Task(group@, *id),
        }
    }
}

impl View for TreeItem {
    type V = Node;

    open spec fn view(&self) -> Node {
        match self {
            TreeItem::Group(name) => Node::Group(name@),
            TreeItem::Task(group, id) => Node::Task(group@, *id),
        }
    }
}

impl DeepView for TreeItem {
    type V = Node;

    open spec fn deep_view(&self) -> Node {
        self@
    }
}

impl Clone for TreeSelection {
    fn clone(&self) -> (copy: Self)
        ensures
            copy@ == self@,
    {
        match self {
            TreeSelection::Group(name) => TreeSelection::Group(name.clone()),
            TreeSelection::Task(group, id) => TreeSelection::Task(group.clone(), *id),
        }
    }
}

impl Clone for TreeItem {
    fn clone(&self) -> (copy: Self)
        ensures
            copy@ == self@,
    {
        match self {
            TreeItem::Group(name) => TreeItem::Group(name.clone()),
            TreeItem::Task(group, id) => TreeItem::Task(group.clone(), *id),
        }
    }
}

/// The name of the group that is shown first.
pub open spec fn default_name() -> Seq<char> {
    "default"@
}

/// `names` without `name`, the others in their order.
pub open spec fn without(names: Seq<Seq<char>>, name: Seq<char>) -> Seq<Seq<char>>
    decreases names.len(),
{
    if names.len() == 0 {
        Seq::empty()
    } else if names.last() == name {
        without(names.drop_last(), name)
    } else {
        without(names.drop_last(), name).push(names.last())
    }
}

/// The order in which groups are shown: the default group first, if there is
/// one, then the others as they stand in `names`.
pub open spec fn display_order(names: Seq<Seq<char>>) -> Seq<Seq<char>> {
    if names.contains(default_name()) {
        seq![default_name()] + without(names, default_name())
    } else {
        names
    }
}

/// The rows of the tasks of `group`, as the tasks stand in `tasks`.
pub open spec fn task_rows(tasks: Seq<TaskView>, group: Seq<char>) -> Seq<Node>
    decreases tasks.len(),
{
    if tasks.len() == 0 {
        Seq::empty()
    } else if tasks.last().group == group {
        task_rows(tasks.drop_last(), group).push(Node::Task(group, tasks.last().id))
    } else {
        task_rows(tasks.drop_last(), group)
    }
}

/// What one group shows: its header, and below it its tasks unless the group
/// is folded.
pub open spec fn block(group: Seq<char>, tasks: Seq<TaskView>, collapsed: Set<Seq<char>>) -> Seq<
    Node,
> {
    if collapsed.contains(group) {
        seq![Node::Group(group)]
    } else {
        seq![Node::Group(group)] + task_rows(tasks, group)
    }
}

/// The blocks of the groups in `order`, one after the other.
pub open spec fn rows(order: Seq<Seq<char>>, tasks: Seq<TaskView>, collapsed: Set<Seq<char>>) -> Seq<
    Node,
>
    decreases order.len(),
{
    if order.len() == 0 {
        Seq::empty()
    } else {
        rows(order.drop_last(), tasks, collapsed) + block(order.last(), tasks, collapsed)
    }
}

/// The flattened tree of a snapshot under a set of folded groups.
pub open spec fn tree(snapshot: SnapshotView, collapsed: Set<Seq<char>>) -> Seq<Node> {
    rows(display_order(snapshot.group_names()), snapshot.tasks, collapsed)
}

/// `at` is the first index of `items` that holds `target`.
pub open spec fn first_at(items: Seq<Node>, target: Node, at: int) -> bool {
    &&& 0 <= at < items.len()
    &&& items[at] == target
    &&& forall|j: int| 0 <= j < at ==> items[j] != target
}

/// Where the selection stands in the tree, if it is there.
pub open spec fn position_of(selection: Node, items: Seq<Node>) -> Option<int> {
    if exists|at: int| first_at(items, selection, at) {
        Some(choose|at: int| first_at(items, selection, at))
    } else {
        None
    }
}

/// The selection that is kept after the tree changed: the old one where the
/// tree still holds it, else the first item, and the default group where the
/// tree is empty.
pub open spec fn reconcile(selection: Node, items: Seq<Node>) -> Node {
    if items.len() == 0 {
        Node::Group(default_name())
    } else if position_of(selection, items) is Some {
        selection
    } else {
        items[0]
    }
}

/// The selection one item further up; it stays at the first item, and where
/// it is in the tree no more.
pub open spec fn moved_up(selection: Node, items: Seq<Node>) -> Node {
    match position_of(selection, items) {
        Some(at) => if at > 0 {
            items[at - 1]
        } else {
            selection
        },
        None => selection,
    }
}

/// The selection one item further down; it stays at the last item, and where
/// it is in the tree no more.
pub open spec fn moved_down(selection: Node, items: Seq<Node>) -> Node {
    match position_of(selection, items) {
        Some(at) => if at + 1 < items.len() {
            items[at + 1]
        } else {
            selection
        },
        None => selection,
    }
}

/// The selection on the first item, if the tree has one.
pub open spec fn moved_top(selection: Node, items: Seq<Node>) -> Node {
    if items.len() > 0 {
        items[0]
    } else {
        selection
    }
}

/// The selection on the last item, if the tree has one.
pub open spec fn moved_bottom(selection: Node, items: Seq<Node>) -> Node {
    if items.len() > 0 {
        items.last()
    } else {
        selection
    }
}

/// The row of the task with the lowest id in `group`, if the group has a task.
pub open spec fn first_row(tasks: Seq<TaskView>, group: Seq<char>) -> Option<Node> {
    if task_rows(tasks, group).len() > 0 {
        Some(task_rows(tasks, group)[0])
    } else {
        None
    }
}

/// The position of a selection is the one index that `first_at` accepts.
pub proof fn lemma_position_of(selection: Node, items: Seq<Node>, at: int)
    requires
        first_at(items, selection, at),
    ensures
        position_of(selection, items) == Some(at),
{
    let found = choose|k: int| first_at(items, selection, k);
    assert(found == at);
}

/// A selection that no item equals has no position.
pub proof fn lemma_position_of_none(selection: Node, items: Seq<Node>)
    requires
        forall|j: int| 0 <= j < items.len() ==> items[j] != selection,
    ensures
        position_of(selection, items) is None,
{
}

/// The names of the groups in the order in which they are shown.
pub fn group_list(snapshot: &Snapshot) -> (order: Vec<String>)
    ensures
        order.deep_view() == display_order(snapshot@.group_names()),
{
    let groups = snapshot.groups();
    let ghost names = snapshot@.group_names();
    let wanted = String::from_str("default");
    let mut has_default = false;
    let mut i: usize = 0;
    while i < groups.len()
        invariant
            i <= groups.len(),
            groups.deep_view() == snapshot@.groups,
            names == snapshot@.group_names(),
            wanted@ == default_name(),
            has_default <==> names.subrange(0, i as int).contains(default_name()),
        decreases groups.len() - i,
    {
        proof {
            let seen = names.subrange(0, i as int);
            let next = names.subrange(0, i + 1);
            assert(groups.deep_view()[i as int].name == names[i as int]);
            assert(next =~= seen.push(names[i as int]));
            if seen.contains(default_name()) {
                let k = choose|k: int| 0 <= k < seen.len() && seen[k] == default_name();
                assert(next[k] == default_name());
            }
            if next.contains(default_name()) && names[i as int] != default_name() {
                let k = choose|k: int| 0 <= k < next.len() && next[k] == default_name();
                assert(seen[k] == default_name());
            }
            if names[i as int] == default_name() {
                assert(next[i as int] == default_name());
            }
        }
        if same_text(groups[i].name.as_str(), wanted.as_str()) {
            has_default = true;
        }
        i += 1;
    }
    assert(names.subrange(0, i as int) =~= names);
    let mut order: Vec<String> = Vec::new();
    if !has_default {
        let mut i: usize = 0;
        while i < groups.len()
            invariant
                i <= groups.len(),
                groups.deep_view() == snapshot@.groups,
                names == snapshot@.group_names(),
                order.deep_view() == names.subrange(0, i as int),
            decreases groups.len() - i,
        {
            let ghost held = order.deep_view();
            order.push(groups[i].name.clone());
            proof {
                assert(groups.deep_view()[i as int].name == names[i as int]);
                assert(order.deep_view() =~= held.push(names[i as int]));
                assert(names.subrange(0, i + 1) =~= names.subrange(0, i as int).push(
                    names[i as int],
                ));
            }
            i += 1;
        }
        assert(names.subrange(0, i as int) =~= names);
        return order;
    }
    order.push(wanted.clone());
    assert(order.deep_view() =~= seq![default_name()] + without(
        names.subrange(0, 0),
        default_name(),
    ));
    let mut i: usize = 0;
    while i < groups.len()
        invariant
            i <= groups.len(),
            groups.deep_view() == snapshot@.groups,
            names == snapshot@.group_names(),
            wanted@ == default_name(),
            order.deep_view() == seq![default_name()] + without(
                names.subrange(0, i as int),
                default_name(),
            ),
        decreases groups.len() - i,
    {
        let ghost held = order.deep_view();
        proof {
            assert(groups.deep_view()[i as int].name == names[i as int]);
            let next = names.subrange(0, i + 1);
            assert(next.drop_last() =~= names.subrange(0, i as int));
            assert(next.last() == names[i as int]);
        }
        if !same_text(groups[i].name.as_str(), wanted.as_str()) {
            order.push(groups[i].name.clone());
            assert(order.deep_view() =~= held.push(names[i as int]));
            assert(order.deep_view() =~= seq![default_name()] + without(
                names.subrange(0, i + 1),
                default_name(),
            ));
        }
        i += 1;
    }
    assert(names.subrange(0, i as int) =~= names);
    order
}

/// The flattened tree: for each group in the order of display its header,
/// and, unless the group is folded, a row for each of its tasks in the order
/// of their ids.
pub fn project(snapshot: &Snapshot, collapsed: &NameSet) -> (items: Vec<TreeItem>)
    ensures
        items.deep_view() == tree(snapshot@, collapsed@),
        headers_in_order(items.deep_view()),
        tasks_in_order(items.deep_view()),
        folded_hidden(items.deep_view(), collapsed@),
{
    let order = group_list(snapshot);
    let tasks = snapshot.tasks();
    let ghost names = order.deep_view();
    let ghost all = snapshot@.tasks;
    let mut items: Vec<TreeItem> = Vec::new();
    let mut g: usize = 0;
    assert(items.deep_view() =~= rows(names.subrange(0, 0), all, collapsed@));
    while g < order.len()
        invariant
            g <= order.len(),
            names == order.deep_view(),
            all == tasks.deep_view(),
            items.deep_view() == rows(names.subrange(0, g as int), all, collapsed@),
        decreases order.len() - g,
    {
        let name = &order[g];
        let ghost done = items.deep_view();
        proof {
            assert(names[g as int] == name@);
            let next = names.subrange(0, g + 1);
            assert(next.drop_last() =~= names.subrange(0, g as int));
            assert(next.last() == name@);
        }
        items.push(TreeItem::Group(name.clone()));
        assert(items.deep_view() =~= done + seq![Node::Group(name@)]);
        if !collapsed.contains(name.as_str()) {
            let mut t: usize = 0;
            assert(items.deep_view() =~= done + seq![Node::Group(name@)] + task_rows(
                all.subrange(0, 0),
                name@,
            ));
            while t < tasks.len()
                invariant
                    t <= tasks.len(),
                    all == tasks.deep_view(),
                    items.deep_view() == done + seq![Node::Group(name@)] + task_rows(
                        all.subrange(0, t as int),
                        name@,
                    ),
                decreases tasks.len() - t,
            {
                let ghost held = items.deep_view();
                proof {
                    assert(all[t as int] == tasks@[t as int]@);
                    let next = all.subrange(0, t + 1);
                    assert(next.drop_last() =~= all.subrange(0, t as int));
                    assert(next.last() == all[t as int]);
                }
                if same_text(tasks[t].group.as_str(), name.as_str()) {
                    items.push(TreeItem::Task(name.clone(), tasks[t].id));
                    assert(items.deep_view() =~= held.push(Node::Task(name@, all[t as int].id)));
                    assert(items.deep_view() =~= done + seq![Node::Group(name@)] + task_rows(
                        all.subrange(0, t + 1),
                        name@,
                    ));
                }
                t += 1;
            }
            assert(all.subrange(0, t as int) =~= all);
        }
        g += 1;
    }
    assert(names.subrange(0, g as int) =~= names);
    proof {
        lemma_tree_shape(snapshot@, collapsed@);
    }
    items
}

/// Where the selection stands among the items.
pub fn position_of_selection(selection: &TreeSelection, items: &Vec<TreeItem>) -> (found: Option<
    usize,
>)
    ensures
        match found {
            Some(at) => position_of(selection@, items.deep_view()) == Some(at as int),
            None => position_of(selection@, items.deep_view()) is None,
        },
{
    let mut i: usize = 0;
    while i < items.len()
        invariant
            i <= items.len(),
            forall|j: int| 0 <= j < i ==> items.deep_view()[j] != selection@,
        decreases items.len() - i,
    {
        let same = match (selection, &items[i]) {
            (TreeSelection::Group(a), TreeItem::Group(b)) => same_text(a.as_str(), b.as_str()),
            (TreeSelection::Task(g1, t1), TreeItem::Task(g2, t2)) => same_text(
                g1.as_str(),
                g2.as_str(),
            ) && *t1 == *t2,
            _ => false,
        };
        assert(same == (items.deep_view()[i as int] == selection@));
        if same {
            proof {
                lemma_position_of(selection@, items.deep_view(), i as int);
            }
            return Some(i);
        }
        i += 1;
    }
    proof {
        lemma_position_of_none(selection@, items.deep_view());
    }
    None
}

/// The selection that points at `item`.
pub fn move_to(item: &TreeItem) -> (selection: TreeSelection)
    ensures
        selection@ == item@,
{
    match item {
        TreeItem::Group(name) => TreeSelection::Group(name.clone()),
        TreeItem::Task(group, id) => TreeSelection::Task(group.clone(), *id),
    }
}

/// Keeps the selection where the tree still holds it, and moves it to the
/// first item, or to the default group in an empty tree, where not.
pub fn reconcile_selection(selection: TreeSelection, items: &Vec<TreeItem>) -> (kept: TreeSelection)
    ensures
        kept@ == reconcile(selection@, items.deep_view()),
{
    if items.len() == 0 {
        return TreeSelection::Group(String::from_str("default"));
    }
    match position_of_selection(&selection, items) {
        Some(_) => selection,
        None => {
            assert(items.deep_view()[0] == items@[0]@);
            move_to(&items[0])
        },
    }
}

/// The id of the first task of `group`, in the order of ids.
pub fn first_task_in(snapshot: &Snapshot, group: &str) -> (found: Option<usize>)
    ensures
        match found {
            Some(id) => first_row(snapshot@.tasks, group@) == Some(Node::Task(group@, id)),
            None => first_row(snapshot@.tasks, group@) is None,
        },
{
    let tasks = snapshot.tasks();
    let ghost all = snapshot@.tasks;
    let mut t: usize = 0;
    while t < tasks.len()
        invariant
            t <= tasks.len(),
            all == tasks.deep_view(),
            all == snapshot@.tasks,
            task_rows(all.subrange(0, t as int), group@).len() == 0,
        decreases tasks.len() - t,
    {
        proof {
            assert(all[t as int] == tasks@[t as int]@);
            let next = all.subrange(0, t + 1);
            assert(next.drop_last() =~= all.subrange(0, t as int));
            assert(next.last() == all[t as int]);
        }
        if same_text(tasks[t].group.as_str(), group) {
            proof {
                let next = all.subrange(0, t + 1);
                assert(task_rows(next, group@) == task_rows(next.drop_last(), group@).push(
                    Node::Task(group@, all[t as int].id),
                ));
                assert(task_rows(next, group@)[0] == Node::Task(group@, all[t as int].id));
                lemma_task_rows_prefix(all, group@, t + 1);
                assert(task_rows(all, group@)[0] == task_rows(next, group@)[0]);
            }
            return Some(tasks[t].id);
        }
        t += 1;
    }
    assert(all.subrange(0, t as int) =~= all);
    None
}

/// The rows of a group among the first `n` tasks stand at the start of its
/// rows among all tasks.
pub proof fn lemma_task_rows_prefix(tasks: Seq<TaskView>, group: Seq<char>, n: int)
    requires
        0 <= n <= tasks.len(),
    ensures
        task_rows(tasks.subrange(0, n), group).len() <= task_rows(tasks, group).len(),
        forall|i: int|
            0 <= i < task_rows(tasks.subrange(0, n), group).len() ==> task_rows(tasks, group)[i]
                == task_rows(tasks.subrange(0, n), group)[i],
    decreases tasks.len() - n,
{
    if n == tasks.len() {
        assert(tasks.subrange(0, n) =~= tasks);
    } else {
        lemma_task_rows_prefix(tasks.drop_last(), group, n);
        assert(tasks.drop_last().subrange(0, n) =~= tasks.subrange(0, n));
    }
}

/// `tasks` holds a task of this id in `group`.
pub open spec fn holds_task(tasks: Seq<TaskView>, group: Seq<char>, id: usize) -> bool {
    exists|k: int| 0 <= k < tasks.len() && #[trigger] tasks[k].id == id && tasks[k].group == group
}

/// The order of display: the default group can only stand first, and the
/// names behind it ascend.
pub open spec fn display_sorted(order: Seq<Seq<char>>) -> bool {
    &&& forall|b: int| 0 < b < order.len() ==> #[trigger] order[b] != default_name()
    &&& forall|a: int, b: int|
        #![trigger order[a], order[b]]
        0 <= a < b < order.len() ==> order[a] == default_name() || lex_lt(order[a], order[b])
}

/// Headers in a tree stand in the order of display: the default group first,
/// the others by name.
pub open spec fn headers_in_order(items: Seq<Node>) -> bool {
    forall|i: int, j: int|
        0 <= i < j < items.len() && #[trigger] items[i] is Group && #[trigger] items[j] is Group
            ==> items[j].group() != default_name() && (items[i].group() == default_name()
            || lex_lt(items[i].group(), items[j].group()))
}

/// The rows of one group stand in the strict order of their ids.
pub open spec fn tasks_in_order(items: Seq<Node>) -> bool {
    forall|i: int, j: int|
        0 <= i < j < items.len() && #[trigger] items[i] is Task && #[trigger] items[j] is Task
            && items[i].group() == items[j].group() ==> items[i].task_id().unwrap()
            < items[j].task_id().unwrap()
}

/// No row belongs to a folded group.
pub open spec fn folded_hidden(items: Seq<Node>, collapsed: Set<Seq<char>>) -> bool {
    forall|i: int|
        0 <= i < items.len() && #[trigger] items[i] is Task ==> !collapsed.contains(
            items[i].group(),
        )
}

/// The rows of a group are rows of its own tasks, in the strict order of
/// their ids.
pub proof fn lemma_task_rows_shape(tasks: Seq<TaskView>, group: Seq<char>)
    requires
        tasks_ascend(tasks),
    ensures
        forall|p: int|
            0 <= p < task_rows(tasks, group).len() ==> {
                let row = #[trigger] task_rows(tasks, group)[p];
                row is Task && row.group() == group && holds_task(
                    tasks,
                    group,
                    row.task_id().unwrap(),
                )
            },
        tasks_in_order(task_rows(tasks, group)),
    decreases tasks.len(),
{
    if tasks.len() > 0 {
        let rest = tasks.drop_last();
        let last = tasks.last();
        lemma_task_rows_shape(rest, group);
        let before = task_rows(rest, group);
        let all = task_rows(tasks, group);
        assert forall|p: int| 0 <= p < all.len() implies {
            let row = #[trigger] all[p];
            row is Task && row.group() == group && holds_task(tasks, group, row.task_id().unwrap())
        } by {
            if p < before.len() {
                let row = before[p];
                let k = choose|k: int|
                    0 <= k < rest.len() && #[trigger] rest[k].id == row.task_id().unwrap()
                        && rest[k].group == group;
                assert(tasks[k].id == row.task_id().unwrap() && tasks[k].group == group);
            } else {
                assert(tasks[tasks.len() - 1].id == last.id && tasks[tasks.len() - 1].group
                    == group);
            }
        }
        assert forall|i: int, j: int|
            0 <= i < j < all.len() && #[trigger] all[i] is Task && #[trigger] all[j] is Task
                && all[i].group() == all[j].group() implies all[i].task_id().unwrap()
            < all[j].task_id().unwrap() by {
            if j < before.len() {
                assert(before[i] is Task && before[j] is Task);
            } else {
                let row = before[i];
                let k = choose|k: int|
                    0 <= k < rest.len() && #[trigger] rest[k].id == row.task_id().unwrap()
                        && rest[k].group == group;
                assert(tasks[k].id < tasks[tasks.len() - 1].id);
            }
        }
    }
}

/// What is left of ascending names after one was taken out still ascends,
/// holds no name that was not there, and holds the one taken out no more.
pub proof fn lemma_without_shape(names: Seq<Seq<char>>, name: Seq<char>)
    requires
        forall|i: int, j: int| 0 <= i < j < names.len() ==> lex_lt(names[i], names[j]),
    ensures
        forall|p: int|
            0 <= p < without(names, name).len() ==> #[trigger] without(names, name)[p] != name
                && names.contains(without(names, name)[p]),
        forall|p: int, q: int|
            0 <= p < q < without(names, name).len() ==> lex_lt(
                without(names, name)[p],
                without(names, name)[q],
            ),
    decreases names.len(),
{
    if names.len() > 0 {
        let rest = names.drop_last();
        lemma_without_shape(rest, name);
        let before = without(rest, name);
        let all = without(names, name);
        assert forall|p: int| 0 <= p < all.len() implies #[trigger] all[p] != name
            && names.contains(all[p]) by {
            if p < before.len() {
                let k = choose|k: int| 0 <= k < rest.len() && rest[k] == before[p];
                assert(names[k] == all[p]);
            } else {
                assert(names[names.len() - 1] == all[p]);
            }
        }
        assert forall|p: int, q: int| 0 <= p < q < all.len() implies lex_lt(all[p], all[q]) by {
            if q >= before.len() {
                let k = choose|k: int| 0 <= k < rest.len() && rest[k] == before[p];
                assert(lex_lt(names[k], names[names.len() - 1]));
            }
        }
    }
}

/// Ascending names are shown with the default group first and the others in
/// their order.
pub proof fn lemma_display_order_sorted(names: Seq<Seq<char>>)
    requires
        forall|i: int, j: int| 0 <= i < j < names.len() ==> lex_lt(names[i], names[j]),
    ensures
        display_sorted(display_order(names)),
        names.contains(default_name()) ==> display_order(names).len() > 0 && display_order(
            names,
        )[0] == default_name(),
{
    let order = display_order(names);
    if names.contains(default_name()) {
        lemma_without_shape(names, default_name());
        let others = without(names, default_name());
        assert forall|b: int| 0 < b < order.len() implies #[trigger] order[b]
            != default_name() by {
            assert(order[b] == others[b - 1]);
        }
        assert forall|a: int, b: int|
            #![trigger order[a], order[b]]
            0 <= a < b < order.len() implies order[a] == default_name() || lex_lt(
            order[a],
            order[b],
        ) by {
            assert(order[b] == others[b - 1]);
            if a > 0 {
                assert(order[a] == others[a - 1]);
            }
        }
    } else {
        assert forall|b: int| 0 < b < order.len() implies #[trigger] order[b]
            != default_name() by {}
    }
}

/// The order of display still holds when the last name is left out.
proof fn lemma_display_sorted_prefix(order: Seq<Seq<char>>)
    requires
        display_sorted(order),
        order.len() > 0,
    ensures
        display_sorted(order.drop_last()),
{
    let rest = order.drop_last();
    assert forall|b: int| 0 < b < rest.len() implies #[trigger] rest[b] != default_name() by {
        assert(order[b] == rest[b]);
    }
    assert forall|a: int, b: int|
        #![trigger rest[a], rest[b]]
        0 <= a < b < rest.len() implies rest[a] == default_name() || lex_lt(rest[a], rest[b]) by {
        assert(order[a] == rest[a] && order[b] == rest[b]);
    }
}

/// The shape of the blocks of groups that stand in the order of display.
pub proof fn lemma_rows_shape(order: Seq<Seq<char>>, tasks: Seq<TaskView>, collapsed: Set<Seq<char>>)
    requires
        display_sorted(order),
        tasks_ascend(tasks),
    ensures
        forall|i: int|
            0 <= i < rows(order, tasks, collapsed).len() ==> order.contains(
                (#[trigger] rows(order, tasks, collapsed)[i]).group(),
            ),
        order.len() > 0 ==> rows(order, tasks, collapsed).len() > 0 && rows(
            order,
            tasks,
            collapsed,
        )[0] == Node::Group(order[0]),
        headers_in_order(rows(order, tasks, collapsed)),
        tasks_in_order(rows(order, tasks, collapsed)),
        folded_hidden(rows(order, tasks, collapsed), collapsed),
    decreases order.len(),
{
    if order.len() > 0 {
        let rest = order.drop_last();
        let last = order.last();
        let n = order.len() - 1;
        lemma_display_sorted_prefix(order);
        lemma_rows_shape(rest, tasks, collapsed);
        lemma_task_rows_shape(tasks, last);
        let head = rows(rest, tasks, collapsed);
        let tail = block(last, tasks, collapsed);
        let all = rows(order, tasks, collapsed);
        let below = task_rows(tasks, last);
        assert(all == head + tail);
        assert(tail[0] == Node::Group(last));
        assert forall|m: int| 1 <= m < tail.len() implies (#[trigger] tail[m]) is Task
            && tail[m].group() == last && !collapsed.contains(last) && tail[m] == below[m - 1] by {
            assert(tail[m] == below[m - 1]);
        }
        assert forall|i: int| 0 <= i < all.len() implies order.contains(
            (#[trigger] all[i]).group(),
        ) by {
            if i < head.len() {
                let k = choose|k: int| 0 <= k < rest.len() && rest[k] == head[i].group();
                assert(order[k] == all[i].group());
            } else {
                let m = i - head.len();
                assert(all[i] == tail[m]);
                assert(order[n] == all[i].group());
            }
        }
        if rest.len() > 0 {
            assert(all[0] == head[0]);
            assert(rest[0] == order[0]);
        } else {
            assert(all[0] == tail[0]);
        }
        assert forall|i: int, j: int|
            0 <= i < j < all.len() && #[trigger] all[i] is Group && #[trigger] all[j] is Group implies all[j].group()
            != default_name() && (all[i].group() == default_name() || lex_lt(
            all[i].group(),
            all[j].group(),
        )) by {
            if j < head.len() {
                assert(head[i] is Group && head[j] is Group);
            } else {
                let m = j - head.len();
                assert(all[j] == tail[m]);
                assert(m == 0);
                assert(all[i] == head[i]);
                let k = choose|k: int| 0 <= k < rest.len() && rest[k] == head[i].group();
                assert(order[k] == head[i].group());
                assert(order[n] == last);
            }
        }
        assert forall|i: int, j: int|
            0 <= i < j < all.len() && #[trigger] all[i] is Task && #[trigger] all[j] is Task
                && all[i].group() == all[j].group() implies all[i].task_id().unwrap()
            < all[j].task_id().unwrap() by {
            if j < head.len() {
                assert(head[i] is Task && head[j] is Task);
            } else if i < head.len() {
                let m = j - head.len();
                assert(all[j] == tail[m]);
                assert(all[i] == head[i]);
                let k = choose|k: int| 0 <= k < rest.len() && rest[k] == head[i].group();
                assert(order[k] == head[i].group());
                assert(order[n] == last);
                if lex_lt(order[k], order[n]) {
                    lemma_lex_asymmetric(order[k], order[n]);
                }
            } else {
                let mi = i - head.len();
                let mj = j - head.len();
                assert(all[i] == tail[mi] && all[j] == tail[mj]);
                assert(below[mi - 1] is Task && below[mj - 1] is Task);
            }
        }
        assert forall|i: int| 0 <= i < all.len() && #[trigger] all[i] is Task implies !collapsed.contains(
            all[i].group(),
        ) by {
            if i < head.len() {
                assert(head[i] is Task);
            } else {
                assert(all[i] == tail[i - head.len()]);
            }
        }
    }
}

/// In the tree of any snapshot, under any set of folded groups: the default
/// group, if the snapshot has it, is the first header; the other headers
/// follow in the order of their names; the rows of one group stand in the
/// strict order of their ids; and no task of a folded group has a row.
pub proof fn lemma_tree_shape(snapshot: SnapshotView, collapsed: Set<Seq<char>>)
    requires
        snapshot.well_formed(),
    ensures
        snapshot.group_names().contains(default_name()) ==> tree(snapshot, collapsed).len() > 0
            && tree(snapshot, collapsed)[0] == Node::Group(default_name()),
        snapshot.groups.len() > 0 ==> tree(snapshot, collapsed).len() > 0 && tree(
            snapshot,
            collapsed,
        )[0] is Group,
        headers_in_order(tree(snapshot, collapsed)),
        tasks_in_order(tree(snapshot, collapsed)),
        folded_hidden(tree(snapshot, collapsed), collapsed),
{
    let names = snapshot.group_names();
    assert forall|i: int, j: int| 0 <= i < j < names.len() implies lex_lt(names[i], names[j]) by {
        assert(lex_lt(snapshot.groups[i].name, snapshot.groups[j].name));
    }
    lemma_display_order_sorted(names);
    lemma_rows_shape(display_order(names), snapshot.tasks, collapsed);
    if snapshot.groups.len() > 0 && !names.contains(default_name()) {
        assert(display_order(names).len() > 0);
    }
}

/// Reconciling a selection that was reconciled against the same tree changes
/// nothing.
pub proof fn lemma_reconcile_idempotent(selection: Node, items: Seq<Node>)
    ensures
        reconcile(reconcile(selection, items), items) == reconcile(selection, items),
{
    if items.len() > 0 && position_of(selection, items) is None {
        lemma_position_of(items[0], items, 0);
    }
}

/// A reconciled selection has a position in every tree that is not empty.
pub proof fn lemma_reconcile_resolves(selection: Node, items: Seq<Node>)
    ensures
        items.len() > 0 ==> position_of(reconcile(selection, items), items) is Some,
{
    if items.len() > 0 && position_of(selection, items) is None {
        lemma_position_of(items[0], items, 0);
    }
}

/// A position that `position_of` gives is the first index that holds the
/// selection.
pub proof fn lemma_position_is_first(selection: Node, items: Seq<Node>)
    ensures
        match position_of(selection, items) {
            Some(at) => first_at(items, selection, at),
            None => forall|j: int| 0 <= j < items.len() ==> items[j] != selection,
        },
{
    if position_of(selection, items) is None {
        assert forall|j: int| 0 <= j < items.len() implies items[j] != selection by {
            if items[j] == selection {
                lemma_first_exists(selection, items, j);
            }
        }
    }
}

/// Where some index holds the selection, a first one does.
proof fn lemma_first_exists(selection: Node, items: Seq<Node>, at: int)
    requires
        0 <= at < items.len(),
        items[at] == selection,
    ensures
        exists|first: int| first_at(items, selection, first),
    decreases at,
{
    if forall|j: int| 0 <= j < at ==> items[j] != selection {
        assert(first_at(items, selection, at));
    } else {
        let j = choose|j: int| 0 <= j < at && items[j] == selection;
        lemma_first_exists(selection, items, j);
    }
}

/// Moving up from the first item and moving down from the last one leave the
/// selection where it is.
pub proof fn lemma_navigation_stops(selection: Node, items: Seq<Node>)
    ensures
        position_of(selection, items) == Some(0int) ==> moved_up(selection, items) == selection,
        position_of(selection, items) == Some(items.len() - 1) ==> moved_down(selection, items)
            == selection,
{
}

} // verus!
