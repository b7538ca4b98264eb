//! Crawl tasks and their destination paths.

use vstd::prelude::*;
use crate::object::{Object, ObjectView};
use crate::util::{escaped, file_escape};

verus! {

/// A content node together with the place below the output directory to
/// which it is mirrored, component by component.
#[derive(Debug)]
pub struct Task {
    pub path: Vec<String>,
    pub object: Object,
}

/// What the contracts see of a `Task`: the characters of its strings.
pub struct TaskView {
    pub path: Seq<Seq<char>>,
    pub object: ObjectView,
}

/// The components of a path, each by its characters.
pub open spec fn path_view(path: Seq<String>) -> Seq<Seq<char>> {
    path.map_values(|s: String| s@)
}

impl View for Task {
    type V = TaskView;

    open spec fn view(&self) -> TaskView {
        TaskView { path: path_view(self.path@), object: self.object@ }
    }
}

/// The tasks of `v`, each by its view.
pub open spec fn tasks_view(v: Seq<Task>) -> Seq<TaskView> {
    v.map_values(|t: Task| t@)
}

/// The path of the entry `name` below `parent`.
pub open spec fn entry_path(parent: Seq<Seq<char>>, name: Seq<char>) -> Seq<Seq<char>> {
    parent.push(name)
}

/// The path of the child called `name` of the node at `parent`: the
/// parent's path and the sanitised name.
pub open spec fn child_path(parent: Seq<Seq<char>>, name: Seq<char>) -> Seq<Seq<char>> {
    entry_path(parent, escaped(name))
}

/// Children of one node whose sanitised names differ have different paths.
pub proof fn sibling_paths_differ(parent: Seq<Seq<char>>, first: Seq<char>, second: Seq<char>)
    requires
        escaped(first) != escaped(second),
    ensures
        child_path(parent, first) != child_path(parent, second),
{
    assert(child_path(parent, first).last() == escaped(first));
    assert(child_path(parent, second).last() == escaped(second));
}

/// A child's path is its parent's path with one more component.
pub proof fn child_path_extends_parent(parent: Seq<Seq<char>>, name: Seq<char>)
    ensures
        child_path(parent, name).len() == parent.len() + 1,
        parent.is_prefix_of(child_path(parent, name)),
{
    assert(child_path(parent, name).subrange(0, parent.len() as int) =~= parent);
}

/// A copy of `path`.
pub fn copy_path(path: &Vec<String>) -> (r: Vec<String>)
    ensures
        path_view(r@) == path_view(path@),
{
    let mut out: Vec<String> = Vec::new();
    let mut i: usize = 0;
    while i < path.len()
        invariant
            i <= path.len(),
            out.len() == i,
            forall|j: int| 0 <= j < i ==> #[trigger] out@[j] == path@[j],
        decreases path.len() - i,
    {
        out.push(path[i].clone());
        i = i + 1;
    }
    assert(path_view(out@) =~= path_view(path@));
    out
}

/// The path of the entry `name` below `parent`.
pub fn entry(parent: &Vec<String>, name: String) -> (r: Vec<String>)
    ensures
        path_view(r@) == entry_path(path_view(parent@), name@),
{
    let mut out = copy_path(parent);
    out.push(name);
    assert(path_view(out@) =~= entry_path(path_view(parent@), name@));
    out
}

/// The path of the child called `name` of the node at `parent`.
pub fn child(parent: &Vec<String>, name: &str) -> (r: Vec<String>)
    ensures
        path_view(r@) == child_path(path_view(parent@), name@),
{
    entry(parent, file_escape(name))
}

/// Whether every node of `items` has a name.
pub open spec fn all_named(items: Seq<ObjectView>) -> bool {
    forall|i: int| 0 <= i < items.len() ==> (#[trigger] items[i]).is_named()
}

/// The task of the child `item` of the node at `parent`.
pub open spec fn child_task(parent: Seq<Seq<char>>, item: ObjectView) -> TaskView {
    TaskView { path: child_path(parent, item.name()), object: item }
}

/// The tasks of the children `items` of the node at `parent`, in order.
pub open spec fn child_tasks(parent: Seq<Seq<char>>, items: Seq<ObjectView>) -> Seq<TaskView> {
    items.map_values(|o: ObjectView| child_task(parent, o))
}

/// One task for each child of the node at `parent`.
pub fn tasks_for(parent: &Vec<String>, items: Vec<Object>) -> (r: Vec<Task>)
    requires
        all_named(items@.map_values(|o: Object| o@)),
    ensures
        tasks_view(r@) == child_tasks(path_view(parent@), items@.map_values(|o: Object| o@)),
{
    let ghost all = items@.map_values(|o: Object| o@);
    let mut out: Vec<Task> = Vec::new();
    for item in it: items
        invariant
            it.seq().map_values(|o: Object| o@) == all,
            out.len() == it.index(),
            forall|j: int|
                0 <= j < out.len() ==> (#[trigger] out@[j])@ == child_task(
                    path_view(parent@),
                    all[j],
                ),
            all_named(all),
    {
        assert(item@ == all[out.len() as int]);
        assert(all[out.len() as int].is_named());
        let path = child(parent, item.name());
        out.push(Task { path, object: item });
    }
    assert(tasks_view(out@) =~= child_tasks(path_view(parent@), all));
    out
}

} // verus!
