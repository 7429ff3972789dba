//! What holds of task names and task identifiers as a whole.

use crate::package_graph::{WorkspaceNameView, ROOT_PKG_NAME};
use crate::task_id::{
    delimited, lemma_root_pkg_name, TaskId, TaskIdView, TaskName, TaskNameView, TASK_DELIMITER,
};
use crate::text::{lemma_split_first_joined, lemma_split_first_parts, split_first};
use vstd::prelude::*;
use vstd::std_specs::cmp::PartialEqSpec;

verus! {

/// The delimiter is one character, the one that names and identifiers are
/// split at and joined with.
pub proof fn law_delimiter()
    ensures
        TASK_DELIMITER@ == seq!['#'],
{
    reveal_strlit("#");
}

/// A text that is read as an identifier is its package, the delimiter and its
/// task; the package is not empty and holds no delimiter.
pub proof fn law_parts_of_task_id_text(text: Seq<char>)
    ensures
        TaskIdView::parse(text) matches Some(id) ==> {
            &&& text == id.package + seq!['#'] + id.task
            &&& id.package.len() > 0
            &&& !id.package.contains('#')
        },
{
    lemma_split_first_parts(text, '#');
}

/// A text that is read as a name for one workspace is its package, the
/// delimiter and its task, and the package holds no delimiter; any other text
/// holds none, and is the task.
pub proof fn law_parts_of_task_name_text(text: Seq<char>)
    ensures
        match TaskNameView::parse(text).package {
            Some(package) => {
                &&& text == package + seq!['#'] + TaskNameView::parse(text).task
                &&& !package.contains('#')
            },
            None => !text.contains('#') && TaskNameView::parse(text).task == text,
        },
{
    lemma_split_first_parts(text, '#');
}

/// The text of an identifier, or of a name with a package, is the package, the
/// delimiter and the task; that of a name without one is the task.
pub proof fn law_text_of_parts(package: Seq<char>, task: Seq<char>)
    ensures
        (TaskIdView { package, task }).render() == package + seq!['#'] + task,
        (TaskNameView { package: Some(package), task }).render() == package + seq!['#'] + task,
        (TaskNameView { package: None, task }).render() == task,
        delimited(package, task) == package + seq!['#'] + task,
{
}

/// A name with a package has an identifier with that package and task, and
/// applies to that workspace alone; a name without one has no identifier and
/// applies to all. Taking the package away or naming the root keeps the task.
pub proof fn law_parts_of_name(name: TaskNameView, workspace: Seq<char>)
    ensures
        match name.package {
            Some(package) => {
                &&& name.task_id() matches Some(id)
                &&& id.package == package
                &&& id.task == name.task
                &&& name.in_workspace(workspace) <==> workspace == package
            },
            None => name.task_id() is None && name.in_workspace(workspace),
        },
        name.non_workspace_task().package is None,
        name.non_workspace_task().task == name.task,
        name.root_task().package == Some(seq!['/', '/']),
        name.root_task().task == name.task,
{
    lemma_root_pkg_name();
}

/// The two names of an identifier have its task; one has its package, the
/// other none.
pub proof fn law_parts_of_id_names(id: TaskIdView)
    ensures
        id.task_name().package == Some(id.package),
        id.task_name().task == id.task,
        id.non_workspace_task_name().package is None,
        id.non_workspace_task_name().task == id.task,
{
}

/// In the graph, a name's own package comes first, else the package is the name
/// of the workspace, which is two slashes for the root; the task is the name's.
pub proof fn law_parts_in_graph(workspace: WorkspaceNameView, name: TaskNameView)
    ensures
        TaskIdView::from_graph(workspace, name).task == name.task,
        match (name.package, workspace) {
            (Some(package), _) => TaskIdView::from_graph(workspace, name).package == package,
            (None, WorkspaceNameView::Root) => TaskIdView::from_graph(workspace, name).package
                == seq!['/', '/'],
            (None, WorkspaceNameView::Other(own)) => TaskIdView::from_graph(
                workspace,
                name,
            ).package == own,
        },
{
    lemma_root_pkg_name();
}

/// A looked-up task that holds a delimiter but does not start with one is split
/// at the first; any other keeps its text and gets the package.
pub proof fn law_parts_of_lookup(package: Seq<char>, task: Seq<char>)
    ensures
        ({
            let id = TaskIdView::resolve(package, task);
            if task.contains('#') && task[0] != '#' {
                &&& task == id.package + seq!['#'] + id.task
                &&& id.package.len() > 0
                &&& !id.package.contains('#')
            } else {
                &&& id.package == package
                &&& id.task == task
            }
        }),
{
    law_task_id_refused(task);
    lemma_split_first_parts(task, '#');
}

/// Equality of identifiers, and of names, is that of both parts.
pub proof fn law_equality_of_parts<'a>(
    id: TaskId<'a>,
    other_id: TaskId<'a>,
    name: TaskName<'a>,
    other_name: TaskName<'a>,
)
    ensures
        <TaskId<'a> as PartialEqSpec>::obeys_eq_spec(),
        PartialEqSpec::eq_spec(&id, &other_id) <==> id@.package == other_id@.package && id@.task
            == other_id@.task,
        <TaskName<'a> as PartialEqSpec>::obeys_eq_spec(),
        PartialEqSpec::eq_spec(&name, &other_name) <==> name@.package == other_name@.package
            && name@.task == other_name@.task,
{
}

/// Every text that is read as a task identifier is the text of that identifier.
pub proof fn law_task_id_text_roundtrip(text: Seq<char>)
    ensures
        TaskIdView::parse(text) matches Some(id) ==> id.render() == text,
{
    lemma_split_first_parts(text, '#');
}

/// Every text is the text of the task name that it is read as.
pub proof fn law_task_name_text_roundtrip(text: Seq<char>)
    ensures
        TaskNameView::parse(text).render() == text,
{
    lemma_split_first_parts(text, '#');
}

/// The text of an identifier is read as that identifier just when its package
/// is neither empty nor holds a delimiter.
pub proof fn law_task_id_roundtrip(id: TaskIdView)
    ensures
        TaskIdView::parse(id.render()) == Some(id) <==> id.package.len() > 0
            && !id.package.contains('#'),
{
    lemma_split_first_parts(id.render(), '#');
    if !id.package.contains('#') {
        lemma_split_first_joined(id.package, '#', id.task);
    }
}

/// The text of a task name is read as that name just when neither its package
/// nor, where it has no package, its task holds a delimiter.
pub proof fn law_task_name_roundtrip(name: TaskNameView)
    ensures
        TaskNameView::parse(name.render()) == name <==> match name.package {
            Some(package) => !package.contains('#'),
            None => !name.task.contains('#'),
        },
{
    lemma_split_first_parts(name.render(), '#');
    if name.package is Some && !name.package->0.contains('#') {
        lemma_split_first_joined(name.package->0, '#', name.task);
    }
}

/// What is read as an identifier has a package, and the package holds no
/// delimiter: the first one ends it.
pub proof fn law_parsed_package(text: Seq<char>)
    ensures
        TaskIdView::parse(text) matches Some(id) ==> id.package.len() > 0 && !id.package.contains(
            '#',
        ),
        TaskNameView::parse(text).package matches Some(package) ==> !package.contains('#'),
{
    lemma_split_first_parts(text, '#');
}

/// A text is refused as an identifier just when it has no delimiter or starts
/// with one.
pub proof fn law_task_id_refused(text: Seq<char>)
    ensures
        TaskIdView::parse(text) is None <==> !text.contains('#') || text[0] == '#',
{
    lemma_split_first_parts(text, '#');
    if split_first(text, '#') is Some {
        let (package, task) = split_first(text, '#')->0;
        assert(text == package + seq!['#'] + task);
        if package.len() > 0 {
            assert(text[0] == package[0]);
            assert(package.contains(package[0]));
        }
    }
}

/// Reading a text as a name and asking for its identifier gives what reading
/// it as an identifier gives, except that a name may have an empty workspace.
pub proof fn law_name_and_id_agree(text: Seq<char>)
    ensures
        match TaskNameView::parse(text).task_id() {
            Some(id) => TaskIdView::parse(text) == (if id.package.len() == 0 {
                None
            } else {
                Some(id)
            }),
            None => TaskIdView::parse(text) is None,
        },
{
}

/// A task that is itself the text of an identifier keeps its package, wherever
/// it is looked up from.
pub proof fn law_resolve_keeps_own_package(package: Seq<char>, id: TaskIdView)
    requires
        id.package.len() > 0,
        !id.package.contains('#'),
    ensures
        TaskIdView::resolve(package, id.render()) == id,
{
    law_task_id_roundtrip(id);
}

/// A task without a delimiter belongs to the package that it is looked up from.
pub proof fn law_resolve_plain_task(package: Seq<char>, task: Seq<char>)
    requires
        !task.contains('#'),
    ensures
        TaskIdView::resolve(package, task) == (TaskIdView { package, task }),
        TaskIdView::resolve(package, task).render() == delimited(package, task),
{
    lemma_split_first_parts(task, '#');
}

/// Looking a task up a second time, by the text of its identifier or from any
/// package, changes nothing.
pub proof fn law_resolve_stable(package: Seq<char>, task: Seq<char>, other: Seq<char>)
    requires
        package.len() > 0,
        !package.contains('#'),
    ensures
        TaskIdView::resolve(other, TaskIdView::resolve(package, task).render())
            == TaskIdView::resolve(package, task),
{
    law_parsed_package(task);
    law_task_id_roundtrip(TaskIdView::resolve(package, task));
}

/// An identifier and its name for its own workspace stand for each other.
pub proof fn law_task_name_of_id(id: TaskIdView, name: TaskNameView)
    ensures
        id.task_name().task_id() == Some(id),
        id.task_name().render() == id.render(),
        name.task_id() matches Some(of_name) ==> of_name.task_name() == name,
        id.non_workspace_task_name().task_id() is None,
        id.task_name().non_workspace_task() == id.non_workspace_task_name(),
{
}

/// An identifier is found again from its workspace and its name, whether the
/// name is for all workspaces or for its own.
pub proof fn law_graph_finds_id(id: TaskIdView, workspace: WorkspaceNameView)
    ensures
        TaskIdView::from_graph(
            WorkspaceNameView::of_package(id.package),
            id.non_workspace_task_name(),
        ) == id,
        TaskIdView::from_graph(workspace, id.task_name()) == id,
{
}

/// Looking a task up from a workspace's package by its text gives the
/// identifier that the graph has for the name read from that text, just when
/// the text does not start with the delimiter: an empty workspace is one only
/// in a name.
pub proof fn law_graph_and_resolve_agree(workspace: WorkspaceNameView, text: Seq<char>)
    ensures
        TaskIdView::from_graph(workspace, TaskNameView::parse(text)) == TaskIdView::resolve(
            workspace.package(),
            text,
        ) <==> !(text.len() > 0 && text[0] == '#'),
{
    law_task_id_refused(text);
    lemma_split_first_parts(text, '#');
    if text.len() > 0 && text[0] == '#' {
        assert(TaskIdView::from_graph(workspace, TaskNameView::parse(text)).task.len()
            < text.len());
    }
}

/// A name for all workspaces yields an identifier in the workspace it is asked
/// for; only a workspace whose package has the name of the root is taken for
/// the root.
pub proof fn law_graph_keeps_workspace(workspace: WorkspaceNameView, name: TaskNameView)
    requires
        name.package is None,
        workspace != WorkspaceNameView::Other(ROOT_PKG_NAME@),
    ensures
        WorkspaceNameView::of_package(TaskIdView::from_graph(workspace, name).package) == workspace,
        TaskIdView::from_graph(workspace, name).task == name.task,
{
}

/// A name applies to the workspace of every identifier that it yields, and a
/// name for one workspace to no other workspace.
pub proof fn law_in_workspace(workspace: WorkspaceNameView, name: TaskNameView, other: Seq<char>)
    ensures
        name.in_workspace(TaskIdView::from_graph(workspace, name).package),
        name.package is Some && name.in_workspace(other) ==> other == name.package->0,
        name.package is None ==> name.in_workspace(other),
{
}

/// Root tasks belong to the root workspace, whatever workspace the name was
/// for; making a root task a root task changes nothing.
pub proof fn law_root_task(name: TaskNameView, workspace: WorkspaceNameView)
    ensures
        name.root_task().in_workspace(ROOT_PKG_NAME@),
        name.root_task().root_task() == name.root_task(),
        name.non_workspace_task().root_task() == name.root_task(),
        name.root_task().non_workspace_task() == name.non_workspace_task(),
        name.root_task().render() == "//#"@ + name.task,
        TaskNameView::parse(name.root_task().render()) == name.root_task(),
        WorkspaceNameView::of_package(TaskIdView::from_graph(workspace, name.root_task()).package)
            == WorkspaceNameView::Root,
{
    reveal_strlit("//");
    reveal_strlit("//#");
    assert(name.root_task().render() == "//#"@ + name.task);
    law_task_name_roundtrip(name.root_task());
}

} // verus!
