//! What the operations on task names and task identifiers give, in terms of
//! the texts that go in and come out.
//!
//! Each law speaks of calls: of the arguments that were passed and the results
//! that came back.

use crate::package_graph::WorkspaceName;
use crate::task_id::{TaskId, TaskIdError, TaskName};
use crate::text::{law_texts_are_ordered, lemma_split_first_joined, precedes};
use vstd::prelude::*;

verus! {

/// Two splits of the same text at a delimiter that is absent from the first
/// parts are the same split.
pub proof fn law_split_is_unique(
    before: Seq<char>,
    after: Seq<char>,
    other_before: Seq<char>,
    other_after: Seq<char>,
)
    requires
        !before.contains('#'),
        !other_before.contains('#'),
    ensures
        before + seq!['#'] + after == other_before + seq!['#'] + other_after <==> before
            == other_before && after == other_after,
{
    lemma_split_first_joined(before, '#', after);
    lemma_split_first_joined(other_before, '#', other_after);
}

/// A text is read as an identifier just when it holds a delimiter and does not
/// start with one. The package is then what stands before the first delimiter,
/// the task what stands after it, and the identifier prints as the text.
pub proof fn law_read_task_id<'a>(
    text: &'a str,
    res: Result<TaskId<'a>, TaskIdError<'a>>,
    package: &str,
    task: &str,
    printed: String,
)
    requires
        call_ensures(<TaskId<'a> as TryFrom<&'a str>>::try_from, (text,), res),
        res matches Ok(id) ==> {
            &&& call_ensures(TaskId::<'a>::package, (&id,), package)
            &&& call_ensures(TaskId::<'a>::task, (&id,), task)
            &&& call_ensures(TaskId::<'a>::to_string, (&id,), printed)
        },
    ensures
        res is Ok <==> text@.contains('#') && text@[0] != '#',
        res is Ok ==> {
            &&& text@ == package@ + seq!['#'] + task@
            &&& package@.len() > 0
            &&& !package@.contains('#')
            &&& printed@ == text@
        },
{
}

/// The refusal of a text quotes the text.
pub proof fn law_refused_task_id<'a>(
    text: &'a str,
    res: Result<TaskId<'a>, TaskIdError<'a>>,
    message: String,
)
    requires
        call_ensures(<TaskId<'a> as TryFrom<&'a str>>::try_from, (text,), res),
        res matches Err(error) ==> call_ensures(
            TaskIdError::<'a>::to_string,
            (&error,),
            message,
        ),
    ensures
        res is Err ==> message@ == "No workspace found in task id '"@ + text@ + "'"@,
{
}

/// Every identifier prints as its package, the delimiter and its task, by
/// either way of printing it.
pub proof fn law_print_task_id<'a>(
    id: TaskId<'a>,
    package: &str,
    task: &str,
    printed: String,
    converted: String,
)
    requires
        call_ensures(TaskId::<'a>::package, (&id,), package),
        call_ensures(TaskId::<'a>::task, (&id,), task),
        call_ensures(TaskId::<'a>::to_string, (&id,), printed),
        call_ensures(<String as From<TaskId<'a>>>::from, (id,), converted),
    ensures
        printed@ == package@ + seq!['#'] + task@,
        converted@ == printed@,
{
}

/// A text is read as a name for one workspace just when it holds a delimiter.
/// The package is then what stands before the first one, be it empty, and the
/// task what stands after it; else the task is the whole text. Either way the
/// name prints as the text.
pub proof fn law_read_task_name<'a>(
    text: &'a str,
    name: TaskName<'a>,
    package: Option<&str>,
    task: &str,
    for_package: bool,
    printed: String,
)
    requires
        call_ensures(<TaskName<'a> as From<&'a str>>::from, (text,), name),
        call_ensures(TaskName::<'a>::package, (&name,), package),
        call_ensures(TaskName::<'a>::task, (&name,), task),
        call_ensures(TaskName::<'a>::is_package_task, (&name,), for_package),
        call_ensures(TaskName::<'a>::to_string, (&name,), printed),
    ensures
        package is Some <==> text@.contains('#'),
        for_package <==> text@.contains('#'),
        match package {
            Some(package) => {
                &&& text@ == package@ + seq!['#'] + task@
                &&& !package@.contains('#')
            },
            None => task@ == text@,
        },
        printed@ == text@,
{
}

/// Reading a name from an owned text gives what reading it from a borrowed one
/// gives.
pub proof fn law_read_owned_task_name(
    text: String,
    name: TaskName<'static>,
    package: Option<&str>,
    task: &str,
)
    requires
        call_ensures(<TaskName<'static> as From<String>>::from, (text,), name),
        call_ensures(TaskName::<'static>::package, (&name,), package),
        call_ensures(TaskName::<'static>::task, (&name,), task),
    ensures
        package is Some <==> text@.contains('#'),
        match package {
            Some(package) => {
                &&& text@ == package@ + seq!['#'] + task@
                &&& !package@.contains('#')
            },
            None => task@ == text@,
        },
{
}

/// A name prints as its task, after its package and the delimiter if it has a
/// package, by either way of printing it.
pub proof fn law_print_task_name<'a>(
    name: TaskName<'a>,
    package: Option<&str>,
    task: &str,
    printed: String,
    converted: String,
)
    requires
        call_ensures(TaskName::<'a>::package, (&name,), package),
        call_ensures(TaskName::<'a>::task, (&name,), task),
        call_ensures(TaskName::<'a>::to_string, (&name,), printed),
        call_ensures(<String as From<TaskName<'a>>>::from, (name,), converted),
    ensures
        match package {
            Some(package) => printed@ == package@ + seq!['#'] + task@,
            None => printed@ == task@,
        },
        converted@ == printed@,
{
}

/// A task that is the text of an identifier keeps its own package. Any other
/// task gets the package that it is looked up from, and keeps its text.
pub proof fn law_new_task_id<'a>(
    package: &'a str,
    task: &'a str,
    id: TaskId<'a>,
    id_package: &str,
    id_task: &str,
)
    requires
        call_ensures(TaskId::<'a>::new, (package, task), id),
        call_ensures(TaskId::<'a>::package, (&id,), id_package),
        call_ensures(TaskId::<'a>::task, (&id,), id_task),
    ensures
        if task@.contains('#') && task@[0] != '#' {
            &&& task@ == id_package@ + seq!['#'] + id_task@
            &&& id_package@.len() > 0
            &&& !id_package@.contains('#')
        } else {
            &&& id_package@ == package@
            &&& id_task@ == task@
        },
{
}

/// The identifier of a configured task has the name's own package if it has
/// one, else the name of the workspace, which is two slashes for the root; its
/// task is the name's.
pub proof fn law_task_id_in_graph<'a>(
    workspace: WorkspaceName,
    name: TaskName<'a>,
    name_package: Option<&str>,
    name_task: &str,
    id: TaskId<'static>,
    package: &str,
    task: &str,
)
    requires
        call_ensures(TaskName::<'a>::package, (&name,), name_package),
        call_ensures(TaskName::<'a>::task, (&name,), name_task),
        call_ensures(TaskId::<'static>::from_graph, (&workspace, &name), id),
        call_ensures(TaskId::<'static>::package, (&id,), package),
        call_ensures(TaskId::<'static>::task, (&id,), task),
    ensures
        task@ == name_task@,
        match (name_package, workspace) {
            (Some(own), _) => package@ == own@,
            (None, WorkspaceName::Root) => package@ == seq!['/', '/'],
            (None, WorkspaceName::Other(workspace)) => package@ == workspace@,
        },
{
}

/// An identifier runs in the root workspace just when its package is two
/// slashes, else in the workspace that has the very name of its package.
pub proof fn law_workspace_of_task_id<'a>(
    id: TaskId<'a>,
    package: &str,
    workspace: WorkspaceName,
)
    requires
        call_ensures(TaskId::<'a>::package, (&id,), package),
        call_ensures(TaskId::<'a>::to_workspace_name, (&id,), workspace),
    ensures
        match workspace {
            WorkspaceName::Root => package@ == seq!['/', '/'],
            WorkspaceName::Other(name) => name@ == package@ && package@ != seq!['/', '/'],
        },
{
}

/// Two identifiers compare equal just when their packages have the same
/// characters and their tasks have the same characters. Where the packages hold
/// no delimiter, that is just when they print alike.
pub proof fn law_task_id_eq<'a>(
    a: TaskId<'a>,
    b: TaskId<'a>,
    equal: bool,
    different: bool,
    a_package: &str,
    a_task: &str,
    a_printed: String,
    b_package: &str,
    b_task: &str,
    b_printed: String,
)
    requires
        call_ensures(<TaskId<'a> as PartialEq>::eq, (&a, &b), equal),
        call_ensures(<TaskId<'a> as PartialEq>::ne, (&a, &b), different),
        call_ensures(TaskId::<'a>::package, (&a,), a_package),
        call_ensures(TaskId::<'a>::task, (&a,), a_task),
        call_ensures(TaskId::<'a>::to_string, (&a,), a_printed),
        call_ensures(TaskId::<'a>::package, (&b,), b_package),
        call_ensures(TaskId::<'a>::task, (&b,), b_task),
        call_ensures(TaskId::<'a>::to_string, (&b,), b_printed),
    ensures
        equal <==> a_package@ == b_package@ && a_task@ == b_task@,
        different == !equal,
        !a_package@.contains('#') && !b_package@.contains('#') ==> (equal <==> a_printed@
            == b_printed@),
{
    if !a_package@.contains('#') && !b_package@.contains('#') {
        law_split_is_unique(a_package@, a_task@, b_package@, b_task@);
    }
}

/// An identifier is less than another just when its package comes first, or the
/// packages are the same and its task comes first; greater just when the other
/// is less.
pub proof fn law_task_id_order<'a>(
    a: TaskId<'a>,
    b: TaskId<'a>,
    less: bool,
    greater: bool,
    not_greater: bool,
    not_less: bool,
    a_package: &str,
    a_task: &str,
    b_package: &str,
    b_task: &str,
)
    requires
        call_ensures(<TaskId<'a> as PartialOrd>::lt, (&a, &b), less),
        call_ensures(<TaskId<'a> as PartialOrd>::gt, (&a, &b), greater),
        call_ensures(<TaskId<'a> as PartialOrd>::le, (&a, &b), not_greater),
        call_ensures(<TaskId<'a> as PartialOrd>::ge, (&a, &b), not_less),
        call_ensures(TaskId::<'a>::package, (&a,), a_package),
        call_ensures(TaskId::<'a>::task, (&a,), a_task),
        call_ensures(TaskId::<'a>::package, (&b,), b_package),
        call_ensures(TaskId::<'a>::task, (&b,), b_task),
    ensures
        less <==> precedes(a_package@, b_package@) || a_package@ == b_package@ && precedes(
            a_task@,
            b_task@,
        ),
        not_greater == !greater,
        not_less == !less,
        greater <==> precedes(b_package@, a_package@) || a_package@ == b_package@ && precedes(
            b_task@,
            a_task@,
        ),
{
    law_texts_are_ordered(a_package@, b_package@);
    law_texts_are_ordered(a_task@, b_task@);
}

/// A name is less than another just when its package comes first, a name
/// without one before all that have one, or the packages are the same and its
/// task comes first; greater just when the other is less.
pub proof fn law_task_name_order<'a>(
    a: TaskName<'a>,
    b: TaskName<'a>,
    less: bool,
    greater: bool,
    not_greater: bool,
    not_less: bool,
    a_package: Option<&str>,
    a_task: &str,
    b_package: Option<&str>,
    b_task: &str,
)
    requires
        call_ensures(<TaskName<'a> as PartialOrd>::lt, (&a, &b), less),
        call_ensures(<TaskName<'a> as PartialOrd>::gt, (&a, &b), greater),
        call_ensures(<TaskName<'a> as PartialOrd>::le, (&a, &b), not_greater),
        call_ensures(<TaskName<'a> as PartialOrd>::ge, (&a, &b), not_less),
        call_ensures(TaskName::<'a>::package, (&a,), a_package),
        call_ensures(TaskName::<'a>::task, (&a,), a_task),
        call_ensures(TaskName::<'a>::package, (&b,), b_package),
        call_ensures(TaskName::<'a>::task, (&b,), b_task),
    ensures
        less <==> match (a_package, b_package) {
            (None, None) => precedes(a_task@, b_task@),
            (None, Some(_)) => true,
            (Some(_), None) => false,
            (Some(package), Some(other)) => precedes(package@, other@) || package@ == other@
                && precedes(a_task@, b_task@),
        },
        not_greater == !greater,
        not_less == !less,
        greater <==> match (a_package, b_package) {
            (None, None) => precedes(b_task@, a_task@),
            (None, Some(_)) => false,
            (Some(_), None) => true,
            (Some(package), Some(other)) => precedes(other@, package@) || package@ == other@
                && precedes(b_task@, a_task@),
        },
{
    if let (Some(package), Some(other)) = (a_package, b_package) {
        law_texts_are_ordered(package@, other@);
    }
    law_texts_are_ordered(a_task@, b_task@);
}

/// Two names compare equal just when their tasks have the same characters and
/// either neither has a package or both have one with the same characters.
pub proof fn law_task_name_eq<'a>(
    a: TaskName<'a>,
    b: TaskName<'a>,
    equal: bool,
    different: bool,
    a_package: Option<&str>,
    a_task: &str,
    b_package: Option<&str>,
    b_task: &str,
)
    requires
        call_ensures(<TaskName<'a> as PartialEq>::eq, (&a, &b), equal),
        call_ensures(<TaskName<'a> as PartialEq>::ne, (&a, &b), different),
        call_ensures(TaskName::<'a>::package, (&a,), a_package),
        call_ensures(TaskName::<'a>::task, (&a,), a_task),
        call_ensures(TaskName::<'a>::package, (&b,), b_package),
        call_ensures(TaskName::<'a>::task, (&b,), b_task),
    ensures
        equal <==> {
            &&& a_task@ == b_task@
            &&& match (a_package, b_package) {
                (Some(package), Some(other)) => package@ == other@,
                (None, None) => true,
                _ => false,
            }
        },
        different == !equal,
{
}

/// A name without a package applies to every workspace, one with a package
/// just to the workspace with the same characters.
pub proof fn law_name_applies<'a>(
    name: TaskName<'a>,
    package: Option<&str>,
    workspace: &str,
    applies: bool,
)
    requires
        call_ensures(TaskName::<'a>::package, (&name,), package),
        call_ensures(TaskName::<'a>::in_workspace, (&name, workspace), applies),
    ensures
        match package {
            Some(package) => applies <==> package@ == workspace@,
            None => applies,
        },
{
}

/// The identifier of a name has the name's package and task; a name without a
/// package has no identifier.
pub proof fn law_task_id_of_name<'a>(
    name: TaskName<'a>,
    name_package: Option<&str>,
    name_task: &str,
    res: Option<TaskId<'a>>,
    package: &str,
    task: &str,
)
    requires
        call_ensures(TaskName::<'a>::package, (&name,), name_package),
        call_ensures(TaskName::<'a>::task, (&name,), name_task),
        call_ensures(TaskName::<'a>::task_id, (&name,), res),
        res matches Some(id) ==> {
            &&& call_ensures(TaskId::<'a>::package, (&id,), package)
            &&& call_ensures(TaskId::<'a>::task, (&id,), task)
        },
    ensures
        match name_package {
            Some(name_package) => res is Some && package@ == name_package@ && task@ == name_task@,
            None => res is None,
        },
{
}

/// The two names of an identifier have its task; one has its package, the
/// other none.
pub proof fn law_names_of_task_id<'a>(
    id: TaskId<'a>,
    package: &str,
    task: &str,
    own: TaskName<'a>,
    own_package: Option<&str>,
    own_task: &str,
    plain: TaskName<'a>,
    plain_package: Option<&str>,
    plain_task: &str,
)
    requires
        call_ensures(TaskId::<'a>::package, (&id,), package),
        call_ensures(TaskId::<'a>::task, (&id,), task),
        call_ensures(TaskId::<'a>::as_task_name, (&id,), own),
        call_ensures(TaskName::<'a>::package, (&own,), own_package),
        call_ensures(TaskName::<'a>::task, (&own,), own_task),
        call_ensures(TaskId::<'a>::as_non_workspace_task_name, (&id,), plain),
        call_ensures(TaskName::<'a>::package, (&plain,), plain_package),
        call_ensures(TaskName::<'a>::task, (&plain,), plain_task),
    ensures
        own_package matches Some(own_package) && own_package@ == package@,
        own_task@ == task@,
        plain_package is None,
        plain_task@ == task@,
{
}

/// Making a name one for all workspaces takes its package away, making it a
/// root task gives it two slashes for a package; its task stays the same.
pub proof fn law_change_workspace<'a>(
    name: TaskName<'a>,
    task: &str,
    plain: TaskName<'a>,
    plain_package: Option<&str>,
    plain_task: &str,
    root: TaskName<'static>,
    root_package: Option<&str>,
    root_task: &str,
)
    requires
        call_ensures(TaskName::<'a>::task, (&name,), task),
        call_ensures(TaskName::<'a>::into_non_workspace_task, (name,), plain),
        call_ensures(TaskName::<'a>::package, (&plain,), plain_package),
        call_ensures(TaskName::<'a>::task, (&plain,), plain_task),
        call_ensures(TaskName::<'a>::into_root_task, (name,), root),
        call_ensures(TaskName::<'static>::package, (&root,), root_package),
        call_ensures(TaskName::<'static>::task, (&root,), root_task),
    ensures
        plain_package is None,
        plain_task@ == task@,
        root_package matches Some(root_package) && root_package@ == seq!['/', '/'],
        root_task@ == task@,
{
}

/// Owning or copying a name or an identifier keeps its texts.
pub proof fn law_own_and_clone<'a>(
    name: TaskName<'a>,
    name_package: Option<&str>,
    name_task: &str,
    owned_name: TaskName<'static>,
    owned_name_package: Option<&str>,
    owned_name_task: &str,
    name_copy: TaskName<'a>,
    id: TaskId<'a>,
    package: &str,
    task: &str,
    owned: TaskId<'static>,
    owned_package: &str,
    owned_task: &str,
    copy: TaskId<'a>,
)
    requires
        call_ensures(TaskName::<'a>::package, (&name,), name_package),
        call_ensures(TaskName::<'a>::task, (&name,), name_task),
        call_ensures(TaskName::<'a>::into_owned, (name,), owned_name),
        call_ensures(TaskName::<'static>::package, (&owned_name,), owned_name_package),
        call_ensures(TaskName::<'static>::task, (&owned_name,), owned_name_task),
        call_ensures(<TaskName<'a> as Clone>::clone, (&name,), name_copy),
        call_ensures(TaskId::<'a>::package, (&id,), package),
        call_ensures(TaskId::<'a>::task, (&id,), task),
        call_ensures(TaskId::<'a>::into_owned, (id,), owned),
        call_ensures(TaskId::<'static>::package, (&owned,), owned_package),
        call_ensures(TaskId::<'static>::task, (&owned,), owned_task),
        call_ensures(<TaskId<'a> as Clone>::clone, (&id,), copy),
    ensures
        match (name_package, owned_name_package) {
            (Some(package), Some(owned_package)) => owned_package@ == package@,
            (None, None) => true,
            _ => false,
        },
        owned_name_task@ == name_task@,
        name_copy == name,
        owned_package@ == package@,
        owned_task@ == task@,
        copy == id,
{
}

} // verus!
