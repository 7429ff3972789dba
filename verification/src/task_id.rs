//! Task names as they are configured, and task identifiers as they appear in
//! the task graph.

use crate::package_graph::{WorkspaceName, WorkspaceNameView, ROOT_PKG_NAME};
use crate::text::{clone_cow, cow_str, lemma_split_first_parts, precedes, split_first, split_once, static_cow, str_eq, str_precedes};
use std::borrow::Cow;
use std::cmp::Ordering;
use vstd::prelude::*;
use vstd::std_specs::cmp::{PartialEqSpecImpl, PartialOrdSpecImpl};
use vstd::std_specs::convert::{FromSpecImpl, TryFromSpecImpl};
use vstd::string::*;

verus! {

/// What stands between the package and the task in a task identifier.
pub const TASK_DELIMITER: &'static str = "#";

/// A task name as it appears in a `turbo.json`. It might be for all workspaces
/// or just one.
#[derive(Debug, Eq, Ord, Hash)]
pub struct TaskName<'a> {
    package: Option<Cow<'a, str>>,
    task: Cow<'a, str>,
}

/// A task identifier as it appears in the task graph.
#[derive(Debug, Eq, Ord, Hash)]
pub struct TaskId<'a> {
    package: Cow<'a, str>,
    task: Cow<'a, str>,
}

/// The text is no task identifier: it names no workspace.
#[derive(Debug)]
pub struct TaskIdError<'a> {
    input: &'a str,
}

/// The mathematical content of a [`TaskName`].
#[verifier::ext_equal]
pub struct TaskNameView {
    pub package: Option<Seq<char>>,
    pub task: Seq<char>,
}

/// The mathematical content of a [`TaskId`].
#[verifier::ext_equal]
pub struct TaskIdView {
    pub package: Seq<char>,
    pub task: Seq<char>,
}

/// The characters of an optional text.
pub open spec fn text_of(text: Option<&str>) -> Option<Seq<char>> {
    match text {
        Some(text) => Some(text@),
        None => None,
    }
}

/// The two parts with the delimiter between them.
pub open spec fn delimited(package: Seq<char>, task: Seq<char>) -> Seq<char> {
    package + seq!['#'] + task
}

impl TaskNameView {
    /// The task name that a text stands for: what precedes the first
    /// delimiter is the package, even if it is empty.
    pub open spec fn parse(text: Seq<char>) -> Self {
        match split_first(text, '#') {
            Some((package, task)) => TaskNameView { package: Some(package), task },
            None => TaskNameView { package: None, task: text },
        }
    }

    /// The text that stands for the task name.
    pub open spec fn render(self) -> Seq<char> {
        match self.package {
            Some(package) => delimited(package, self.task),
            None => self.task,
        }
    }

    /// The identifier of the task, if the name is for one workspace.
    pub open spec fn task_id(self) -> Option<TaskIdView> {
        match self.package {
            Some(package) => Some(TaskIdView { package, task: self.task }),
            None => None,
        }
    }

    /// Whether the task name applies to the workspace of the given name.
    pub open spec fn in_workspace(self, workspace: Seq<char>) -> bool {
        self.package is None || self.package == Some(workspace)
    }

    /// The name without its workspace.
    pub open spec fn non_workspace_task(self) -> Self {
        TaskNameView { package: None, task: self.task }
    }

    /// The name for the root workspace.
    pub open spec fn root_task(self) -> Self {
        TaskNameView { package: Some(ROOT_PKG_NAME@), task: self.task }
    }
}

impl TaskIdView {
    /// The identifier that a text stands for: it has a delimiter, and a
    /// package before the first one.
    pub open spec fn parse(text: Seq<char>) -> Option<Self> {
        match split_first(text, '#') {
            Some((package, task)) => if package.len() == 0 {
                None
            } else {
                Some(TaskIdView { package, task })
            },
            None => None,
        }
    }

    /// The text that stands for the identifier.
    pub open spec fn render(self) -> Seq<char> {
        delimited(self.package, self.task)
    }

    /// The identifier of the task named `task` when it is looked up from
    /// `package`: a task that names a package keeps it.
    pub open spec fn resolve(package: Seq<char>, task: Seq<char>) -> Self {
        match Self::parse(task) {
            Some(id) => id,
            None => TaskIdView { package, task },
        }
    }

    /// The identifier of a configured task in a workspace.
    pub open spec fn from_graph(workspace: WorkspaceNameView, name: TaskNameView) -> Self {
        match name.task_id() {
            Some(id) => id,
            None => TaskIdView { package: workspace.package(), task: name.task },
        }
    }

    /// The task name that is for all workspaces.
    pub open spec fn non_workspace_task_name(self) -> TaskNameView {
        TaskNameView { package: None, task: self.task }
    }

    /// The task name that is for this workspace alone.
    pub open spec fn task_name(self) -> TaskNameView {
        TaskNameView { package: Some(self.package), task: self.task }
    }
}

impl<'a> TaskName<'a> {
    /// The package, as it is held.
    pub closed spec fn package_cow(&self) -> Option<Cow<'a, str>> {
        self.package
    }

    /// The task, as it is held.
    pub closed spec fn task_cow(&self) -> Cow<'a, str> {
        self.task
    }

    /// Whether the name owns all of its text.
    pub open spec fn is_owned(&self) -> bool {
        &&& self.package_cow() matches Some(package) ==> package is Owned
        &&& self.task_cow() is Owned
    }

    /// Whether the name borrows all of its text.
    pub open spec fn is_borrowed(&self) -> bool {
        &&& self.package_cow() matches Some(package) ==> package is Borrowed
        &&& self.task_cow() is Borrowed
    }
}

impl<'a> TaskId<'a> {
    /// The package, as it is held.
    pub closed spec fn package_cow(&self) -> Cow<'a, str> {
        self.package
    }

    /// The task, as it is held.
    pub closed spec fn task_cow(&self) -> Cow<'a, str> {
        self.task
    }

    /// Whether the identifier owns all of its text.
    pub open spec fn is_owned(&self) -> bool {
        &&& self.package_cow() is Owned
        &&& self.task_cow() is Owned
    }

    /// Whether the identifier borrows all of its text.
    pub open spec fn is_borrowed(&self) -> bool {
        &&& self.package_cow() is Borrowed
        &&& self.task_cow() is Borrowed
    }
}

impl<'a> View for TaskName<'a> {
    type V = TaskNameView;

    open spec fn view(&self) -> TaskNameView {
        TaskNameView {
            package: match self.package_cow() {
                Some(package) => Some(package@),
                None => None,
            },
            task: self.task_cow()@,
        }
    }
}

impl<'a> View for TaskId<'a> {
    type V = TaskIdView;

    open spec fn view(&self) -> TaskIdView {
        TaskIdView { package: self.package_cow()@, task: self.task_cow()@ }
    }
}

impl<'a> View for TaskIdError<'a> {
    type V = Seq<char>;

    /// The text that was refused.
    closed spec fn view(&self) -> Seq<char> {
        self.input@
    }
}

/// The name of the root workspace is two slashes.
pub proof fn lemma_root_pkg_name()
    ensures
        ROOT_PKG_NAME@ == seq!['/', '/'],
{
    reveal_strlit("//");
    assert(ROOT_PKG_NAME@ == seq!['/', '/']);
}

/// The part before the first delimiter is empty just when the text starts with
/// the delimiter.
proof fn lemma_starts_with_package(text: Seq<char>)
    ensures
        split_first(text, '#') matches Some((package, task)) ==> (package.len() == 0 <==> text[0]
            == '#'),
        split_first(text, '#') is Some <==> text.contains('#'),
{
    lemma_split_first_parts(text, '#');
    if split_first(text, '#') is Some {
        let (package, task) = split_first(text, '#')->0;
        assert(text == package + seq!['#'] + task);
        if package.len() > 0 {
            assert(text[0] == package[0]);
            assert(package.contains(package[0]));
        }
    }
}

/// The package, the delimiter and the task, as one text.
fn join_task(package: &str, task: &str) -> (res: String)
    ensures
        res@ == delimited(package@, task@),
        res@ == package@ + seq!['#'] + task@,
{
    proof {
        reveal_strlit("#");
        assert(TASK_DELIMITER@ == seq!['#']);
    }
    package.to_owned().concat(TASK_DELIMITER).concat(task)
}

impl<'a> PartialEqSpecImpl for TaskName<'a> {
    open spec fn obeys_eq_spec() -> bool {
        true
    }

    open spec fn eq_spec(&self, other: &Self) -> bool {
        self@ == other@
    }
}

impl<'a> PartialEq for TaskName<'a> {
    /// Names are equal if they hold the same text, borrowed or owned.
    fn eq(&self, other: &Self) -> (res: bool)
        ensures
            res <==> self@.package == other@.package && self@.task == other@.task,
    {
        let same_package: bool = match (&self.package, &other.package) {
            (Some(package), Some(other_package)) => str_eq(
                cow_str(package),
                cow_str(other_package),
            ),
            (None, None) => true,
            _ => false,
        };
        same_package && str_eq(cow_str(&self.task), cow_str(&other.task))
    }
}

impl<'a> PartialEqSpecImpl for TaskId<'a> {
    open spec fn obeys_eq_spec() -> bool {
        true
    }

    open spec fn eq_spec(&self, other: &Self) -> bool {
        self@ == other@
    }
}

impl<'a> PartialEq for TaskId<'a> {
    /// Identifiers are equal if they hold the same text, borrowed or owned.
    fn eq(&self, other: &Self) -> (res: bool)
        ensures
            res <==> self@.package == other@.package && self@.task == other@.task,
    {
        str_eq(cow_str(&self.package), cow_str(&other.package)) && str_eq(
            cow_str(&self.task),
            cow_str(&other.task),
        )
    }
}

/// Whether the first package comes before the second: none comes before all.
pub open spec fn package_precedes(a: Option<Seq<char>>, b: Option<Seq<char>>) -> bool {
    match (a, b) {
        (None, Some(_)) => true,
        (Some(package), Some(other)) => precedes(package, other),
        _ => false,
    }
}

impl<'a> PartialOrdSpecImpl for TaskName<'a> {
    open spec fn obeys_partial_cmp_spec() -> bool {
        true
    }

    open spec fn partial_cmp_spec(&self, other: &Self) -> Option<Ordering> {
        if package_precedes(self@.package, other@.package) {
            Some(Ordering::Less)
        } else if package_precedes(other@.package, self@.package) {
            Some(Ordering::Greater)
        } else if precedes(self@.task, other@.task) {
            Some(Ordering::Less)
        } else if precedes(other@.task, self@.task) {
            Some(Ordering::Greater)
        } else {
            Some(Ordering::Equal)
        }
    }
}

impl<'a> PartialOrd for TaskName<'a> {
    /// Names are ordered by their packages, and within a package by their
    /// tasks.
    fn partial_cmp(&self, other: &Self) -> (res: Option<Ordering>) {
        let (less, greater): (bool, bool) = match (&self.package, &other.package) {
            (Some(package), Some(other_package)) => (
                str_precedes(cow_str(package), cow_str(other_package)),
                str_precedes(cow_str(other_package), cow_str(package)),
            ),
            (None, Some(_)) => (true, false),
            (Some(_), None) => (false, true),
            (None, None) => (false, false),
        };
        if less {
            Some(Ordering::Less)
        } else if greater {
            Some(Ordering::Greater)
        } else if str_precedes(cow_str(&self.task), cow_str(&other.task)) {
            Some(Ordering::Less)
        } else if str_precedes(cow_str(&other.task), cow_str(&self.task)) {
            Some(Ordering::Greater)
        } else {
            Some(Ordering::Equal)
        }
    }
}

impl<'a> PartialOrdSpecImpl for TaskId<'a> {
    open spec fn obeys_partial_cmp_spec() -> bool {
        true
    }

    open spec fn partial_cmp_spec(&self, other: &Self) -> Option<Ordering> {
        if precedes(self@.package, other@.package) {
            Some(Ordering::Less)
        } else if precedes(other@.package, self@.package) {
            Some(Ordering::Greater)
        } else if precedes(self@.task, other@.task) {
            Some(Ordering::Less)
        } else if precedes(other@.task, self@.task) {
            Some(Ordering::Greater)
        } else {
            Some(Ordering::Equal)
        }
    }
}

impl<'a> PartialOrd for TaskId<'a> {
    /// Identifiers are ordered by their packages, and within a package by their
    /// tasks.
    fn partial_cmp(&self, other: &Self) -> (res: Option<Ordering>) {
        if str_precedes(cow_str(&self.package), cow_str(&other.package)) {
            Some(Ordering::Less)
        } else if str_precedes(cow_str(&other.package), cow_str(&self.package)) {
            Some(Ordering::Greater)
        } else if str_precedes(cow_str(&self.task), cow_str(&other.task)) {
            Some(Ordering::Less)
        } else if str_precedes(cow_str(&other.task), cow_str(&self.task)) {
            Some(Ordering::Greater)
        } else {
            Some(Ordering::Equal)
        }
    }
}

impl<'a> Clone for TaskName<'a> {
    fn clone(&self) -> (res: Self)
        ensures
            res == *self,
    {
        let package: Option<Cow<'a, str>> = match &self.package {
            Some(package) => Some(clone_cow(package)),
            None => None,
        };
        TaskName { package, task: clone_cow(&self.task) }
    }
}

impl<'a> Clone for TaskId<'a> {
    fn clone(&self) -> (res: Self)
        ensures
            res == *self,
    {
        TaskId { package: clone_cow(&self.package), task: clone_cow(&self.task) }
    }
}

// The conversions below state what they give in their own contracts, over the
// content of the result: a text has more than one representation, so no single
// value could be named as the result.

impl<'a> FromSpecImpl<&'a str> for TaskName<'a> {
    open spec fn obeys_from_spec() -> bool {
        false
    }

    open spec fn from_spec(value: &'a str) -> Self {
        arbitrary()
    }
}

impl<'a> From<&'a str> for TaskName<'a> {
    /// Reads a task name. An empty workspace before the delimiter is allowed.
    fn from(value: &'a str) -> (res: Self)
        ensures
            res@ == TaskNameView::parse(value@),
            res@.package is Some <==> value@.contains('#'),
            match res@.package {
                Some(package) => {
                    &&& value@ == package + seq!['#'] + res@.task
                    &&& !package.contains('#')
                },
                None => res@.task == value@,
            },
            res.is_borrowed(),
    {
        proof {
            lemma_split_first_parts(value@, '#');
        }
        match split_once(value, '#') {
            Some((package, task)) => Self {
                package: Some(Cow::Borrowed(package)),
                task: Cow::Borrowed(task),
            },
            None => Self { package: None, task: Cow::Borrowed(value) },
        }
    }
}

impl FromSpecImpl<String> for TaskName<'static> {
    open spec fn obeys_from_spec() -> bool {
        false
    }

    open spec fn from_spec(value: String) -> Self {
        arbitrary()
    }
}

impl From<String> for TaskName<'static> {
    /// Reads a task name and owns its text.
    fn from(value: String) -> (res: Self)
        ensures
            res@ == TaskNameView::parse(value@),
            res@.package is Some <==> value@.contains('#'),
            match res@.package {
                Some(package) => {
                    &&& value@ == package + seq!['#'] + res@.task
                    &&& !package.contains('#')
                },
                None => res@.task == value@,
            },
            res.is_owned(),
    {
        TaskName::from(value.as_str()).into_owned()
    }
}

impl<'a> TaskName<'a> {
    /// The workspace that the name is for, if it is for just one.
    pub fn package(&self) -> (res: Option<&str>)
        ensures
            text_of(res) == self@.package,
            match res {
                Some(package) => self@.package == Some(package@),
                None => self@.package is None,
            },
    {
        match &self.package {
            Some(package) => Some(cow_str(package)),
            None => None,
        }
    }

    /// The name of the task within a workspace.
    pub fn task(&self) -> (res: &str)
        ensures
            res@ == self@.task,
    {
        cow_str(&self.task)
    }

    /// Makes a task one for all workspaces.
    pub fn into_non_workspace_task(self) -> (res: Self)
        ensures
            res@ == self@.non_workspace_task(),
            res@.package is None,
            res@.task == self@.task,
            res.task_cow() == self.task_cow(),
    {
        let Self { task, .. } = self;
        Self { package: None, task }
    }

    /// Makes a task a root workspace task, e.g. `build` to `//#build`.
    pub fn into_root_task(self) -> (res: TaskName<'static>)
        ensures
            res@ == self@.root_task(),
            res@.package == Some(seq!['/', '/']),
            res@.task == self@.task,
            res.package_cow() matches Some(package) ==> package is Borrowed,
            res.task_cow() is Owned,
            self.task_cow() is Owned ==> res.task_cow() == self.task_cow(),
    {
        proof {
            lemma_root_pkg_name();
        }
        let Self { task, .. } = self;
        TaskName { package: Some(Cow::Borrowed(ROOT_PKG_NAME)), task: static_cow(task) }
    }

    /// The identifier of the task, if the name is for just one workspace.
    pub fn task_id(&self) -> (res: Option<TaskId<'_>>)
        ensures
            res is Some <==> self@.task_id() is Some,
            res matches Some(id) ==> self@.task_id() == Some(id@) && id.is_borrowed(),
            match res {
                Some(id) => self@.package == Some(id@.package) && id@.task == self@.task,
                None => self@.package is None,
            },
    {
        match &self.package {
            Some(package) => Some(
                TaskId {
                    package: Cow::Borrowed(cow_str(package)),
                    task: Cow::Borrowed(cow_str(&self.task)),
                },
            ),
            None => None,
        }
    }

    /// Whether the name is for just one workspace.
    pub fn is_package_task(&self) -> (res: bool)
        ensures
            res == (self@.package is Some),
    {
        self.package.is_some()
    }

    /// Whether the name applies to the given workspace.
    pub fn in_workspace(&self, workspace: &str) -> (res: bool)
        ensures
            res == self@.in_workspace(workspace@),
            res <==> self@.package is None || self@.package == Some(workspace@),
    {
        match self.task_id() {
            Some(task_id) => str_eq(task_id.package(), workspace),
            None => true,
        }
    }

    /// The same name, with its text owned. What is owned already is handed on.
    pub fn into_owned(self) -> (res: TaskName<'static>)
        ensures
            res@ == self@,
            res@.package == self@.package,
            res@.task == self@.task,
            res.is_owned(),
            self.package_cow() matches Some(package) && package is Owned ==> res.package_cow()
                == self.package_cow(),
            self.task_cow() is Owned ==> res.task_cow() == self.task_cow(),
            self.is_owned() ==> res == self,
    {
        let TaskName { package, task } = self;
        let package: Option<Cow<'static, str>> = match package {
            Some(package) => Some(static_cow(package)),
            None => None,
        };
        TaskName { package, task: static_cow(task) }
    }

    /// The text that [`TaskName::from`] reads as this name.
    pub fn to_string(&self) -> (res: String)
        ensures
            res@ == self@.render(),
            res@ == match self@.package {
                Some(package) => package + seq!['#'] + self@.task,
                None => self@.task,
            },
    {
        match &self.package {
            Some(package) => join_task(cow_str(package), cow_str(&self.task)),
            None => cow_str(&self.task).to_owned(),
        }
    }
}

impl<'a> FromSpecImpl<TaskName<'a>> for String {
    open spec fn obeys_from_spec() -> bool {
        false
    }

    open spec fn from_spec(value: TaskName<'a>) -> Self {
        arbitrary()
    }
}

impl<'a> From<TaskName<'a>> for String {
    fn from(value: TaskName<'a>) -> (res: Self)
        ensures
            res@ == value@.render(),
            res@ == match value@.package {
                Some(package) => package + seq!['#'] + value@.task,
                None => value@.task,
            },
    {
        value.to_string()
    }
}

impl<'a> TryFromSpecImpl<&'a str> for TaskId<'a> {
    open spec fn obeys_try_from_spec() -> bool {
        false
    }

    open spec fn try_from_spec(value: &'a str) -> Result<Self, TaskIdError<'a>> {
        arbitrary()
    }
}

impl<'a> TryFrom<&'a str> for TaskId<'a> {
    type Error = TaskIdError<'a>;

    /// Reads a task identifier. The task is everything after the first
    /// delimiter: `workspace#test#check` is the task `test#check` of
    /// `workspace`, not its task `test`.
    fn try_from(value: &'a str) -> (res: Result<Self, TaskIdError<'a>>)
        ensures
            res is Ok <==> TaskIdView::parse(value@) is Some,
            res matches Ok(id) ==> TaskIdView::parse(value@) == Some(id@) && id.is_borrowed(),
            res matches Err(error) ==> error@ == value@,
            res is Ok <==> value@.contains('#') && value@[0] != '#',
            res matches Ok(id) ==> {
                &&& value@ == id@.package + seq!['#'] + id@.task
                &&& id@.package.len() > 0
                &&& !id@.package.contains('#')
            },
    {
        proof {
            lemma_starts_with_package(value@);
        }
        match split_once(value, '#') {
            Some((package, task)) => if package.is_empty() {
                Err(TaskIdError { input: value })
            } else {
                Ok(TaskId { package: Cow::Borrowed(package), task: Cow::Borrowed(task) })
            },
            None => Err(TaskIdError { input: value }),
        }
    }
}

impl<'a> TaskId<'a> {
    /// The identifier of `task` as seen from `package`.
    pub fn new(package: &'a str, task: &'a str) -> (res: Self)
        ensures
            res@ == TaskIdView::resolve(package@, task@),
            if task@.contains('#') && task@[0] != '#' {
                &&& task@ == res@.package + seq!['#'] + res@.task
                &&& res@.package.len() > 0
                &&& !res@.package.contains('#')
            } else {
                &&& res@.package == package@
                &&& res@.task == task@
            },
            res.is_borrowed(),
    {
        match TaskId::try_from(task) {
            Ok(id) => id,
            Err(_) => Self { package: Cow::Borrowed(package), task: Cow::Borrowed(task) },
        }
    }

    /// The identifier of a configured task in a workspace.
    pub fn from_graph(workspace: &WorkspaceName, task_name: &TaskName) -> (res: TaskId<'static>)
        ensures
            res@ == TaskIdView::from_graph(workspace@, task_name@),
            res@.task == task_name@.task,
            match task_name@.package {
                Some(package) => res@.package == package,
                None => match workspace {
                    WorkspaceName::Root => res@.package == seq!['/', '/'],
                    WorkspaceName::Other(name) => res@.package == name@,
                },
            },
            res.task_cow() is Owned,
            res.package_cow() is Owned <==> task_name@.package is Some || workspace is Other,
    {
        proof {
            lemma_root_pkg_name();
        }
        match task_name.task_id() {
            Some(id) => id.into_owned(),
            None => {
                let package: Cow<'static, str> = match workspace {
                    WorkspaceName::Root => Cow::Borrowed(ROOT_PKG_NAME),
                    WorkspaceName::Other(workspace) => static_cow(
                        Cow::Borrowed(workspace.as_str()),
                    ),
                };
                TaskId { package, task: static_cow(Cow::Borrowed(task_name.task())) }
            },
        }
    }

    /// The package that the task runs in.
    pub fn package(&self) -> (res: &str)
        ensures
            res@ == self@.package,
    {
        cow_str(&self.package)
    }

    /// The workspace that the task runs in.
    pub fn to_workspace_name(&self) -> (res: WorkspaceName)
        ensures
            res@ == WorkspaceNameView::of_package(self@.package),
            match res {
                WorkspaceName::Root => self@.package == seq!['/', '/'],
                WorkspaceName::Other(name) => name@ == self@.package && name@ != seq!['/', '/'],
            },
    {
        proof {
            lemma_root_pkg_name();
        }
        let package: &str = cow_str(&self.package);
        if str_eq(package, ROOT_PKG_NAME) {
            WorkspaceName::Root
        } else {
            WorkspaceName::Other(package.to_owned())
        }
    }

    /// The name of the task within its package.
    pub fn task(&self) -> (res: &str)
        ensures
            res@ == self@.task,
    {
        cow_str(&self.task)
    }

    /// The task's name for all workspaces.
    pub fn as_non_workspace_task_name(&self) -> (res: TaskName<'_>)
        ensures
            res@ == self@.non_workspace_task_name(),
            res@.package is None,
            res@.task == self@.task,
            res.is_borrowed(),
    {
        TaskName { package: None, task: Cow::Borrowed(cow_str(&self.task)) }
    }

    /// The task's name for its own workspace.
    pub fn as_task_name(&self) -> (res: TaskName<'_>)
        ensures
            res@ == self@.task_name(),
            res@.package == Some(self@.package),
            res@.task == self@.task,
            res.is_borrowed(),
    {
        TaskName {
            package: Some(Cow::Borrowed(cow_str(&self.package))),
            task: Cow::Borrowed(cow_str(&self.task)),
        }
    }

    /// The same identifier, with its text owned. What is owned already is handed
    /// on.
    pub fn into_owned(self) -> (res: TaskId<'static>)
        ensures
            res@ == self@,
            res@.package == self@.package,
            res@.task == self@.task,
            res.is_owned(),
            self.package_cow() is Owned ==> res.package_cow() == self.package_cow(),
            self.task_cow() is Owned ==> res.task_cow() == self.task_cow(),
            self.is_owned() ==> res == self,
    {
        let TaskId { package, task } = self;
        TaskId { package: static_cow(package), task: static_cow(task) }
    }

    /// The package, the delimiter and the task.
    pub fn to_string(&self) -> (res: String)
        ensures
            res@ == self@.render(),
            res@ == self@.package + seq!['#'] + self@.task,
    {
        join_task(cow_str(&self.package), cow_str(&self.task))
    }
}

impl<'a> FromSpecImpl<TaskId<'a>> for String {
    open spec fn obeys_from_spec() -> bool {
        false
    }

    open spec fn from_spec(value: TaskId<'a>) -> Self {
        arbitrary()
    }
}

impl<'a> From<TaskId<'a>> for String {
    fn from(value: TaskId<'a>) -> (res: Self)
        ensures
            res@ == value@.render(),
            res@ == value@.package + seq!['#'] + value@.task,
    {
        value.to_string()
    }
}

impl<'a> TaskIdError<'a> {
    /// What is told to the user.
    pub fn to_string(&self) -> (res: String)
        ensures
            res@ == "No workspace found in task id '"@ + self@ + "'"@,
    {
        "No workspace found in task id '".to_owned().concat(self.input).concat("'")
    }
}

} // verus!
