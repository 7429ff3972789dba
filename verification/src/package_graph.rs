//! Names of the workspaces in the package graph.

use crate::text::str_eq;
use vstd::prelude::*;
use vstd::std_specs::cmp::{PartialEqSpec, PartialEqSpecImpl};

verus! {

/// The name under which the root workspace appears in task identifiers.
pub const ROOT_PKG_NAME: &'static str = "//";

/// A workspace of the repository.
#[derive(Debug, Eq, PartialOrd, Ord, Hash)]
pub enum WorkspaceName {
    /// The workspace at the root of the repository.
    Root,
    /// Any other workspace, by its package name.
    Other(String),
}

/// The mathematical content of a [`WorkspaceName`].
pub enum WorkspaceNameView {
    Root,
    Other(Seq<char>),
}

impl View for WorkspaceName {
    type V = WorkspaceNameView;

    open spec fn view(&self) -> WorkspaceNameView {
        match self {
            WorkspaceName::Root => WorkspaceNameView::Root,
            WorkspaceName::Other(name) => WorkspaceNameView::Other(name@),
        }
    }
}

impl PartialEqSpecImpl for WorkspaceName {
    open spec fn obeys_eq_spec() -> bool {
        true
    }

    open spec fn eq_spec(&self, other: &Self) -> bool {
        self@ == other@
    }
}

impl PartialEq for WorkspaceName {
    fn eq(&self, other: &Self) -> (res: bool)
        ensures
            res <==> match (*self, *other) {
                (WorkspaceName::Root, WorkspaceName::Root) => true,
                (WorkspaceName::Other(name), WorkspaceName::Other(other_name)) => name@
                    == other_name@,
                _ => false,
            },
    {
        match (self, other) {
            (WorkspaceName::Root, WorkspaceName::Root) => true,
            (WorkspaceName::Other(name), WorkspaceName::Other(other_name)) => str_eq(
                name.as_str(),
                other_name.as_str(),
            ),
            _ => false,
        }
    }
}

impl Clone for WorkspaceName {
    fn clone(&self) -> (res: Self)
        ensures
            res == *self,
    {
        match self {
            WorkspaceName::Root => WorkspaceName::Root,
            WorkspaceName::Other(name) => WorkspaceName::Other(name.clone()),
        }
    }
}

impl WorkspaceNameView {
    /// The package name that stands for the workspace in a task identifier.
    pub open spec fn package(self) -> Seq<char> {
        match self {
            WorkspaceNameView::Root => ROOT_PKG_NAME@,
            WorkspaceNameView::Other(name) => name,
        }
    }

    /// The workspace that a package name in a task identifier stands for.
    pub open spec fn of_package(package: Seq<char>) -> Self {
        if package == ROOT_PKG_NAME@ {
            WorkspaceNameView::Root
        } else {
            WorkspaceNameView::Other(package)
        }
    }
}

/// The root workspace appears as two slashes, every other workspace under its
/// own name, character by character.
pub proof fn law_package_of_workspace(workspace: WorkspaceName)
    ensures
        match workspace {
            WorkspaceName::Root => workspace@.package() == seq!['/', '/'],
            WorkspaceName::Other(name) => workspace@.package() == name@,
        },
        WorkspaceNameView::Root.package() == seq!['/', '/'],
        forall|name: Seq<char>| #[trigger] WorkspaceNameView::Other(name).package() == name,
{
    reveal_strlit("//");
    assert(ROOT_PKG_NAME@ == seq!['/', '/']);
}

/// Two slashes stand for the root workspace, every other package for the
/// workspace with the very same name.
pub proof fn law_workspace_of_package(package: Seq<char>)
    ensures
        WorkspaceNameView::of_package(package) is Root <==> package == seq!['/', '/'],
        package != seq!['/', '/'] ==> WorkspaceNameView::of_package(package)
            == WorkspaceNameView::Other(package),
{
    reveal_strlit("//");
    assert(ROOT_PKG_NAME@ == seq!['/', '/']);
}

/// Two workspace names compare equal just when both are the root or both are
/// other workspaces with the same characters.
pub proof fn law_workspace_eq(a: WorkspaceName, b: WorkspaceName)
    ensures
        <WorkspaceName as PartialEqSpec>::obeys_eq_spec(),
        PartialEqSpec::eq_spec(&a, &b) <==> match (a, b) {
            (WorkspaceName::Root, WorkspaceName::Root) => true,
            (WorkspaceName::Other(name), WorkspaceName::Other(other)) => name@ == other@,
            _ => false,
        },
{
}

} // verus!
