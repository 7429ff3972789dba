//! What discovery finds, and how it can fail.
//!
//! A strategy alternates between deciding and waiting for something outside:
//! the disk, another process, a clock. The types here hold the decisions. Each
//! method returns the action to perform next; whoever drives the strategy
//! performs it and hands the outcome to the method that goes with it, until the
//! action is to return.

use crate::package_manager::PackageManager;
use crate::paths::{AbsoluteSystemPathBuf, SystemPathView};
use vstd::prelude::*;
use vstd::std_specs::cmp::{PartialEqSpec, PartialEqSpecImpl};
use vstd::string::*;

verus! {

/// A workspace: where its manifest is, and where its configuration is if it
/// has one.
#[derive(Debug, Eq)]
pub struct WorkspaceData {
    pub package_json: AbsoluteSystemPathBuf,
    pub turbo_json: Option<AbsoluteSystemPathBuf>,
}

/// What discovery found.
#[derive(Debug)]
pub struct DiscoveryResponse {
    pub workspaces: Vec<WorkspaceData>,
    pub package_manager: PackageManager,
}

/// Why discovery gave no response. The cause `E` is passed on as it is.
#[derive(Debug)]
pub enum Error<E> {
    Unavailable,
    Failed(E),
}

/// The mathematical content of a [`WorkspaceData`].
#[verifier::ext_equal]
pub struct WorkspaceDataView {
    pub package_json: SystemPathView,
    pub turbo_json: Option<SystemPathView>,
}

/// The mathematical content of a [`DiscoveryResponse`].
#[verifier::ext_equal]
pub struct DiscoveryResponseView {
    pub workspaces: Seq<WorkspaceDataView>,
    pub package_manager: PackageManager,
}

/// The content of each path.
pub open spec fn paths_of(paths: Seq<AbsoluteSystemPathBuf>) -> Seq<SystemPathView> {
    paths.map_values(|path: AbsoluteSystemPathBuf| path@)
}

/// The content of each workspace.
pub open spec fn workspaces_of(workspaces: Seq<WorkspaceData>) -> Seq<WorkspaceDataView> {
    workspaces.map_values(|workspace: WorkspaceData| workspace@)
}

/// The content of an answer.
pub open spec fn answer_of<E>(answer: Result<DiscoveryResponse, Error<E>>) -> Result<
    DiscoveryResponseView,
    Error<E>,
> {
    match answer {
        Ok(response) => Ok(response@),
        Err(error) => Err(error),
    }
}

impl View for WorkspaceData {
    type V = WorkspaceDataView;

    open spec fn view(&self) -> WorkspaceDataView {
        WorkspaceDataView {
            package_json: self.package_json@,
            turbo_json: match self.turbo_json {
                Some(path) => Some(path@),
                None => None,
            },
        }
    }
}

impl View for DiscoveryResponse {
    type V = DiscoveryResponseView;

    open spec fn view(&self) -> DiscoveryResponseView {
        DiscoveryResponseView {
            workspaces: workspaces_of(self.workspaces@),
            package_manager: self.package_manager,
        }
    }
}

impl PartialEqSpecImpl for WorkspaceData {
    open spec fn obeys_eq_spec() -> bool {
        true
    }

    open spec fn eq_spec(&self, other: &Self) -> bool {
        self@ == other@
    }
}

impl PartialEq for WorkspaceData {
    fn eq(&self, other: &Self) -> (res: bool)
        ensures
            res <==> {
                &&& self.package_json@ == other.package_json@
                &&& match (self.turbo_json, other.turbo_json) {
                    (Some(path), Some(other_path)) => path@ == other_path@,
                    (None, None) => true,
                    _ => false,
                }
            },
    {
        let same_turbo_json: bool = match (&self.turbo_json, &other.turbo_json) {
            (Some(path), Some(other_path)) => *path == *other_path,
            (None, None) => true,
            _ => false,
        };
        self.package_json == other.package_json && same_turbo_json
    }
}

impl Clone for WorkspaceData {
    fn clone(&self) -> (res: Self)
        ensures
            res@ == self@,
            res.package_json@ == self.package_json@,
            match (self.turbo_json, res.turbo_json) {
                (Some(path), Some(same)) => same@ == path@,
                (None, None) => true,
                _ => false,
            },
    {
        let turbo_json: Option<AbsoluteSystemPathBuf> = match &self.turbo_json {
            Some(path) => Some(path.clone()),
            None => None,
        };
        WorkspaceData { package_json: self.package_json.clone(), turbo_json }
    }
}

impl Clone for DiscoveryResponse {
    fn clone(&self) -> (res: Self)
        ensures
            res@ == self@,
            res.package_manager == self.package_manager,
            res.workspaces@.len() == self.workspaces@.len(),
            forall|i: int|
                0 <= i < self.workspaces@.len() ==> {
                    &&& (#[trigger] res.workspaces@[i]).package_json@
                        == self.workspaces@[i].package_json@
                    &&& match (self.workspaces@[i].turbo_json, res.workspaces@[i].turbo_json) {
                        (Some(path), Some(same)) => same@ == path@,
                        (None, None) => true,
                        _ => false,
                    }
                },
    {
        let mut workspaces: Vec<WorkspaceData> = Vec::new();
        let mut i: usize = 0;
        while i < self.workspaces.len()
            invariant
                i <= self.workspaces@.len(),
                workspaces_of(workspaces@) == workspaces_of(self.workspaces@).take(i as int),
            decreases self.workspaces@.len() - i,
        {
            let workspace: WorkspaceData = self.workspaces[i].clone();
            let ghost before = workspaces_of(workspaces@);
            workspaces.push(workspace);
            i += 1;
            assert(workspaces_of(workspaces@) == before.push(workspace@));
            assert(workspaces_of(self.workspaces@).take(i as int) == workspaces_of(
                self.workspaces@,
            ).take(i - 1).push(workspace@));
        }
        proof {
            assert(workspaces_of(workspaces@) == workspaces_of(self.workspaces@));
            assert forall|j: int| 0 <= j < self.workspaces@.len() implies (
            #[trigger] workspaces@[j])@ == self.workspaces@[j]@ by {
                assert(workspaces_of(workspaces@)[j] == workspaces_of(self.workspaces@)[j]);
            }
        }
        DiscoveryResponse { workspaces, package_manager: self.package_manager }
    }
}

/// The message for a failure with the given cause, or for unavailability.
pub(crate) fn failure_message(cause: Option<String>) -> (res: String)
    ensures
        res@ == match cause {
            Some(cause) => "discovery failed: "@ + cause@,
            None => "discovery unavailable"@,
        },
{
    match cause {
        Some(cause) => "discovery failed: ".to_owned().concat(cause.as_str()),
        None => "discovery unavailable".to_owned(),
    }
}

impl<E> Error<E> {
    /// What is told to the user, with the cause as `describe` puts it.
    pub fn to_string<D: Fn(&E) -> String>(&self, describe: D) -> (res: String)
        requires
            self matches Error::Failed(cause) ==> describe.requires((&cause,)),
        ensures
            self is Unavailable ==> res@ == "discovery unavailable"@,
            self matches Error::Failed(cause) ==> exists|text: String|
                #[trigger] describe.ensures((&cause,), text) && res@ == "discovery failed: "@
                    + text@,
    {
        match self {
            Error::Unavailable => failure_message(None),
            Error::Failed(cause) => failure_message(Some(describe(cause))),
        }
    }
}

/// The strategy to ask where there may be none: without one, discovery is
/// unavailable.
pub fn available<T, E>(discovery: &mut Option<T>) -> (res: Result<&mut T, Error<E>>)
    ensures
        match *old(discovery) {
            Some(strategy) => {
                &&& res matches Ok(inner)
                &&& *inner == strategy
                &&& *final(discovery) == Some(*final(inner))
            },
            None => {
                &&& res matches Err(error)
                &&& error is Unavailable
                &&& *final(discovery) is None
            },
        },
{
    match discovery {
        Some(strategy) => Ok(strategy),
        None => Err(Error::Unavailable),
    }
}

/// The content of a workspace is that of its two paths.
pub proof fn law_workspace_content(workspace: WorkspaceData)
    ensures
        workspace@.package_json == workspace.package_json@,
        workspace@.turbo_json is Some <==> workspace.turbo_json is Some,
        workspace.turbo_json matches Some(path) ==> workspace@.turbo_json == Some(path@),
{
}

/// The content of a response is that of its workspaces, in the same order, and
/// its package manager.
pub proof fn law_response_content(response: DiscoveryResponse)
    ensures
        response@.package_manager == response.package_manager,
        response@.workspaces.len() == response.workspaces@.len(),
        forall|i: int|
            0 <= i < response.workspaces@.len() ==> #[trigger] response@.workspaces[i]
                == response.workspaces@[i]@,
{
}

/// The content of an answer is the content of its response, or its error.
pub proof fn law_answer_content<E>(answer: Result<DiscoveryResponse, Error<E>>)
    ensures
        answer matches Ok(response) ==> answer_of(answer) == Ok::<DiscoveryResponseView, Error<E>>(
            response@,
        ),
        answer matches Err(error) ==> answer_of(answer) == Err::<DiscoveryResponseView, Error<E>>(
            error,
        ),
{
}

/// The content of paths is that of each path, in the same order.
pub proof fn law_paths_of(paths: Seq<AbsoluteSystemPathBuf>)
    ensures
        paths_of(paths).len() == paths.len(),
        forall|i: int| 0 <= i < paths.len() ==> #[trigger] paths_of(paths)[i] == paths[i]@,
{
}

/// Two workspaces compare equal just when their manifests have the same path
/// and either neither has a configuration or both have it at the same path.
pub proof fn law_workspace_data_eq(a: WorkspaceData, b: WorkspaceData)
    ensures
        <WorkspaceData as PartialEqSpec>::obeys_eq_spec(),
        PartialEqSpec::eq_spec(&a, &b) <==> {
            &&& a.package_json@ == b.package_json@
            &&& match (a.turbo_json, b.turbo_json) {
                (Some(path), Some(other)) => path@ == other@,
                (None, None) => true,
                _ => false,
            }
        },
{
}

} // verus!
