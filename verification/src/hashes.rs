//! Discovery of the hashes of task inputs.

use crate::discovery::failure_message;
use crate::package_graph::WorkspaceName;
use crate::paths::{AbsoluteSystemPathBuf, RelativeUnixPathBuf};
use crate::task_id::TaskId;
use std::collections::HashMap;
use vstd::prelude::*;

verus! {

/// Why no hashes were found. The cause `E` is passed on as it is.
#[derive(Debug)]
pub enum DiscoveryError<E> {
    Unavailable,
    Failed(E),
}

impl<E> DiscoveryError<E> {
    /// What is told to the user, with the cause as `describe` puts it.
    pub fn to_string<D: Fn(&E) -> String>(&self, describe: D) -> (res: String)
        requires
            self matches DiscoveryError::Failed(cause) ==> describe.requires((&cause,)),
        ensures
            self is Unavailable ==> res@ == "discovery unavailable"@,
            self matches DiscoveryError::Failed(cause) ==> exists|text: String|
                #[trigger] describe.ensures((&cause,), text) && res@ == "discovery failed: "@
                    + text@,
    {
        match self {
            DiscoveryError::Unavailable => failure_message(None),
            DiscoveryError::Failed(cause) => failure_message(Some(describe(cause))),
        }
    }
}

/// What hash discovery found.
pub struct HashDiscoveryResponse {
    pub hashes: PackageInputsHashes,
}

/// The hash of the inputs of each task, and of each of their files.
#[derive(Debug)]
pub struct PackageInputsHashes {
    pub hashes: HashMap<TaskId<'static>, String>,
    pub expanded_hashes: HashMap<TaskId<'static>, FileHashes>,
}

/// The hash of each file.
#[derive(Debug)]
pub struct FileHashes(pub HashMap<RelativeUnixPathBuf, String>);

impl Clone for FileHashes {
    fn clone(&self) -> (res: Self)
        ensures
            res.0@ == self.0@,
    {
        FileHashes(self.0.clone())
    }
}

/// Hashes the inputs of the workspaces on the local disk. `W` is what is known
/// of a workspace.
pub struct LocalHashDiscovery<'a, W> {
    pub repo_root: AbsoluteSystemPathBuf,
    pub workspaces: HashMap<&'a WorkspaceName, &'a W>,
}

impl Default for PackageInputsHashes {
    fn default() -> (res: Self)
        ensures
            res.hashes@ == Map::<TaskId<'static>, String>::empty(),
            res.expanded_hashes@ == Map::<TaskId<'static>, FileHashes>::empty(),
    {
        PackageInputsHashes { hashes: HashMap::new(), expanded_hashes: HashMap::new() }
    }
}

impl<'a, W> LocalHashDiscovery<'a, W> {
    /// Hash discovery for the given workspaces of the repository.
    pub fn new(
        repo_root: AbsoluteSystemPathBuf,
        workspaces: HashMap<&'a WorkspaceName, &'a W>,
    ) -> (res: Self)
        ensures
            res.repo_root == repo_root,
            res.workspaces == workspaces,
    {
        Self { repo_root, workspaces }
    }
}

} // verus!
