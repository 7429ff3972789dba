//! The package manager that a repository uses.

use vstd::prelude::*;

verus! {

/// The package managers that workspaces can be listed with.
#[derive(Debug, Clone, Copy, PartialEq, Eq, Structural)]
pub enum PackageManager {
    Berry,
    Npm,
    Pnpm,
    Pnpm6,
    Yarn,
    Bun,
}

/// Why a package manager could not list the workspaces. The cause `E` is
/// passed on as it is.
#[derive(Debug)]
pub enum Error<E> {
    /// The repository declares no workspaces.
    Workspace(E),
    /// Anything else.
    Other(E),
}

} // verus!
