//! Discovery on the local disk.

use crate::discovery::{
    answer_of, paths_of, workspaces_of, DiscoveryResponse, DiscoveryResponseView, Error,
    WorkspaceData, WorkspaceDataView,
};
use crate::package_manager;
use crate::package_manager::PackageManager;
use crate::paths::{law_entry_of_directory, law_parent, AbsoluteSystemPathBuf, SystemPathView};
use vstd::prelude::*;

verus! {

/// The name of the configuration file beside a `package.json`.
pub const TURBO_JSON: &'static str = "turbo.json";

/// Lists the workspaces with the package manager and looks for the
/// configuration of each.
pub struct LocalPackageDiscovery {
    repo_root: AbsoluteSystemPathBuf,
    package_manager: PackageManager,
}

/// Makes a [`LocalPackageDiscovery`], detecting the package manager only if
/// none is given. `J` is a parsed `package.json`.
pub struct LocalPackageDiscoveryBuilder<J> {
    repo_root: AbsoluteSystemPathBuf,
    package_manager: Option<PackageManager>,
    package_json: Option<J>,
}

/// What to do next to build a [`LocalPackageDiscovery`].
pub enum BuildAction<J> {
    /// Detect the package manager and hand it to [`PendingBuild::finish`].
    DetectPackageManager(PendingBuild<J>),
    /// The strategy is complete.
    Return(LocalPackageDiscovery),
}

/// A builder that needs the package manager to be detected, from the
/// repository's root and its `package.json` if that is known.
pub struct PendingBuild<J> {
    pub repo_root: AbsoluteSystemPathBuf,
    pub package_json: Option<J>,
}

/// What to do next to discover packages on the local disk.
pub enum LocalAction<E> {
    /// List the `package.json` files and hand them to
    /// [`LocalPackageDiscovery::after_listing`].
    ListPackageJsons { repo_root: AbsoluteSystemPathBuf, package_manager: PackageManager },
    /// See whether the path exists and hand the outcome to
    /// [`LocalScan::after_probe`].
    Probe { scan: LocalScan, path: AbsoluteSystemPathBuf },
    /// Discovery has ended.
    Return(Result<DiscoveryResponse, Error<E>>),
}

/// A scan over the listed workspaces, waiting to learn whether the next one
/// has a configuration.
pub struct LocalScan {
    /// The manifests still to be looked at, the next one last.
    pending: Vec<AbsoluteSystemPathBuf>,
    workspaces: Vec<WorkspaceData>,
    package_manager: PackageManager,
}

/// The mathematical content of a [`LocalScan`]; the next manifest comes first.
#[verifier::ext_equal]
pub struct LocalScanView {
    pub pending: Seq<SystemPathView>,
    pub workspaces: Seq<WorkspaceDataView>,
    pub package_manager: PackageManager,
}

/// The mathematical content of a [`LocalAction`].
pub enum LocalActionView<E> {
    ListPackageJsons { repo_root: SystemPathView, package_manager: PackageManager },
    Probe { scan: LocalScanView, path: SystemPathView },
    Return(Result<DiscoveryResponseView, Error<E>>),
}

/// Where the configuration of the workspace with the given manifest would be.
pub open spec fn turbo_json_beside(package_json: SystemPathView) -> SystemPathView {
    package_json.parent()->0.join_component(TURBO_JSON@)
}

/// The workspace with the given manifest, whose configuration was found or not.
pub open spec fn workspace_at(package_json: SystemPathView, found: bool) -> WorkspaceDataView {
    WorkspaceDataView {
        package_json,
        turbo_json: if found {
            Some(turbo_json_beside(package_json))
        } else {
            None
        },
    }
}

/// Whether a look at the disk found something. One that failed did not.
pub open spec fn is_found<X>(exists: Result<bool, X>) -> bool {
    exists matches Ok(found) && found
}

/// Whether every path has a parent.
pub open spec fn none_is_root(paths: Seq<SystemPathView>) -> bool {
    forall|i: int| 0 <= i < paths.len() ==> (#[trigger] paths[i]).parent() is Some
}

/// The content of a listing.
pub open spec fn listing_of<E>(
    listing: Result<Vec<AbsoluteSystemPathBuf>, package_manager::Error<E>>,
) -> Result<Seq<SystemPathView>, package_manager::Error<E>> {
    match listing {
        Ok(packages) => Ok(paths_of(packages@)),
        Err(error) => Err(error),
    }
}

impl LocalScanView {
    /// The next action of the scan: look for the next configuration, or end.
    pub open spec fn next_action<E>(self) -> LocalActionView<E> {
        if self.pending.len() == 0 {
            LocalActionView::Return(
                Ok(
                    DiscoveryResponseView {
                        workspaces: self.workspaces,
                        package_manager: self.package_manager,
                    },
                ),
            )
        } else {
            LocalActionView::Probe { scan: self, path: turbo_json_beside(self.pending[0]) }
        }
    }

    /// The scan once it is known whether the next configuration was found.
    pub open spec fn advance(self, found: bool) -> Self {
        LocalScanView {
            pending: self.pending.drop_first(),
            workspaces: self.workspaces.push(workspace_at(self.pending[0], found)),
            package_manager: self.package_manager,
        }
    }
}

/// The action once the manifests were listed. Where no workspaces are
/// declared there are none, which is no failure.
pub open spec fn action_after_listing<E>(
    package_manager: PackageManager,
    listing: Result<Seq<SystemPathView>, package_manager::Error<E>>,
) -> LocalActionView<E> {
    match listing {
        Ok(pending) => LocalScanView {
            pending,
            workspaces: Seq::empty(),
            package_manager,
        }.next_action(),
        Err(package_manager::Error::Workspace(_)) => LocalActionView::Return(
            Ok(DiscoveryResponseView { workspaces: Seq::empty(), package_manager }),
        ),
        Err(package_manager::Error::Other(cause)) => LocalActionView::Return(
            Err(Error::Failed(cause)),
        ),
    }
}

impl<E> View for LocalAction<E> {
    type V = LocalActionView<E>;

    open spec fn view(&self) -> LocalActionView<E> {
        match *self {
            LocalAction::ListPackageJsons {
                repo_root,
                package_manager,
            } => LocalActionView::ListPackageJsons { repo_root: repo_root@, package_manager },
            LocalAction::Probe { scan, path } => LocalActionView::Probe {
                scan: scan@,
                path: path@,
            },
            LocalAction::Return(answer) => LocalActionView::Return(answer_of(answer)),
        }
    }
}

impl View for LocalScan {
    type V = LocalScanView;

    closed spec fn view(&self) -> LocalScanView {
        LocalScanView {
            pending: paths_of(self.pending@).reverse(),
            workspaces: workspaces_of(self.workspaces@),
            package_manager: self.package_manager,
        }
    }
}

impl LocalPackageDiscovery {
    pub closed spec fn spec_repo_root(&self) -> SystemPathView {
        self.repo_root@
    }

    pub closed spec fn spec_package_manager(&self) -> PackageManager {
        self.package_manager
    }

    /// Discovery in the repository at `repo_root`.
    pub fn new(repo_root: AbsoluteSystemPathBuf, package_manager: PackageManager) -> (res: Self)
        ensures
            res.spec_repo_root() == repo_root@,
            res.spec_package_manager() == package_manager,
    {
        Self { repo_root, package_manager }
    }

    /// Starts discovery.
    pub fn begin<E>(&self) -> (res: LocalAction<E>)
        ensures
            res@ == (LocalActionView::<E>::ListPackageJsons {
                repo_root: self.spec_repo_root(),
                package_manager: self.spec_package_manager(),
            }),
            res matches LocalAction::ListPackageJsons { repo_root, package_manager }
                && repo_root@ == self.spec_repo_root() && package_manager
                == self.spec_package_manager(),
    {
        LocalAction::ListPackageJsons {
            repo_root: self.repo_root.clone(),
            package_manager: self.package_manager,
        }
    }

    /// Goes on with the listed `package.json` files. None of them is a root.
    pub fn after_listing<E>(
        &self,
        listing: Result<Vec<AbsoluteSystemPathBuf>, package_manager::Error<E>>,
    ) -> (res: LocalAction<E>)
        requires
            listing matches Ok(packages) ==> none_is_root(paths_of(packages@)),
        ensures
            res@ == action_after_listing(self.spec_package_manager(), listing_of(listing)),
            match listing {
                Ok(packages) => if packages@.len() == 0 {
                    &&& res matches LocalAction::Return(Ok(response))
                    &&& response.workspaces@.len() == 0
                    &&& response.package_manager == self.spec_package_manager()
                } else {
                    &&& res matches LocalAction::Probe { scan, path }
                    &&& path@.root == packages@[0]@.root
                    &&& path@.components == packages@[0]@.components.drop_last().push(
                        seq!['t', 'u', 'r', 'b', 'o', '.', 'j', 's', 'o', 'n'],
                    )
                    &&& scan@.pending.len() == packages@.len()
                    &&& forall|i: int|
                        0 <= i < packages@.len() ==> #[trigger] scan@.pending[i] == packages@[i]@
                    &&& scan@.workspaces.len() == 0
                    &&& scan@.package_manager == self.spec_package_manager()
                },
                Err(package_manager::Error::Workspace(_)) => {
                    &&& res matches LocalAction::Return(Ok(response))
                    &&& response.workspaces@.len() == 0
                    &&& response.package_manager == self.spec_package_manager()
                },
                Err(package_manager::Error::Other(cause)) => res == LocalAction::Return(
                    Err(Error::Failed(cause)),
                ),
            },
    {
        proof {
            lemma_turbo_json();
        }
        let ghost packages_before = listing->Ok_0@;
        let workspaces: Vec<WorkspaceData> = Vec::new();
        assert(workspaces_of(workspaces@) == Seq::<WorkspaceDataView>::empty());
        match listing {
            Ok(packages) => {
                let mut packages: Vec<AbsoluteSystemPathBuf> = packages;
                let mut pending: Vec<AbsoluteSystemPathBuf> = Vec::new();
                let ghost all = paths_of(packages@);
                while packages.len() > 0
                    invariant
                        none_is_root(all),
                        paths_of(packages@) + paths_of(pending@).reverse() == all,
                    decreases packages@.len(),
                {
                    let ghost rest = paths_of(packages@);
                    let ghost done = paths_of(pending@);
                    if let Some(package_json) = packages.pop() {
                        pending.push(package_json);
                        assert(paths_of(packages@) == rest.drop_last());
                        assert(paths_of(pending@) == done.push(rest.last()));
                        assert(paths_of(packages@) + paths_of(pending@).reverse() == rest
                            + done.reverse());
                    }
                }
                assert(paths_of(pending@).reverse() == all);
                assert forall|i: int| 0 <= i < all.len() implies #[trigger] all[i]
                    == packages_before[i]@ by {}
                next_action(pending, workspaces, self.package_manager)
            },
            Err(package_manager::Error::Workspace(_)) => LocalAction::Return(
                Ok(DiscoveryResponse { workspaces, package_manager: self.package_manager }),
            ),
            Err(package_manager::Error::Other(cause)) => LocalAction::Return(
                Err(Error::Failed(cause)),
            ),
        }
    }
}

/// The name of the configuration file, character by character.
pub proof fn lemma_turbo_json()
    ensures
        TURBO_JSON@ == seq!['t', 'u', 'r', 'b', 'o', '.', 'j', 's', 'o', 'n'],
{
    reveal_strlit("turbo.json");
    assert(TURBO_JSON@ == seq!['t', 'u', 'r', 'b', 'o', '.', 'j', 's', 'o', 'n']);
}

/// The path of the configuration beside a manifest.
fn turbo_json_path(package_json: &AbsoluteSystemPathBuf) -> (res: AbsoluteSystemPathBuf)
    requires
        package_json@.parent() is Some,
    ensures
        res@ == turbo_json_beside(package_json@),
{
    package_json.parent().unwrap().join_component(TURBO_JSON)
}

/// The next action of the scan over the manifests in `pending`, last to first.
fn next_action<E>(
    pending: Vec<AbsoluteSystemPathBuf>,
    workspaces: Vec<WorkspaceData>,
    package_manager: PackageManager,
) -> (res: LocalAction<E>)
    requires
        none_is_root(paths_of(pending@).reverse()),
    ensures
        res@ == (LocalScanView {
            pending: paths_of(pending@).reverse(),
            workspaces: workspaces_of(workspaces@),
            package_manager,
        }).next_action::<E>(),
        pending@.len() == 0 ==> res == LocalAction::<E>::Return(
            Ok(DiscoveryResponse { workspaces, package_manager }),
        ),
        pending@.len() > 0 ==> {
            &&& res matches LocalAction::Probe { scan, path }
            &&& scan@.pending == paths_of(pending@).reverse()
            &&& scan@.workspaces == workspaces_of(workspaces@)
            &&& scan@.package_manager == package_manager
            &&& path@ == turbo_json_beside(pending@.last()@)
        },
{
    if pending.len() == 0 {
        LocalAction::Return(Ok(DiscoveryResponse { workspaces, package_manager }))
    } else {
        let last: usize = pending.len() - 1;
        assert(paths_of(pending@).reverse()[0] == pending@[last as int]@);
        let path: AbsoluteSystemPathBuf = turbo_json_path(&pending[last]);
        LocalAction::Probe { scan: LocalScan { pending, workspaces, package_manager }, path }
    }
}

impl LocalScan {
    #[verifier::type_invariant]
    closed spec fn well_formed(self) -> bool {
        &&& self.pending@.len() > 0
        &&& none_is_root(paths_of(self.pending@).reverse())
    }

    /// Goes on with what a look at the probed path gave.
    pub fn after_probe<E, X>(self, exists: Result<bool, X>) -> (res: LocalAction<E>)
        ensures
            res@ == self@.advance(is_found(exists)).next_action::<E>(),
            self@.pending.len() > 0,
            self@.pending.len() == 1 ==> {
                &&& res matches LocalAction::Return(Ok(response))
                &&& response.package_manager == self@.package_manager
                &&& response.workspaces@.len() == self@.workspaces.len() + 1
                &&& forall|i: int|
                    0 <= i < self@.workspaces.len() ==> {
                        &&& (#[trigger] response.workspaces@[i]).package_json@
                            == self@.workspaces[i].package_json
                        &&& match response.workspaces@[i].turbo_json {
                            Some(path) => self@.workspaces[i].turbo_json == Some(path@),
                            None => self@.workspaces[i].turbo_json is None,
                        }
                    }
                &&& response.workspaces@.last().package_json@ == self@.pending[0]
                &&& match response.workspaces@.last().turbo_json {
                    Some(path) => {
                        &&& exists matches Ok(found) && found
                        &&& path@.root == self@.pending[0].root
                        &&& path@.components == self@.pending[0].components.drop_last().push(
                            seq!['t', 'u', 'r', 'b', 'o', '.', 'j', 's', 'o', 'n'],
                        )
                    },
                    None => !(exists matches Ok(found) && found),
                }
            },
            self@.pending.len() > 1 ==> {
                &&& res matches LocalAction::Probe { scan, path }
                &&& path@.root == self@.pending[1].root
                &&& path@.components == self@.pending[1].components.drop_last().push(
                    seq!['t', 'u', 'r', 'b', 'o', '.', 'j', 's', 'o', 'n'],
                )
                &&& scan@.pending == self@.pending.drop_first()
                &&& scan@.package_manager == self@.package_manager
                &&& scan@.workspaces.len() == self@.workspaces.len() + 1
                &&& forall|i: int|
                    0 <= i < self@.workspaces.len() ==> {
                        &&& (#[trigger] scan@.workspaces[i]).package_json
                            == self@.workspaces[i].package_json
                        &&& scan@.workspaces[i].turbo_json == self@.workspaces[i].turbo_json
                    }
                &&& scan@.workspaces.last().package_json == self@.pending[0]
                &&& match scan@.workspaces.last().turbo_json {
                    Some(path) => {
                        &&& exists matches Ok(found) && found
                        &&& path.root == self@.pending[0].root
                        &&& path.components == self@.pending[0].components.drop_last().push(
                            seq!['t', 'u', 'r', 'b', 'o', '.', 'j', 's', 'o', 'n'],
                        )
                    },
                    None => !(exists matches Ok(found) && found),
                }
            },
    {
        proof {
            lemma_turbo_json();
            use_type_invariant(&self);
        }
        let LocalScan { mut pending, mut workspaces, package_manager } = self;
        let ghost before = paths_of(pending@);
        let ghost done = workspaces_of(workspaces@);
        let ghost own = workspaces@;
        let package_json: AbsoluteSystemPathBuf = pending.pop().unwrap();
        assert(before.reverse()[0] == package_json@);
        assert(paths_of(pending@) == before.drop_last());
        assert(paths_of(pending@).reverse() == before.reverse().drop_first());
        let turbo_json: Option<AbsoluteSystemPathBuf> = match exists {
            Ok(true) => Some(turbo_json_path(&package_json)),
            _ => None,
        };
        let workspace: WorkspaceData = WorkspaceData { package_json, turbo_json };
        workspaces.push(workspace);
        assert(workspaces_of(workspaces@) == done.push(workspace@));
        assert forall|i: int| 0 <= i < done.len() implies (#[trigger] workspaces@[i])@
            == done[i] by {
            assert(workspaces@[i] == own[i]);
        }
        next_action(pending, workspaces, package_manager)
    }
}

impl<J> LocalPackageDiscoveryBuilder<J> {
    pub closed spec fn spec_repo_root(&self) -> SystemPathView {
        self.repo_root@
    }

    pub closed spec fn spec_package_manager(&self) -> Option<PackageManager> {
        self.package_manager
    }

    pub closed spec fn spec_package_json(&self) -> Option<J> {
        self.package_json
    }

    /// A builder for the repository at `repo_root`.
    pub fn new(
        repo_root: AbsoluteSystemPathBuf,
        package_manager: Option<PackageManager>,
        package_json: Option<J>,
    ) -> (res: Self)
        ensures
            res.spec_repo_root() == repo_root@,
            res.spec_package_manager() == package_manager,
            res.spec_package_json() == package_json,
    {
        Self { repo_root, package_manager, package_json }
    }

    /// Builds the strategy at once if the package manager is given, else asks
    /// for it to be detected.
    pub fn build(self) -> (res: BuildAction<J>)
        ensures
            match self.spec_package_manager() {
                Some(package_manager) => {
                    &&& res matches BuildAction::Return(discovery)
                    &&& discovery.spec_repo_root() == self.spec_repo_root()
                    &&& discovery.spec_package_manager() == package_manager
                },
                None => {
                    &&& res matches BuildAction::DetectPackageManager(pending)
                    &&& pending.repo_root@ == self.spec_repo_root()
                    &&& pending.package_json == self.spec_package_json()
                },
            },
    {
        match self.package_manager {
            Some(package_manager) => BuildAction::Return(
                LocalPackageDiscovery { repo_root: self.repo_root, package_manager },
            ),
            None => BuildAction::DetectPackageManager(
                PendingBuild { repo_root: self.repo_root, package_json: self.package_json },
            ),
        }
    }
}

impl<J> PendingBuild<J> {
    /// Completes the strategy with the detected package manager. A failure to
    /// detect one is passed on.
    pub fn finish<E>(self, detected: Result<PackageManager, E>) -> (res: Result<
        LocalPackageDiscovery,
        E,
    >)
        ensures
            match detected {
                Ok(package_manager) => {
                    &&& res matches Ok(discovery)
                    &&& discovery.spec_repo_root() == self.repo_root@
                    &&& discovery.spec_package_manager() == package_manager
                },
                Err(error) => res == Err::<LocalPackageDiscovery, E>(error),
            },
    {
        match detected {
            Ok(package_manager) => Ok(
                LocalPackageDiscovery { repo_root: self.repo_root, package_manager },
            ),
            Err(error) => Err(error),
        }
    }
}

/// The action that a scan comes to from `action` when its looks at the disk
/// come out as `found` says, one after the other.
pub open spec fn action_after_probes<E>(
    action: LocalActionView<E>,
    found: Seq<bool>,
) -> LocalActionView<E>
    decreases found.len(),
{
    if found.len() == 0 {
        action
    } else {
        match action {
            LocalActionView::Probe { scan, .. } => action_after_probes(
                scan.advance(found[0]).next_action(),
                found.drop_first(),
            ),
            _ => action,
        }
    }
}

proof fn lemma_action_after_probes<E>(scan: LocalScanView, found: Seq<bool>)
    requires
        found.len() <= scan.pending.len(),
    ensures
        action_after_probes(scan.next_action::<E>(), found) == (LocalScanView {
            pending: scan.pending.skip(found.len() as int),
            workspaces: scan.workspaces + Seq::new(
                found.len(),
                |i: int| workspace_at(scan.pending[i], found[i]),
            ),
            package_manager: scan.package_manager,
        }).next_action::<E>(),
    decreases found.len(),
{
    let all = Seq::new(found.len(), |i: int| workspace_at(scan.pending[i], found[i]));
    if found.len() == 0 {
        assert(scan.workspaces + all == scan.workspaces);
        assert(scan.pending.skip(0) == scan.pending);
    } else {
        let next = scan.advance(found[0]);
        let rest = found.drop_first();
        lemma_action_after_probes::<E>(next, rest);
        assert(next.pending.skip(rest.len() as int) == scan.pending.skip(found.len() as int));
        assert(next.workspaces + Seq::new(
            rest.len(),
            |i: int| workspace_at(next.pending[i], rest[i]),
        ) == scan.workspaces + all);
    }
}

/// Discovery looks for one configuration after the other, in the order of the
/// listing: the one that it looks for next is the one beside the next listed
/// manifest.
pub proof fn law_local_probes<E>(
    package_manager: PackageManager,
    listing: Seq<SystemPathView>,
    found: Seq<bool>,
)
    requires
        found.len() < listing.len(),
    ensures
        action_after_probes(
            action_after_listing::<E>(package_manager, Ok(listing)),
            found,
        ) matches LocalActionView::Probe { path, .. } && path == turbo_json_beside(
            listing[found.len() as int],
        ),
{
    lemma_action_after_probes::<E>(
        LocalScanView { pending: listing, workspaces: Seq::empty(), package_manager },
        found,
    );
}

/// Discovery reports one workspace for each listed manifest, in the order of
/// the listing, and gives each the configuration beside its manifest just when
/// that was found.
pub proof fn law_local_discovery<E>(
    package_manager: PackageManager,
    listing: Seq<SystemPathView>,
    found: Seq<bool>,
)
    requires
        found.len() == listing.len(),
    ensures
        action_after_probes(
            action_after_listing::<E>(package_manager, Ok(listing)),
            found,
        ) == LocalActionView::<E>::Return(
            Ok(
                DiscoveryResponseView {
                    workspaces: Seq::new(
                        listing.len(),
                        |i: int| workspace_at(listing[i], found[i]),
                    ),
                    package_manager,
                },
            ),
        ),
{
    lemma_action_after_probes::<E>(
        LocalScanView { pending: listing, workspaces: Seq::empty(), package_manager },
        found,
    );
    let all = Seq::new(listing.len(), |i: int| workspace_at(listing[i], found[i]));
    assert(Seq::<WorkspaceDataView>::empty() + all == all);
}

/// A repository that declares no workspaces gets the answer of one with an
/// empty listing.
pub proof fn law_no_workspaces<E>(package_manager: PackageManager, cause: E)
    ensures
        action_after_listing(
            package_manager,
            Err(package_manager::Error::Workspace(cause)),
        ) == action_after_listing::<E>(package_manager, Ok(Seq::empty())),
{
}

/// A listing that fails with anything but the lack of workspaces ends discovery
/// with that cause, whatever the package manager.
pub proof fn law_listing_failure<E>(package_manager: PackageManager, cause: E)
    ensures
        action_after_listing(
            package_manager,
            Err(package_manager::Error::Other(cause)),
        ) == LocalActionView::<E>::Return(Err(Error::Failed(cause))),
{
}

/// The configuration of a workspace lies in the directory of its manifest and
/// has the fixed name.
pub proof fn law_turbo_json_beside(package_json: SystemPathView)
    requires
        package_json.parent() is Some,
    ensures
        turbo_json_beside(package_json).parent() == package_json.parent(),
        turbo_json_beside(package_json).components.last() == TURBO_JSON@,
{
    law_entry_of_directory(package_json.parent()->0, TURBO_JSON@);
}

/// Every listing in which no manifest is a root can be gone on with.
pub proof fn law_listing_accepted<E>(
    discovery: LocalPackageDiscovery,
    listing: Result<Vec<AbsoluteSystemPathBuf>, package_manager::Error<E>>,
)
    requires
        listing matches Ok(packages) ==> forall|i: int|
            0 <= i < packages@.len() ==> (#[trigger] packages@[i])@.components.len() > 0,
    ensures
        call_requires(LocalPackageDiscovery::after_listing::<E>, (&discovery, listing)),
{
}

/// Discovery lists the manifests of the repository that it was made for, with
/// the package manager that it was made with.
pub proof fn law_listing_asked<E>(
    repo_root: AbsoluteSystemPathBuf,
    package_manager: PackageManager,
    discovery: LocalPackageDiscovery,
    action: LocalAction<E>,
)
    requires
        call_ensures(LocalPackageDiscovery::new, (repo_root, package_manager), discovery),
        call_ensures(LocalPackageDiscovery::begin::<E>, (&discovery,), action),
    ensures
        action matches LocalAction::ListPackageJsons {
            repo_root: asked_root,
            package_manager: asked_manager,
        } && asked_root@ == repo_root@ && asked_manager == package_manager,
{
}

/// A listing that fails with anything but the lack of workspaces ends discovery
/// with that very cause, whatever the package manager. The lack of workspaces,
/// or an empty listing, ends it with no workspaces and the package manager.
pub proof fn law_listing_ends<E>(
    repo_root: AbsoluteSystemPathBuf,
    package_manager: PackageManager,
    discovery: LocalPackageDiscovery,
    listing: Result<Vec<AbsoluteSystemPathBuf>, package_manager::Error<E>>,
    action: LocalAction<E>,
)
    requires
        call_ensures(LocalPackageDiscovery::new, (repo_root, package_manager), discovery),
        call_ensures(
            LocalPackageDiscovery::after_listing::<E>,
            (&discovery, listing),
            action,
        ),
    ensures
        listing matches Err(package_manager::Error::Other(cause)) ==> action
            == LocalAction::<E>::Return(Err(Error::Failed(cause))),
        listing matches Err(package_manager::Error::Workspace(_)) ==> {
            &&& action matches LocalAction::Return(Ok(response))
            &&& response.workspaces@.len() == 0
            &&& response.package_manager == package_manager
        },
        listing matches Ok(packages) && packages@.len() == 0 ==> {
            &&& action matches LocalAction::Return(Ok(response))
            &&& response.workspaces@.len() == 0
            &&& response.package_manager == package_manager
        },
{
}

/// Whether, if an action is to look at a path, the next one follows from the
/// look.
pub open spec fn follows_look<E, X>(
    actions: Seq<LocalAction<E>>,
    looks: Seq<Result<bool, X>>,
    k: int,
) -> bool {
    actions[k] matches LocalAction::Probe { scan, .. } ==> call_ensures(
        LocalScan::after_probe::<E, X>,
        (scan, looks[k]),
        actions[k + 1],
    )
}

/// Whether the actions are those of a run: the first follows the listing, and
/// each other one the look at the path that the action before it asks for.
pub open spec fn is_local_run<E, X>(
    discovery: LocalPackageDiscovery,
    packages: Vec<AbsoluteSystemPathBuf>,
    looks: Seq<Result<bool, X>>,
    actions: Seq<LocalAction<E>>,
) -> bool {
    &&& actions.len() == looks.len() + 1
    &&& call_ensures(
        LocalPackageDiscovery::after_listing::<E>,
        (&discovery, Ok(packages)),
        actions[0],
    )
    &&& forall|k: int| 0 <= k < looks.len() ==> #[trigger] follows_look(actions, looks, k)
}

/// Whether the path is that of the configuration beside the manifest.
spec fn lies_beside(path: SystemPathView, package_json: SystemPathView) -> bool {
    &&& path.root == package_json.root
    &&& path.components == package_json.components.drop_last().push(seq!['t', 'u', 'r', 'b', 'o', '.', 'j', 's', 'o', 'n'])
}

/// Whether the parts are those of the workspace with the manifest, after the
/// look for its configuration.
spec fn is_workspace_for<X>(
    found_json: SystemPathView,
    turbo_json: Option<SystemPathView>,
    package_json: SystemPathView,
    look: Result<bool, X>,
) -> bool {
    &&& found_json == package_json
    &&& match turbo_json {
        Some(path) => (look matches Ok(found) && found) && lies_beside(path, package_json),
        None => !(look matches Ok(found) && found),
    }
}

/// Whether a scan is where it should be after `k` looks.
spec fn is_scan_after<X>(
    scan: LocalScanView,
    package_manager: PackageManager,
    listing: Seq<SystemPathView>,
    looks: Seq<Result<bool, X>>,
    k: int,
) -> bool {
    &&& scan.package_manager == package_manager
    &&& scan.pending == listing.skip(k)
    &&& scan.workspaces.len() == k
    &&& forall|i: int|
        0 <= i < k ==> is_workspace_for(
            (#[trigger] scan.workspaces[i]).package_json,
            scan.workspaces[i].turbo_json,
            listing[i],
            looks[i],
        )
}

/// One more look takes a scan one place further.
proof fn lemma_scan_step<E, X>(
    scan: LocalScan,
    package_manager: PackageManager,
    listing: Seq<SystemPathView>,
    looks: Seq<Result<bool, X>>,
    k: int,
    next: LocalAction<E>,
)
    requires
        looks.len() == listing.len(),
        0 <= k < listing.len() - 1,
        is_scan_after(scan@, package_manager, listing, looks, k),
        call_ensures(LocalScan::after_probe::<E, X>, (scan, looks[k]), next),
    ensures
        next matches LocalAction::Probe { scan, path } && is_scan_after(
            scan@,
            package_manager,
            listing,
            looks,
            k + 1,
        ) && lies_beside(path@, listing[k + 1]),
{
    assert(scan@.pending[0] == listing[k]);
    assert(scan@.pending[1] == listing[k + 1]);
    let after = next->scan;
    assert(after@.pending == listing.skip(k + 1));
    assert forall|i: int| 0 <= i < k + 1 implies is_workspace_for(
        (#[trigger] after@.workspaces[i]).package_json,
        after@.workspaces[i].turbo_json,
        listing[i],
        looks[i],
    ) by {
        if i < k {
            assert(is_workspace_for(
                scan@.workspaces[i].package_json,
                scan@.workspaces[i].turbo_json,
                listing[i],
                looks[i],
            ));
        } else {
            assert(after@.workspaces.last() == after@.workspaces[i]);
        }
    }
}

/// The last look ends the scan with all workspaces.
proof fn lemma_scan_end<E, X>(
    scan: LocalScan,
    package_manager: PackageManager,
    listing: Seq<SystemPathView>,
    looks: Seq<Result<bool, X>>,
    next: LocalAction<E>,
)
    requires
        looks.len() == listing.len() > 0,
        is_scan_after(scan@, package_manager, listing, looks, listing.len() - 1),
        call_ensures(LocalScan::after_probe::<E, X>, (scan, looks.last()), next),
    ensures
        next matches LocalAction::Return(Ok(response)) && {
            &&& response.package_manager == package_manager
            &&& response.workspaces@.len() == listing.len()
            &&& forall|i: int|
                0 <= i < listing.len() ==> is_workspace_for(
                    (#[trigger] response.workspaces@[i]).package_json@,
                    match response.workspaces@[i].turbo_json {
                        Some(path) => Some(path@),
                        None => None,
                    },
                    listing[i],
                    looks[i],
                )
        },
{
    assert(scan@.pending[0] == listing.last());
    let response = next->Return_0->Ok_0;
    assert forall|i: int| 0 <= i < listing.len() implies is_workspace_for(
        (#[trigger] response.workspaces@[i]).package_json@,
        match response.workspaces@[i].turbo_json {
            Some(path) => Some(path@),
            None => None,
        },
        listing[i],
        looks[i],
    ) by {
        if i < listing.len() - 1 {
            assert(is_workspace_for(
                scan@.workspaces[i].package_json,
                scan@.workspaces[i].turbo_json,
                listing[i],
                looks[i],
            ));
        } else {
            assert(response.workspaces@.last() == response.workspaces@[i]);
        }
    }
}

/// The state of a run after `k` looks.
proof fn lemma_local_run<E, X>(
    discovery: LocalPackageDiscovery,
    packages: Vec<AbsoluteSystemPathBuf>,
    looks: Seq<Result<bool, X>>,
    actions: Seq<LocalAction<E>>,
    listing: Seq<SystemPathView>,
    k: int,
)
    requires
        is_local_run(discovery, packages, looks, actions),
        listing.len() == packages@.len(),
        forall|i: int| 0 <= i < listing.len() ==> #[trigger] listing[i] == packages@[i]@,
        looks.len() == listing.len(),
        0 <= k < listing.len(),
    ensures
        actions[k] matches LocalAction::Probe { scan, path } && is_scan_after(
            scan@,
            discovery.spec_package_manager(),
            listing,
            looks,
            k,
        ) && lies_beside(path@, listing[k]),
    decreases k,
{
    if k > 0 {
        lemma_local_run(discovery, packages, looks, actions, listing, k - 1);
        assert(follows_look(actions, looks, k - 1));
        lemma_scan_step(
            actions[k - 1]->scan,
            discovery.spec_package_manager(),
            listing,
            looks,
            k - 1,
            actions[k],
        );
    } else {
        let scan = actions[0]->scan;
        assert(listing[0] == packages@[0]@);
        assert(scan@.pending == listing.skip(0));
    }
}

/// What lies beside a manifest lies in its directory, under the fixed name.
proof fn lemma_lies_beside(path: SystemPathView, package_json: SystemPathView)
    requires
        lies_beside(path, package_json),
        package_json.parent() is Some,
    ensures
        path.parent() == package_json.parent(),
        path.components.last() == seq!['t', 'u', 'r', 'b', 'o', '.', 'j', 's', 'o', 'n'],
{
    law_parent(package_json);
    assert(path.components.drop_last() == package_json.components.drop_last());
}

/// Discovery looks beside each listed manifest, in the order of the listing,
/// and then answers with the package manager and one workspace for each
/// manifest, in the same order. At each place the workspace has the listed
/// manifest, and it has a configuration just when the look there found one:
/// `turbo.json` in the directory of the manifest, whatever the directory.
pub proof fn law_local_run<E, X>(
    repo_root: AbsoluteSystemPathBuf,
    package_manager: PackageManager,
    discovery: LocalPackageDiscovery,
    packages: Vec<AbsoluteSystemPathBuf>,
    looks: Seq<Result<bool, X>>,
    actions: Seq<LocalAction<E>>,
)
    requires
        call_ensures(LocalPackageDiscovery::new, (repo_root, package_manager), discovery),
        is_local_run(discovery, packages, looks, actions),
        looks.len() == packages@.len(),
        packages@.len() > 0,
        forall|i: int| 0 <= i < packages@.len() ==> (#[trigger] packages@[i])@.parent() is Some,
    ensures
        forall|k: int|
            0 <= k < packages@.len() ==> {
                &&& (#[trigger] actions[k]) matches LocalAction::Probe { path, .. }
                &&& path@.parent() == packages@[k]@.parent()
                &&& path@.components.last() == seq!['t', 'u', 'r', 'b', 'o', '.', 'j', 's', 'o', 'n']
            },
        actions.last() matches LocalAction::Return(Ok(response)) && {
            &&& response.package_manager == package_manager
            &&& response.workspaces@.len() == packages@.len()
            &&& forall|i: int|
                0 <= i < packages@.len() ==> {
                    &&& (#[trigger] response.workspaces@[i]).package_json@ == packages@[i]@
                    &&& match response.workspaces@[i].turbo_json {
                        Some(path) => {
                            &&& looks[i] matches Ok(found) && found
                            &&& path@.parent() == packages@[i]@.parent()
                            &&& path@.components.last() == seq!['t', 'u', 'r', 'b', 'o', '.', 'j', 's', 'o', 'n']
                        },
                        None => !(looks[i] matches Ok(found) && found),
                    }
                }
        },
{
    let listing = Seq::new(packages@.len(), |i: int| packages@[i]@);
    let last = packages@.len() - 1;
    assert forall|k: int| 0 <= k < packages@.len() implies {
        &&& (#[trigger] actions[k]) matches LocalAction::Probe { path, .. }
        &&& path@.parent() == packages@[k]@.parent()
        &&& path@.components.last() == seq!['t', 'u', 'r', 'b', 'o', '.', 'j', 's', 'o', 'n']
    } by {
        lemma_local_run(discovery, packages, looks, actions, listing, k);
        assert(packages@[k]@.parent() is Some);
        lemma_lies_beside(actions[k]->path@, listing[k]);
    }
    lemma_local_run(discovery, packages, looks, actions, listing, last);
    assert(follows_look(actions, looks, last));
    lemma_scan_end(actions[last]->scan, package_manager, listing, looks, actions.last());
    let response = actions.last()->Return_0->Ok_0;
    assert forall|i: int| 0 <= i < packages@.len() implies {
        &&& (#[trigger] response.workspaces@[i]).package_json@ == packages@[i]@
        &&& match response.workspaces@[i].turbo_json {
            Some(path) => {
                &&& looks[i] matches Ok(found) && found
                &&& path@.parent() == packages@[i]@.parent()
                &&& path@.components.last() == seq!['t', 'u', 'r', 'b', 'o', '.', 'j', 's', 'o', 'n']
            },
            None => !(looks[i] matches Ok(found) && found),
        }
    } by {
        assert(packages@[i]@.parent() is Some);
        if let Some(path) = response.workspaces@[i].turbo_json {
            lemma_lies_beside(path@, listing[i]);
        }
    }
}

/// The answer to a listing on its fields: the `i`-th workspace has the `i`-th
/// manifest, and `turbo.json` in the same directory just when the `i`-th look
/// found it.
pub proof fn law_local_answer<E>(
    package_manager: PackageManager,
    listing: Seq<SystemPathView>,
    found: Seq<bool>,
)
    requires
        found.len() == listing.len(),
        none_is_root(listing),
    ensures
        action_after_probes(
            action_after_listing::<E>(package_manager, Ok(listing)),
            found,
        ) matches LocalActionView::Return(Ok(response)) && {
            &&& response.package_manager == package_manager
            &&& response.workspaces.len() == listing.len()
            &&& forall|i: int|
                0 <= i < listing.len() ==> {
                    &&& (#[trigger] response.workspaces[i]).package_json == listing[i]
                    &&& match response.workspaces[i].turbo_json {
                        Some(path) => {
                            &&& found[i]
                            &&& path.parent() == listing[i].parent()
                            &&& path.components.last() == seq!['t', 'u', 'r', 'b', 'o', '.', 'j', 's', 'o', 'n']
                        },
                        None => !found[i],
                    }
                }
        },
{
    law_local_discovery::<E>(package_manager, listing, found);
    lemma_turbo_json();
    let response = action_after_probes(
        action_after_listing::<E>(package_manager, Ok(listing)),
        found,
    )->Return_0->Ok_0;
    assert forall|i: int| 0 <= i < listing.len() implies {
        &&& (#[trigger] response.workspaces[i]).package_json == listing[i]
        &&& match response.workspaces[i].turbo_json {
            Some(path) => {
                &&& found[i]
                &&& path.parent() == listing[i].parent()
                &&& path.components.last() == seq!['t', 'u', 'r', 'b', 'o', '.', 'j', 's', 'o', 'n']
            },
            None => !found[i],
        }
    } by {
        assert(listing[i].parent() is Some);
        law_turbo_json_beside(listing[i]);
    }
}

/// A look found something just when it succeeded and said so.
pub proof fn law_is_found<X>(exists: Result<bool, X>)
    ensures
        is_found(exists) <==> exists == Ok::<bool, X>(true),
{
}

/// Paths without a root among them are those that all have components.
pub proof fn law_none_is_root(paths: Seq<SystemPathView>)
    ensures
        none_is_root(paths) <==> forall|i: int|
            0 <= i < paths.len() ==> (#[trigger] paths[i]).components.len() > 0,
{
    if forall|i: int| 0 <= i < paths.len() ==> (#[trigger] paths[i]).components.len() > 0 {
        assert(none_is_root(paths));
    }
    if none_is_root(paths) {
        assert forall|i: int| 0 <= i < paths.len() implies (
        #[trigger] paths[i]).components.len() > 0 by {
            assert(paths[i].parent() is Some);
        }
    }
}

/// A given package manager is taken as it is, and none is detected. Else the
/// detected one is taken, or the failure to detect one passed on. Either way
/// the strategy is for the repository that the builder was made for.
pub proof fn law_build<J, E>(
    repo_root: AbsoluteSystemPathBuf,
    package_manager: Option<PackageManager>,
    package_json: Option<J>,
    builder: LocalPackageDiscoveryBuilder<J>,
    action: BuildAction<J>,
    detected: Result<PackageManager, E>,
    finished: Result<LocalPackageDiscovery, E>,
    built: LocalPackageDiscovery,
    begun: LocalAction<E>,
)
    requires
        call_ensures(
            LocalPackageDiscoveryBuilder::<J>::new,
            (repo_root, package_manager, package_json),
            builder,
        ),
        call_ensures(LocalPackageDiscoveryBuilder::<J>::build, (builder,), action),
        action matches BuildAction::DetectPackageManager(pending) ==> call_ensures(
            PendingBuild::<J>::finish::<E>,
            (pending, detected),
            finished,
        ),
        action matches BuildAction::DetectPackageManager(_) && finished is Ok ==> built
            == finished->Ok_0,
        action matches BuildAction::Return(discovery) ==> built == discovery,
        call_ensures(LocalPackageDiscovery::begin::<E>, (&built,), begun),
    ensures
        match package_manager {
            Some(package_manager) => {
                &&& action is Return
                &&& begun matches LocalAction::ListPackageJsons {
                    repo_root: asked_root,
                    package_manager: asked_manager,
                }
                &&& asked_root@ == repo_root@
                &&& asked_manager == package_manager
            },
            None => {
                &&& action matches BuildAction::DetectPackageManager(pending)
                &&& pending.repo_root@ == repo_root@
                &&& pending.package_json == package_json
                &&& match detected {
                    Ok(detected) => {
                        &&& finished is Ok
                        &&& begun matches LocalAction::ListPackageJsons {
                            repo_root: asked_root,
                            package_manager: asked_manager,
                        }
                        &&& asked_root@ == repo_root@
                        &&& asked_manager == detected
                    },
                    Err(error) => finished == Err::<LocalPackageDiscovery, E>(error),
                }
            },
        },
{
}

} // verus!
