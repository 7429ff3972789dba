use std::collections::HashMap;

use turborepo_discovery::discovery::{DiscoveryResponse, Error, WorkspaceData};
use turborepo_discovery::hashes::{
    DiscoveryError, FileHashes, LocalHashDiscovery, PackageInputsHashes,
};
use turborepo_discovery::local::{
    BuildAction, LocalAction, LocalPackageDiscovery, LocalPackageDiscoveryBuilder, TURBO_JSON,
};
use turborepo_discovery::package_graph::WorkspaceName;
use turborepo_discovery::package_manager;
use turborepo_discovery::package_manager::PackageManager;
use turborepo_discovery::paths::{AbsoluteSystemPathBuf, RelativeUnixPathBuf};

fn path(components: &[&str]) -> AbsoluteSystemPathBuf {
    AbsoluteSystemPathBuf::new(
        String::from("/"),
        components.iter().map(|c| String::from(*c)).collect(),
    )
}

type Listing = Result<Vec<AbsoluteSystemPathBuf>, package_manager::Error<&'static str>>;

fn discover(
    listing: Listing,
    mut exists: impl FnMut(&AbsoluteSystemPathBuf) -> Result<bool, &'static str>,
) -> Result<DiscoveryResponse, Error<&'static str>> {
    let discovery = LocalPackageDiscovery::new(path(&["repo"]), PackageManager::Pnpm);
    match discovery.begin::<&'static str>() {
        LocalAction::ListPackageJsons {
            repo_root,
            package_manager,
        } => {
            assert_eq!(repo_root, path(&["repo"]));
            assert_eq!(package_manager, PackageManager::Pnpm);
        }
        _ => panic!("the manifests are listed first"),
    }
    let mut action = discovery.after_listing(listing);
    loop {
        action = match action {
            LocalAction::Probe { scan, path } => scan.after_probe(exists(&path)),
            LocalAction::Return(answer) => return answer,
            LocalAction::ListPackageJsons { .. } => panic!("the manifests are listed once"),
        };
    }
}

#[test]
fn workspaces_in_the_order_of_the_listing() {
    let manifests = vec![
        path(&["repo", "a", "package.json"]),
        path(&["repo", "b", "package.json"]),
        path(&["repo", "c", "package.json"]),
        path(&["package.json"]),
    ];
    let mut probed = Vec::new();
    let response = discover(Ok(manifests.clone()), |path| {
        probed.push(path.clone());
        match probed.len() {
            1 => Ok(true),
            2 => Ok(false),
            3 => Err("permission denied"),
            _ => Ok(true),
        }
    })
    .unwrap();
    assert_eq!(
        probed,
        vec![
            path(&["repo", "a", "turbo.json"]),
            path(&["repo", "b", "turbo.json"]),
            path(&["repo", "c", "turbo.json"]),
            path(&["turbo.json"]),
        ]
    );
    assert_eq!(response.package_manager, PackageManager::Pnpm);
    assert_eq!(
        response.workspaces,
        vec![
            WorkspaceData {
                package_json: manifests[0].clone(),
                turbo_json: Some(path(&["repo", "a", "turbo.json"])),
            },
            WorkspaceData {
                package_json: manifests[1].clone(),
                turbo_json: None,
            },
            WorkspaceData {
                package_json: manifests[2].clone(),
                turbo_json: None,
            },
            WorkspaceData {
                package_json: manifests[3].clone(),
                turbo_json: Some(path(&["turbo.json"])),
            },
        ]
    );
    let copy = response.clone();
    assert_eq!(copy.workspaces, response.workspaces);
    assert_eq!(copy.package_manager, response.package_manager);
}

#[test]
fn no_workspaces_is_no_failure() {
    let response = discover(
        Err(package_manager::Error::Workspace("no workspaces")),
        |_| panic!("there is nothing to look for"),
    )
    .unwrap();
    assert!(response.workspaces.is_empty());
    assert_eq!(response.package_manager, PackageManager::Pnpm);
}

#[test]
fn an_empty_listing_gives_an_empty_response() {
    let response = discover(Ok(vec![]), |_| panic!("there is nothing to look for")).unwrap();
    assert!(response.workspaces.is_empty());
}

#[test]
fn other_listing_errors_are_failures() {
    let error = discover(Err(package_manager::Error::Other("broken")), |_| {
        panic!("there is nothing to look for")
    })
    .unwrap_err();
    assert!(matches!(error, Error::Failed("broken")));
}

#[test]
fn a_given_package_manager_is_not_detected() {
    let builder =
        LocalPackageDiscoveryBuilder::new(path(&["repo"]), Some(PackageManager::Berry), Some("{}"));
    let discovery = match builder.build() {
        BuildAction::Return(discovery) => discovery,
        BuildAction::DetectPackageManager(_) => panic!("the package manager is given"),
    };
    match discovery.begin::<()>() {
        LocalAction::ListPackageJsons {
            repo_root,
            package_manager,
        } => {
            assert_eq!(repo_root, path(&["repo"]));
            assert_eq!(package_manager, PackageManager::Berry);
        }
        _ => panic!("the manifests are listed first"),
    }
}

#[test]
fn a_missing_package_manager_is_detected() {
    for detected in [Ok(PackageManager::Pnpm6), Err("no package manager")] {
        let builder = LocalPackageDiscoveryBuilder::new(path(&["repo"]), None, Some("{}"));
        let pending = match builder.build() {
            BuildAction::DetectPackageManager(pending) => pending,
            BuildAction::Return(_) => panic!("the package manager is not given"),
        };
        assert_eq!(pending.repo_root, path(&["repo"]));
        assert_eq!(pending.package_json, Some("{}"));
        match (pending.finish(detected), detected) {
            (Ok(discovery), Ok(expected)) => match discovery.begin::<()>() {
                LocalAction::ListPackageJsons {
                    repo_root,
                    package_manager,
                } => {
                    assert_eq!(repo_root, path(&["repo"]));
                    assert_eq!(package_manager, expected);
                }
                _ => panic!("the manifests are listed first"),
            },
            (Err(error), Err(expected)) => assert_eq!(error, expected),
            _ => panic!("detection decides"),
        }
    }
}

#[test]
fn directories_and_entries() {
    assert_eq!(TURBO_JSON, "turbo.json");
    let file = path(&["repo", "package.json"]);
    assert_eq!(file.parent(), Some(path(&["repo"])));
    assert_eq!(path(&["repo"]).join_component("package.json"), file);
    assert_eq!(path(&["repo"]).join_component(".."), path(&["repo", ".."]));
    assert_eq!(file.root(), "/");
    assert_eq!(file.components().len(), 2);
    assert!(!file.is_root());
    assert!(path(&[]).is_root());
    assert_eq!(path(&[]).parent(), None);
}

#[test]
fn hashes_start_empty() {
    let hashes = PackageInputsHashes::default();
    assert!(hashes.hashes.is_empty());
    assert!(hashes.expanded_hashes.is_empty());
}

#[test]
fn file_hashes_are_copied() {
    let mut files = HashMap::new();
    files.insert(
        RelativeUnixPathBuf(String::from("src/index.ts")),
        String::from("abc"),
    );
    let hashes = FileHashes(files);
    let copy = hashes.clone();
    assert_eq!(copy.0, hashes.0);
}

#[test]
fn hash_discovery_holds_what_it_is_given() {
    let name = WorkspaceName::Other(String::from("web"));
    let mut workspaces = HashMap::new();
    workspaces.insert(&name, &7u32);
    let discovery = LocalHashDiscovery::new(path(&["repo"]), workspaces);
    assert_eq!(discovery.repo_root, path(&["repo"]));
    assert_eq!(discovery.workspaces.get(&name), Some(&&7u32));
}

#[test]
fn hash_error_messages() {
    let unavailable: DiscoveryError<&'static str> = DiscoveryError::Unavailable;
    assert_eq!(
        unavailable.to_string(|cause| cause.to_string()),
        "discovery unavailable"
    );
    assert_eq!(
        DiscoveryError::Failed("broken").to_string(|cause| cause.to_string()),
        "discovery failed: broken"
    );
}

#[test]
fn paths_and_workspaces_compare_by_content() {
    assert_eq!(path(&["a", "b"]), path(&["a", "b"]));
    assert_ne!(path(&["a", "b"]), path(&["a"]));
    assert_ne!(path(&["a", "b"]), path(&["a", "c"]));
    let elsewhere = AbsoluteSystemPathBuf::new(String::from("C:\\"), vec![String::from("a")]);
    assert_ne!(elsewhere, path(&["a"]));
    let bare = WorkspaceData {
        package_json: path(&["package.json"]),
        turbo_json: None,
    };
    let configured = WorkspaceData {
        package_json: path(&["package.json"]),
        turbo_json: Some(path(&["turbo.json"])),
    };
    assert_eq!(bare.clone(), bare);
    assert_eq!(configured.clone(), configured);
    assert_ne!(bare, configured);
}
