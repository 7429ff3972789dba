use turborepo_discovery::package_graph::{WorkspaceName, ROOT_PKG_NAME};
use turborepo_discovery::task_id::{TaskId, TaskName, TASK_DELIMITER};

fn assert_roundtrip(input: &str) {
    assert_eq!(input, TaskId::try_from(input).unwrap().to_string());
}

fn assert_new_task_id(package_name: &str, task_name: &str, expected: &str) {
    let expected = TaskId::try_from(expected).unwrap();
    let actual = TaskId::new(package_name, task_name);
    assert_eq!(actual, expected);
}

fn assert_task_name_roundtrip(input: &str) {
    assert_eq!(input, TaskName::from(input).to_string());
}

#[test]
fn test_roundtrip() {
    assert_roundtrip("foo#build");
    assert_roundtrip("//#root");
    assert_roundtrip("@scope/foo#build");
}

#[test]
fn test_new_task_id() {
    assert_new_task_id("foo", "build", "foo#build");
    assert_new_task_id("foo", "bar#build", "bar#build");
    assert_new_task_id("foo", "//#build", "//#build");
}

#[test]
fn test_task_name_roundtrip() {
    assert_task_name_roundtrip("build");
    assert_task_name_roundtrip("foo#build");
    assert_task_name_roundtrip("//#build");
    assert_task_name_roundtrip("#build");
}

#[test]
fn text_beyond_ascii_roundtrips() {
    assert_roundtrip("\u{e9}t\u{e9}#\u{1f680}");
    assert_task_name_roundtrip("\u{65e5}\u{672c}#\u{8a9e}#x");
    let id = TaskId::try_from("\u{e9}\u{65e5}#\u{1f680}#").unwrap();
    assert_eq!(id.package(), "\u{e9}\u{65e5}");
    assert_eq!(id.task(), "\u{1f680}#");
}

#[test]
fn constants() {
    assert_eq!(TASK_DELIMITER, "#");
    assert_eq!(ROOT_PKG_NAME, "//");
}

#[test]
fn first_delimiter_splits() {
    let id = TaskId::try_from("workspace#test#check").unwrap();
    assert_eq!(id.package(), "workspace");
    assert_eq!(id.task(), "test#check");
    let name = TaskName::from("workspace#test#check");
    assert_eq!(name.package(), Some("workspace"));
    assert_eq!(name.task(), "test#check");
}

#[test]
fn identifiers_without_workspace_are_refused() {
    for input in ["build", "", "#build", "#", "##"] {
        let error = TaskId::try_from(input).unwrap_err();
        assert_eq!(
            error.to_string(),
            format!("No workspace found in task id '{}'", input)
        );
    }
}

#[test]
fn empty_task_is_accepted() {
    let id = TaskId::try_from("foo#").unwrap();
    assert_eq!(id.package(), "foo");
    assert_eq!(id.task(), "");
    assert_eq!(id.to_string(), "foo#");
}

#[test]
fn empty_workspace_in_a_name() {
    let name = TaskName::from("#build");
    assert_eq!(name.package(), Some(""));
    assert_eq!(name.task(), "build");
    assert!(name.is_package_task());
    assert_eq!(name.task_id().unwrap().to_string(), "#build");
}

#[test]
fn new_falls_back_to_the_package() {
    let id = TaskId::new("foo", "#build");
    assert_eq!(id.package(), "foo");
    assert_eq!(id.task(), "#build");
    assert_eq!(id.to_string(), "foo##build");
    let again = TaskId::new("other", "foo##build");
    assert_eq!(again, id);
}

#[test]
fn name_for_all_workspaces() {
    let name = TaskName::from("build");
    assert_eq!(name.package(), None);
    assert_eq!(name.task(), "build");
    assert!(!name.is_package_task());
    assert!(name.task_id().is_none());
    assert!(name.in_workspace("anything"));
    assert!(name.in_workspace(""));
}

#[test]
fn name_for_one_workspace() {
    let name = TaskName::from("foo#build");
    assert!(name.is_package_task());
    assert!(name.in_workspace("foo"));
    assert!(!name.in_workspace("fo"));
    assert!(!name.in_workspace("bar"));
    assert!(!name.in_workspace("food"));
    assert_eq!(name.task_id(), Some(TaskId::new("foo", "build")));
}

#[test]
fn root_tasks() {
    assert_eq!(
        TaskName::from("build").into_root_task().to_string(),
        "//#build"
    );
    let root = TaskName::from("foo#build").into_root_task();
    assert_eq!(root.to_string(), "//#build");
    assert_eq!(root.clone().into_root_task(), root);
    assert!(root.in_workspace("//"));
    assert_eq!(root, TaskName::from("//#build"));
}

#[test]
fn non_workspace_tasks() {
    let name = TaskName::from("foo#build").into_non_workspace_task();
    assert_eq!(name, TaskName::from("build"));
    assert_eq!(name.package(), None);
}

#[test]
fn owned_names_and_identifiers() {
    let text = String::from("foo#build");
    let owned: TaskName<'static> = TaskName::from(text.clone());
    assert_eq!(owned, TaskName::from("foo#build"));
    assert_eq!(TaskName::from(text.as_str()).into_owned(), owned);
    assert_eq!(String::from(owned.clone()), text);
    let id: TaskId<'static> = TaskId::try_from(text.as_str()).unwrap().into_owned();
    assert_eq!(id.clone(), id);
    assert_eq!(String::from(id), text);
}

#[test]
fn graph_identifiers() {
    let other = WorkspaceName::Other(String::from("web"));
    let all = TaskName::from("build");
    assert_eq!(TaskId::from_graph(&other, &all).to_string(), "web#build");
    assert_eq!(
        TaskId::from_graph(&WorkspaceName::Root, &all).to_string(),
        "//#build"
    );
    let one = TaskName::from("docs#build");
    assert_eq!(TaskId::from_graph(&other, &one).to_string(), "docs#build");
    assert_eq!(
        TaskId::from_graph(&WorkspaceName::Root, &one).to_string(),
        "docs#build"
    );
}

#[test]
fn workspaces_of_identifiers() {
    let root = TaskId::try_from("//#build").unwrap();
    assert_eq!(root.to_workspace_name(), WorkspaceName::Root);
    let web = TaskId::try_from("web#build").unwrap();
    assert_eq!(
        web.to_workspace_name(),
        WorkspaceName::Other(String::from("web"))
    );
    for id in [root, web] {
        let workspace = id.to_workspace_name();
        assert_eq!(workspace.clone(), workspace);
        assert_eq!(
            TaskId::from_graph(&workspace, &id.as_non_workspace_task_name()),
            id
        );
        assert_eq!(
            TaskId::from_graph(&WorkspaceName::Root, &id.as_task_name()),
            id
        );
        assert_eq!(id.as_task_name().task_id(), Some(id.clone()));
        assert_eq!(id.as_task_name().to_string(), id.to_string());
        assert!(id.as_non_workspace_task_name().task_id().is_none());
    }
}

#[test]
fn package_named_like_the_root() {
    let odd = WorkspaceName::Other(String::from("//"));
    let id = TaskId::from_graph(&odd, &TaskName::from("build"));
    assert_eq!(id.to_workspace_name(), WorkspaceName::Root);
}

#[test]
fn equality_is_that_of_the_text() {
    let owned = TaskId::try_from("foo#build").unwrap().into_owned();
    assert_eq!(owned, TaskId::try_from("foo#build").unwrap());
    assert_ne!(owned, TaskId::try_from("foo#test").unwrap());
    assert_ne!(owned, TaskId::try_from("bar#build").unwrap());
    assert_ne!(TaskName::from("build"), TaskName::from("#build"));
    assert_ne!(TaskName::from("foo#build"), TaskName::from("bar#build"));
    assert_ne!(
        WorkspaceName::Root,
        WorkspaceName::Other(String::from("//"))
    );
    assert_ne!(
        WorkspaceName::Other(String::from("a")),
        WorkspaceName::Other(String::from("b"))
    );
}

#[test]
fn graph_and_lookup_agree() {
    let workspace = WorkspaceName::Other(String::from("web"));
    for text in ["build", "docs#build", "//#build", "docs#", "a#b#c", ""] {
        assert_eq!(
            TaskId::from_graph(&workspace, &TaskName::from(text)),
            TaskId::new("web", text)
        );
    }
    assert_ne!(
        TaskId::from_graph(&workspace, &TaskName::from("#build")),
        TaskId::new("web", "#build")
    );
}
