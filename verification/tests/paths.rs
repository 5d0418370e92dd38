use media_sidecar::path::{resolve_relative_path, PathComponent};
use std::path::{Component, Path, PathBuf};

fn normal(text: &str) -> PathComponent {
    PathComponent::Normal(text.to_string())
}

#[test]
fn current_and_parent_components_are_resolved() {
    let path = vec![
        normal("a"),
        PathComponent::CurDir,
        normal("b"),
        PathComponent::ParentDir,
        normal("c"),
    ];
    assert_eq!(resolve_relative_path(&path), vec![normal("a"), normal("c")]);
}

#[test]
fn excess_parent_components_are_dropped() {
    let path = vec![
        normal("a"),
        PathComponent::ParentDir,
        PathComponent::ParentDir,
        PathComponent::ParentDir,
        normal("b"),
    ];
    assert_eq!(resolve_relative_path(&path), vec![normal("b")]);
}

#[test]
fn leading_parent_component_is_dropped() {
    let path = vec![PathComponent::ParentDir, normal("x")];
    assert_eq!(resolve_relative_path(&path), vec![normal("x")]);
}

#[test]
fn only_parent_components_give_the_empty_path() {
    let path = vec![PathComponent::ParentDir, PathComponent::ParentDir];
    assert_eq!(resolve_relative_path(&path), Vec::<PathComponent>::new());
}

#[test]
fn empty_path_stays_empty() {
    assert_eq!(resolve_relative_path(&Vec::new()), Vec::<PathComponent>::new());
}

#[test]
fn root_and_prefix_are_kept() {
    let path = vec![
        PathComponent::Prefix("C:".to_string()),
        PathComponent::RootDir,
        normal("app"),
        PathComponent::CurDir,
        normal("bin"),
    ];
    assert_eq!(
        resolve_relative_path(&path),
        vec![
            PathComponent::Prefix("C:".to_string()),
            PathComponent::RootDir,
            normal("app"),
            normal("bin"),
        ]
    );
}

#[test]
fn parent_component_removes_whatever_is_on_top() {
    let path = vec![PathComponent::RootDir, PathComponent::ParentDir, normal("a")];
    assert_eq!(resolve_relative_path(&path), vec![normal("a")]);
}

#[test]
fn normalizing_twice_equals_normalizing_once() {
    let path = vec![
        PathComponent::RootDir,
        normal("usr"),
        PathComponent::ParentDir,
        PathComponent::ParentDir,
        normal("opt"),
        PathComponent::CurDir,
        normal("tools"),
        normal("x"),
        PathComponent::ParentDir,
    ];
    let once = resolve_relative_path(&path);
    let twice = resolve_relative_path(&once);
    assert_eq!(once, vec![normal("opt"), normal("tools")]);
    assert_eq!(twice, once);
}

#[test]
fn duplicate_keeps_kind_and_text() {
    let component = PathComponent::Prefix("D:".to_string());
    assert_eq!(component.duplicate(), component);
    assert_eq!(PathComponent::ParentDir.duplicate(), PathComponent::ParentDir);
}

fn split(path: &str) -> Vec<PathComponent> {
    Path::new(path)
        .components()
        .map(|component| match component {
            Component::Prefix(prefix) => {
                PathComponent::Prefix(prefix.as_os_str().to_string_lossy().into_owned())
            }
            Component::RootDir => PathComponent::RootDir,
            Component::CurDir => PathComponent::CurDir,
            Component::ParentDir => PathComponent::ParentDir,
            Component::Normal(name) => PathComponent::Normal(name.to_string_lossy().into_owned()),
        })
        .collect()
}

fn join(components: &[PathComponent]) -> PathBuf {
    let mut path = PathBuf::new();
    for component in components {
        match component {
            PathComponent::Prefix(text) | PathComponent::Normal(text) => path.push(text),
            PathComponent::RootDir => path.push(std::path::MAIN_SEPARATOR_STR),
            PathComponent::CurDir => path.push("."),
            PathComponent::ParentDir => path.push(".."),
        }
    }
    path
}

#[test]
fn written_paths_are_normalized() {
    assert_eq!(join(&resolve_relative_path(&split("a/./b/../c"))), PathBuf::from("a/c"));
    assert_eq!(join(&resolve_relative_path(&split("./a/b"))), PathBuf::from("a/b"));
    assert_eq!(join(&resolve_relative_path(&split("a/b/../../../c"))), PathBuf::from("c"));
    assert_eq!(join(&resolve_relative_path(&split("../../x/y"))), PathBuf::from("x/y"));
    assert_eq!(join(&resolve_relative_path(&split("a/.."))), PathBuf::new());
    assert_eq!(join(&resolve_relative_path(&split(""))), PathBuf::new());
}

#[test]
fn written_paths_are_normalized_once_and_for_all() {
    for path in ["a/./b/../c", "../..", "x/../../y/./z", "a/b/c", "./.", "a/../b/../c/.."] {
        let once = resolve_relative_path(&split(path));
        assert_eq!(resolve_relative_path(&once), once);
        assert_eq!(split(&join(&once).to_string_lossy()), once);
    }
}
