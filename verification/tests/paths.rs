use bevy_studio::builder::{build_dir_name, build_path, directory_paths, local_file};
use bevy_studio::files::storage::{projects_bucket, storage_key};
use bevy_studio::ids::new_id;
use bevy_studio::text::{decimal_text, join_with_slash, signed_decimal_text, split_text};

#[test]
fn storage_key_joins_project_and_file() {
    assert_eq!(storage_key("p1", "src/main.rs"), "p1/src/main.rs");
    assert_eq!(storage_key("p1", "Cargo.toml"), "p1/Cargo.toml");
    assert_eq!(projects_bucket(), "bevy-studio-projects");
}

#[test]
fn split_follows_str_split() {
    for s in ["a/b/c", "", "/", "a//b", "/a/", "no_separator", "ünï/cødé"] {
        let expected: Vec<String> = s.split('/').map(String::from).collect();
        assert_eq!(split_text(s, '/'), expected);
    }
}

#[test]
fn join_follows_slice_join() {
    let pieces = vec!["src".to_string(), "module".to_string(), "test.rs".to_string()];
    assert_eq!(join_with_slash(&pieces), "src/module/test.rs");
    assert_eq!(join_with_slash(&Vec::new()), "");
    assert_eq!(join_with_slash(&vec!["".to_string(), "".to_string()]), "/");
}

#[test]
fn local_file_drops_project_id() {
    let f = local_file("p1/src/module/test.rs");
    assert_eq!(f.directories, vec!["src".to_string(), "module".to_string()]);
    assert_eq!(f.relative_path, "src/module/test.rs");
    let f = local_file("p1/Cargo.toml");
    assert!(f.directories.is_empty());
    assert_eq!(f.relative_path, "Cargo.toml");
    let f = local_file("lonely");
    assert!(f.directories.is_empty());
    assert_eq!(f.relative_path, "");
}

#[test]
fn uploaded_file_comes_back_under_its_name() {
    let project = new_id();
    for name in ["Cargo.toml", "src/main.rs", "assets/images/player.png"] {
        let key = storage_key(&project, name);
        assert_eq!(local_file(&key).relative_path, name);
    }
}

#[test]
fn directories_are_made_outermost_first() {
    let dirs = vec!["src".to_string(), "module".to_string(), "deep".to_string()];
    assert_eq!(
        directory_paths(&dirs),
        vec!["build/src".to_string(), "build/src/module".to_string(), "build/src/module/deep".to_string()]
    );
    assert!(directory_paths(&Vec::new()).is_empty());
    assert_eq!(build_dir_name(), "build");
}

#[test]
fn file_lands_in_its_last_directory() {
    let f = local_file("p/src/module/test.rs");
    let dirs = directory_paths(&f.directories);
    let path = build_path(&f.relative_path);
    assert_eq!(path, "build/src/module/test.rs");
    assert_eq!(path, format!("{}/test.rs", dirs.last().unwrap()));
}

#[test]
fn decimal_matches_to_string() {
    for n in [0u64, 7, 10, 405, 99999, u64::MAX] {
        assert_eq!(decimal_text(n), n.to_string());
    }
    for n in [0i64, -1, -42, 583231, i64::MIN, i64::MAX] {
        assert_eq!(signed_decimal_text(n), n.to_string());
    }
}

#[test]
fn new_ids_are_hyphenated_lowercase_uuids() {
    let id = new_id();
    assert_eq!(id.len(), 36);
    assert!(id.chars().all(|c| c.is_ascii_digit() || ('a'..='f').contains(&c) || c == '-'));
    assert_ne!(new_id(), new_id());
}
