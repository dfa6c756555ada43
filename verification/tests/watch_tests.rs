use vibede_core::files::FileService;
use vibede_core::paths::relative_path;
use vibede_core::watch::change_event;
use vibede_core::watch::sample_event;
use vibede_core::watch::watcher_failure;
use vibede_core::watch::ChangeKind;
use vibede_core::watch::FileChangeEvent;
use vibede_core::watch::WatchError;
use vibede_core::watch::WatchRegistry;

fn pair(id: &str, path: &str) -> (String, String) {
    (id.to_string(), path.to_string())
}

#[test]
fn labels_of_kinds() {
    assert_eq!(ChangeKind::Created.label(), "created");
    assert_eq!(ChangeKind::Modified.label(), "modified");
    assert_eq!(ChangeKind::Removed.label(), "removed");
    assert_eq!(ChangeKind::Accessed.label(), "accessed");
    assert_eq!(ChangeKind::Other.label(), "other");
    assert_eq!(ChangeKind::Unknown.label(), "unknown");
}

#[test]
fn relative_paths() {
    assert_eq!(relative_path("/base/dir/a.rs", "/base"), "dir/a.rs");
    assert_eq!(relative_path("/base/dir/a.rs", "/base/"), "dir/a.rs");
    assert_eq!(relative_path("/base", "/base"), "");
    assert_eq!(relative_path("/other/a.rs", "/base"), "/other/a.rs");
    assert_eq!(relative_path("/basement/a.rs", "/base"), "/basement/a.rs");
    assert_eq!(relative_path("a/b", ""), "a/b");
    assert_eq!(FileService::new().get_relative_path("/r/src/a.rs", "/r"), "src/a.rs");
}

#[test]
fn change_events() {
    assert_eq!(
        change_event("/w/dir/f.txt", "/w", ChangeKind::Created, "id-1"),
        FileChangeEvent {
            path: "dir/f.txt".to_string(),
            kind: "created".to_string(),
            watch_id: "id-1".to_string(),
        }
    );
    assert_eq!(
        change_event("/elsewhere/f.txt", "/w", ChangeKind::Removed, "id-2"),
        FileChangeEvent {
            path: "/elsewhere/f.txt".to_string(),
            kind: "removed".to_string(),
            watch_id: "id-2".to_string(),
        }
    );
}

#[test]
fn sample_event_is_fixed() {
    assert_eq!(
        sample_event(),
        FileChangeEvent {
            path: "/test/path/test-file.txt".to_string(),
            kind: "modified".to_string(),
            watch_id: "test-watcher-id".to_string(),
        }
    );
}

#[test]
fn watch_error_messages() {
    assert_eq!(
        WatchError::NotReady.message(),
        "App handle not set. Call set_app_handle first."
    );
    assert_eq!(WatchError::MissingPath("/p".to_string()).message(), "Path does not exist: /p");
    assert_eq!(
        WatchError::AlreadyWatching("w".to_string()).message(),
        "Already watching with ID: w"
    );
    assert_eq!(WatchError::NotWatching("w".to_string()).message(), "No watcher found with ID: w");
    assert_eq!(watcher_failure("w1", "gone"), "Error in watcher w1: gone");
}

#[test]
fn registry_records_watchers_in_order() {
    let mut registry = WatchRegistry::new();
    assert_eq!(registry.list(), Vec::new());
    assert!(!registry.is_watching("a"));
    registry.insert("a", "/pa");
    registry.insert("b", "/pb");
    registry.insert("c", "/pc");
    assert!(registry.is_watching("a"));
    assert!(registry.is_watching("c"));
    assert!(!registry.is_watching("d"));
    assert_eq!(registry.list(), vec![pair("a", "/pa"), pair("b", "/pb"), pair("c", "/pc")]);
}

#[test]
fn registry_insert_replaces_a_taken_id() {
    let mut registry = WatchRegistry::new();
    registry.insert("a", "/pa");
    registry.insert("b", "/pb");
    registry.insert("a", "/other");
    assert_eq!(registry.list(), vec![pair("a", "/other"), pair("b", "/pb")]);
}

#[test]
fn registry_remove() {
    let mut registry = WatchRegistry::new();
    registry.insert("a", "/pa");
    registry.insert("b", "/pb");
    assert_eq!(registry.remove("c"), Err(WatchError::NotWatching("c".to_string())));
    assert_eq!(registry.remove("a"), Ok(()));
    assert_eq!(registry.list(), vec![pair("b", "/pb")]);
    assert_eq!(registry.remove("a"), Err(WatchError::NotWatching("a".to_string())));
    assert_eq!(registry.remove("b"), Ok(()));
    assert_eq!(registry.list(), Vec::new());
}

#[test]
fn registry_check_start() {
    let mut registry = WatchRegistry::new();
    registry.insert("a", "/pa");
    assert_eq!(registry.check_start(false, false, "/p", "a"), Err(WatchError::NotReady));
    assert_eq!(
        registry.check_start(true, false, "/p", "a"),
        Err(WatchError::MissingPath("/p".to_string()))
    );
    assert_eq!(
        registry.check_start(true, true, "/p", "a"),
        Err(WatchError::AlreadyWatching("a".to_string()))
    );
    assert_eq!(registry.check_start(true, true, "/p", "b"), Ok(()));
}
