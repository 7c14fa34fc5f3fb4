use unlimited_ammo::buildflow::{BuildAction, BuildEvent, BuildManager, BuildPhase};
use unlimited_ammo::error::Error;
use unlimited_ammo::display::Display;
use unlimited_ammo::snapshot::{build_snapshot, FileEntry, Snapshot};
use unlimited_ammo::watcher::{is_secondary_path, Watcher, WatcherBuilder};

fn entry(components: &[&str], ts: u64) -> FileEntry {
    FileEntry {
        components: components.iter().map(|c| c.to_string()).collect(),
        modified_ts: ts,
    }
}

fn ignore(names: &[&str]) -> Vec<String> {
    names.iter().map(|c| c.to_string()).collect()
}

fn watcher_with(ignore_names: &[&str]) -> Watcher {
    WatcherBuilder::new()
        .set_watch_interval(2)
        ._set_ignore_list(ignore(ignore_names))
        .set_display(Display::new())
        .set_build_process(BuildManager::new())
        .build()
        .expect("watcher should build")
}

#[test]
fn unchanged_tree_triggers_no_build() {
    let files = vec![
        entry(&["src", "main.rs"], 10),
        entry(&["src", "lib.rs"], 20),
        entry(&["Cargo.toml"], 30),
    ];
    let ig = ignore(&[".git", "target"]);
    let baseline = build_snapshot(&files, &ig);
    let first = build_snapshot(&files, &ig);
    let second = build_snapshot(&files, &ig);

    let mut watcher = watcher_with(&[".git", "target"]);
    // The baseline tick sees every path as new; over an unchanged tree,
    // every later diff finds nothing.
    watcher.tick(baseline);
    assert!(watcher.tick(first).is_none());
    assert!(watcher.tick(second).is_none());
}

#[test]
fn ignored_paths_never_enter_snapshot() {
    let files = vec![
        entry(&["src", "main.rs"], 10),
        entry(&["target", "debug", "app"], 99),
        entry(&[".git", "HEAD"], 98),
    ];
    let snapshot = build_snapshot(&files, &ignore(&[".git", "target"]));

    assert_eq!(snapshot.len(), 1);
    assert_eq!(snapshot.get(&"./src/main.rs".to_string()), Some(10));
    assert_eq!(snapshot.get(&"./target/debug/app".to_string()), None);
    assert_eq!(snapshot.get(&"./.git/HEAD".to_string()), None);
}

#[test]
fn snapshot_insert_replaces_timestamp() {
    let mut snapshot = Snapshot::new();
    snapshot.insert("./a".to_string(), 1);
    snapshot.insert("./b".to_string(), 2);
    snapshot.insert("./a".to_string(), 5);
    assert_eq!(snapshot.len(), 2);
    assert_eq!(snapshot.get(&"./a".to_string()), Some(5));
    assert_eq!(snapshot.get(&"./b".to_string()), Some(2));
}

#[test]
fn touch_under_web_subtree_needs_secondary_build() {
    let ig = [".git", "target"];
    let mut watcher = watcher_with(&ig);
    assert_eq!(watcher.watch_interval, 2);

    let before = vec![
        entry(&["src", "web", "app.ts"], 10),
        entry(&["src", "main.rs"], 20),
    ];
    // The first tick establishes the baseline: with no previous snapshot,
    // every path counts as new.
    let baseline = build_snapshot(&before, &watcher.ignore_list);
    assert!(watcher.tick(baseline).is_some());

    // Touch the file under the secondary-build subtree.
    let touched_web = vec![
        entry(&["src", "web", "app.ts"], 11),
        entry(&["src", "main.rs"], 20),
    ];
    let snapshot = build_snapshot(&touched_web, &watcher.ignore_list);
    let change = watcher.tick(snapshot).expect("a change must be detected");
    assert_eq!(change.path, "./src/web/app.ts");
    assert!(change.need_secondary_build);

    // Touch the file outside it.
    let touched_native = vec![
        entry(&["src", "web", "app.ts"], 11),
        entry(&["src", "main.rs"], 21),
    ];
    let snapshot = build_snapshot(&touched_native, &watcher.ignore_list);
    let change = watcher.tick(snapshot).expect("a change must be detected");
    assert_eq!(change.path, "./src/main.rs");
    assert!(!change.need_secondary_build);
}

#[test]
fn new_file_counts_as_changed() {
    let mut watcher = watcher_with(&[]);
    let before = vec![entry(&["src", "main.rs"], 10)];
    watcher.tick(build_snapshot(&before, &Vec::new()));

    let after = vec![
        entry(&["src", "main.rs"], 10),
        entry(&["src", "new.rs"], 11),
    ];
    let change = watcher
        .tick(build_snapshot(&after, &Vec::new()))
        .expect("a new file is a change");
    assert_eq!(change.path, "./src/new.rs");
}

#[test]
fn secondary_path_classification() {
    assert!(is_secondary_path(&"./src/web/app.ts".to_string()));
    assert!(is_secondary_path(&"./a/src/web/".to_string()));
    assert!(!is_secondary_path(&"./src/main.rs".to_string()));
    assert!(!is_secondary_path(&"./src/web".to_string()));
    assert!(!is_secondary_path(&"".to_string()));
}

#[test]
fn second_build_kills_recorded_process_first() {
    let mut manager = BuildManager::new();

    // First build: nothing recorded, spawn directly.
    let action = manager.step(BuildEvent::Start { need_secondary: false });
    assert!(matches!(action, BuildAction::SpawnPrimary));
    let action = manager.step(BuildEvent::PrimarySpawned { pid: 7 });
    assert!(matches!(action, BuildAction::Wait));
    assert_eq!(manager.current, Some(7));

    // Second change arrives while the first build is live: the manager
    // must first attempt to kill the recorded process.
    let action = manager.step(BuildEvent::Start { need_secondary: false });
    assert!(matches!(action, BuildAction::Kill { pid: 7 }));
    assert_eq!(manager.current, Some(7));

    let action = manager.step(BuildEvent::KillSucceeded);
    assert!(matches!(action, BuildAction::SpawnPrimary));
    assert_eq!(manager.current, None);

    let action = manager.step(BuildEvent::PrimarySpawned { pid: 9 });
    assert!(matches!(action, BuildAction::Wait));
    assert_eq!(manager.current, Some(9));
    assert!(matches!(manager.phase, BuildPhase::Idle));
}

#[test]
fn failed_kill_keeps_stale_handle_and_fails_attempt() {
    let mut manager = BuildManager::new();
    manager.step(BuildEvent::Start { need_secondary: false });
    manager.step(BuildEvent::PrimarySpawned { pid: 7 });

    let action = manager.step(BuildEvent::Start { need_secondary: true });
    assert!(matches!(action, BuildAction::Kill { pid: 7 }));
    let action = manager.step(BuildEvent::KillFailed { message: "denied".to_string() });
    match action {
        BuildAction::Fail { error: Error::StdIo(message) } => assert_eq!(message, "denied"),
        other => panic!("expected a failing action, got {:?}", other),
    }
    // The stale handle stays recorded; the next change retries the kill.
    assert_eq!(manager.current, Some(7));
    let action = manager.step(BuildEvent::Start { need_secondary: false });
    assert!(matches!(action, BuildAction::Kill { pid: 7 }));
}

#[test]
fn secondary_build_runs_before_primary() {
    let mut manager = BuildManager::new();
    let action = manager.step(BuildEvent::Start { need_secondary: true });
    assert!(matches!(action, BuildAction::RunSecondary));
    let action = manager.step(BuildEvent::SecondaryFinished);
    assert!(matches!(action, BuildAction::SpawnPrimary));
    let action = manager.step(BuildEvent::PrimarySpawned { pid: 3 });
    assert!(matches!(action, BuildAction::Wait));
    assert_eq!(manager.current, Some(3));
}

#[test]
fn secondary_spawn_failure_aborts_attempt() {
    let mut manager = BuildManager::new();
    manager.step(BuildEvent::Start { need_secondary: true });
    let action = manager.step(BuildEvent::SecondarySpawnFailed { message: "no shell".to_string() });
    match action {
        BuildAction::Fail { error: Error::BuildFailed(message) } => {
            assert_eq!(message, "no shell")
        },
        other => panic!("expected a failing action, got {:?}", other),
    }
    assert_eq!(manager.current, None);
    assert!(matches!(manager.phase, BuildPhase::Idle));
}

#[test]
fn primary_spawn_failure_reports_build_failed() {
    let mut manager = BuildManager::new();
    manager.step(BuildEvent::Start { need_secondary: false });
    let action = manager.step(BuildEvent::PrimarySpawnFailed { message: "enoent".to_string() });
    assert!(matches!(action, BuildAction::Fail { error: Error::BuildFailed(_) }));
    assert_eq!(manager.current, None);
}

#[test]
fn shutdown_kills_recorded_process() {
    let mut manager = BuildManager::new();
    manager.step(BuildEvent::Start { need_secondary: false });
    manager.step(BuildEvent::PrimarySpawned { pid: 42 });
    let action = manager.step(BuildEvent::ShutdownRequested);
    assert!(matches!(action, BuildAction::Kill { pid: 42 }));

    let mut idle = BuildManager::new();
    let action = idle.step(BuildEvent::ShutdownRequested);
    assert!(matches!(action, BuildAction::Wait));
}

#[test]
fn builder_requires_watch_interval() {
    // A bare builder fails on the missing interval, regardless of the
    // other fields.
    match WatcherBuilder::new().build() {
        Err(Error::WatchIntervalNotSet) => {},
        _ => panic!("expected the watch-interval configuration error"),
    }
    let result = WatcherBuilder::new()
        .set_display(Display::new())
        .set_build_process(BuildManager::new())
        .build();
    match result {
        Err(Error::WatchIntervalNotSet) => {},
        _ => panic!("expected the watch-interval configuration error"),
    }
}

#[test]
fn builder_requires_display() {
    let result = WatcherBuilder::new().set_watch_interval(2).build();
    match result {
        Err(Error::DisplayNotSet) => {},
        _ => panic!("expected the display configuration error"),
    }
}

#[test]
fn builder_requires_build_process() {
    let result = WatcherBuilder::new()
        .set_watch_interval(2)
        .set_display(Display::new())
        .build();
    match result {
        Err(Error::BuildProcessNotSet) => {},
        _ => panic!("expected the build-process configuration error"),
    }
}

#[test]
fn builder_applies_default_ignore_list() {
    let watcher = WatcherBuilder::new()
        .set_watch_interval(2)
        .set_display(Display::new())
        .set_build_process(BuildManager::new())
        .build()
        .expect("watcher should build");
    let expected = vec![
        ".git",
        ".gitignore",
        "target",
        "README.md",
        "dist",
        "node_modules",
        "tsconfig.tsbuildinfo",
        "tsconfig.node.tsbuildinfo",
    ];
    let got: Vec<&str> = watcher.ignore_list.iter().map(|s| s.as_str()).collect();
    assert_eq!(got, expected);
    assert!(!watcher.is_valid_target(&"target".to_string()));
    assert!(watcher.is_valid_target(&"src".to_string()));
}

#[test]
fn error_messages_match_their_variants() {
    assert_eq!(
        Error::StdIo("boom".to_string()).message(),
        "Error: Standard Input/Output\nboom"
    );
    assert_eq!(
        Error::WatchIntervalNotSet.message(),
        "Error: Can't build `Watcher` without setting watch interval."
    );
    assert_eq!(
        Error::DisplayNotSet.message(),
        "Error: Log display not configured correctly."
    );
    assert_eq!(
        Error::BuildProcessNotSet.message(),
        "Error: Can't build `Watcher` without setting build process."
    );
    assert_eq!(
        Error::BuildFailed("spawn".to_string()).message(),
        "Error: Failed to build\nspawn"
    );
    assert_eq!(
        Error::FailedParsingOsString("name".to_string()).message(),
        "Error: Failed parsing OS Native string: name"
    );
}

#[test]
fn log_formats_with_timestamp_and_banner() {
    let line = Watcher::format_log_msg("2024-01-01T00:00:00Z", "update detected");
    assert_eq!(
        line,
        "[2024-01-01T00:00:00Z \x1b[32mUnlimited Ammo\x1b[0m]: update detected"
    );
}

#[test]
fn watcher_log_appends_bannered_line() {
    let mut watcher = watcher_with(&[]);
    watcher.log("running the initial build");
    assert_eq!(watcher.display.logs.len(), 1);
    let line = &watcher.display.logs[0];
    assert!(line.starts_with("["));
    assert!(line.ends_with("\x1b[32mUnlimited Ammo\x1b[0m]: running the initial build"));
    assert!(watcher.display.jump_to_latest);
}
