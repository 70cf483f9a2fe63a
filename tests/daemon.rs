use turbocuak_daemon::config_json::{parse_global_config_adapt, parse_package_config_adapt};
use turbocuak_daemon::monitor::{FsEvent, FsEventKind, MonitorMonorepoStateAdapter, TargetMatch};
use turbocuak_daemon::monorepo::{
    create_monorepo_state_interaction, monorepo_state_build, package_state_build,
    parse_monorepo_state_interaction, MonorepoState, PackageSource,
};
use turbocuak_daemon::state::{PackageState, PackageStateMap, TaskState};
use turbocuak_daemon::watch::{
    Stopwatch, WatchAction, WatchFileSystemNotifyAdapter, WatchMessage, WatchPhase, WatchSession,
};
use turbocuak_daemon::{Error, ErrorCode, GlobalConfig};

const PKG_CONFIG: &str = r#"{
  "name": "pkg",
  "root": "pkg",
  "tasks": [
    {
      "depends_on": [],
      "inputFiles": ["src/**"],
      "name": "build",
      "options": {"mode":"release"}
    }
  ]
}"#;

fn source(directory: &str, contents: &str) -> PackageSource {
    PackageSource::new(String::from(directory), Ok(String::from(contents)))
}

fn root_config(directories: &str) -> Result<String, Error> {
    Ok(format!("{{\"packageDirectories\": [{}]}}", directories))
}

fn build_two(root_raw: Result<String, Error>) -> Result<MonorepoState, Error> {
    parse_monorepo_state_interaction(
        String::from("/repo"),
        root_raw,
        vec![source("/repo/a", PKG_CONFIG), source("/repo/b", "{ not json")],
    )
}

#[test]
fn end_to_end_single_package_scenario() {
    let state = parse_monorepo_state_interaction(
        String::from("/repo"),
        root_config("\"pkg\""),
        vec![source("/repo/pkg", PKG_CONFIG)],
    )
    .unwrap();
    let map = &state.package_path_to_state_map;
    assert_eq!(map.len(), 1);
    let package = map.get(&String::from("/repo/pkg")).unwrap();
    assert_eq!(package.root, "/repo/pkg");
    assert_eq!(package.name, "pkg");
    assert_eq!(package.tasks.len(), 1);
    let task: &TaskState = &package.tasks[0];
    assert_eq!(task.name, "build");
    assert!(!task.is_synched);
    assert!(task.depends_on.is_empty());
    assert_eq!(task.input_files, vec![String::from("src/**")]);
    assert_eq!(task.stringified_options, "{\"mode\":\"release\"}");
    assert_eq!(state.global_config, GlobalConfig::new(vec![String::from("pkg")]));
    assert_eq!(state.root_directory, "/repo");
}

#[test]
fn tolerant_build_keeps_only_parsed_packages() {
    let state = build_two(root_config("\"a\", \"b\"")).unwrap();
    let map = &state.package_path_to_state_map;
    assert_eq!(map.len(), 1);
    assert!(map.get(&String::from("/repo/a")).is_some());
    assert!(map.get(&String::from("/repo/b")).is_none());
}

#[test]
fn unreadable_package_is_left_out() {
    let state = parse_monorepo_state_interaction(
        String::from("/repo"),
        root_config("\"a\", \"gone\""),
        vec![
            source("/repo/a", PKG_CONFIG),
            PackageSource::new(
                String::from("/repo/gone"),
                Err(Error::not_found(String::from("/repo/gone/package.json"))),
            ),
        ],
    )
    .unwrap();
    assert_eq!(state.package_path_to_state_map.len(), 1);
}

#[test]
fn malformed_root_config_fails_the_build() {
    let result = build_two(Ok(String::from("{\"packageDirectories\": \"a\"}")));
    let error = result.unwrap_err();
    assert!(error.is_malformed());
    assert!(build_two(Ok(String::from("not json at all"))).is_err());
    assert!(build_two(Ok(String::from("{\"other\": []}"))).is_err());
}

#[test]
fn missing_root_config_error_is_passed_on() {
    let result = build_two(Err(Error::not_found(String::from("/repo/turbocuak.json"))));
    let error = result.unwrap_err();
    assert!(error.is_not_found());
    assert_eq!(error.message(), "/repo/turbocuak.json");
}

#[test]
fn building_twice_gives_equal_snapshots() {
    let first = build_two(root_config("\"a\", \"b\"")).unwrap();
    let second = build_two(root_config("\"a\", \"b\"")).unwrap();
    assert_eq!(first.global_config, second.global_config);
    assert_eq!(first.root_directory, second.root_directory);
    let map_one = &first.package_path_to_state_map;
    let map_two = &second.package_path_to_state_map;
    assert_eq!(map_one.len(), map_two.len());
    let key = String::from("/repo/a");
    let one = map_one.get(&key).unwrap();
    let two = map_two.get(&key).unwrap();
    assert_eq!(one.name, two.name);
    assert_eq!(one.root, two.root);
    assert_eq!(one.tasks.len(), two.tasks.len());
    assert_eq!(one.tasks[0].name, two.tasks[0].name);
    assert_eq!(one.tasks[0].depends_on, two.tasks[0].depends_on);
    assert_eq!(one.tasks[0].input_files, two.tasks[0].input_files);
    assert_eq!(one.tasks[0].is_synched, two.tasks[0].is_synched);
    assert_eq!(one.tasks[0].stringified_options, two.tasks[0].stringified_options);
}

#[test]
fn later_package_with_same_root_wins() {
    let other = PKG_CONFIG.replace("\"name\": \"pkg\"", "\"name\": \"second\"");
    let state = monorepo_state_build(
        String::from("/repo"),
        Ok(GlobalConfig::new(vec![String::from("p"), String::from("./p")])),
        vec![source("/repo/p", PKG_CONFIG), source("/repo/p", &other)],
    )
    .unwrap();
    let map = &state.package_path_to_state_map;
    assert_eq!(map.len(), 1);
    assert_eq!(map.get(&String::from("/repo/p")).unwrap().name, "second");
}

#[test]
fn package_state_build_decodes_and_marks_tasks_unsynched() {
    let text = PKG_CONFIG.replace("\"build\"", "\"b\\u0075ild\"");
    let package = package_state_build(String::from("/repo/pkg"), Ok(text)).unwrap();
    assert_eq!(package.tasks[0].name, "build");
    assert!(!package.tasks[0].is_synched);
    assert_eq!(package.root, "/repo/pkg");
}

#[test]
fn package_config_missing_field_is_malformed() {
    let text = PKG_CONFIG.replace("\"inputFiles\"", "\"input_files\"");
    let error = parse_package_config_adapt(Ok(text)).unwrap_err();
    assert!(matches!(error.code_ref(), ErrorCode::Malformed(_)));
}

#[test]
fn root_config_read_error_is_passed_on() {
    let error = parse_global_config_adapt(Err(Error::new(String::from("permission denied"))))
        .unwrap_err();
    assert!(matches!(error.code_ref(), ErrorCode::Message(m) if m == "permission denied"));
}

#[test]
fn create_from_built_states_keys_by_root() {
    let states = vec![
        PackageState::new(String::from("x"), String::from("/r/x"), vec![]),
        PackageState::new(String::from("y"), String::from("/r/y"), vec![]),
    ];
    let state =
        create_monorepo_state_interaction(GlobalConfig::new(vec![]), states, String::from("/r"));
    assert_eq!(state.package_path_to_state_map.len(), 2);
    assert_eq!(state.package_path_to_state_map.get(&String::from("/r/y")).unwrap().name, "y");
}

#[test]
fn package_state_map_insert_replaces() {
    let mut map = PackageStateMap::new();
    assert_eq!(map.len(), 0);
    map.insert(PackageState::new(String::from("one"), String::from("/k"), vec![]));
    map.insert(PackageState::new(String::from("two"), String::from("/k"), vec![]));
    assert_eq!(map.len(), 1);
    assert_eq!(map.get(&String::from("/k")).unwrap().name, "two");
}

#[test]
fn stop_before_any_event_releases_at_once() {
    let adapter = WatchFileSystemNotifyAdapter::new((), false, (), String::from("/repo"));
    let (mut session, mut stopwatch) = adapter.prepare();
    assert!(stopwatch.stop());
    let first: WatchAction<u32, u32> = session.step(WatchMessage::Unwatch);
    assert!(matches!(first, WatchAction::Release));
    assert!(!session.is_running());
    let later: WatchAction<u32, u32> = session.step(WatchMessage::EventResult(Ok(7)));
    assert!(matches!(later, WatchAction::Ignore));
}

#[test]
fn events_before_stop_are_dispatched_in_order() {
    let mut session = WatchSession::new();
    let messages: Vec<WatchMessage<u32, &str>> = vec![
        WatchMessage::EventResult(Ok(1)),
        WatchMessage::EventResult(Err("transient")),
        WatchMessage::EventResult(Ok(2)),
        WatchMessage::Unwatch,
        WatchMessage::EventResult(Ok(3)),
    ];
    let mut dispatched = vec![];
    let mut reported = vec![];
    let mut released = 0;
    for message in messages {
        match session.step(message) {
            WatchAction::Dispatch(e) => dispatched.push(e),
            WatchAction::Report(f) => reported.push(f),
            WatchAction::Release => released += 1,
            WatchAction::Abort => panic!("no abort expected"),
            WatchAction::Ignore => {}
        }
    }
    assert_eq!(dispatched, vec![1, 2]);
    assert_eq!(reported, vec!["transient"]);
    assert_eq!(released, 1);
    assert_eq!(session.phase(), WatchPhase::Released);
}

#[test]
fn lost_provider_aborts_the_session() {
    let mut session = WatchSession::new();
    let action: WatchAction<u32, u32> = session.step(WatchMessage::Disconnected);
    assert!(matches!(action, WatchAction::Abort));
    assert_eq!(session.phase(), WatchPhase::Aborted);
}

#[test]
fn second_stop_sends_nothing() {
    let mut stopwatch = Stopwatch::new();
    assert!(stopwatch.stop());
    assert!(!stopwatch.stop());
}

fn adapter() -> MonitorMonorepoStateAdapter {
    MonitorMonorepoStateAdapter::new(
        String::from("/repo"),
        String::from("/repo/turbocuak.json"),
        TargetMatch::ExactPath,
    )
}

fn event(kind: FsEventKind, path: &str) -> FsEvent {
    FsEvent { kind, paths: vec![String::from(path)] }
}

#[test]
fn event_elsewhere_does_not_rebuild() {
    let monitor = adapter();
    let mut cache = Some(build_two(root_config("\"a\"")).unwrap());
    for kind in [FsEventKind::Create, FsEventKind::Modify, FsEventKind::Remove] {
        let change = event(kind, "/repo/a/src/main.rs");
        if monitor.wants_rebuild(&change) {
            let rebuilt = build_two(root_config("\"b\""));
            monitor.install(&mut cache, rebuilt);
        }
    }
    let kept = cache.unwrap();
    assert!(kept.package_path_to_state_map.get(&String::from("/repo/a")).is_some());
    assert_eq!(kept.global_config, GlobalConfig::new(vec![String::from("a")]));
}

#[test]
fn access_on_target_does_not_rebuild() {
    let monitor = adapter();
    assert!(!monitor.wants_rebuild(&event(FsEventKind::Access, "/repo/turbocuak.json")));
    assert!(!monitor.wants_rebuild(&event(FsEventKind::Other, "/repo/turbocuak.json")));
    assert!(monitor.wants_rebuild(&event(FsEventKind::Modify, "/repo/turbocuak.json")));
}

#[test]
fn within_tree_policy_matches_paths_below_target() {
    let monitor = MonitorMonorepoStateAdapter::new(
        String::from("/repo"),
        String::from("/repo"),
        TargetMatch::WithinTree,
    );
    assert!(monitor.wants_rebuild(&event(FsEventKind::Create, "/repo/a/package.json")));
    assert!(monitor.wants_rebuild(&event(FsEventKind::Remove, "/repo")));
    assert!(!monitor.wants_rebuild(&event(FsEventKind::Create, "/repository/x")));
    assert!(!monitor.wants_rebuild(&event(FsEventKind::Modify, "/rep")));
}

#[test]
fn modify_on_target_rebuilds_and_replaces() {
    let monitor = adapter();
    let mut cache = Some(build_two(root_config("\"a\"")).unwrap());
    let change = FsEvent {
        kind: FsEventKind::Modify,
        paths: vec![String::from("/elsewhere"), String::from("/repo/turbocuak.json")],
    };
    assert!(monitor.wants_rebuild(&change));
    let failure = monitor.install(&mut cache, build_two(root_config("\"a\", \"b\"")));
    assert!(failure.is_none());
    let fresh = cache.as_ref().unwrap();
    assert_eq!(
        fresh.global_config,
        GlobalConfig::new(vec![String::from("a"), String::from("b")])
    );
}

#[test]
fn failed_rebuild_keeps_previous_snapshot() {
    let monitor = adapter();
    let mut cache = Some(build_two(root_config("\"a\"")).unwrap());
    let failure = monitor.install(&mut cache, build_two(Ok(String::from("{ broken"))));
    assert!(failure.unwrap().is_malformed());
    let kept = cache.unwrap();
    assert_eq!(kept.global_config, GlobalConfig::new(vec![String::from("a")]));
    assert_eq!(kept.package_path_to_state_map.len(), 1);
}

#[test]
fn failed_first_build_leaves_cache_empty() {
    let monitor = adapter();
    let mut cache: Option<MonorepoState> = None;
    let failure = monitor.install(&mut cache, build_two(Ok(String::from("[]"))));
    assert!(failure.is_some());
    assert!(cache.is_none());
}
