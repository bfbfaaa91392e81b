use drive_sync::config::AppConfig;
use drive_sync::engine::{SyncAction, SyncEngine, SyncEvent, SyncRun};
use drive_sync::status::SyncStatus;

fn test_config() -> AppConfig {
    AppConfig {
        server_url: "https://docs.example.com/".to_string(),
        user_email: "user@example.com".to_string(),
        tenant_id: "tenant-1".to_string(),
        personal_sync_path: "/tmp/p".to_string(),
        shared_sync_path: "/tmp/s".to_string(),
        sync_interval_secs: 300,
        watch_local_changes: true,
        sync_on_startup: true,
        max_file_size_bytes: 0,
    }
}

/// What a mocked run of the external tool should answer for one target.
#[derive(Clone)]
struct MockTool {
    exit_ok: bool,
    exit_code: Option<i32>,
    stderr: String,
}

fn tool_ok() -> MockTool {
    MockTool { exit_ok: true, exit_code: Some(0), stderr: String::new() }
}

fn tool_fail(stderr: &str) -> MockTool {
    MockTool { exit_ok: false, exit_code: Some(1), stderr: stderr.to_string() }
}

/// A record of the effects a driven run asked for.
#[derive(Default)]
struct Effects {
    created_dirs: Vec<String>,
    markers: Vec<String>,
    tool_invocations: Vec<(String, String, Vec<String>)>,
}

/// Drive one run to completion against a mocked external tool: obscuring
/// succeeds, directories are always created, and each tool invocation (first
/// the personal target, then the shared one) answers per `outcomes`.
fn drive_run(
    engine: &mut SyncEngine,
    run: &mut SyncRun,
    effects: &mut Effects,
    outcomes: &[MockTool],
) {
    let mut tool_calls = 0;
    loop {
        match run.next_action() {
            SyncAction::ObscureSecret { secret } => {
                assert_eq!(secret, "secret-token");
                let ev = SyncEvent::Obscured {
                    launched: true,
                    exit_ok: true,
                    stdout: "obscured-xyz\n".to_string(),
                };
                engine.sync_step(run, ev);
            }
            SyncAction::PrepareTarget { local_path, marker_path } => {
                effects.created_dirs.push(local_path);
                let present = effects.markers.contains(&marker_path);
                let ev = SyncEvent::Prepared {
                    dir_ok: true,
                    dir_err: String::new(),
                    marker_present: present,
                };
                engine.sync_step(run, ev);
            }
            SyncAction::RunTool { remote_url, local_path, username, obscured, args } => {
                assert_eq!(username, "user@example.com");
                assert_eq!(obscured, "obscured-xyz");
                effects.tool_invocations.push((remote_url, local_path, args));
                let outcome = outcomes[tool_calls].clone();
                tool_calls += 1;
                let ev = SyncEvent::ToolFinished {
                    launched: true,
                    launch_err: String::new(),
                    exit_ok: outcome.exit_ok,
                    exit_code: outcome.exit_code,
                    stderr: outcome.stderr,
                };
                engine.sync_step(run, ev);
            }
            SyncAction::WriteInitMarker { marker_path } => {
                effects.markers.push(marker_path);
                engine.sync_step(run, SyncEvent::MarkerWritten { ok: true });
            }
            SyncAction::Done => break,
        }
    }
}

#[test]
fn first_run_success_scenario() {
    let mut engine = SyncEngine::new();
    let config = test_config();
    let mut run = engine.sync_begin(&config, "secret-token").expect("begin should succeed");
    let mut effects = Effects::default();
    drive_run(&mut engine, &mut run, &mut effects, &[tool_ok(), tool_ok()]);

    assert!(run.result().is_ok());
    assert_eq!(engine.get_status(), SyncStatus::Idle);

    // Both directories were ensured, personal first.
    assert_eq!(effects.created_dirs, vec!["/tmp/p".to_string(), "/tmp/s".to_string()]);
    // Both init markers were written (first run for both).
    assert_eq!(
        effects.markers,
        vec!["/tmp/p/.sync-init".to_string(), "/tmp/s/.sync-init".to_string()]
    );
    // Both tool invocations ran in first-run mode against the right remotes.
    assert_eq!(effects.tool_invocations.len(), 2);
    assert_eq!(effects.tool_invocations[0].0, "https://docs.example.com/dav/personal");
    assert_eq!(effects.tool_invocations[1].0, "https://docs.example.com/dav/shared");
    for (_, _, args) in &effects.tool_invocations {
        assert_eq!(args[0], "bisync");
        assert_eq!(args[1], ":webdav:");
        assert!(args.contains(&"--resync".to_string()));
        assert!(!args.contains(&"--recover".to_string()));
    }

    // Exactly two entries, personal success then shared success.
    let entries = engine.get_activity(50);
    assert_eq!(entries.len(), 2);
    assert_eq!(entries[0].action, "sync_personal");
    assert_eq!(entries[0].status, "success");
    assert_eq!(entries[0].details, None);
    assert_eq!(entries[1].action, "sync_shared");
    assert_eq!(entries[1].status, "success");
    assert_eq!(entries[1].details, None);
}

#[test]
fn second_run_is_incremental() {
    let mut engine = SyncEngine::new();
    let config = test_config();
    let mut effects = Effects::default();

    let mut run = engine.sync_begin(&config, "secret-token").expect("begin");
    drive_run(&mut engine, &mut run, &mut effects, &[tool_ok(), tool_ok()]);
    assert_eq!(effects.markers.len(), 2);

    let mut run2 = engine.sync_begin(&config, "secret-token").expect("guard released");
    drive_run(&mut engine, &mut run2, &mut effects, &[tool_ok(), tool_ok()]);

    // No further markers were written and the later invocations recover.
    assert_eq!(effects.markers.len(), 2);
    assert_eq!(effects.tool_invocations.len(), 4);
    for (_, _, args) in &effects.tool_invocations[2..] {
        assert!(args.contains(&"--recover".to_string()));
        assert!(!args.contains(&"--resync".to_string()));
    }
    assert_eq!(engine.get_status(), SyncStatus::Idle);
}

#[test]
fn failed_first_run_leaves_marker_unwritten() {
    let mut engine = SyncEngine::new();
    let config = test_config();
    let mut effects = Effects::default();

    let mut run = engine.sync_begin(&config, "secret-token").expect("begin");
    drive_run(&mut engine, &mut run, &mut effects, &[tool_fail("boom"), tool_ok()]);

    // The personal marker was not written; only the shared one.
    assert_eq!(effects.markers, vec!["/tmp/s/.sync-init".to_string()]);

    // The next run treats the personal target as a first run again.
    let mut run2 = engine.sync_begin(&config, "secret-token").expect("begin");
    drive_run(&mut engine, &mut run2, &mut effects, &[tool_ok(), tool_ok()]);
    let (_, _, args_personal) = &effects.tool_invocations[2];
    let (_, _, args_shared) = &effects.tool_invocations[3];
    assert!(args_personal.contains(&"--resync".to_string()));
    assert!(args_shared.contains(&"--recover".to_string()));
    assert_eq!(
        effects.markers,
        vec!["/tmp/s/.sync-init".to_string(), "/tmp/p/.sync-init".to_string()]
    );
}

#[test]
fn personal_failure_gives_error_status_with_its_message() {
    let mut engine = SyncEngine::new();
    let config = test_config();
    let mut effects = Effects::default();

    let mut run = engine.sync_begin(&config, "secret-token").expect("begin");
    drive_run(
        &mut engine,
        &mut run,
        &mut effects,
        &[tool_fail("remote unreachable"), tool_ok()],
    );

    assert!(run.result().is_ok());
    assert_eq!(engine.get_status(), SyncStatus::Error("remote unreachable".to_string()));

    let entries = engine.get_activity(50);
    assert_eq!(entries.len(), 2);
    assert_eq!(entries[0].action, "sync_personal");
    assert_eq!(entries[0].status, "error");
    assert_eq!(entries[0].details, Some("remote unreachable".to_string()));
    assert_eq!(entries[1].action, "sync_shared");
    assert_eq!(entries[1].status, "success");
}

#[test]
fn both_fail_personal_message_governs() {
    let mut engine = SyncEngine::new();
    let config = test_config();
    let mut effects = Effects::default();

    let mut run = engine.sync_begin(&config, "secret-token").expect("begin");
    drive_run(
        &mut engine,
        &mut run,
        &mut effects,
        &[tool_fail("personal broke"), tool_fail("shared broke")],
    );

    assert_eq!(engine.get_status(), SyncStatus::Error("personal broke".to_string()));
    let entries = engine.get_activity(50);
    assert_eq!(entries.len(), 2);
    assert_eq!(entries[0].status, "error");
    assert_eq!(entries[1].status, "error");
}

#[test]
fn conflict_text_gives_conflict_status() {
    let mut engine = SyncEngine::new();
    let config = test_config();
    let mut effects = Effects::default();

    let mut run = engine.sync_begin(&config, "secret-token").expect("begin");
    drive_run(
        &mut engine,
        &mut run,
        &mut effects,
        &[tool_ok(), tool_fail("ERROR: detected CONFLICT in tree")],
    );

    assert_eq!(engine.get_status(), SyncStatus::Conflict);
    let entries = engine.get_activity(50);
    assert_eq!(entries[1].status, "error");
    assert_eq!(
        entries[1].details,
        Some("ERROR: detected CONFLICT in tree".to_string())
    );
}

#[test]
fn lower_case_conflict_on_personal_target_also_classifies() {
    let mut engine = SyncEngine::new();
    let config = test_config();
    let mut effects = Effects::default();

    let mut run = engine.sync_begin(&config, "secret-token").expect("begin");
    drive_run(
        &mut engine,
        &mut run,
        &mut effects,
        &[tool_fail("a conflict was found"), tool_ok()],
    );

    assert_eq!(engine.get_status(), SyncStatus::Conflict);
}

#[test]
fn failure_without_diagnostics_synthesizes_exit_code_message() {
    let mut engine = SyncEngine::new();
    let config = test_config();
    let mut effects = Effects::default();

    let mut run = engine.sync_begin(&config, "secret-token").expect("begin");
    drive_run(
        &mut engine,
        &mut run,
        &mut effects,
        &[
            MockTool { exit_ok: false, exit_code: Some(7), stderr: String::new() },
            tool_ok(),
        ],
    );

    assert_eq!(
        engine.get_status(),
        SyncStatus::Error("rclone exited with code 7".to_string())
    );
    let entries = engine.get_activity(50);
    assert_eq!(entries[0].details, Some("rclone exited with code 7".to_string()));
}

#[test]
fn launch_failure_is_the_targets_error() {
    let mut engine = SyncEngine::new();
    let config = test_config();
    let mut run = engine.sync_begin(&config, "secret-token").expect("begin");

    // Obscure succeeds, personal dir is fine, but the tool cannot be spawned.
    engine.sync_step(
        &mut run,
        SyncEvent::Obscured { launched: true, exit_ok: true, stdout: "ob\n".to_string() },
    );
    engine.sync_step(
        &mut run,
        SyncEvent::Prepared { dir_ok: true, dir_err: String::new(), marker_present: true },
    );
    engine.sync_step(
        &mut run,
        SyncEvent::ToolFinished {
            launched: false,
            launch_err: "spawn failed".to_string(),
            exit_ok: false,
            exit_code: None,
            stderr: String::new(),
        },
    );
    // Shared target still runs and succeeds.
    engine.sync_step(
        &mut run,
        SyncEvent::Prepared { dir_ok: true, dir_err: String::new(), marker_present: true },
    );
    engine.sync_step(
        &mut run,
        SyncEvent::ToolFinished {
            launched: true,
            launch_err: String::new(),
            exit_ok: true,
            exit_code: Some(0),
            stderr: String::new(),
        },
    );

    assert!(run.finished());
    assert_eq!(
        engine.get_status(),
        SyncStatus::Error("Failed to run rclone: spawn failed".to_string())
    );
}

#[test]
fn directory_failure_is_fatal_for_that_target_only() {
    let mut engine = SyncEngine::new();
    let config = test_config();
    let mut run = engine.sync_begin(&config, "secret-token").expect("begin");

    engine.sync_step(
        &mut run,
        SyncEvent::Obscured { launched: true, exit_ok: true, stdout: "ob\n".to_string() },
    );
    // Personal directory cannot be created.
    engine.sync_step(
        &mut run,
        SyncEvent::Prepared {
            dir_ok: false,
            dir_err: "permission denied".to_string(),
            marker_present: false,
        },
    );
    // The shared target is still attempted and succeeds.
    match run.next_action() {
        SyncAction::PrepareTarget { local_path, .. } => assert_eq!(local_path, "/tmp/s"),
        other => panic!("expected shared prepare, got {:?}", action_kind(&other)),
    }
    engine.sync_step(
        &mut run,
        SyncEvent::Prepared { dir_ok: true, dir_err: String::new(), marker_present: true },
    );
    engine.sync_step(
        &mut run,
        SyncEvent::ToolFinished {
            launched: true,
            launch_err: String::new(),
            exit_ok: true,
            exit_code: Some(0),
            stderr: String::new(),
        },
    );

    assert!(run.finished());
    assert_eq!(
        engine.get_status(),
        SyncStatus::Error("Cannot create personal dir: permission denied".to_string())
    );
    let entries = engine.get_activity(50);
    assert_eq!(entries.len(), 2);
    assert_eq!(entries[0].status, "error");
    assert_eq!(entries[1].status, "success");
}

fn action_kind(a: &SyncAction) -> &'static str {
    match a {
        SyncAction::ObscureSecret { .. } => "obscure",
        SyncAction::PrepareTarget { .. } => "prepare",
        SyncAction::RunTool { .. } => "tool",
        SyncAction::WriteInitMarker { .. } => "marker",
        SyncAction::Done => "done",
    }
}

#[test]
fn obscure_failure_aborts_before_any_target() {
    let mut engine = SyncEngine::new();
    let config = test_config();
    let status_before = engine.get_status();

    let mut run = engine.sync_begin(&config, "secret-token").expect("begin");
    match run.next_action() {
        SyncAction::ObscureSecret { .. } => {}
        other => panic!("expected obscure first, got {:?}", action_kind(&other)),
    }
    engine.sync_step(
        &mut run,
        SyncEvent::Obscured { launched: true, exit_ok: false, stdout: String::new() },
    );

    assert!(run.finished());
    assert!(matches!(run.next_action(), SyncAction::Done));
    let res = run.result();
    assert_eq!(res, Err("Failed to obscure password".to_string()));

    // No entry was appended and the status never changed.
    assert_eq!(engine.get_activity(50).len(), 0);
    assert_eq!(engine.get_status(), status_before);

    // The guard is released: a new run can begin.
    assert!(engine.sync_begin(&config, "secret-token").is_ok());
}

#[test]
fn unconfigured_begin_is_rejected_without_state_change() {
    let mut engine = SyncEngine::new();
    let config = AppConfig {
        server_url: String::new(),
        user_email: String::new(),
        tenant_id: String::new(),
        personal_sync_path: "/tmp/p".to_string(),
        shared_sync_path: "/tmp/s".to_string(),
        sync_interval_secs: 300,
        watch_local_changes: true,
        sync_on_startup: true,
        max_file_size_bytes: 0,
    };
    let res = engine.sync_begin(&config, "secret-token");
    assert_eq!(res.err(), Some("Not configured".to_string()));
    assert_eq!(engine.get_status(), SyncStatus::NotConfigured);
    assert_eq!(engine.get_activity(50).len(), 0);
}

#[test]
fn concurrent_begin_is_rejected_while_a_run_is_live() {
    let mut engine = SyncEngine::new();
    let config = test_config();
    let _run = engine.sync_begin(&config, "secret-token").expect("begin");
    let second = engine.sync_begin(&config, "secret-token");
    assert_eq!(second.err(), Some("Sync already in progress".to_string()));
}

#[test]
fn status_is_syncing_between_obscure_and_completion() {
    let mut engine = SyncEngine::new();
    let config = test_config();
    let mut run = engine.sync_begin(&config, "secret-token").expect("begin");
    engine.sync_step(
        &mut run,
        SyncEvent::Obscured { launched: true, exit_ok: true, stdout: "ob".to_string() },
    );
    assert_eq!(engine.get_status(), SyncStatus::Syncing);
}

#[test]
fn conflict_status_is_visible_mid_run() {
    let mut engine = SyncEngine::new();
    let config = test_config();
    let mut run = engine.sync_begin(&config, "secret-token").expect("begin");
    engine.sync_step(
        &mut run,
        SyncEvent::Obscured { launched: true, exit_ok: true, stdout: "ob".to_string() },
    );
    engine.sync_step(
        &mut run,
        SyncEvent::Prepared { dir_ok: true, dir_err: String::new(), marker_present: true },
    );
    // The personal target fails with a conflict.
    engine.sync_step(
        &mut run,
        SyncEvent::ToolFinished {
            launched: true,
            launch_err: String::new(),
            exit_ok: false,
            exit_code: Some(1),
            stderr: "CONFLICT between versions".to_string(),
        },
    );
    // An observer polling while the shared target still runs sees it.
    assert!(!run.finished());
    assert_eq!(engine.get_status(), SyncStatus::Conflict);

    engine.sync_step(
        &mut run,
        SyncEvent::Prepared { dir_ok: true, dir_err: String::new(), marker_present: true },
    );
    engine.sync_step(
        &mut run,
        SyncEvent::ToolFinished {
            launched: true,
            launch_err: String::new(),
            exit_ok: true,
            exit_code: Some(0),
            stderr: String::new(),
        },
    );
    assert!(run.finished());
    assert_eq!(engine.get_status(), SyncStatus::Conflict);
}

#[test]
fn get_activity_honors_the_limit() {
    let mut engine = SyncEngine::new();
    let config = test_config();
    let mut effects = Effects::default();
    let mut run = engine.sync_begin(&config, "secret-token").expect("begin");
    drive_run(&mut engine, &mut run, &mut effects, &[tool_ok(), tool_ok()]);

    let tail = engine.get_activity(1);
    assert_eq!(tail.len(), 1);
    assert_eq!(tail[0].action, "sync_shared");
    assert_eq!(engine.get_activity(0).len(), 0);
}
