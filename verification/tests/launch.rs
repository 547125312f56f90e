use sidecar_bootstrap::error::LaunchError;
use sidecar_bootstrap::launch::{Action, Event, Launch, PROBE_INTERVAL_SECS, SERVER_URL, SIDECAR};
use sidecar_bootstrap::notes::{navigation_script, MAX_ATTEMPTS};
use sidecar_bootstrap::probe::ProbeOutcome;
use sidecar_bootstrap::report::report;
use std::path::Path;

fn executable() -> String {
    Path::new("opt").join("shell").join("bin").join("shell").to_string_lossy().into_owned()
}

fn entry_point() -> String {
    Path::new("opt")
        .join("shell")
        .join("bin")
        .join("resources")
        .join("build")
        .join("index.js")
        .to_string_lossy()
        .into_owned()
}

fn quoted(path: &str) -> String {
    format!("{:?}", Path::new(path))
}

/// Brings a fresh launch to the point where the first probe is pending.
fn launch_until_probing() -> Launch {
    let exe = executable();
    let (launch, _) = Launch::begin(Some(exe.as_str()));
    let (launch, _) = launch.step(Event::EntryPointChecked { exists: true });
    let (launch, _) = launch.step(Event::Spawned);
    launch
}

fn probed(outcome: ProbeOutcome) -> Event {
    Event::Probed { outcome }
}

#[test]
fn begin_logs_the_path_and_asks_for_the_entry_point() {
    let exe = executable();
    let (launch, log) = Launch::begin(Some(exe.as_str()));
    assert_eq!(log, vec![format!("Starting server with path: {}", quoted(&entry_point()))]);
    assert!(!launch.is_finished());
    assert_eq!(launch.attempts(), 0);
    assert!(launch.outcome().is_none());
    match launch.action() {
        Action::CheckEntryPoint { path } => assert_eq!(path, entry_point()),
        other => panic!("unexpected action {:?}", other),
    }
}

#[test]
fn begin_without_executable_fails_with_path_resolution() {
    let (launch, log) = Launch::begin(None);
    assert!(log.is_empty());
    assert!(launch.is_finished());
    assert!(matches!(launch.action(), Action::Fail { error: LaunchError::PathResolution }));
    assert!(matches!(launch.outcome(), Some(Err(LaunchError::PathResolution))));
}

#[test]
fn begin_without_parent_directory_fails_with_path_resolution() {
    let (launch, log) = Launch::begin(Some(""));
    assert!(log.is_empty());
    assert!(matches!(launch.outcome(), Some(Err(LaunchError::PathResolution))));
}

#[test]
fn existing_entry_point_leads_to_spawn_with_production_environment() {
    let exe = executable();
    let (launch, _) = Launch::begin(Some(exe.as_str()));
    let (launch, log) = launch.step(Event::EntryPointChecked { exists: true });
    assert!(log.is_empty());
    match launch.action() {
        Action::Spawn { program, entry_point: path, env } => {
            assert_eq!(program, SIDECAR);
            assert_eq!(program, "node");
            assert_eq!(path, entry_point());
            assert_eq!(env.get("PORT"), Some("3000".to_string()));
            assert_eq!(env.get("NODE_ENV"), Some("production".to_string()));
        }
        other => panic!("unexpected action {:?}", other),
    }
}

#[test]
fn missing_entry_point_fails_without_spawning() {
    let exe = executable();
    let (launch, _) = Launch::begin(Some(exe.as_str()));
    assert!(!matches!(launch.action(), Action::Spawn { .. }));
    let (launch, log) = launch.step(Event::EntryPointChecked { exists: false });
    assert!(log.is_empty());
    assert!(launch.is_finished());
    assert!(!launch.responded());
    match launch.action() {
        Action::Fail { error: LaunchError::ServerNotFound { path } } => {
            assert_eq!(path, entry_point())
        }
        other => panic!("unexpected action {:?}", other),
    }
    // Nothing reported afterwards brings a spawn.
    let (launch, _) = launch.step(Event::Spawned);
    assert!(matches!(launch.action(), Action::Fail { .. }));
    let (launch, _) = launch.step(Event::EntryPointChecked { exists: true });
    assert!(matches!(launch.action(), Action::Fail { .. }));
    let (launch, _) = launch.step(probed(ProbeOutcome::Status(200)));
    assert!(matches!(launch.outcome(), Some(Err(LaunchError::ServerNotFound { .. }))));
    assert_eq!(launch.attempts(), 0);
}

#[test]
fn scenario_entry_point_absent_alerts_the_user_with_the_path() {
    let exe = executable();
    let (launch, _) = Launch::begin(Some(exe.as_str()));
    let (launch, _) = launch.step(Event::EntryPointChecked { exists: false });
    let outcome = launch.outcome().expect("the launch is over");
    let error = outcome.clone().expect_err("the launch failed");
    let message = error.message();
    assert_eq!(message, format!("Server file not found at: {}", quoted(&entry_point())));
    if std::path::MAIN_SEPARATOR == '/' {
        assert_eq!(message, "Server file not found at: \"opt/shell/bin/resources/build/index.js\"");
    }
    let told = report(&outcome);
    assert_eq!(told.log_line, format!("Failed to start server: {}", message));
    assert_eq!(told.alert, Some(format!("alert('Server startup failed: {}')", message)));
}

#[test]
fn spawn_success_is_logged_and_starts_probing() {
    let exe = executable();
    let (launch, _) = Launch::begin(Some(exe.as_str()));
    let (launch, _) = launch.step(Event::EntryPointChecked { exists: true });
    let (launch, log) = launch.step(Event::Spawned);
    assert_eq!(log, vec!["Node.js sidecar spawned successfully".to_string()]);
    assert_eq!(launch.attempts(), 0);
    match launch.action() {
        Action::Probe { wait_secs, url } => {
            assert_eq!(wait_secs, 1);
            assert_eq!(wait_secs, PROBE_INTERVAL_SECS);
            assert_eq!(url, "http://localhost:3000");
        }
        other => panic!("unexpected action {:?}", other),
    }
}

#[test]
fn spawn_failure_ends_the_launch() {
    let exe = executable();
    let (launch, _) = Launch::begin(Some(exe.as_str()));
    let (launch, _) = launch.step(Event::EntryPointChecked { exists: true });
    let (launch, log) = launch.step(Event::SpawnFailed { reason: "no such program".to_string() });
    assert!(log.is_empty());
    assert!(launch.is_finished());
    match launch.outcome() {
        Some(Err(LaunchError::Spawn { reason })) => assert_eq!(reason, "no such program"),
        other => panic!("unexpected outcome {:?}", other),
    }
    match launch.action() {
        Action::Fail { error } => {
            assert_eq!(error.message(), "Failed to spawn sidecar: no such program")
        }
        other => panic!("unexpected action {:?}", other),
    }
}

#[test]
fn scenario_server_responds_on_attempt_four() {
    let mut launch = launch_until_probing();
    let mut probes = 0;
    for _ in 0..3 {
        assert!(matches!(launch.action(), Action::Probe { wait_secs: 1, .. }));
        probes += 1;
        let (next, log) = launch.step(probed(ProbeOutcome::Unreachable));
        assert!(log.is_empty());
        assert!(!next.is_finished());
        launch = next;
    }
    assert!(matches!(launch.action(), Action::Probe { wait_secs: 1, .. }));
    probes += 1;
    let (launch, log) = launch.step(probed(ProbeOutcome::Status(200)));
    assert_eq!(log, vec!["Server is responding on port 3000".to_string()]);
    assert_eq!(probes, 4);
    assert_eq!(launch.attempts(), 4);
    assert!(launch.is_finished());
    assert!(launch.responded());
    assert!(matches!(launch.outcome(), Some(Ok(()))));
    match launch.action() {
        Action::Redirect { url } => {
            assert_eq!(url, SERVER_URL);
            assert_eq!(
                navigation_script(&url),
                "window.location.href = 'http://localhost:3000'"
            );
        }
        other => panic!("unexpected action {:?}", other),
    }
    let told = report(&launch.outcome().expect("the launch is over"));
    assert_eq!(told.log_line, "Server started successfully");
    assert_eq!(told.alert, None);
}

#[test]
fn scenario_server_never_responds() {
    let mut launch = launch_until_probing();
    let mut probes: u32 = 0;
    let mut logged: Vec<String> = Vec::new();
    loop {
        match launch.action() {
            Action::Probe { wait_secs, url } => {
                assert!(wait_secs >= 1);
                assert_eq!(url, "http://localhost:3000");
                probes += 1;
            }
            Action::Redirect { url } => {
                assert_eq!(url, "http://localhost:3000");
                break;
            }
            other => panic!("unexpected action {:?}", other),
        }
        let (next, log) = launch.step(probed(ProbeOutcome::Unreachable));
        logged.extend(log);
        launch = next;
    }
    assert_eq!(probes, 30);
    assert_eq!(launch.attempts(), MAX_ATTEMPTS);
    assert!(!launch.responded());
    assert!(matches!(launch.outcome(), Some(Ok(()))));
    let waiting = |n: u32| {
        format!("Server process running, waiting for HTTP response... (attempt {}/30)", n)
    };
    assert_eq!(
        logged,
        vec![
            waiting(5),
            waiting(10),
            waiting(15),
            waiting(20),
            waiting(25),
            waiting(30),
            "Timeout reached, but Node.js process is still running. Proceeding anyway..."
                .to_string(),
        ]
    );
    let told = report(&launch.outcome().expect("the launch is over"));
    assert_eq!(told.log_line, "Server started successfully");
    assert_eq!(told.alert, None);
}

#[test]
fn error_statuses_use_up_attempts_without_progress_lines() {
    let mut launch = launch_until_probing();
    let mut logged: Vec<String> = Vec::new();
    for code in [500u16, 404, 301, 503, 199, 300, 100, 999, 0, 65535] {
        let (next, log) = launch.step(probed(ProbeOutcome::Status(code)));
        logged.extend(log);
        launch = next;
    }
    assert!(logged.is_empty());
    assert_eq!(launch.attempts(), 10);
    assert!(!launch.is_finished());
    for _ in 10..30 {
        let (next, log) = launch.step(probed(ProbeOutcome::Status(500)));
        logged.extend(log);
        launch = next;
    }
    assert_eq!(
        logged,
        vec!["Timeout reached, but Node.js process is still running. Proceeding anyway..."
            .to_string()]
    );
    assert_eq!(launch.attempts(), 30);
    assert!(matches!(launch.action(), Action::Redirect { .. }));
}

#[test]
fn answer_on_the_last_attempt_is_a_response_not_a_timeout() {
    let mut launch = launch_until_probing();
    for _ in 0..29 {
        let (next, _) = launch.step(probed(ProbeOutcome::Status(502)));
        launch = next;
    }
    assert_eq!(launch.attempts(), 29);
    assert!(!launch.is_finished());
    let (launch, log) = launch.step(probed(ProbeOutcome::Status(204)));
    assert_eq!(log, vec!["Server is responding on port 3000".to_string()]);
    assert_eq!(launch.attempts(), 30);
    assert!(launch.responded());
    assert!(matches!(launch.action(), Action::Redirect { .. }));
}

#[test]
fn first_answer_ends_probing_whatever_comes_later() {
    let mut launch = launch_until_probing();
    let (next, _) = launch.step(probed(ProbeOutcome::Unreachable));
    launch = next;
    let (next, _) = launch.step(probed(ProbeOutcome::Status(299)));
    launch = next;
    assert_eq!(launch.attempts(), 2);
    for event in [
        probed(ProbeOutcome::Unreachable),
        probed(ProbeOutcome::Status(200)),
        Event::Spawned,
        Event::SpawnFailed { reason: "late".to_string() },
        Event::EntryPointChecked { exists: false },
    ] {
        let (next, log) = launch.step(event);
        assert!(log.is_empty());
        assert_eq!(next.attempts(), 2);
        assert!(next.responded());
        assert!(matches!(next.action(), Action::Redirect { .. }));
        launch = next;
    }
}

#[test]
fn events_that_answer_nothing_change_nothing() {
    let exe = executable();
    let (launch, _) = Launch::begin(Some(exe.as_str()));
    let (launch, log) = launch.step(Event::Spawned);
    assert!(log.is_empty());
    assert!(matches!(launch.action(), Action::CheckEntryPoint { .. }));
    let (launch, log) = launch.step(probed(ProbeOutcome::Status(200)));
    assert!(log.is_empty());
    assert!(matches!(launch.action(), Action::CheckEntryPoint { .. }));
    let (launch, _) = launch.step(Event::EntryPointChecked { exists: true });
    let (launch, log) = launch.step(Event::EntryPointChecked { exists: false });
    assert!(log.is_empty());
    assert!(matches!(launch.action(), Action::Spawn { .. }));
    let (launch, log) = launch.step(probed(ProbeOutcome::Unreachable));
    assert!(log.is_empty());
    assert_eq!(launch.attempts(), 0);
    assert!(matches!(launch.action(), Action::Spawn { .. }));
    let (launch, _) = launch.step(Event::Spawned);
    let (launch, log) = launch.step(Event::Spawned);
    assert!(log.is_empty());
    let (launch, log) = launch.step(Event::EntryPointChecked { exists: false });
    assert!(log.is_empty());
    assert_eq!(launch.attempts(), 0);
    assert!(matches!(launch.action(), Action::Probe { .. }));
}

#[test]
fn spawn_environment_is_the_same_for_every_launch() {
    let bindings = |launch: &Launch| match launch.action() {
        Action::Spawn { env, .. } => env
            .vars()
            .iter()
            .map(|var| (var.name.clone(), var.value.clone()))
            .collect::<Vec<(String, String)>>(),
        other => panic!("unexpected action {:?}", other),
    };
    let exe = executable();
    // A launch that fails, then one that gets as far as spawning, twice.
    let (failed, _) = Launch::begin(Some(exe.as_str()));
    let (failed, _) = failed.step(Event::EntryPointChecked { exists: false });
    assert!(failed.is_finished());
    let (first, _) = Launch::begin(Some(exe.as_str()));
    let (first, _) = first.step(Event::EntryPointChecked { exists: true });
    let (second, _) = Launch::begin(Some(exe.as_str()));
    let (second, _) = second.step(Event::EntryPointChecked { exists: true });
    assert_eq!(bindings(&first), bindings(&second));
    assert!(bindings(&first).contains(&("PORT".to_string(), "3000".to_string())));
    assert!(bindings(&first).contains(&("NODE_ENV".to_string(), "production".to_string())));
}
