use suzent::errors::EnvError;
use suzent::provision::{
    LockProbe, ProvisionAction, ProvisionConfig, ProvisionEvent, ProvisionOutcome, Provisioner,
};

fn config() -> ProvisionConfig {
    ProvisionConfig {
        resource_dir: "/res".to_string(),
        app_data_dir: "/data".to_string(),
        current_version: "2.0.0".to_string(),
        windows: false,
    }
}

fn is_mutating(a: &ProvisionAction) -> bool {
    matches!(
        a,
        ProvisionAction::RunCreateEnv { .. }
            | ProvisionAction::RunInstall { .. }
            | ProvisionAction::RunBrowserInstall { .. }
            | ProvisionAction::WriteMarker { .. }
    )
}

/// Feed the events in order and return every action the machine emitted,
/// the initial one included.
fn drive(p: &mut Provisioner, events: Vec<ProvisionEvent>) -> Vec<ProvisionAction> {
    let mut actions = vec![p.initial_action()];
    for e in events {
        assert!(p.event_fits(&e), "event does not fit the machine's state");
        actions.push(p.step(e));
    }
    actions
}

#[test]
fn fast_path_is_silent_and_mutates_nothing() {
    // marker present, version current, interpreter present, entry point imports
    let mut p = Provisioner::new(config());
    let actions = drive(
        &mut p,
        vec![
            ProvisionEvent::PathExists(true),
            ProvisionEvent::MarkerContent("2.0.0".to_string()),
            ProvisionEvent::PathExists(true),
            ProvisionEvent::CommandStatus(Some(true)),
        ],
    );
    assert_eq!(
        actions.last(),
        Some(&ProvisionAction::Report(Ok(ProvisionOutcome::UpToDate)))
    );
    assert!(actions.iter().all(|a| !is_mutating(a)));
}

#[test]
fn marker_content_is_trimmed() {
    let mut p = Provisioner::new(config());
    let actions = drive(
        &mut p,
        vec![
            ProvisionEvent::PathExists(true),
            ProvisionEvent::MarkerContent("2.0.0\n".to_string()),
        ],
    );
    // a trailing newline still matches: the next probe is the interpreter
    assert_eq!(
        actions.last(),
        Some(&ProvisionAction::StatPath("/data/backend-venv/bin/python".to_string()))
    );
}

#[test]
fn version_mismatch_runs_full_pass_and_writes_marker_last() {
    let mut p = Provisioner::new(config());
    let actions = drive(
        &mut p,
        vec![
            ProvisionEvent::PathExists(true),
            ProvisionEvent::MarkerContent("1.0.0".to_string()),
            // locate tool: direct candidate exists
            ProvisionEvent::ExistsList(vec![true, false]),
            // locate runtime: second candidate exists
            ProvisionEvent::ExistsList(vec![false, true, false, false]),
            // old interpreter absent: no lock probe needed
            ProvisionEvent::PathExists(false),
            // venv created
            ProvisionEvent::CommandStatus(Some(true)),
            // nested wheel dir missing, flat dir has the wheel
            ProvisionEvent::DirListing(None),
            ProvisionEvent::DirListing(Some(vec![
                "notes.txt".to_string(),
                "suzent-1.0.whl".to_string(),
            ])),
            // install succeeded; optional browser failed (non-fatal)
            ProvisionEvent::CommandStatus(Some(true)),
            ProvisionEvent::CommandStatus(Some(false)),
            // marker written
            ProvisionEvent::WriteResult(true),
        ],
    );
    assert_eq!(
        actions.last(),
        Some(&ProvisionAction::Report(Ok(ProvisionOutcome::Provisioned { browser_ok: false })))
    );
    // the machine asked for exactly these mutations, in this order
    let muts: Vec<&ProvisionAction> = actions.iter().filter(|a| is_mutating(a)).collect();
    assert_eq!(
        muts,
        vec![
            &ProvisionAction::RunCreateEnv {
                tool: "/res/uv".to_string(),
                env_dir: "/data/backend-venv".to_string(),
                runtime: "/res/python/bin/python3".to_string(),
            },
            &ProvisionAction::RunInstall {
                tool: "/res/uv".to_string(),
                artifact: "/res/wheel/suzent-1.0.whl".to_string(),
                python: "/data/backend-venv/bin/python".to_string(),
            },
            &ProvisionAction::RunBrowserInstall {
                python: "/data/backend-venv/bin/python".to_string(),
            },
            &ProvisionAction::WriteMarker {
                path: "/data/backend-venv/.suzent-version".to_string(),
                version: "2.0.0".to_string(),
            },
        ]
    );
    // the marker write is the last mutation
    assert!(matches!(actions[actions.len() - 2], ProvisionAction::WriteMarker { .. }));
}

#[test]
fn missing_marker_forces_setup() {
    let mut p = Provisioner::new(config());
    let actions = drive(&mut p, vec![ProvisionEvent::PathExists(false)]);
    assert_eq!(
        actions.last(),
        Some(&ProvisionAction::StatList(vec![
            "/res/uv".to_string(),
            "/res/resources/uv".to_string(),
        ]))
    );
}

#[test]
fn failed_integrity_check_forces_setup() {
    let mut p = Provisioner::new(config());
    let actions = drive(
        &mut p,
        vec![
            ProvisionEvent::PathExists(true),
            ProvisionEvent::MarkerContent("2.0.0".to_string()),
            ProvisionEvent::PathExists(true),
            ProvisionEvent::CommandStatus(Some(false)),
        ],
    );
    assert!(matches!(actions.last(), Some(ProvisionAction::StatList(_))));
}

#[test]
fn mandatory_failure_leaves_no_marker() {
    // simulate the artifact install failing: the machine must fail without
    // ever asking for a marker write
    let mut p = Provisioner::new(config());
    let actions = drive(
        &mut p,
        vec![
            ProvisionEvent::PathExists(false),
            ProvisionEvent::ExistsList(vec![true, false]),
            ProvisionEvent::ExistsList(vec![true, false, false, false]),
            ProvisionEvent::PathExists(false),
            ProvisionEvent::CommandStatus(Some(true)),
            ProvisionEvent::DirListing(Some(vec!["suzent-1.0.whl".to_string()])),
            ProvisionEvent::CommandStatus(Some(false)),
        ],
    );
    assert_eq!(
        actions.last(),
        Some(&ProvisionAction::Report(Err(EnvError::InstallFailed)))
    );
    assert!(actions.iter().all(|a| !matches!(a, ProvisionAction::WriteMarker { .. })));
}

fn events_to_create_env() -> Vec<ProvisionEvent> {
    vec![
        ProvisionEvent::PathExists(false),
        ProvisionEvent::ExistsList(vec![true, false]),
        ProvisionEvent::ExistsList(vec![true, false, false, false]),
        ProvisionEvent::PathExists(false),
    ]
}

#[test]
fn venv_failures_are_fatal() {
    let mut p = Provisioner::new(config());
    let mut ev = events_to_create_env();
    ev.push(ProvisionEvent::CommandStatus(None));
    let actions = drive(&mut p, ev);
    assert_eq!(
        actions.last(),
        Some(&ProvisionAction::Report(Err(EnvError::VenvSpawnFailed)))
    );

    let mut p = Provisioner::new(config());
    let mut ev = events_to_create_env();
    ev.push(ProvisionEvent::CommandStatus(Some(false)));
    let actions = drive(&mut p, ev);
    assert_eq!(
        actions.last(),
        Some(&ProvisionAction::Report(Err(EnvError::VenvCreateFailed)))
    );
}

#[test]
fn tool_and_runtime_not_found_are_fatal() {
    let mut p = Provisioner::new(config());
    let actions = drive(
        &mut p,
        vec![
            ProvisionEvent::PathExists(false),
            ProvisionEvent::ExistsList(vec![false, false]),
        ],
    );
    assert_eq!(
        actions.last(),
        Some(&ProvisionAction::Report(Err(EnvError::ToolNotFound)))
    );

    let mut p = Provisioner::new(config());
    let actions = drive(
        &mut p,
        vec![
            ProvisionEvent::PathExists(false),
            ProvisionEvent::ExistsList(vec![true, false]),
            ProvisionEvent::ExistsList(vec![false, false, false, false]),
        ],
    );
    assert_eq!(
        actions.last(),
        Some(&ProvisionAction::Report(Err(EnvError::RuntimeNotFound)))
    );
}

#[test]
fn no_wheel_anywhere_is_fatal() {
    let mut p = Provisioner::new(config());
    let actions = drive(
        &mut p,
        vec![
            ProvisionEvent::PathExists(false),
            ProvisionEvent::ExistsList(vec![true, false]),
            ProvisionEvent::ExistsList(vec![true, false, false, false]),
            ProvisionEvent::PathExists(false),
            ProvisionEvent::CommandStatus(Some(true)),
            ProvisionEvent::DirListing(None),
            ProvisionEvent::DirListing(Some(vec!["not-a-wheel.txt".to_string()])),
            ProvisionEvent::DirListing(Some(Vec::new())),
        ],
    );
    assert_eq!(
        actions.last(),
        Some(&ProvisionAction::Report(Err(EnvError::ArtifactNotFound)))
    );
}

#[test]
fn lock_probe_denied_skips_quietly() {
    let mut p = Provisioner::new(config());
    let actions = drive(
        &mut p,
        vec![
            ProvisionEvent::PathExists(true),
            ProvisionEvent::MarkerContent("1.0.0".to_string()),
            ProvisionEvent::ExistsList(vec![true, false]),
            ProvisionEvent::ExistsList(vec![true, false, false, false]),
            // the old interpreter exists: probe the lock; permission denied
            ProvisionEvent::PathExists(true),
            ProvisionEvent::Lock(LockProbe::Denied),
        ],
    );
    assert_eq!(
        actions.last(),
        Some(&ProvisionAction::Report(Ok(ProvisionOutcome::SkippedLocked)))
    );
    assert!(actions.iter().all(|a| !is_mutating(a)));
}

#[test]
fn lock_probe_other_outcomes_proceed() {
    let mut p = Provisioner::new(config());
    let actions = drive(
        &mut p,
        vec![
            ProvisionEvent::PathExists(true),
            ProvisionEvent::MarkerContent("1.0.0".to_string()),
            ProvisionEvent::ExistsList(vec![true, false]),
            ProvisionEvent::ExistsList(vec![true, false, false, false]),
            ProvisionEvent::PathExists(true),
            ProvisionEvent::Lock(LockProbe::Opened),
        ],
    );
    assert!(matches!(actions.last(), Some(ProvisionAction::RunCreateEnv { .. })));
}

#[test]
fn marker_write_failure_is_fatal() {
    let mut p = Provisioner::new(config());
    let actions = drive(
        &mut p,
        vec![
            ProvisionEvent::PathExists(false),
            ProvisionEvent::ExistsList(vec![true, false]),
            ProvisionEvent::ExistsList(vec![true, false, false, false]),
            ProvisionEvent::PathExists(false),
            ProvisionEvent::CommandStatus(Some(true)),
            ProvisionEvent::DirListing(Some(vec!["w.whl".to_string()])),
            ProvisionEvent::CommandStatus(Some(true)),
            ProvisionEvent::CommandStatus(Some(true)),
            ProvisionEvent::WriteResult(false),
        ],
    );
    assert_eq!(
        actions.last(),
        Some(&ProvisionAction::Report(Err(EnvError::MarkerWriteFailed)))
    );
}

#[test]
fn error_messages_are_descriptive() {
    assert_eq!(EnvError::ToolNotFound.message(), "uv binary not found in resources");
    assert_eq!(EnvError::VenvCreateFailed.message(), "uv venv creation failed");
    assert_eq!(EnvError::InstallFailed.message(), "uv pip install failed");
    assert_eq!(EnvError::MarkerWriteFailed.message(), "Failed to write version marker");
}
