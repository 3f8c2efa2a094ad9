use suzent::errors::StartError;
use suzent::health::{HealthCheck, HealthVerdict, HEALTH_ATTEMPTS};
use suzent::portscan::PortScanner;
use suzent::provision::{ProvisionConfig, ProvisionOutcome};
use suzent::supervisor::{
    backend_env, default_port, get_backend_port, BackendProcess, StartAction, StartEvent,
    Supervisor, DEV_FALLBACK_PORT, PORT_WAIT_SECS,
};

fn config() -> ProvisionConfig {
    ProvisionConfig {
        resource_dir: "/res".to_string(),
        app_data_dir: "/data".to_string(),
        current_version: "2.0.0".to_string(),
        windows: false,
    }
}

fn drive(s: &mut Supervisor, events: Vec<StartEvent>) -> Vec<StartAction> {
    let mut actions = vec![s.initial_action()];
    for e in events {
        assert!(s.event_fits(&e), "event does not fit the supervisor's state");
        actions.push(s.step(e));
    }
    actions
}

#[test]
fn stop_is_idempotent_and_kills_once() {
    let mut b = BackendProcess::new();
    assert!(!b.stop(), "stop on a never-started supervisor asks for no kill");
    b.attach();
    b.publish_port(4242);
    assert!(b.stop(), "the first stop of a running child asks for the kill");
    assert!(!b.stop(), "the second stop is a no-op");
    assert_eq!(b.port, 4242);
}

#[test]
fn port_read_requires_a_handle() {
    assert_eq!(get_backend_port(&None), Err("Backend not ready yet".to_string()));
    let mut b = BackendProcess::new();
    b.publish_port(54321);
    assert_eq!(get_backend_port(&Some(b)), Ok(54321));
}

#[test]
fn development_port_fallback() {
    assert_eq!(default_port(None), DEV_FALLBACK_PORT);
    assert_eq!(default_port(Some("8080")), 8080);
    assert_eq!(default_port(Some("not-a-port")), DEV_FALLBACK_PORT);
    assert_eq!(default_port(Some("70000")), DEV_FALLBACK_PORT);
}

#[test]
fn environment_contract_is_exact() {
    let env = backend_env(&config());
    assert_eq!(
        env,
        vec![
            ("VIRTUAL_ENV".to_string(), "/data/backend-venv".to_string()),
            ("SUZENT_PORT".to_string(), "0".to_string()),
            ("SUZENT_HOST".to_string(), "127.0.0.1".to_string()),
            ("SUZENT_APP_DATA".to_string(), "/data".to_string()),
            ("CHATS_DB_PATH".to_string(), "/data/chats.db".to_string()),
            ("LANCEDB_URI".to_string(), "/data/memory".to_string()),
            ("SANDBOX_DATA_PATH".to_string(), "/data/sandbox-data".to_string()),
            ("SKILLS_DIR".to_string(), "/data/skills".to_string()),
        ]
    );
}

#[test]
fn startup_happy_path_reports_the_negotiated_port() {
    let mut s = Supervisor::new(config());
    let actions = drive(
        &mut s,
        vec![
            StartEvent::OpResult(true),
            StartEvent::ProvisionDone(Ok(ProvisionOutcome::UpToDate)),
            StartEvent::OpResult(true),
            StartEvent::PathExists(true),
            StartEvent::OpResult(true),
            StartEvent::SpawnResult(true),
            StartEvent::PortResult(Some(54321)),
            StartEvent::HealthResponse(Some(404)),
        ],
    );
    assert_eq!(actions[0], StartAction::MakeDataDir("/data".to_string()));
    assert_eq!(actions[1], StartAction::RunProvision);
    assert_eq!(actions[2], StartAction::RunSync);
    assert_eq!(
        actions[3],
        StartAction::StatPath("/data/backend-venv/bin/python".to_string())
    );
    assert_eq!(
        actions[4],
        StartAction::WriteShim {
            path: "/data/bin/suzent".to_string(),
            content: "#!/bin/sh\nexec \"/data/backend-venv/bin/python\" -m suzent.cli \"$@\""
                .to_string(),
            executable: true,
        }
    );
    match &actions[5] {
        StartAction::Spawn { python, module, env } => {
            assert_eq!(python, "/data/backend-venv/bin/python");
            assert_eq!(module, "suzent.server");
            assert_eq!(env.len(), 8);
        }
        other => panic!("expected a spawn, got {:?}", other),
    }
    assert_eq!(actions[6], StartAction::AwaitPort { timeout_secs: PORT_WAIT_SECS });
    // the supervisor adopts exactly the delivered port
    assert_eq!(actions[7], StartAction::PollHealth { port: 54321 });
    // a not-found response still counts as alive: ready on the first attempt
    assert_eq!(actions[8], StartAction::Conclude(Ok(54321)));
}

#[test]
fn port_timeout_stops_the_child_first() {
    let mut s = Supervisor::new(config());
    let actions = drive(
        &mut s,
        vec![
            StartEvent::OpResult(true),
            StartEvent::ProvisionDone(Ok(ProvisionOutcome::UpToDate)),
            StartEvent::OpResult(true),
            StartEvent::PathExists(true),
            StartEvent::OpResult(true),
            StartEvent::SpawnResult(true),
            StartEvent::PortResult(None),
            StartEvent::Stopped,
        ],
    );
    assert_eq!(actions[actions.len() - 2], StartAction::StopProcess);
    assert_eq!(
        actions.last(),
        Some(&StartAction::Conclude(Err(StartError::PortTimeout)))
    );
}

#[test]
fn health_timeout_exhausts_budget_then_stops() {
    let mut s = Supervisor::new(config());
    let mut events = vec![
        StartEvent::OpResult(true),
        StartEvent::ProvisionDone(Ok(ProvisionOutcome::UpToDate)),
        StartEvent::OpResult(true),
        StartEvent::PathExists(true),
        StartEvent::OpResult(true),
        StartEvent::SpawnResult(true),
        StartEvent::PortResult(Some(9000)),
    ];
    // a 500 on every poll is never "alive": every attempt is consumed
    for _ in 0..HEALTH_ATTEMPTS {
        events.push(StartEvent::HealthResponse(Some(500)));
    }
    events.push(StartEvent::Stopped);
    let actions = drive(&mut s, events);
    let polls = actions
        .iter()
        .filter(|a| matches!(a, StartAction::PollHealth { .. }))
        .count();
    assert_eq!(polls as u32, HEALTH_ATTEMPTS);
    assert_eq!(actions[actions.len() - 2], StartAction::StopProcess);
    assert_eq!(
        actions.last(),
        Some(&StartAction::Conclude(Err(StartError::HealthTimeout)))
    );
}

#[test]
fn spawn_failure_aborts_without_stop() {
    let mut s = Supervisor::new(config());
    let actions = drive(
        &mut s,
        vec![
            StartEvent::OpResult(true),
            StartEvent::ProvisionDone(Ok(ProvisionOutcome::UpToDate)),
            StartEvent::OpResult(true),
            StartEvent::PathExists(true),
            StartEvent::OpResult(true),
            StartEvent::SpawnResult(false),
        ],
    );
    assert_eq!(
        actions.last(),
        Some(&StartAction::Conclude(Err(StartError::SpawnFailed)))
    );
    assert!(actions.iter().all(|a| !matches!(a, StartAction::StopProcess)));
}

#[test]
fn missing_interpreter_aborts() {
    let mut s = Supervisor::new(config());
    let actions = drive(
        &mut s,
        vec![
            StartEvent::OpResult(true),
            StartEvent::ProvisionDone(Ok(ProvisionOutcome::UpToDate)),
            StartEvent::OpResult(true),
            StartEvent::PathExists(false),
        ],
    );
    assert_eq!(
        actions.last(),
        Some(&StartAction::Conclude(Err(StartError::PythonMissing)))
    );
}

#[test]
fn health_classification() {
    let mut c = HealthCheck::new();
    assert_eq!(c.observe(Some(404)), HealthVerdict::Up);
    let mut c = HealthCheck::new();
    assert_eq!(c.observe(Some(200)), HealthVerdict::Up);
    let mut c = HealthCheck::new();
    assert_eq!(c.observe(Some(299)), HealthVerdict::Up);
    let mut c = HealthCheck::new();
    assert_eq!(c.observe(Some(300)), HealthVerdict::Poll);
    let mut c = HealthCheck::new();
    assert_eq!(c.observe(Some(500)), HealthVerdict::Poll);
    let mut c = HealthCheck::new();
    assert_eq!(c.observe(None), HealthVerdict::Poll);
}

#[test]
fn health_budget_is_thirty() {
    let mut c = HealthCheck::new();
    for i in 1..HEALTH_ATTEMPTS {
        assert_eq!(c.observe(Some(500)), HealthVerdict::Poll, "attempt {}", i);
    }
    assert_eq!(c.observe(Some(500)), HealthVerdict::TimedOut);
}

#[test]
fn health_recovers_after_connection_failures() {
    let mut c = HealthCheck::new();
    assert_eq!(c.observe(None), HealthVerdict::Poll);
    assert_eq!(c.observe(None), HealthVerdict::Poll);
    assert_eq!(c.observe(Some(204)), HealthVerdict::Up);
}

#[test]
fn scanner_delivers_first_port_only() {
    let mut sc = PortScanner::new();
    assert_eq!(sc.feed("starting up..."), None);
    assert_eq!(sc.feed("SERVER_PORT:54321"), Some(54321));
    assert_eq!(sc.feed("SERVER_PORT:9999"), None, "later markers are ignored");
    assert_eq!(sc.found, Some(54321));
}

#[test]
fn scanner_without_marker_never_delivers() {
    let mut sc = PortScanner::new();
    for line in ["booting", "listening soon", "no port here 8080"] {
        assert_eq!(sc.feed(line), None);
    }
    assert_eq!(sc.found, None);
}

#[test]
fn start_error_messages() {
    assert_eq!(
        StartError::PortTimeout.message(),
        "Timed out waiting for backend to report port"
    );
    assert_eq!(
        StartError::HealthTimeout.message(),
        "Backend failed to respond to health check within 15 seconds"
    );
    assert_eq!(StartError::SpawnFailed.message(), "Failed to start Python backend");
}
