//! The backend process supervisor: the startup sequence as a state machine
//! (provision, synchronize, write the shim, spawn, await the port, poll
//! health), the process-environment contract handed to the spawned backend,
//! and the supervised handle with idempotent stop.

use vstd::pervasive::unreached;
use vstd::prelude::*;

use crate::errors::{EnvError, StartError};
use crate::health::{health_step, HealthCheck, HealthVerdict, HEALTH_ATTEMPTS};
use crate::paths::{join_path, join_seq};
use crate::provision::{python_v, venv_v, ConfigV, ProvisionConfig, ProvisionOutcome};
use crate::shim::{shim_rel_path, shim_rel_path_seq, shim_script, shim_script_seq};
use crate::text::parse_u16_seq;
use crate::text::parse_u16;

verus! {

/// Seconds the coordinator waits for the backend to report its port; sized
/// generously because a first run may provision first.
pub const PORT_WAIT_SECS: u32 = 60;

/// The port used in development mode when none is configured.
pub const DEV_FALLBACK_PORT: u16 = 25314;

/// The supervised process handle as the rest of the application sees it:
/// whether a child is attached, and the negotiated port (0 until known).
#[derive(Debug, Clone, PartialEq, Eq)]
pub struct BackendProcess {
    pub running: bool,
    pub port: u16,
}

/// What stopping does: the child is detached and must be killed exactly when
/// one was attached; the published port is kept.
pub open spec fn stop_spec(b: BackendProcess) -> (BackendProcess, bool) {
    (BackendProcess { running: false, port: b.port }, b.running)
}

impl BackendProcess {
    /// An empty handle: no process, port 0.
    pub fn new() -> (r: Self)
        ensures
            !r.running,
            r.port == 0,
    {
        BackendProcess { running: false, port: 0 }
    }

    /// Record that a child was spawned.
    pub fn attach(&mut self)
        ensures
            final(self).running,
            final(self).port == old(self).port,
    {
        self.running = true;
    }

    /// Publish the negotiated port.
    pub fn publish_port(&mut self, port: u16)
        ensures
            final(self).port == port,
            final(self).running == old(self).running,
    {
        self.port = port;
    }

    /// Detach the handle. The result says whether the driver must kill and
    /// reap a child: exactly when one was attached, so termination happens
    /// at most once however often stop is called.
    pub fn stop(&mut self) -> (kill: bool)
        ensures
            *final(self) == stop_spec(*old(self)).0,
            kill == stop_spec(*old(self)).1,
    {
        let was = self.running;
        self.running = false;
        was
    }
}

/// Law (stop idempotence): a second stop finds nothing attached and asks for
/// no kill; stop on a handle that never attached asks for none either.
pub proof fn lemma_stop_idempotent(b: BackendProcess)
    ensures
        stop_spec(stop_spec(b).0).0 == stop_spec(b).0,
        stop_spec(stop_spec(b).0).1 == false,
        !b.running ==> stop_spec(b).1 == false,
{
}

/// Read the published port, or say that the backend is not ready yet.
pub fn get_backend_port(backend: &Option<BackendProcess>) -> (r: Result<u16, String>)
    ensures
        match backend {
            Some(b) => r == Ok::<u16, String>(b.port),
            None => r is Err && r->Err_0@ == "Backend not ready yet"@,
        },
{
    match backend {
        Some(b) => Ok(b.port),
        None => Err("Backend not ready yet".to_owned()),
    }
}

/// The development-mode port: the configured value when it parses as a
/// 16-bit port, otherwise the fixed fallback.
pub fn default_port(env_value: Option<&str>) -> (r: u16)
    ensures
        r == (match env_value {
            Some(s) => match parse_u16_seq(s@) {
                Some(p) => p,
                None => DEV_FALLBACK_PORT,
            },
            None => DEV_FALLBACK_PORT,
        }),
{
    match env_value {
        Some(s) => match parse_u16(s) {
            Some(p) => p,
            None => DEV_FALLBACK_PORT,
        },
        None => DEV_FALLBACK_PORT,
    }
}

/// The fixed environment contract handed to the spawned backend: a port
/// request of `0` (bind any free port), the loopback host, the data root and
/// the derived storage paths.
pub open spec fn env_contract_v(c: ConfigV) -> Seq<(Seq<char>, Seq<char>)> {
    seq![
        ("VIRTUAL_ENV"@, venv_v(c)),
        ("SUZENT_PORT"@, "0"@),
        ("SUZENT_HOST"@, "127.0.0.1"@),
        ("SUZENT_APP_DATA"@, c.app_data_dir),
        ("CHATS_DB_PATH"@, join_seq(c.app_data_dir, "chats.db"@)),
        ("LANCEDB_URI"@, join_seq(c.app_data_dir, "memory"@)),
        ("SANDBOX_DATA_PATH"@, join_seq(c.app_data_dir, "sandbox-data"@)),
        ("SKILLS_DIR"@, join_seq(c.app_data_dir, "skills"@)),
    ]
}

/// View of an environment list as pairs of character sequences.
pub open spec fn env_view(v: Vec<(String, String)>) -> Seq<(Seq<char>, Seq<char>)> {
    Seq::new(v@.len(), |i: int| (v@[i].0@, v@[i].1@))
}

/// Build the environment the backend is spawned with.
pub fn backend_env(config: &ProvisionConfig) -> (r: Vec<(String, String)>)
    ensures
        env_view(r) == env_contract_v(config@),
{
    let app = config.app_data_dir.as_str();
    let venv = crate::paths::venv_dir_path(app);
    let mut out: Vec<(String, String)> = Vec::new();
    out.push(("VIRTUAL_ENV".to_owned(), venv));
    out.push(("SUZENT_PORT".to_owned(), "0".to_owned()));
    out.push(("SUZENT_HOST".to_owned(), "127.0.0.1".to_owned()));
    out.push(("SUZENT_APP_DATA".to_owned(), app.to_owned()));
    out.push(("CHATS_DB_PATH".to_owned(), join_path(app, "chats.db")));
    out.push(("LANCEDB_URI".to_owned(), join_path(app, "memory")));
    out.push(("SANDBOX_DATA_PATH".to_owned(), join_path(app, "sandbox-data")));
    out.push(("SKILLS_DIR".to_owned(), join_path(app, "skills")));
    proof {
        assert(env_view(out) =~= env_contract_v(config@));
    }
    out
}

/// The module whose entry point the backend is started through.
pub fn backend_module() -> (r: String)
    ensures
        r@ == "suzent.server"@,
{
    "suzent.server".to_owned()
}

/// What the startup driver is asked to do next.
#[derive(Debug, PartialEq, Eq)]
pub enum StartAction {
    /// Create the application data directory.
    MakeDataDir(String),
    /// Run a whole provisioning pass (drive the provisioner machine).
    RunProvision,
    /// Run asset synchronization into the data directory.
    RunSync,
    /// Report whether this path exists.
    StatPath(String),
    /// Write the launcher shim with this content; mark it executable where
    /// asked.
    WriteShim { path: String, content: String, executable: bool },
    /// Spawn the backend: the interpreter, its entry module, and the exact
    /// environment contract. Standard output and error are to be piped and
    /// consumed line by line.
    Spawn { python: String, module: String, env: Vec<(String, String)> },
    /// Block on the port channel with the bounded timeout.
    AwaitPort { timeout_secs: u32 },
    /// Sleep the poll interval, then `GET /config` on the loopback host at
    /// this port; report the status, or nothing on a connection failure.
    PollHealth { port: u16 },
    /// Force-terminate the child and wait for it to exit.
    StopProcess,
    /// Startup is over: the negotiated port, or the error to surface.
    Conclude(Result<u16, StartError>),
}

/// Ghost mirror of [`StartAction`]; `Hold` is what a protocol-mismatched
/// event maps to in the total ghost model, and no executable step produces
/// it.
pub enum SActionV {
    MakeDataDir(Seq<char>),
    RunProvision,
    RunSync,
    StatPath(Seq<char>),
    WriteShim { path: Seq<char>, content: Seq<char>, executable: bool },
    Spawn { python: Seq<char>, module: Seq<char>, env: Seq<(Seq<char>, Seq<char>)> },
    AwaitPort { timeout_secs: u32 },
    PollHealth { port: u16 },
    StopProcess,
    Conclude(Result<u16, StartError>),
    Hold,
}

impl View for StartAction {
    type V = SActionV;

    open spec fn view(&self) -> SActionV {
        match self {
            StartAction::MakeDataDir(p) => SActionV::MakeDataDir(p@),
            StartAction::RunProvision => SActionV::RunProvision,
            StartAction::RunSync => SActionV::RunSync,
            StartAction::StatPath(p) => SActionV::StatPath(p@),
            StartAction::WriteShim { path, content, executable } => SActionV::WriteShim {
                path: path@,
                content: content@,
                executable: *executable,
            },
            StartAction::Spawn { python, module, env } => SActionV::Spawn {
                python: python@,
                module: module@,
                env: env_view(*env),
            },
            StartAction::AwaitPort { timeout_secs } => SActionV::AwaitPort {
                timeout_secs: *timeout_secs,
            },
            StartAction::PollHealth { port } => SActionV::PollHealth { port: *port },
            StartAction::StopProcess => SActionV::StopProcess,
            StartAction::Conclude(r) => SActionV::Conclude(*r),
        }
    }
}

/// What the startup driver reports back.
#[derive(Debug, PartialEq, Eq)]
pub enum StartEvent {
    /// Answer to `MakeDataDir`, `RunSync` and `WriteShim`: did it succeed?
    OpResult(bool),
    /// Answer to `RunProvision`.
    ProvisionDone(Result<ProvisionOutcome, EnvError>),
    /// Answer to `StatPath`.
    PathExists(bool),
    /// Answer to `Spawn`: was the process created with both streams piped?
    SpawnResult(bool),
    /// Answer to `AwaitPort`: the delivered port, or nothing on timeout.
    PortResult(Option<u16>),
    /// Answer to `PollHealth`: the status, or nothing on connection failure.
    HealthResponse(Option<u16>),
    /// Answer to `StopProcess`.
    Stopped,
}

/// Ghost mirror of [`StartEvent`].
pub enum SEventV {
    OpResult(bool),
    ProvisionDone(Result<ProvisionOutcome, EnvError>),
    PathExists(bool),
    SpawnResult(bool),
    PortResult(Option<u16>),
    HealthResponse(Option<u16>),
    Stopped,
}

impl View for StartEvent {
    type V = SEventV;

    open spec fn view(&self) -> SEventV {
        match self {
            StartEvent::OpResult(b) => SEventV::OpResult(*b),
            StartEvent::ProvisionDone(r) => SEventV::ProvisionDone(*r),
            StartEvent::PathExists(b) => SEventV::PathExists(*b),
            StartEvent::SpawnResult(b) => SEventV::SpawnResult(*b),
            StartEvent::PortResult(p) => SEventV::PortResult(*p),
            StartEvent::HealthResponse(r) => SEventV::HealthResponse(*r),
            StartEvent::Stopped => SEventV::Stopped,
        }
    }
}

/// Where the startup sequence stands.
#[derive(Debug, PartialEq, Eq)]
pub enum SupervisorState {
    /// Waiting: was the data directory created?
    EnsuringDataDir,
    /// Waiting: the provisioning pass's result.
    Provisioning,
    /// Waiting: did synchronization succeed?
    Syncing,
    /// Waiting: does the environment's interpreter exist?
    CheckingPython,
    /// Waiting: was the shim written?
    WritingShim,
    /// Waiting: did the spawn succeed?
    Spawning,
    /// Waiting: the port channel's outcome.
    AwaitingPort,
    /// Waiting: the next health poll's outcome.
    CheckingHealth { port: u16, check: HealthCheck },
    /// Waiting: the child was told to stop; confirm it exited.
    Stopping { error: StartError },
    /// Terminal: the backend is usable at this port.
    Ready { port: u16 },
    /// Terminal: startup failed and no process survives.
    Aborted { error: StartError },
}

/// Ghost mirror of [`SupervisorState`].
pub enum SStateV {
    EnsuringDataDir,
    Provisioning,
    Syncing,
    CheckingPython,
    WritingShim,
    Spawning,
    AwaitingPort,
    CheckingHealth { port: u16, check: HealthCheck },
    Stopping { error: StartError },
    Ready { port: u16 },
    Aborted { error: StartError },
}

impl View for SupervisorState {
    type V = SStateV;

    open spec fn view(&self) -> SStateV {
        match self {
            SupervisorState::EnsuringDataDir => SStateV::EnsuringDataDir,
            SupervisorState::Provisioning => SStateV::Provisioning,
            SupervisorState::Syncing => SStateV::Syncing,
            SupervisorState::CheckingPython => SStateV::CheckingPython,
            SupervisorState::WritingShim => SStateV::WritingShim,
            SupervisorState::Spawning => SStateV::Spawning,
            SupervisorState::CheckingHealth { port, check } => SStateV::CheckingHealth {
                port: *port,
                check: *check,
            },
            SupervisorState::AwaitingPort => SStateV::AwaitingPort,
            SupervisorState::Stopping { error } => SStateV::Stopping { error: *error },
            SupervisorState::Ready { port } => SStateV::Ready { port: *port },
            SupervisorState::Aborted { error } => SStateV::Aborted { error: *error },
        }
    }
}

/// The health state never exhausts its budget while still polling.
pub open spec fn sstate_wf(s: SStateV) -> bool {
    match s {
        SStateV::CheckingHealth { check, .. } => check.attempts < HEALTH_ATTEMPTS,
        _ => true,
    }
}

/// Which event each state accepts.
pub open spec fn sevent_wf(s: SStateV, e: SEventV) -> bool {
    match s {
        SStateV::EnsuringDataDir => e is OpResult,
        SStateV::Provisioning => e is ProvisionDone,
        SStateV::Syncing => e is OpResult,
        SStateV::CheckingPython => e is PathExists,
        SStateV::WritingShim => e is OpResult,
        SStateV::Spawning => e is SpawnResult,
        SStateV::AwaitingPort => e is PortResult,
        SStateV::CheckingHealth { .. } => e is HealthResponse,
        SStateV::Stopping { .. } => e is Stopped,
        SStateV::Ready { .. } => false,
        SStateV::Aborted { .. } => false,
    }
}

/// Shorthand for aborting without a process to stop.
pub open spec fn abort_v(e: StartError) -> (SStateV, SActionV) {
    (SStateV::Aborted { error: e }, SActionV::Conclude(Err(e)))
}

/// The startup decision logic, one transition per accepted event. Failures
/// after a successful spawn go through `Stopping`, so no process survives an
/// error.
pub open spec fn spec_start_step(c: ConfigV, s: SStateV, e: SEventV) -> (SStateV, SActionV) {
    match s {
        SStateV::EnsuringDataDir => match e {
            SEventV::OpResult(b) => if b {
                (SStateV::Provisioning, SActionV::RunProvision)
            } else {
                abort_v(StartError::DataDirFailed)
            },
            _ => (s, SActionV::Hold),
        },
        SStateV::Provisioning => match e {
            SEventV::ProvisionDone(r) => match r {
                Result::Ok(_) => (SStateV::Syncing, SActionV::RunSync),
                Result::Err(err) => abort_v(StartError::Provision(err)),
            },
            _ => (s, SActionV::Hold),
        },
        SStateV::Syncing => match e {
            SEventV::OpResult(b) => if b {
                (SStateV::CheckingPython, SActionV::StatPath(python_v(c)))
            } else {
                abort_v(StartError::SyncFailed)
            },
            _ => (s, SActionV::Hold),
        },
        SStateV::CheckingPython => match e {
            SEventV::PathExists(b) => if b {
                (
                    SStateV::WritingShim,
                    SActionV::WriteShim {
                        path: join_seq(c.app_data_dir, shim_rel_path_seq(c.windows)),
                        content: shim_script_seq(python_v(c), c.windows),
                        executable: !c.windows,
                    },
                )
            } else {
                abort_v(StartError::PythonMissing)
            },
            _ => (s, SActionV::Hold),
        },
        SStateV::WritingShim => match e {
            SEventV::OpResult(b) => if b {
                (
                    SStateV::Spawning,
                    SActionV::Spawn {
                        python: python_v(c),
                        module: "suzent.server"@,
                        env: env_contract_v(c),
                    },
                )
            } else {
                abort_v(StartError::ShimWriteFailed)
            },
            _ => (s, SActionV::Hold),
        },
        SStateV::Spawning => match e {
            SEventV::SpawnResult(b) => if b {
                (SStateV::AwaitingPort, SActionV::AwaitPort { timeout_secs: PORT_WAIT_SECS })
            } else {
                abort_v(StartError::SpawnFailed)
            },
            _ => (s, SActionV::Hold),
        },
        SStateV::AwaitingPort => match e {
            SEventV::PortResult(r) => match r {
                Option::Some(p) => (
                    SStateV::CheckingHealth { port: p, check: HealthCheck { attempts: 0 } },
                    SActionV::PollHealth { port: p },
                ),
                Option::None => (
                    SStateV::Stopping { error: StartError::PortTimeout },
                    SActionV::StopProcess,
                ),
            },
            _ => (s, SActionV::Hold),
        },
        SStateV::CheckingHealth { port, check } => match e {
            SEventV::HealthResponse(r) => {
                let stepped = health_step(check, r);
                match stepped.1 {
                    HealthVerdict::Up => (
                        SStateV::Ready { port },
                        SActionV::Conclude(Ok(port)),
                    ),
                    HealthVerdict::Poll => (
                        SStateV::CheckingHealth { port, check: stepped.0 },
                        SActionV::PollHealth { port },
                    ),
                    HealthVerdict::TimedOut => (
                        SStateV::Stopping { error: StartError::HealthTimeout },
                        SActionV::StopProcess,
                    ),
                }
            },
            _ => (s, SActionV::Hold),
        },
        SStateV::Stopping { error } => match e {
            SEventV::Stopped => (SStateV::Aborted { error }, SActionV::Conclude(Err(error))),
            _ => (s, SActionV::Hold),
        },
        SStateV::Ready { port } => (s, SActionV::Conclude(Ok(port))),
        SStateV::Aborted { error } => (s, SActionV::Conclude(Err(error))),
    }
}

/// The startup coordinator: fixed configuration plus the machine's state.
pub struct Supervisor {
    pub config: ProvisionConfig,
    pub state: SupervisorState,
}

impl Supervisor {
    /// A fresh startup attempt for this configuration.
    pub fn new(config: ProvisionConfig) -> (r: Self)
        ensures
            r.config == config,
            r.state@ == SStateV::EnsuringDataDir,
    {
        Supervisor { config, state: SupervisorState::EnsuringDataDir }
    }

    /// The first action: create the data directory.
    pub fn initial_action(&self) -> (a: StartAction)
        ensures
            a@ == SActionV::MakeDataDir(self.config@.app_data_dir),
    {
        StartAction::MakeDataDir(self.config.app_data_dir.clone())
    }

    fn python_path(&self) -> (r: String)
        ensures
            r@ == python_v(self.config@),
    {
        let venv = crate::paths::venv_dir_path(self.config.app_data_dir.as_str());
        crate::paths::get_venv_python(venv.as_str(), self.config.windows)
    }

    /// Does this event fit what the current state waits for?
    pub fn event_fits(&self, event: &StartEvent) -> (r: bool)
        ensures
            r == sevent_wf(self.state@, event@),
    {
        match (&self.state, event) {
            (SupervisorState::EnsuringDataDir, StartEvent::OpResult(_)) => true,
            (SupervisorState::Provisioning, StartEvent::ProvisionDone(_)) => true,
            (SupervisorState::Syncing, StartEvent::OpResult(_)) => true,
            (SupervisorState::CheckingPython, StartEvent::PathExists(_)) => true,
            (SupervisorState::WritingShim, StartEvent::OpResult(_)) => true,
            (SupervisorState::Spawning, StartEvent::SpawnResult(_)) => true,
            (SupervisorState::AwaitingPort, StartEvent::PortResult(_)) => true,
            (SupervisorState::CheckingHealth { .. }, StartEvent::HealthResponse(_)) => true,
            (SupervisorState::Stopping { .. }, StartEvent::Stopped) => true,
            _ => false,
        }
    }

    /// Consume one event and decide the next action.
    pub fn step(&mut self, event: StartEvent) -> (action: StartAction)
        requires
            sstate_wf(old(self).state@),
            sevent_wf(old(self).state@, event@),
        ensures
            sstate_wf(final(self).state@),
            final(self).config == old(self).config,
            final(self).state@ == spec_start_step(old(self).config@, old(self).state@, event@).0,
            action@ == spec_start_step(old(self).config@, old(self).state@, event@).1,
    {
        let (next, action): (SupervisorState, StartAction) = match (&self.state, event) {
            (SupervisorState::EnsuringDataDir, StartEvent::OpResult(b)) => {
                if b {
                    (SupervisorState::Provisioning, StartAction::RunProvision)
                } else {
                    (
                        SupervisorState::Aborted { error: StartError::DataDirFailed },
                        StartAction::Conclude(Err(StartError::DataDirFailed)),
                    )
                }
            },
            (SupervisorState::Provisioning, StartEvent::ProvisionDone(r)) => {
                match r {
                    Ok(_) => (SupervisorState::Syncing, StartAction::RunSync),
                    Err(err) => (
                        SupervisorState::Aborted { error: StartError::Provision(err) },
                        StartAction::Conclude(Err(StartError::Provision(err))),
                    ),
                }
            },
            (SupervisorState::Syncing, StartEvent::OpResult(b)) => {
                if b {
                    (
                        SupervisorState::CheckingPython,
                        StartAction::StatPath(self.python_path()),
                    )
                } else {
                    (
                        SupervisorState::Aborted { error: StartError::SyncFailed },
                        StartAction::Conclude(Err(StartError::SyncFailed)),
                    )
                }
            },
            (SupervisorState::CheckingPython, StartEvent::PathExists(b)) => {
                if b {
                    let python = self.python_path();
                    let rel = shim_rel_path(self.config.windows);
                    (
                        SupervisorState::WritingShim,
                        StartAction::WriteShim {
                            path: join_path(self.config.app_data_dir.as_str(), rel.as_str()),
                            content: shim_script(python.as_str(), self.config.windows),
                            executable: !self.config.windows,
                        },
                    )
                } else {
                    (
                        SupervisorState::Aborted { error: StartError::PythonMissing },
                        StartAction::Conclude(Err(StartError::PythonMissing)),
                    )
                }
            },
            (SupervisorState::WritingShim, StartEvent::OpResult(b)) => {
                if b {
                    (
                        SupervisorState::Spawning,
                        StartAction::Spawn {
                            python: self.python_path(),
                            module: backend_module(),
                            env: backend_env(&self.config),
                        },
                    )
                } else {
                    (
                        SupervisorState::Aborted { error: StartError::ShimWriteFailed },
                        StartAction::Conclude(Err(StartError::ShimWriteFailed)),
                    )
                }
            },
            (SupervisorState::Spawning, StartEvent::SpawnResult(b)) => {
                if b {
                    (
                        SupervisorState::AwaitingPort,
                        StartAction::AwaitPort { timeout_secs: PORT_WAIT_SECS },
                    )
                } else {
                    (
                        SupervisorState::Aborted { error: StartError::SpawnFailed },
                        StartAction::Conclude(Err(StartError::SpawnFailed)),
                    )
                }
            },
            (SupervisorState::AwaitingPort, StartEvent::PortResult(r)) => {
                match r {
                    Some(p) => (
                        SupervisorState::CheckingHealth {
                            port: p,
                            check: HealthCheck::new(),
                        },
                        StartAction::PollHealth { port: p },
                    ),
                    None => (
                        SupervisorState::Stopping { error: StartError::PortTimeout },
                        StartAction::StopProcess,
                    ),
                }
            },
            (SupervisorState::CheckingHealth { port, check }, StartEvent::HealthResponse(r)) => {
                let port = *port;
                let mut chk = *check;
                match chk.observe(r) {
                    HealthVerdict::Up => (
                        SupervisorState::Ready { port },
                        StartAction::Conclude(Ok(port)),
                    ),
                    HealthVerdict::Poll => (
                        SupervisorState::CheckingHealth { port, check: chk },
                        StartAction::PollHealth { port },
                    ),
                    HealthVerdict::TimedOut => (
                        SupervisorState::Stopping { error: StartError::HealthTimeout },
                        StartAction::StopProcess,
                    ),
                }
            },
            (SupervisorState::Stopping { error }, StartEvent::Stopped) => {
                let error = *error;
                (
                    SupervisorState::Aborted { error },
                    StartAction::Conclude(Err(error)),
                )
            },
            _ => unreached(),
        };
        self.state = next;
        action
    }
}

/// The supervisor's state after the first `t` events were consumed.
pub open spec fn sstate_at(c: ConfigV, events: Seq<SEventV>, t: int) -> SStateV
    decreases t
        when t >= 0
{
    if t <= 0 {
        SStateV::EnsuringDataDir
    } else {
        spec_start_step(c, sstate_at(c, events, t - 1), events[t - 1]).0
    }
}

/// The action emitted by the step that consumed `events[t]`.
pub open spec fn saction_at(c: ConfigV, events: Seq<SEventV>, t: int) -> SActionV {
    spec_start_step(c, sstate_at(c, events, t), events[t]).1
}

/// Law (port handoff determinism): the supervisor adopts exactly the port
/// the channel delivered and proceeds to health checking; an empty channel
/// outcome stops the process and surfaces the negotiation timeout.
pub proof fn lemma_port_handoff(c: ConfigV, r: Option<u16>)
    ensures
        (match r {
            Some(p) => spec_start_step(c, SStateV::AwaitingPort, SEventV::PortResult(r)) == (
                (SStateV::CheckingHealth { port: p, check: HealthCheck { attempts: 0 } }),
                (SActionV::PollHealth { port: p }),
            ),
            None => spec_start_step(c, SStateV::AwaitingPort, SEventV::PortResult(r)) == (
                (SStateV::Stopping { error: StartError::PortTimeout }),
                SActionV::StopProcess,
            ),
        }),
{
}

/// States on the teardown path of a timeout: the child has been (or is
/// being) stopped because negotiation or the health check timed out.
pub open spec fn timeout_teardown(s: SStateV) -> bool {
    match s {
        SStateV::Stopping { error } => error == StartError::PortTimeout || error
            == StartError::HealthTimeout,
        SStateV::Aborted { error } => error == StartError::PortTimeout || error
            == StartError::HealthTimeout,
        _ => false,
    }
}

/// Law (no dangling process): whenever startup stands aborted by a
/// negotiation or health-check timeout, an earlier step told the driver to
/// force-stop the child.
pub proof fn lemma_timeout_stops_process(c: ConfigV, events: Seq<SEventV>, t: int)
    requires
        0 <= t <= events.len(),
        timeout_teardown(sstate_at(c, events, t)),
    ensures
        exists|j: int| 0 <= j < t && saction_at(c, events, j) == SActionV::StopProcess,
    decreases t,
{
    let s = sstate_at(c, events, t);
    if t > 0 {
        let sp = sstate_at(c, events, t - 1);
        let e = events[t - 1];
        if timeout_teardown(sp) {
            lemma_timeout_stops_process(c, events, t - 1);
            let j = choose|j: int|
                0 <= j < t - 1 && saction_at(c, events, j) == SActionV::StopProcess;
            assert(0 <= j < t && saction_at(c, events, j) == SActionV::StopProcess);
        } else {
            // the only entries into the teardown path emit the stop order
            assert(saction_at(c, events, t - 1) == SActionV::StopProcess);
        }
    } else {
        assert(false);
    }
}

} // verus!
