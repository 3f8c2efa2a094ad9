//! The environment provisioner as an explicit state machine.
//!
//! The machine decides; a driver performs the filesystem and process work.
//! Each call of [`Provisioner::step`] consumes the outcome of the previous
//! action (an [`ProvisionEvent`]) and returns the next [`ProvisionAction`].
//! The decision logic — when the environment is stale, where the tool,
//! runtime and installable artifact are looked for, which failures are fatal,
//! and that the version marker is written only after every mandatory step
//! succeeded — is all here and verified against the ghost model
//! [`spec_step`].

use vstd::pervasive::unreached;
use vstd::prelude::*;

use crate::errors::EnvError;
use crate::paths::{
    find_bundled_python, find_uv, find_wheel, first_true_at, first_wheel_at, join_path, join_seq,
    marker_path, marker_path_seq, python_candidate_count, python_candidate_seq, python_candidates,
    python_candidates_v, uv_candidate_seq, uv_candidates, uv_candidates_v, venv_dir_path,
    venv_dir_seq, venv_python_seq, get_venv_python,
};
use crate::text::{str_eq, trim_seq, trimmed};

verus! {

/// What a provisioning pass ended with.
#[derive(Clone, Copy, Debug, PartialEq, Eq)]
pub enum ProvisionOutcome {
    /// Marker current and environment intact: nothing was touched.
    UpToDate,
    /// Another instance appears to hold the environment open; re-provisioning
    /// was skipped rather than risk corrupting a running environment.
    SkippedLocked,
    /// A full pass ran; `browser_ok` records whether the optional headless
    /// browser component installed (its failure is never fatal).
    Provisioned { browser_ok: bool },
}

/// What the advisory lock probe (opening the interpreter for append) found.
#[derive(Clone, Copy, Debug, PartialEq, Eq)]
pub enum LockProbe {
    /// The open succeeded: no other instance holds the file.
    Opened,
    /// Permission was denied: another instance is assumed to be running.
    Denied,
    /// The open failed some other way; provisioning proceeds.
    OtherError,
}

/// The provisioner's fixed inputs.
#[derive(Debug, Clone)]
pub struct ProvisionConfig {
    /// Root of the bundled read-only resources.
    pub resource_dir: String,
    /// Persistent application data directory.
    pub app_data_dir: String,
    /// The application version being provisioned for.
    pub current_version: String,
    /// Whether platform-specific names follow the Windows convention.
    pub windows: bool,
}

/// Ghost mirror of [`ProvisionConfig`].
pub struct ConfigV {
    pub resource_dir: Seq<char>,
    pub app_data_dir: Seq<char>,
    pub version: Seq<char>,
    pub windows: bool,
}

impl View for ProvisionConfig {
    type V = ConfigV;

    open spec fn view(&self) -> ConfigV {
        ConfigV {
            resource_dir: self.resource_dir@,
            app_data_dir: self.app_data_dir@,
            version: self.current_version@,
            windows: self.windows,
        }
    }
}

/// The environment root this configuration provisions.
pub open spec fn venv_v(c: ConfigV) -> Seq<char> {
    venv_dir_seq(c.app_data_dir)
}

/// The version marker file.
pub open spec fn marker_v(c: ConfigV) -> Seq<char> {
    marker_path_seq(venv_v(c))
}

/// The environment's interpreter.
pub open spec fn python_v(c: ConfigV) -> Seq<char> {
    venv_python_seq(venv_v(c), c.windows)
}

/// The candidate directories searched for the installable artifact, in
/// order: nested resource layout, flat layout, the resource root itself.
pub open spec fn wheel_dir_v(c: ConfigV, which: int) -> Seq<char> {
    if which == 0 {
        join_seq(join_seq(c.resource_dir, "resources"@), "wheel"@)
    } else if which == 1 {
        join_seq(c.resource_dir, "wheel"@)
    } else {
        c.resource_dir
    }
}

/// What the driver is asked to do next.
#[derive(Debug, PartialEq, Eq)]
pub enum ProvisionAction {
    /// Report whether this path exists.
    StatPath(String),
    /// Report, for each path, whether it exists.
    StatList(Vec<String>),
    /// Read this file's content (empty string when unreadable).
    ReadMarker(String),
    /// Run the interpreter's entry-point import smoke test.
    RunImportCheck { python: String },
    /// Try to open the interpreter for append, as an advisory lock probe.
    ProbeLock { python: String },
    /// Create a fresh isolated environment with the provisioning tool.
    RunCreateEnv { tool: String, env_dir: String, runtime: String },
    /// List this directory's entry names.
    ListDir(String),
    /// Install the artifact into the environment with forced reinstall.
    RunInstall { tool: String, artifact: String, python: String },
    /// Install the optional headless browser component.
    RunBrowserInstall { python: String },
    /// Write the version marker; the final mandatory step.
    WriteMarker { path: String, version: String },
    /// Provisioning is over; nothing more to perform.
    Report(Result<ProvisionOutcome, EnvError>),
}

/// Ghost mirror of [`ProvisionAction`]. `Hold` exists only to make the ghost
/// transition total: it is what a protocol-mismatched event maps to, and no
/// executable step produces it.
pub enum ActionV {
    StatPath(Seq<char>),
    StatList(Seq<Seq<char>>),
    ReadMarker(Seq<char>),
    RunImportCheck { python: Seq<char> },
    ProbeLock { python: Seq<char> },
    RunCreateEnv { tool: Seq<char>, env_dir: Seq<char>, runtime: Seq<char> },
    ListDir(Seq<char>),
    RunInstall { tool: Seq<char>, artifact: Seq<char>, python: Seq<char> },
    RunBrowserInstall { python: Seq<char> },
    WriteMarker { path: Seq<char>, version: Seq<char> },
    Report(Result<ProvisionOutcome, EnvError>),
    Hold,
}

impl View for ProvisionAction {
    type V = ActionV;

    open spec fn view(&self) -> ActionV {
        match self {
            ProvisionAction::StatPath(p) => ActionV::StatPath(p@),
            ProvisionAction::StatList(v) => ActionV::StatList(v.deep_view()),
            ProvisionAction::ReadMarker(p) => ActionV::ReadMarker(p@),
            ProvisionAction::RunImportCheck { python } => ActionV::RunImportCheck {
                python: python@,
            },
            ProvisionAction::ProbeLock { python } => ActionV::ProbeLock { python: python@ },
            ProvisionAction::RunCreateEnv { tool, env_dir, runtime } => ActionV::RunCreateEnv {
                tool: tool@,
                env_dir: env_dir@,
                runtime: runtime@,
            },
            ProvisionAction::ListDir(p) => ActionV::ListDir(p@),
            ProvisionAction::RunInstall { tool, artifact, python } => ActionV::RunInstall {
                tool: tool@,
                artifact: artifact@,
                python: python@,
            },
            ProvisionAction::RunBrowserInstall { python } => ActionV::RunBrowserInstall {
                python: python@,
            },
            ProvisionAction::WriteMarker { path, version } => ActionV::WriteMarker {
                path: path@,
                version: version@,
            },
            ProvisionAction::Report(r) => ActionV::Report(*r),
        }
    }
}

/// Actions that mutate the filesystem or the environment. Everything else
/// only observes.
pub open spec fn is_mutating(a: ActionV) -> bool {
    match a {
        ActionV::RunCreateEnv { .. } => true,
        ActionV::RunInstall { .. } => true,
        ActionV::RunBrowserInstall { .. } => true,
        ActionV::WriteMarker { .. } => true,
        _ => false,
    }
}

/// What the driver reports back after performing an action.
#[derive(Debug, PartialEq, Eq)]
pub enum ProvisionEvent {
    /// Answer to `StatPath`.
    PathExists(bool),
    /// Answer to `ReadMarker`.
    MarkerContent(String),
    /// Answer to `StatList`, in the same order.
    ExistsList(Vec<bool>),
    /// Answer to a command action: `None` when the command could not be
    /// launched, otherwise whether it exited successfully.
    CommandStatus(Option<bool>),
    /// Answer to `ProbeLock`.
    Lock(LockProbe),
    /// Answer to `ListDir`: `None` when the directory is absent or
    /// unreadable.
    DirListing(Option<Vec<String>>),
    /// Answer to `WriteMarker`.
    WriteResult(bool),
}

/// Ghost mirror of [`ProvisionEvent`].
pub enum EventV {
    PathExists(bool),
    MarkerContent(Seq<char>),
    ExistsList(Seq<bool>),
    CommandStatus(Option<bool>),
    Lock(LockProbe),
    DirListing(Option<Seq<Seq<char>>>),
    WriteResult(bool),
}

impl View for ProvisionEvent {
    type V = EventV;

    open spec fn view(&self) -> EventV {
        match self {
            ProvisionEvent::PathExists(b) => EventV::PathExists(*b),
            ProvisionEvent::MarkerContent(s) => EventV::MarkerContent(s@),
            ProvisionEvent::ExistsList(v) => EventV::ExistsList(v@),
            ProvisionEvent::CommandStatus(s) => EventV::CommandStatus(*s),
            ProvisionEvent::Lock(p) => EventV::Lock(*p),
            ProvisionEvent::DirListing(l) => EventV::DirListing(
                match l {
                    Some(v) => Some(v.deep_view()),
                    None => None,
                },
            ),
            ProvisionEvent::WriteResult(b) => EventV::WriteResult(*b),
        }
    }
}

/// Where the machine stands: each non-terminal state names the event it
/// waits for.
#[derive(Debug, PartialEq, Eq)]
pub enum ProvisionState {
    /// Waiting: does the version marker exist?
    CheckMarkerExists,
    /// Waiting: the marker's content.
    CheckMarkerContent,
    /// Waiting: does the environment's interpreter exist?
    CheckInterpreterExists,
    /// Waiting: did the entry-point import smoke test succeed?
    CheckEntryPoint,
    /// Waiting: which provisioning-tool candidates exist?
    LocateTool,
    /// Waiting: which bundled-runtime candidates exist?
    LocateRuntime { tool: String },
    /// Waiting: does the old interpreter exist (lock probe target)?
    CheckLockTarget { tool: String, runtime: String },
    /// Waiting: the advisory lock probe's outcome.
    ProbingLock { tool: String, runtime: String },
    /// Waiting: did environment creation succeed?
    CreatingEnv { tool: String },
    /// Waiting: the listing of artifact candidate directory `which` (0..=2).
    ListingWheels { tool: String, which: u8 },
    /// Waiting: did the artifact install succeed?
    Installing,
    /// Waiting: did the optional browser install succeed?
    InstallingBrowser,
    /// Waiting: was the marker written?
    WritingMarker { browser_ok: bool },
    /// Terminal: provisioning finished.
    Complete { outcome: ProvisionOutcome },
    /// Terminal: a mandatory step failed.
    Failed { error: EnvError },
}

/// Ghost mirror of [`ProvisionState`].
pub enum StateV {
    CheckMarkerExists,
    CheckMarkerContent,
    CheckInterpreterExists,
    CheckEntryPoint,
    LocateTool,
    LocateRuntime { tool: Seq<char> },
    CheckLockTarget { tool: Seq<char>, runtime: Seq<char> },
    ProbingLock { tool: Seq<char>, runtime: Seq<char> },
    CreatingEnv { tool: Seq<char> },
    ListingWheels { tool: Seq<char>, which: int },
    Installing,
    InstallingBrowser,
    WritingMarker { browser_ok: bool },
    Complete { outcome: ProvisionOutcome },
    Failed { error: EnvError },
}

impl View for ProvisionState {
    type V = StateV;

    open spec fn view(&self) -> StateV {
        match self {
            ProvisionState::CheckMarkerExists => StateV::CheckMarkerExists,
            ProvisionState::CheckMarkerContent => StateV::CheckMarkerContent,
            ProvisionState::CheckInterpreterExists => StateV::CheckInterpreterExists,
            ProvisionState::CheckEntryPoint => StateV::CheckEntryPoint,
            ProvisionState::LocateTool => StateV::LocateTool,
            ProvisionState::LocateRuntime { tool } => StateV::LocateRuntime { tool: tool@ },
            ProvisionState::CheckLockTarget { tool, runtime } => StateV::CheckLockTarget {
                tool: tool@,
                runtime: runtime@,
            },
            ProvisionState::ProbingLock { tool, runtime } => StateV::ProbingLock {
                tool: tool@,
                runtime: runtime@,
            },
            ProvisionState::CreatingEnv { tool } => StateV::CreatingEnv { tool: tool@ },
            ProvisionState::ListingWheels { tool, which } => StateV::ListingWheels {
                tool: tool@,
                which: *which as int,
            },
            ProvisionState::Installing => StateV::Installing,
            ProvisionState::InstallingBrowser => StateV::InstallingBrowser,
            ProvisionState::WritingMarker { browser_ok } => StateV::WritingMarker {
                browser_ok: *browser_ok,
            },
            ProvisionState::Complete { outcome } => StateV::Complete { outcome: *outcome },
            ProvisionState::Failed { error } => StateV::Failed { error: *error },
        }
    }
}

/// Which event each state accepts (and with which shape).
pub open spec fn event_wf(c: ConfigV, s: StateV, e: EventV) -> bool {
    match s {
        StateV::CheckMarkerExists => e is PathExists,
        StateV::CheckMarkerContent => e is MarkerContent,
        StateV::CheckInterpreterExists => e is PathExists,
        StateV::CheckEntryPoint => e is CommandStatus,
        StateV::LocateTool => e is ExistsList && e->ExistsList_0.len() == 2,
        StateV::LocateRuntime { .. } => e is ExistsList && e->ExistsList_0.len()
            == python_candidate_count(c.windows),
        StateV::CheckLockTarget { .. } => e is PathExists,
        StateV::ProbingLock { .. } => e is Lock,
        StateV::CreatingEnv { .. } => e is CommandStatus,
        StateV::ListingWheels { .. } => e is DirListing,
        StateV::Installing => e is CommandStatus,
        StateV::InstallingBrowser => e is CommandStatus,
        StateV::WritingMarker { .. } => e is WriteResult,
        StateV::Complete { .. } => false,
        StateV::Failed { .. } => false,
    }
}

/// The machine never probes past the last artifact candidate directory.
pub open spec fn state_wf(s: StateV) -> bool {
    match s {
        StateV::ListingWheels { which, .. } => 0 <= which <= 2,
        _ => true,
    }
}

/// Shorthand for entering the failed state.
pub open spec fn fail_v(e: EnvError) -> (StateV, ActionV) {
    (StateV::Failed { error: e }, ActionV::Report(Err(e)))
}

/// The whole decision logic, one transition per accepted event. A
/// protocol-mismatched event holds the state (see [`ActionV::Hold`]).
pub open spec fn spec_step(c: ConfigV, s: StateV, e: EventV) -> (StateV, ActionV) {
    let locate = (StateV::LocateTool, ActionV::StatList(uv_candidates_v(c.resource_dir, c.windows)));
    match s {
        StateV::CheckMarkerExists => match e {
            EventV::PathExists(b) => if b {
                (StateV::CheckMarkerContent, ActionV::ReadMarker(marker_v(c)))
            } else {
                locate
            },
            _ => (s, ActionV::Hold),
        },
        StateV::CheckMarkerContent => match e {
            EventV::MarkerContent(content) => if trim_seq(content) == c.version {
                (StateV::CheckInterpreterExists, ActionV::StatPath(python_v(c)))
            } else {
                locate
            },
            _ => (s, ActionV::Hold),
        },
        StateV::CheckInterpreterExists => match e {
            EventV::PathExists(b) => if b {
                (StateV::CheckEntryPoint, ActionV::RunImportCheck { python: python_v(c) })
            } else {
                locate
            },
            _ => (s, ActionV::Hold),
        },
        StateV::CheckEntryPoint => match e {
            EventV::CommandStatus(st) => if st == Some(true) {
                (
                    StateV::Complete { outcome: ProvisionOutcome::UpToDate },
                    ActionV::Report(Ok(ProvisionOutcome::UpToDate)),
                )
            } else {
                locate
            },
            _ => (s, ActionV::Hold),
        },
        StateV::LocateTool => match e {
            EventV::ExistsList(v) => match first_true_at(v, 0) {
                Option::Some(i) => (
                    StateV::LocateRuntime { tool: uv_candidate_seq(c.resource_dir, c.windows, i) },
                    ActionV::StatList(python_candidates_v(c.resource_dir, c.windows)),
                ),
                Option::None => fail_v(EnvError::ToolNotFound),
            },
            _ => (s, ActionV::Hold),
        },
        StateV::LocateRuntime { tool } => match e {
            EventV::ExistsList(v) => match first_true_at(v, 0) {
                Option::Some(i) => (
                    StateV::CheckLockTarget {
                        tool: tool,
                        runtime: python_candidate_seq(c.resource_dir, c.windows, i),
                    },
                    ActionV::StatPath(python_v(c)),
                ),
                Option::None => fail_v(EnvError::RuntimeNotFound),
            },
            _ => (s, ActionV::Hold),
        },
        StateV::CheckLockTarget { tool, runtime } => match e {
            EventV::PathExists(b) => if b {
                (
                    StateV::ProbingLock { tool, runtime },
                    ActionV::ProbeLock { python: python_v(c) },
                )
            } else {
                (
                    StateV::CreatingEnv { tool },
                    ActionV::RunCreateEnv { tool, env_dir: venv_v(c), runtime },
                )
            },
            _ => (s, ActionV::Hold),
        },
        StateV::ProbingLock { tool, runtime } => match e {
            EventV::Lock(p) => if p == LockProbe::Denied {
                (
                    StateV::Complete { outcome: ProvisionOutcome::SkippedLocked },
                    ActionV::Report(Ok(ProvisionOutcome::SkippedLocked)),
                )
            } else {
                (
                    StateV::CreatingEnv { tool },
                    ActionV::RunCreateEnv { tool, env_dir: venv_v(c), runtime },
                )
            },
            _ => (s, ActionV::Hold),
        },
        StateV::CreatingEnv { tool } => match e {
            EventV::CommandStatus(st) => match st {
                Option::None => fail_v(EnvError::VenvSpawnFailed),
                Option::Some(ok) => if ok {
                    (
                        StateV::ListingWheels { tool, which: 0 },
                        ActionV::ListDir(wheel_dir_v(c, 0)),
                    )
                } else {
                    fail_v(EnvError::VenvCreateFailed)
                },
            },
            _ => (s, ActionV::Hold),
        },
        StateV::ListingWheels { tool, which } => match e {
            EventV::DirListing(l) => {
                let found = match l {
                    Option::Some(names) => first_wheel_at(names, 0),
                    Option::None => None,
                };
                match found {
                    Option::Some(i) => (
                        StateV::Installing,
                        ActionV::RunInstall {
                            tool,
                            artifact: join_seq(wheel_dir_v(c, which), l->Some_0[i]),
                            python: python_v(c),
                        },
                    ),
                    Option::None => if which < 2 {
                        (
                            StateV::ListingWheels { tool, which: which + 1 },
                            ActionV::ListDir(wheel_dir_v(c, which + 1)),
                        )
                    } else {
                        fail_v(EnvError::ArtifactNotFound)
                    },
                }
            },
            _ => (s, ActionV::Hold),
        },
        StateV::Installing => match e {
            EventV::CommandStatus(st) => match st {
                Option::None => fail_v(EnvError::InstallSpawnFailed),
                Option::Some(ok) => if ok {
                    (StateV::InstallingBrowser, ActionV::RunBrowserInstall { python: python_v(c) })
                } else {
                    fail_v(EnvError::InstallFailed)
                },
            },
            _ => (s, ActionV::Hold),
        },
        StateV::InstallingBrowser => match e {
            EventV::CommandStatus(st) => (
                StateV::WritingMarker { browser_ok: st == Some(true) },
                ActionV::WriteMarker { path: marker_v(c), version: c.version },
            ),
            _ => (s, ActionV::Hold),
        },
        StateV::WritingMarker { browser_ok } => match e {
            EventV::WriteResult(b) => if b {
                (
                    StateV::Complete { outcome: ProvisionOutcome::Provisioned { browser_ok } },
                    ActionV::Report(Ok(ProvisionOutcome::Provisioned { browser_ok })),
                )
            } else {
                fail_v(EnvError::MarkerWriteFailed)
            },
            _ => (s, ActionV::Hold),
        },
        StateV::Complete { outcome } => (s, ActionV::Report(Ok(outcome))),
        StateV::Failed { error } => (s, ActionV::Report(Err(error))),
    }
}

/// The provisioner: fixed configuration plus the machine's current state.
pub struct Provisioner {
    pub config: ProvisionConfig,
    pub state: ProvisionState,
}

impl Provisioner {
    /// A fresh pass for this configuration.
    pub fn new(config: ProvisionConfig) -> (r: Self)
        ensures
            r.config == config,
            r.state@ == StateV::CheckMarkerExists,
    {
        Provisioner { config, state: ProvisionState::CheckMarkerExists }
    }

    fn venv_path(&self) -> (r: String)
        ensures
            r@ == venv_v(self.config@),
    {
        venv_dir_path(self.config.app_data_dir.as_str())
    }

    fn marker_path_x(&self) -> (r: String)
        ensures
            r@ == marker_v(self.config@),
    {
        let venv = self.venv_path();
        marker_path(venv.as_str())
    }

    fn python_path(&self) -> (r: String)
        ensures
            r@ == python_v(self.config@),
    {
        let venv = self.venv_path();
        get_venv_python(venv.as_str(), self.config.windows)
    }

    fn wheel_dir(&self, which: u8) -> (r: String)
        requires
            which <= 2,
        ensures
            r@ == wheel_dir_v(self.config@, which as int),
    {
        if which == 0 {
            let nested = join_path(self.config.resource_dir.as_str(), "resources");
            join_path(nested.as_str(), "wheel")
        } else if which == 1 {
            join_path(self.config.resource_dir.as_str(), "wheel")
        } else {
            self.config.resource_dir.clone()
        }
    }

    fn locate_tool_action(&self) -> (a: ProvisionAction)
        ensures
            a@ == ActionV::StatList(uv_candidates_v(self.config@.resource_dir, self.config@.windows)),
    {
        ProvisionAction::StatList(
            uv_candidates(self.config.resource_dir.as_str(), self.config.windows),
        )
    }

    /// The first action of a pass: stat the version marker.
    pub fn initial_action(&self) -> (a: ProvisionAction)
        ensures
            a@ == ActionV::StatPath(marker_v(self.config@)),
    {
        ProvisionAction::StatPath(self.marker_path_x())
    }

    /// Does this event fit what the current state waits for?
    pub fn event_fits(&self, event: &ProvisionEvent) -> (r: bool)
        ensures
            r == event_wf(self.config@, self.state@, event@),
    {
        match (&self.state, event) {
            (ProvisionState::CheckMarkerExists, ProvisionEvent::PathExists(_)) => true,
            (ProvisionState::CheckMarkerContent, ProvisionEvent::MarkerContent(_)) => true,
            (ProvisionState::CheckInterpreterExists, ProvisionEvent::PathExists(_)) => true,
            (ProvisionState::CheckEntryPoint, ProvisionEvent::CommandStatus(_)) => true,
            (ProvisionState::LocateTool, ProvisionEvent::ExistsList(v)) => v.len() == 2,
            (ProvisionState::LocateRuntime { .. }, ProvisionEvent::ExistsList(v)) => {
                let want: usize = if self.config.windows {
                    2
                } else {
                    4
                };
                v.len() == want
            },
            (ProvisionState::CheckLockTarget { .. }, ProvisionEvent::PathExists(_)) => true,
            (ProvisionState::ProbingLock { .. }, ProvisionEvent::Lock(_)) => true,
            (ProvisionState::CreatingEnv { .. }, ProvisionEvent::CommandStatus(_)) => true,
            (ProvisionState::ListingWheels { .. }, ProvisionEvent::DirListing(_)) => true,
            (ProvisionState::Installing, ProvisionEvent::CommandStatus(_)) => true,
            (ProvisionState::InstallingBrowser, ProvisionEvent::CommandStatus(_)) => true,
            (ProvisionState::WritingMarker { .. }, ProvisionEvent::WriteResult(_)) => true,
            _ => false,
        }
    }

    /// Consume one event and decide the next action.
    pub fn step(&mut self, event: ProvisionEvent) -> (action: ProvisionAction)
        requires
            state_wf(old(self).state@),
            event_wf(old(self).config@, old(self).state@, event@),
        ensures
            state_wf(final(self).state@),
            final(self).config == old(self).config,
            final(self).state@ == spec_step(old(self).config@, old(self).state@, event@).0,
            action@ == spec_step(old(self).config@, old(self).state@, event@).1,
    {
        let (next, action): (ProvisionState, ProvisionAction) = match (&self.state, event) {
            (ProvisionState::CheckMarkerExists, ProvisionEvent::PathExists(b)) => {
                if b {
                    (
                        ProvisionState::CheckMarkerContent,
                        ProvisionAction::ReadMarker(self.marker_path_x()),
                    )
                } else {
                    (ProvisionState::LocateTool, self.locate_tool_action())
                }
            },
            (ProvisionState::CheckMarkerContent, ProvisionEvent::MarkerContent(content)) => {
                let t = trimmed(content.as_str());
                if str_eq(t.as_str(), self.config.current_version.as_str()) {
                    (
                        ProvisionState::CheckInterpreterExists,
                        ProvisionAction::StatPath(self.python_path()),
                    )
                } else {
                    (ProvisionState::LocateTool, self.locate_tool_action())
                }
            },
            (ProvisionState::CheckInterpreterExists, ProvisionEvent::PathExists(b)) => {
                if b {
                    (
                        ProvisionState::CheckEntryPoint,
                        ProvisionAction::RunImportCheck { python: self.python_path() },
                    )
                } else {
                    (ProvisionState::LocateTool, self.locate_tool_action())
                }
            },
            (ProvisionState::CheckEntryPoint, ProvisionEvent::CommandStatus(st)) => {
                if matches!(st, Some(true)) {
                    (
                        ProvisionState::Complete { outcome: ProvisionOutcome::UpToDate },
                        ProvisionAction::Report(Ok(ProvisionOutcome::UpToDate)),
                    )
                } else {
                    (ProvisionState::LocateTool, self.locate_tool_action())
                }
            },
            (ProvisionState::LocateTool, ProvisionEvent::ExistsList(v)) => {
                match find_uv(self.config.resource_dir.as_str(), self.config.windows, &v) {
                    Ok(tool) => (
                        ProvisionState::LocateRuntime { tool },
                        ProvisionAction::StatList(
                            python_candidates(
                                self.config.resource_dir.as_str(),
                                self.config.windows,
                            ),
                        ),
                    ),
                    Err(e) => (
                        ProvisionState::Failed { error: e },
                        ProvisionAction::Report(Err(e)),
                    ),
                }
            },
            (ProvisionState::LocateRuntime { tool }, ProvisionEvent::ExistsList(v)) => {
                match find_bundled_python(
                    self.config.resource_dir.as_str(),
                    self.config.windows,
                    &v,
                ) {
                    Ok(runtime) => (
                        ProvisionState::CheckLockTarget { tool: tool.clone(), runtime },
                        ProvisionAction::StatPath(self.python_path()),
                    ),
                    Err(e) => (
                        ProvisionState::Failed { error: e },
                        ProvisionAction::Report(Err(e)),
                    ),
                }
            },
            (ProvisionState::CheckLockTarget { tool, runtime }, ProvisionEvent::PathExists(b)) => {
                if b {
                    (
                        ProvisionState::ProbingLock {
                            tool: tool.clone(),
                            runtime: runtime.clone(),
                        },
                        ProvisionAction::ProbeLock { python: self.python_path() },
                    )
                } else {
                    (
                        ProvisionState::CreatingEnv { tool: tool.clone() },
                        ProvisionAction::RunCreateEnv {
                            tool: tool.clone(),
                            env_dir: self.venv_path(),
                            runtime: runtime.clone(),
                        },
                    )
                }
            },
            (ProvisionState::ProbingLock { tool, runtime }, ProvisionEvent::Lock(p)) => {
                if matches!(p, LockProbe::Denied) {
                    (
                        ProvisionState::Complete { outcome: ProvisionOutcome::SkippedLocked },
                        ProvisionAction::Report(Ok(ProvisionOutcome::SkippedLocked)),
                    )
                } else {
                    (
                        ProvisionState::CreatingEnv { tool: tool.clone() },
                        ProvisionAction::RunCreateEnv {
                            tool: tool.clone(),
                            env_dir: self.venv_path(),
                            runtime: runtime.clone(),
                        },
                    )
                }
            },
            (ProvisionState::CreatingEnv { tool }, ProvisionEvent::CommandStatus(st)) => {
                match st {
                    None => (
                        ProvisionState::Failed { error: EnvError::VenvSpawnFailed },
                        ProvisionAction::Report(Err(EnvError::VenvSpawnFailed)),
                    ),
                    Some(false) => (
                        ProvisionState::Failed { error: EnvError::VenvCreateFailed },
                        ProvisionAction::Report(Err(EnvError::VenvCreateFailed)),
                    ),
                    Some(true) => (
                        ProvisionState::ListingWheels { tool: tool.clone(), which: 0 },
                        ProvisionAction::ListDir(self.wheel_dir(0)),
                    ),
                }
            },
            (ProvisionState::ListingWheels { tool, which }, ProvisionEvent::DirListing(l)) => {
                let which = *which;
                let found: Option<String> = match &l {
                    Some(names) => find_wheel(names),
                    None => None,
                };
                match found {
                    Some(name) => {
                        let dir = self.wheel_dir(which);
                        (
                            ProvisionState::Installing,
                            ProvisionAction::RunInstall {
                                tool: tool.clone(),
                                artifact: join_path(dir.as_str(), name.as_str()),
                                python: self.python_path(),
                            },
                        )
                    },
                    None => {
                        if which < 2 {
                            (
                                ProvisionState::ListingWheels {
                                    tool: tool.clone(),
                                    which: which + 1,
                                },
                                ProvisionAction::ListDir(self.wheel_dir(which + 1)),
                            )
                        } else {
                            (
                                ProvisionState::Failed { error: EnvError::ArtifactNotFound },
                                ProvisionAction::Report(Err(EnvError::ArtifactNotFound)),
                            )
                        }
                    },
                }
            },
            (ProvisionState::Installing, ProvisionEvent::CommandStatus(st)) => {
                match st {
                    None => (
                        ProvisionState::Failed { error: EnvError::InstallSpawnFailed },
                        ProvisionAction::Report(Err(EnvError::InstallSpawnFailed)),
                    ),
                    Some(false) => (
                        ProvisionState::Failed { error: EnvError::InstallFailed },
                        ProvisionAction::Report(Err(EnvError::InstallFailed)),
                    ),
                    Some(true) => (
                        ProvisionState::InstallingBrowser,
                        ProvisionAction::RunBrowserInstall { python: self.python_path() },
                    ),
                }
            },
            (ProvisionState::InstallingBrowser, ProvisionEvent::CommandStatus(st)) => {
                (
                    ProvisionState::WritingMarker { browser_ok: matches!(st, Some(true)) },
                    ProvisionAction::WriteMarker {
                        path: self.marker_path_x(),
                        version: self.config.current_version.clone(),
                    },
                )
            },
            (ProvisionState::WritingMarker { browser_ok }, ProvisionEvent::WriteResult(b)) => {
                if b {
                    let outcome = ProvisionOutcome::Provisioned { browser_ok: *browser_ok };
                    (
                        ProvisionState::Complete { outcome },
                        ProvisionAction::Report(Ok(outcome)),
                    )
                } else {
                    (
                        ProvisionState::Failed { error: EnvError::MarkerWriteFailed },
                        ProvisionAction::Report(Err(EnvError::MarkerWriteFailed)),
                    )
                }
            },
            _ => unreached(),
        };
        self.state = next;
        action
    }
}

/// The machine's state after the first `t` events of a pass were consumed.
pub open spec fn state_at(c: ConfigV, events: Seq<EventV>, t: int) -> StateV
    decreases t
        when t >= 0
{
    if t <= 0 {
        StateV::CheckMarkerExists
    } else {
        spec_step(c, state_at(c, events, t - 1), events[t - 1]).0
    }
}

/// The action emitted by the step that consumed `events[t]`.
pub open spec fn action_at(c: ConfigV, events: Seq<EventV>, t: int) -> ActionV {
    spec_step(c, state_at(c, events, t), events[t]).1
}

/// Law (idempotence of provisioning): when the marker exists and records the
/// current version, the interpreter exists and the entry-point import
/// succeeds, the pass completes up to date and not one emitted action
/// mutates the filesystem or the environment.
pub proof fn lemma_provision_fast_path(c: ConfigV, content: Seq<char>, events: Seq<EventV>)
    requires
        trim_seq(content) == c.version,
        events =~= seq![
            EventV::PathExists(true),
            EventV::MarkerContent(content),
            EventV::PathExists(true),
            EventV::CommandStatus(Some(true)),
        ],
    ensures
        state_at(c, events, 4) == (StateV::Complete { outcome: ProvisionOutcome::UpToDate }),
        forall|t: int| 0 <= t < 4 ==> !is_mutating(#[trigger] action_at(c, events, t)),
{
    assert(events[0] == EventV::PathExists(true));
    assert(events[1] == EventV::MarkerContent(content));
    assert(events[2] == EventV::PathExists(true));
    assert(events[3] == EventV::CommandStatus(Some(true)));
    assert(state_at(c, events, 0) == StateV::CheckMarkerExists);
    assert(state_at(c, events, 1) == StateV::CheckMarkerContent);
    assert(state_at(c, events, 2) == StateV::CheckInterpreterExists);
    assert(state_at(c, events, 3) == StateV::CheckEntryPoint);
    assert(state_at(c, events, 4) == (StateV::Complete { outcome: ProvisionOutcome::UpToDate }));
    assert forall|t: int| 0 <= t < 4 implies !is_mutating(#[trigger] action_at(c, events, t)) by {
        if t == 0 {
            assert(!is_mutating(action_at(c, events, 0)));
        } else if t == 1 {
            assert(!is_mutating(action_at(c, events, 1)));
        } else if t == 2 {
            assert(!is_mutating(action_at(c, events, 2)));
        } else {
            assert(!is_mutating(action_at(c, events, 3)));
        }
    }
}

/// Law (version-triggered re-provisioning): a marker recording another
/// version sends the machine into the full pass — the next step locates the
/// provisioning tool instead of finishing.
pub proof fn lemma_version_mismatch_reprovisions(
    c: ConfigV,
    content: Seq<char>,
    events: Seq<EventV>,
)
    requires
        events.len() >= 2,
        events[0] == EventV::PathExists(true),
        events[1] == EventV::MarkerContent(content),
        trim_seq(content) != c.version,
    ensures
        state_at(c, events, 2) == StateV::LocateTool,
        action_at(c, events, 1) == ActionV::StatList(uv_candidates_v(c.resource_dir, c.windows)),
{
    assert(state_at(c, events, 0) == StateV::CheckMarkerExists);
    assert(state_at(c, events, 1) == StateV::CheckMarkerContent);
}

/// Law: whenever the machine asks for the marker to be written, what is
/// written is the current version, at the marker path.
pub proof fn lemma_marker_write_form(c: ConfigV, s: StateV, e: EventV)
    ensures
        (match spec_step(c, s, e).1 {
            ActionV::WriteMarker { path, version } => path == marker_v(c) && version == c.version,
            _ => true,
        }),
{
}

/// States the machine only reaches after the artifact-install command
/// reported success.
pub open spec fn past_install(s: StateV) -> bool {
    match s {
        StateV::InstallingBrowser => true,
        StateV::WritingMarker { .. } => true,
        StateV::Complete { outcome } => outcome is Provisioned,
        _ => false,
    }
}

/// States the machine only reaches after the environment-creation command
/// reported success.
pub open spec fn past_create(s: StateV) -> bool {
    match s {
        StateV::ListingWheels { .. } => true,
        StateV::Installing => true,
        StateV::InstallingBrowser => true,
        StateV::WritingMarker { .. } => true,
        StateV::Complete { outcome } => outcome is Provisioned,
        _ => false,
    }
}

proof fn lemma_history(c: ConfigV, events: Seq<EventV>, t: int)
    requires
        0 <= t <= events.len(),
    ensures
        past_install(state_at(c, events, t)) ==> exists|j: int|
            0 <= j < t && state_at(c, events, j) == StateV::Installing && events[j]
                == EventV::CommandStatus(Some(true)),
        past_create(state_at(c, events, t)) ==> exists|k: int|
            0 <= k < t && (state_at(c, events, k) is CreatingEnv) && events[k]
                == EventV::CommandStatus(Some(true)),
    decreases t,
{
    if t > 0 {
        lemma_history(c, events, t - 1);
        let sp = state_at(c, events, t - 1);
        let e = events[t - 1];
        let s = state_at(c, events, t);
        if past_install(s) {
            if past_install(sp) {
                let j = choose|j: int|
                    0 <= j < t - 1 && state_at(c, events, j) == StateV::Installing && events[j]
                        == EventV::CommandStatus(Some(true));
                assert(0 <= j < t && state_at(c, events, j) == StateV::Installing && events[j]
                    == EventV::CommandStatus(Some(true)));
            } else {
                assert(sp == StateV::Installing && e == EventV::CommandStatus(Some(true)));
                assert(0 <= t - 1 < t && state_at(c, events, t - 1) == StateV::Installing
                    && events[t - 1] == EventV::CommandStatus(Some(true)));
            }
        }
        if past_create(s) {
            if past_create(sp) {
                let k = choose|k: int|
                    0 <= k < t - 1 && (state_at(c, events, k) is CreatingEnv) && events[k]
                        == EventV::CommandStatus(Some(true));
                assert(0 <= k < t && (state_at(c, events, k) is CreatingEnv) && events[k]
                    == EventV::CommandStatus(Some(true)));
            } else {
                assert((sp is CreatingEnv) && e == EventV::CommandStatus(Some(true)));
                assert(0 <= t - 1 < t && (state_at(c, events, t - 1) is CreatingEnv) && events[t
                    - 1] == EventV::CommandStatus(Some(true)));
            }
        }
    }
}

/// Law (marker atomicity, first half): the marker-write action is only ever
/// emitted after the environment-creation command and the artifact-install
/// command each reported success.
pub proof fn lemma_marker_write_after_success(c: ConfigV, events: Seq<EventV>, t: int)
    requires
        0 <= t < events.len(),
        action_at(c, events, t) is WriteMarker,
    ensures
        exists|j: int|
            0 <= j < t && state_at(c, events, j) == StateV::Installing && events[j]
                == EventV::CommandStatus(Some(true)),
        exists|k: int|
            0 <= k < t && (state_at(c, events, k) is CreatingEnv) && events[k]
                == EventV::CommandStatus(Some(true)),
{
    assert(state_at(c, events, t) is InstallingBrowser);
    lemma_history(c, events, t);
}

/// Law (marker atomicity, second half): failure is absorbing. Once a
/// mandatory step has failed, the machine's state never changes again.
pub proof fn lemma_failed_stays(c: ConfigV, events: Seq<EventV>, t: int, u: int)
    requires
        0 <= t <= u <= events.len(),
        state_at(c, events, t) is Failed,
    ensures
        state_at(c, events, u) == state_at(c, events, t),
    decreases u - t,
{
    if u > t {
        lemma_failed_stays(c, events, t, u - 1);
    }
}

/// Law (marker atomicity, second half, continued): after a failure every
/// action only reports the error — nothing is mutated and no marker is
/// written.
pub proof fn lemma_failed_never_mutates(c: ConfigV, events: Seq<EventV>, t: int, w: int)
    requires
        0 <= t <= w < events.len(),
        state_at(c, events, t) is Failed,
    ensures
        !is_mutating(action_at(c, events, w)),
        action_at(c, events, w) == ActionV::Report(
            Err(state_at(c, events, t)->Failed_error),
        ),
{
    lemma_failed_stays(c, events, t, w);
}

} // verus!
