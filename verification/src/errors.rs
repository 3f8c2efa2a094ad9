//! Error taxonomy of provisioning and startup. Mandatory failures abort the
//! sequence; the optional browser component is recorded, never fatal.

use vstd::prelude::*;

verus! {

/// Fatal provisioning failures.
#[derive(Clone, Copy, Debug, PartialEq, Eq)]
pub enum EnvError {
    /// The provisioning tool binary was not found in the resource tree.
    ToolNotFound,
    /// The bundled runtime interpreter was not found in the resource tree.
    RuntimeNotFound,
    /// No installable archive was found in any candidate directory.
    ArtifactNotFound,
    /// The environment-creation command could not be launched.
    VenvSpawnFailed,
    /// The environment-creation command exited unsuccessfully.
    VenvCreateFailed,
    /// The artifact-install command could not be launched.
    InstallSpawnFailed,
    /// The artifact-install command exited unsuccessfully.
    InstallFailed,
    /// The version marker could not be written after a successful pass.
    MarkerWriteFailed,
}

impl EnvError {
    pub open spec fn message_seq(self) -> Seq<char> {
        match self {
            EnvError::ToolNotFound => "uv binary not found in resources"@,
            EnvError::RuntimeNotFound => "Bundled Python not found in resources"@,
            EnvError::ArtifactNotFound => "No .whl file found in resources"@,
            EnvError::VenvSpawnFailed => "Failed to run uv venv"@,
            EnvError::VenvCreateFailed => "uv venv creation failed"@,
            EnvError::InstallSpawnFailed => "Failed to run uv pip install"@,
            EnvError::InstallFailed => "uv pip install failed"@,
            EnvError::MarkerWriteFailed => "Failed to write version marker"@,
        }
    }

    /// A descriptive line for the owning application to surface.
    pub fn message(&self) -> (r: String)
        ensures
            r@ == self.message_seq(),
    {
        match self {
            EnvError::ToolNotFound => "uv binary not found in resources".to_owned(),
            EnvError::RuntimeNotFound => "Bundled Python not found in resources".to_owned(),
            EnvError::ArtifactNotFound => "No .whl file found in resources".to_owned(),
            EnvError::VenvSpawnFailed => "Failed to run uv venv".to_owned(),
            EnvError::VenvCreateFailed => "uv venv creation failed".to_owned(),
            EnvError::InstallSpawnFailed => "Failed to run uv pip install".to_owned(),
            EnvError::InstallFailed => "uv pip install failed".to_owned(),
            EnvError::MarkerWriteFailed => "Failed to write version marker".to_owned(),
        }
    }
}

/// Fatal failures of the startup sequence.
#[derive(Clone, Copy, Debug, PartialEq, Eq)]
pub enum StartError {
    /// The application data directory could not be created.
    DataDirFailed,
    /// Provisioning aborted.
    Provision(EnvError),
    /// Asset synchronization aborted.
    SyncFailed,
    /// The environment's interpreter is missing after provisioning.
    PythonMissing,
    /// The launcher shim could not be written.
    ShimWriteFailed,
    /// The backend process could not be spawned.
    SpawnFailed,
    /// The backend never reported its port within the bounded wait.
    PortTimeout,
    /// The backend never answered the health poll within the attempt budget.
    HealthTimeout,
}

impl StartError {
    pub open spec fn message_seq(self) -> Seq<char> {
        match self {
            StartError::DataDirFailed => "Failed to create app data dir"@,
            StartError::Provision(e) => e.message_seq(),
            StartError::SyncFailed => "Failed to sync app data"@,
            StartError::PythonMissing => "Python not found in backend venv"@,
            StartError::ShimWriteFailed => "Failed to write shim"@,
            StartError::SpawnFailed => "Failed to start Python backend"@,
            StartError::PortTimeout => "Timed out waiting for backend to report port"@,
            StartError::HealthTimeout => "Backend failed to respond to health check within 15 seconds"@,
        }
    }

    /// A descriptive line for the owning application to surface.
    pub fn message(&self) -> (r: String)
        ensures
            r@ == self.message_seq(),
    {
        match self {
            StartError::DataDirFailed => "Failed to create app data dir".to_owned(),
            StartError::Provision(e) => e.message(),
            StartError::SyncFailed => "Failed to sync app data".to_owned(),
            StartError::PythonMissing => "Python not found in backend venv".to_owned(),
            StartError::ShimWriteFailed => "Failed to write shim".to_owned(),
            StartError::SpawnFailed => "Failed to start Python backend".to_owned(),
            StartError::PortTimeout => "Timed out waiting for backend to report port".to_owned(),
            StartError::HealthTimeout => "Backend failed to respond to health check within 15 seconds".to_owned(),
        }
    }
}

} // verus!
