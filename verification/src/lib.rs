//! Backend process supervisor and environment provisioner.
//!
//! The library holds the decision logic of a desktop application's backend
//! lifecycle: provisioning an isolated runtime environment on first use or on
//! version change, synchronizing bundled assets into a persistent data
//! directory without clobbering user edits, extracting the backend's
//! dynamically bound port from its output, and bounded health-check polling.
//! All filesystem, process and network work is performed by a thin driver
//! outside this crate; the functions here compute paths, plans, and state
//! transitions from plain values, and their contracts are verified.

pub mod errors;
pub mod health;
pub mod paths;
pub mod portscan;
pub mod provision;
pub mod shim;
pub mod supervisor;
pub mod sync;
pub mod text;
