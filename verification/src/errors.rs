//! The failure taxonomy. Every failure is terminal: the caller prints the
//! message and exits nonzero; nothing is caught and retried.

use vstd::prelude::*;

verus! {

/// Which hardware metric the capability gate found below its hard floor.
#[derive(Clone, Copy, Debug, PartialEq, Eq, Structural)]
pub enum HardwareMetric {
    Cpu,
    Memory,
    Storage,
    Ports,
}

/// A terminal failure of the installer.
#[derive(Debug, Clone, PartialEq, Eq)]
pub enum InstallError {
    /// A metric is below its required threshold (first detected wins, in the
    /// order cpu, memory, storage, ports). Suppressed by the force override.
    HardwareInsufficient(HardwareMetric),
    /// The container runtime daemon is not running.
    RuntimeUnavailable,
    /// The compose tool is not installed.
    ComposeToolMissing,
    /// A relative input path could not be resolved to an absolute one.
    PathResolutionFailed,
    /// An external step launched but exited nonzero; carries the step's
    /// failure message.
    ExternalStepFailed(String),
    /// An external tool binary could not be launched at all; carries the
    /// step's failure message.
    SpawnFailed(String),
}

/// The operator-visible message of each failure.
pub open spec fn spec_message(e: InstallError) -> Seq<char> {
    match e {
        InstallError::HardwareInsufficient(HardwareMetric::Cpu) => "CPU cores not enough."@,
        InstallError::HardwareInsufficient(HardwareMetric::Memory) => "Memory not enough."@,
        InstallError::HardwareInsufficient(HardwareMetric::Storage) => "Storage space not enough."@,
        InstallError::HardwareInsufficient(HardwareMetric::Ports) => "Some ports are not available."@,
        InstallError::RuntimeUnavailable => "docker is not running"@,
        InstallError::ComposeToolMissing => "docker-compose was not installed"@,
        InstallError::PathResolutionFailed => "failed to resolve path"@,
        InstallError::ExternalStepFailed(m) => m@,
        InstallError::SpawnFailed(m) => m@,
    }
}

impl InstallError {
    /// The message shown to the operator before the process exits nonzero.
    pub fn message(&self) -> (r: String)
        ensures
            r@ == spec_message(*self),
    {
        match self {
            InstallError::HardwareInsufficient(HardwareMetric::Cpu) => "CPU cores not enough.".to_owned(),
            InstallError::HardwareInsufficient(HardwareMetric::Memory) => "Memory not enough.".to_owned(),
            InstallError::HardwareInsufficient(HardwareMetric::Storage) => "Storage space not enough.".to_owned(),
            InstallError::HardwareInsufficient(HardwareMetric::Ports) => "Some ports are not available.".to_owned(),
            InstallError::RuntimeUnavailable => "docker is not running".to_owned(),
            InstallError::ComposeToolMissing => "docker-compose was not installed".to_owned(),
            InstallError::PathResolutionFailed => "failed to resolve path".to_owned(),
            InstallError::ExternalStepFailed(m) => m.clone(),
            InstallError::SpawnFailed(m) => m.clone(),
        }
    }
}

} // verus!
