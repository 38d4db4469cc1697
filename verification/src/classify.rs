//! Threshold classification of a scalar host metric against a
//! (required, expected) pair, and the fixed hardware requirement tiers.

use vstd::prelude::*;

verus! {

/// How an actual metric value relates to the required (hard floor) and
/// expected (soft target) thresholds.
#[derive(Clone, Copy, Debug, PartialEq, Eq, Structural)]
pub enum Classification {
    /// Below the hard floor: blocks deployment unless overridden.
    BelowRequired,
    /// Meets the floor but not the soft target: shown as a warning.
    BelowExpected,
    /// Meets the soft target.
    MeetsExpected,
}

/// The three-way comparison behind every scalar metric check:
/// the required threshold is the exclusive lower bound of `BelowExpected`,
/// the expected threshold the inclusive lower bound of `MeetsExpected`.
pub open spec fn spec_classify(actual: int, required: int, expected: int) -> Classification {
    if actual < required {
        Classification::BelowRequired
    } else if actual < expected {
        Classification::BelowExpected
    } else {
        Classification::MeetsExpected
    }
}

/// Classify one scalar metric against its two thresholds. The thresholds
/// are authored with the floor at or below the target, and the three-way
/// reading of the result assumes it.
pub fn classify(actual: u64, required: u64, expected: u64) -> (c: Classification)
    requires
        required <= expected,
    ensures
        c == spec_classify(actual as int, required as int, expected as int),
        (c == Classification::BelowRequired) <==> actual < required,
        (c == Classification::BelowExpected) <==> (required <= actual && actual < expected),
        (c == Classification::MeetsExpected) <==> actual >= expected,
{
    if actual < required {
        Classification::BelowRequired
    } else if actual < expected {
        Classification::BelowExpected
    } else {
        Classification::MeetsExpected
    }
}

/// One tier of hardware thresholds. Byte counts are plain byte values;
/// `ports` lists the TCP ports that must be bindable on the host.
pub struct HardwareRequirement {
    pub cpu_cores: u64,
    pub memory_bytes: u64,
    pub storage_bytes: u64,
    pub ports: Vec<u16>,
}

/// 4 GiB in bytes.
pub const GIB_4: u64 = 4294967296;

/// 8 GiB in bytes.
pub const GIB_8: u64 = 8589934592;

/// 40 GiB in bytes.
pub const GIB_40: u64 = 42949672960;

/// 100 GiB in bytes.
pub const GIB_100: u64 = 107374182400;

/// The data-store migration tool listens on this TCP port; the capability check
/// requires it to be free before deployment.
pub const MIGRATION_PORT: u16 = 8811;

/// The hard floor: 2 cores, 4 GiB memory, 40 GiB free storage, and the
/// migration tool's port free.
pub fn required_requirement() -> (r: HardwareRequirement)
    ensures
        r.cpu_cores == 2,
        r.memory_bytes == GIB_4,
        r.storage_bytes == GIB_40,
        r.ports@.len() == 1,
        r.ports@[0] == MIGRATION_PORT,
{
    let mut ports: Vec<u16> = Vec::new();
    ports.push(MIGRATION_PORT);
    HardwareRequirement {
        cpu_cores: 2,
        memory_bytes: GIB_4,
        storage_bytes: GIB_40,
        ports,
    }
}

/// The soft target: 4 cores, 8 GiB memory, 100 GiB free storage. No port
/// entry: port availability has no soft tier.
pub fn expected_requirement() -> (r: HardwareRequirement)
    ensures
        r.cpu_cores == 4,
        r.memory_bytes == GIB_8,
        r.storage_bytes == GIB_100,
        r.ports@.len() == 0,
{
    HardwareRequirement {
        cpu_cores: 4,
        memory_bytes: GIB_8,
        storage_bytes: GIB_100,
        ports: Vec::new(),
    }
}

} // verus!
