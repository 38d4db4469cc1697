//! The capability gate: given the probed host facts and the two threshold
//! tiers, decide pass or fail, identifying the first failing metric in the
//! order cpu, memory, storage, ports.

use vstd::prelude::*;
use crate::classify::HardwareRequirement;
use crate::errors::{HardwareMetric, InstallError};

verus! {

/// The host facts one run gathers. `unavailable_ports` holds, in order,
/// the required ports that the probe could not bind.
pub struct ActualCapabilities {
    pub cpu_cores: u64,
    pub total_memory_bytes: u64,
    pub free_storage_bytes: u64,
    pub unavailable_ports: Vec<u16>,
}

/// The required ports whose probe failed, in the order probed.
pub open spec fn spec_unavailable(ports: Seq<u16>, avail: Seq<bool>) -> Seq<u16>
    decreases ports.len(),
{
    if ports.len() == 0 {
        Seq::empty()
    } else {
        let rest = spec_unavailable(ports.drop_last(), avail.drop_last());
        if !avail.last() {
            rest.push(ports.last())
        } else {
            rest
        }
    }
}

/// A port is listed as unavailable exactly when some probe of it failed.
pub proof fn lemma_unavailable_membership(ports: Seq<u16>, avail: Seq<bool>, p: u16)
    requires
        ports.len() == avail.len(),
    ensures
        spec_unavailable(ports, avail).contains(p) <==> (exists|i: int|
            0 <= i < ports.len() && ports[i] == p && !avail[i]),
    decreases ports.len(),
{
    if ports.len() > 0 {
        lemma_unavailable_membership(ports.drop_last(), avail.drop_last(), p);
        let sub = spec_unavailable(ports.drop_last(), avail.drop_last());
        let whole = spec_unavailable(ports, avail);
        if !avail.last() {
            assert(whole == sub.push(ports.last()));
            if whole.contains(p) {
                let j = choose|j: int| 0 <= j < whole.len() && whole[j] == p;
                if j < sub.len() {
                    assert(sub[j] == p);
                    assert(sub.contains(p));
                } else {
                    assert(ports[ports.len() - 1] == p && !avail[ports.len() - 1]);
                }
            }
            if exists|i: int| 0 <= i < ports.len() && ports[i] == p && !avail[i] {
                let i = choose|i: int| 0 <= i < ports.len() && ports[i] == p && !avail[i];
                if i < ports.len() - 1 {
                    assert(ports.drop_last()[i] == p && !avail.drop_last()[i]);
                    assert(sub.contains(p));
                    let j = choose|j: int| 0 <= j < sub.len() && sub[j] == p;
                    assert(whole[j] == p);
                } else {
                    assert(whole[whole.len() - 1] == p);
                }
            }
        } else {
            assert(whole == sub);
            if exists|i: int| 0 <= i < ports.len() && ports[i] == p && !avail[i] {
                let i = choose|i: int| 0 <= i < ports.len() && ports[i] == p && !avail[i];
                assert(i < ports.len() - 1);
                assert(ports.drop_last()[i] == p && !avail.drop_last()[i]);
            }
        }
    }
}

/// Filter the required ports down to those whose availability probe failed.
/// `avail[i]` is the probe result for `ports[i]`.
pub fn unavailable_ports(ports: &Vec<u16>, avail: &Vec<bool>) -> (u: Vec<u16>)
    requires
        ports@.len() == avail@.len(),
    ensures
        u@ == spec_unavailable(ports@, avail@),
        forall|p: u16| u@.contains(p) <==> (exists|i: int|
            0 <= i < ports@.len() && ports@[i] == p && !avail@[i]),
{
    let mut u: Vec<u16> = Vec::new();
    let mut i: usize = 0;
    while i < ports.len()
        invariant
            0 <= i <= ports@.len(),
            ports@.len() == avail@.len(),
            u@ == spec_unavailable(ports@.take(i as int), avail@.take(i as int)),
        decreases ports@.len() - i,
    {
        if !avail[i] {
            u.push(ports[i]);
        }
        proof {
            let tp = ports@.take(i + 1);
            let ta = avail@.take(i + 1);
            assert(tp.drop_last() =~= ports@.take(i as int));
            assert(ta.drop_last() =~= avail@.take(i as int));
        }
        i = i + 1;
    }
    proof {
        assert(ports@.take(ports@.len() as int) =~= ports@);
        assert(avail@.take(avail@.len() as int) =~= avail@);
        assert forall|p: u16|
            spec_unavailable(ports@, avail@).contains(p) <==> (exists|i: int|
                0 <= i < ports@.len() && ports@[i] == p && !avail@[i]) by {
            lemma_unavailable_membership(ports@, avail@, p);
        }
    }
    u
}

/// Whether every metric meets its hard floor and every required port is free.
pub open spec fn spec_hardware_ok(actual: ActualCapabilities, required: HardwareRequirement) -> bool {
    &&& actual.cpu_cores >= required.cpu_cores
    &&& actual.total_memory_bytes >= required.memory_bytes
    &&& actual.free_storage_bytes >= required.storage_bytes
    &&& actual.unavailable_ports@.len() == 0
}

/// What the capability check decided: whether the hardware met every hard floor, and
/// which required ports were not free.
#[derive(Debug)]
pub struct GateResult {
    pub hardware_ok: bool,
    pub unavailable_ports: Vec<u16>,
}

/// Decide the capability check. The report is rendered by the caller before this
/// decision is acted on, so the operator always sees the full picture.
///
/// With the force override set, the check always passes; otherwise it fails
/// on the first metric below its hard floor, in the order cpu, memory,
/// storage, ports.
pub fn evaluate_gate(actual: ActualCapabilities, required: &HardwareRequirement, force: bool) -> (r:
    Result<GateResult, InstallError>)
    ensures
        force ==> r.is_ok(),
        r.is_ok() <==> (force || spec_hardware_ok(actual, *required)),
        r matches Ok(g) ==> g.hardware_ok == spec_hardware_ok(actual, *required)
            && g.unavailable_ports@ == actual.unavailable_ports@,
        !force && actual.cpu_cores < required.cpu_cores ==> r == Err::<GateResult, InstallError>(
            InstallError::HardwareInsufficient(HardwareMetric::Cpu),
        ),
        !force && actual.cpu_cores >= required.cpu_cores
            && actual.total_memory_bytes < required.memory_bytes ==> r == Err::<
            GateResult,
            InstallError,
        >(InstallError::HardwareInsufficient(HardwareMetric::Memory)),
        !force && actual.cpu_cores >= required.cpu_cores
            && actual.total_memory_bytes >= required.memory_bytes
            && actual.free_storage_bytes < required.storage_bytes ==> r == Err::<
            GateResult,
            InstallError,
        >(InstallError::HardwareInsufficient(HardwareMetric::Storage)),
        !force && actual.cpu_cores >= required.cpu_cores
            && actual.total_memory_bytes >= required.memory_bytes
            && actual.free_storage_bytes >= required.storage_bytes
            && actual.unavailable_ports@.len() > 0 ==> r == Err::<GateResult, InstallError>(
            InstallError::HardwareInsufficient(HardwareMetric::Ports),
        ),
{
    let hardware_ok = actual.cpu_cores >= required.cpu_cores
        && actual.total_memory_bytes >= required.memory_bytes
        && actual.free_storage_bytes >= required.storage_bytes
        && actual.unavailable_ports.len() == 0;
    if force {
        return Ok(GateResult { hardware_ok, unavailable_ports: actual.unavailable_ports });
    }
    if actual.cpu_cores < required.cpu_cores {
        return Err(InstallError::HardwareInsufficient(HardwareMetric::Cpu));
    }
    if actual.total_memory_bytes < required.memory_bytes {
        return Err(InstallError::HardwareInsufficient(HardwareMetric::Memory));
    }
    if actual.free_storage_bytes < required.storage_bytes {
        return Err(InstallError::HardwareInsufficient(HardwareMetric::Storage));
    }
    if actual.unavailable_ports.len() > 0 {
        return Err(InstallError::HardwareInsufficient(HardwareMetric::Ports));
    }
    Ok(GateResult { hardware_ok, unavailable_ports: actual.unavailable_ports })
}

} // verus!
