//! Decisions over external probe outcomes: the runtime availability
//! check, the image presence short-circuit, and the reading of one
//! step's exit. A probe outcome is `None` when the tool could not be
//! launched at all, `Some(success)` when it ran.

use vstd::prelude::*;
use crate::errors::InstallError;

verus! {

/// Read the two runtime probes: the runtime daemon status first, then
/// the compose tool version probe. A probe that could not be launched
/// counts as a failed probe.
pub fn evaluate_runtime_check(runtime: Option<bool>, compose: Option<bool>) -> (r: Result<
    (),
    InstallError,
>)
    ensures
        r.is_ok() <==> (runtime == Some(true) && compose == Some(true)),
        runtime != Some(true) ==> r == Err::<(), InstallError>(InstallError::RuntimeUnavailable),
        runtime == Some(true) && compose != Some(true) ==> r == Err::<(), InstallError>(
            InstallError::ComposeToolMissing,
        ),
{
    match runtime {
        Some(true) => {},
        _ => {
            return Err(InstallError::RuntimeUnavailable);
        },
    }
    match compose {
        Some(true) => Ok(()),
        _ => Err(InstallError::ComposeToolMissing),
    }
}

/// The index of the first image whose presence probe failed: the image
/// check stops there and does not probe the remainder.
pub fn first_missing(present: &Vec<bool>) -> (r: Option<usize>)
    ensures
        r matches Some(i) ==> 0 <= i < present@.len() && !present@[i as int] && (forall|j: int|
            0 <= j < i ==> present@[j]),
        r is None <==> (forall|j: int| 0 <= j < present@.len() ==> present@[j]),
{
    let mut i: usize = 0;
    while i < present.len()
        invariant
            0 <= i <= present@.len(),
            forall|j: int| 0 <= j < i ==> present@[j],
        decreases present@.len() - i,
    {
        if !present[i] {
            return Some(i);
        }
        i = i + 1;
    }
    None
}

/// Read one external step's outcome: success proceeds; a nonzero exit
/// surfaces the step's failure message; a launch failure is reported
/// apart from a launched tool that failed.
pub fn step_outcome(outcome: Option<bool>, failure_message: &str) -> (r: Result<(), InstallError>)
    ensures
        r.is_ok() <==> outcome == Some(true),
        outcome == Some(false) ==> (r matches Err(e) && (e matches InstallError::ExternalStepFailed(
            m,
        ) && m@ == failure_message@)),
        outcome is None ==> (r matches Err(e) && (e matches InstallError::SpawnFailed(m) && m@
            == failure_message@)),
{
    match outcome {
        Some(true) => Ok(()),
        Some(false) => Err(InstallError::ExternalStepFailed(failure_message.to_owned())),
        None => Err(InstallError::SpawnFailed(failure_message.to_owned())),
    }
}

} // verus!
