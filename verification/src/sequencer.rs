//! The fail-fast sequencer. A plan is an ordered list of invocations;
//! an invocation runs only when every one before it succeeded, both at
//! the step level (separate external processes) and inside one shell
//! line (sub-steps joined with `&&`). The driver loop around the
//! library asks which step to run next, runs it, and records the exit.

use vstd::prelude::*;
use crate::plan::{spec_server_dir_path, spec_setup_chain, spec_setup_script_path};

verus! {

/// With `outcomes[j]` the success of invocation `j`, invocation `i` of a
/// gated chain runs exactly when all before it succeeded.
pub open spec fn runs_at(outcomes: Seq<bool>, i: int) -> bool {
    forall|j: int| 0 <= j < i ==> outcomes[j]
}

/// A failure anywhere in a gated chain keeps every later invocation
/// from running.
pub proof fn lemma_failure_gates_later(outcomes: Seq<bool>, i: int, k: int)
    requires
        0 <= i < k,
        !outcomes[i],
    ensures
        !runs_at(outcomes, k),
{
}

/// In a deployment from source, when the data-store migration sub-step
/// exits nonzero, the setup script sub-step of the same shell chain
/// never runs: the count of its invocations stays zero.
pub proof fn lemma_migration_failure_blocks_setup(
    source_dir: Seq<char>,
    force: bool,
    outcomes: Seq<bool>,
)
    requires
        outcomes.len() == spec_setup_chain(
            spec_server_dir_path(source_dir),
            spec_setup_script_path(spec_server_dir_path(source_dir)),
            force,
        ).len(),
        !outcomes[1],
    ensures
        !runs_at(outcomes, outcomes.len() - 1),
        spec_setup_chain(
            spec_server_dir_path(source_dir),
            spec_setup_script_path(spec_server_dir_path(source_dir)),
            force,
        ).last() == "node "@ + spec_setup_script_path(spec_server_dir_path(source_dir)),
{
    lemma_failure_gates_later(outcomes, 1, outcomes.len() - 1);
}

/// The sequencer's progress through a plan of `total` steps: the index
/// of the next step to run, and the step that failed, if one did.
pub struct Sequencer {
    pub total: usize,
    pub next: usize,
    pub failed: Option<usize>,
}

impl Sequencer {
    /// The state is consistent: progress never passes the end, and a
    /// recorded failure is a step that was run.
    pub open spec fn wf(&self) -> bool {
        &&& self.next <= self.total
        &&& match self.failed {
            Some(i) => i + 1 == self.next,
            None => true,
        }
    }

    /// The step to run now: none once the plan is done or a step failed.
    pub open spec fn spec_next_step(&self) -> Option<usize> {
        if self.failed is None && self.next < self.total {
            Some(self.next)
        } else {
            None
        }
    }

    /// Start a run of a plan of `total` steps.
    pub fn new(total: usize) -> (s: Sequencer)
        ensures
            s.wf(),
            s.total == total,
            s.next == 0,
            s.failed is None,
    {
        Sequencer { total, next: 0, failed: None }
    }

    /// The step to run now, if any.
    pub fn next_step(&self) -> (r: Option<usize>)
        ensures
            r == self.spec_next_step(),
    {
        if self.failed.is_none() && self.next < self.total {
            Some(self.next)
        } else {
            None
        }
    }

    /// Record the exit of the step just run. On failure the sequencer
    /// halts: it never proceeds past a failed step.
    pub fn record(&mut self, ok: bool)
        requires
            old(self).wf(),
            old(self).spec_next_step() is Some,
        ensures
            final(self).wf(),
            final(self).total == old(self).total,
            final(self).next == old(self).next + 1,
            ok ==> final(self).failed is None,
            !ok ==> final(self).failed == Some(old(self).next),
            !ok ==> final(self).spec_next_step() is None,
    {
        if !ok {
            self.failed = Some(self.next);
        }
        self.next = self.next + 1;
    }

    /// Whether the whole plan ran and every step succeeded.
    pub fn succeeded(&self) -> (r: bool)
        ensures
            r <==> (self.failed is None && self.next == self.total),
    {
        self.failed.is_none() && self.next == self.total
    }
}

/// Once a step has failed, no step is ever offered again: the sequencer
/// never proceeds past a failed step.
pub proof fn lemma_no_step_after_failure(s: Sequencer)
    requires
        s.failed is Some,
    ensures
        s.spec_next_step() is None,
{
}

} // verus!
