//! The two ways of running a machine: unattended until it halts, and one
//! cycle at a time with a pause for an outside trigger in between.
use vstd::prelude::*;

use crate::machine::{step_spec, Machine, MachineState, RunState, StepError};

verus! {

/// What the interactive driver does after a cycle.
#[derive(Clone, Copy, Debug, PartialEq, Eq, Structural)]
pub enum NextAction {
    /// The machine still runs: wait for the trigger, then run the next cycle.
    AwaitTrigger,
    /// The machine has halted: stop.
    Finish,
}

/// Running for at most `budget` cycles: stops with `Ok(true)` once halted,
/// with the first failure of a cycle, or with `Ok(false)` when the budget is
/// spent while the machine still runs.
pub open spec fn run_spec(s: MachineState, budget: nat) -> (MachineState, Result<bool, StepError>)
    decreases budget,
{
    if s.run_state == RunState::Halted {
        (s, Ok(true))
    } else if budget == 0 {
        (s, Ok(false))
    } else {
        let (t, r) = step_spec(s);
        match r {
            Err(e) => (t, Err(e)),
            Ok(_) => run_spec(t, (budget - 1) as nat),
        }
    }
}

/// One turn of the interactive driver: a halted machine finishes at once;
/// otherwise one cycle runs, and the driver waits for the trigger only while
/// the machine still runs.
pub open spec fn run_step_spec(s: MachineState) -> (MachineState, Result<NextAction, StepError>) {
    if s.run_state == RunState::Halted {
        (s, Ok(NextAction::Finish))
    } else {
        let (t, r) = step_spec(s);
        match r {
            Err(e) => (t, Err(e)),
            Ok(_) => (
                t,
                Ok(
                    if t.run_state == RunState::Halted {
                        NextAction::Finish
                    } else {
                        NextAction::AwaitTrigger
                    },
                ),
            ),
        }
    }
}

impl Machine {
    /// Runs cycles while the machine is running, for at most `max_steps`
    /// cycles. Returns `Ok(true)` once it has halted, `Ok(false)` if it still
    /// runs after `max_steps` cycles, and the first failure of a cycle
    /// otherwise.
    pub fn run_until_halt(&mut self, max_steps: u64) -> (r: Result<bool, StepError>)
        requires
            old(self)@.wf(),
        ensures
            final(self)@.wf(),
            (final(self)@, r) == run_spec(old(self)@, max_steps as nat),
    {
        let mut remaining: u64 = max_steps;
        loop
            invariant
                self@.wf(),
                run_spec(self@, remaining as nat) == run_spec(old(self)@, max_steps as nat),
            decreases remaining,
        {
            if let RunState::Halted = self.run_state() {
                return Ok(true);
            }
            if remaining == 0 {
                return Ok(false);
            }
            if let Err(e) = self.step() {
                return Err(e);
            }
            remaining = remaining - 1;
        }
    }

    /// One turn of the interactive driver. The caller waits for its trigger
    /// when the answer is `AwaitTrigger`, and stops on `Finish` or a failure.
    pub fn run_step(&mut self) -> (r: Result<NextAction, StepError>)
        requires
            old(self)@.wf(),
        ensures
            final(self)@.wf(),
            (final(self)@, r) == run_step_spec(old(self)@),
    {
        if let RunState::Halted = self.run_state() {
            return Ok(NextAction::Finish);
        }
        self.step()?;
        match self.run_state() {
            RunState::Halted => Ok(NextAction::Finish),
            RunState::Running => Ok(NextAction::AwaitTrigger),
        }
    }
}

} // verus!
