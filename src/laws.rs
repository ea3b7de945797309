//! Properties of the instruction cycle and the drivers, proved over the
//! abstract machine state.
use vstd::prelude::*;

use crate::driver::{run_spec, run_step_spec, NextAction};
use crate::encoding::{decode_spec, le_u64_value, opcode_field, Opcode};
use crate::machine::{step_spec, MachineState, RunState, StepError};

verus! {

/// Every instruction word decodes to exactly one operation: the five opcode
/// values of the table to their operations, and every other value to
/// `Unknown`.
pub proof fn lemma_decode_total(word: u32)
    ensures
        ({
            let op = opcode_field(word);
            &&& (decode_spec(op) == Opcode::Noop <==> op == 0x00)
            &&& (decode_spec(op) == Opcode::Halt <==> op == 0x01)
            &&& (decode_spec(op) == Opcode::Move <==> op == 0x02)
            &&& (decode_spec(op) == Opcode::Load <==> op == 0x03)
            &&& (decode_spec(op) == Opcode::Jump <==> op == 0x04)
            &&& (decode_spec(op) == Opcode::Unknown <==> op > 0x04)
        }),
{
    let op = opcode_field(word);
    assert(op & 0xFF == op) by (bit_vector);
}

/// Executing HALT halts the machine and leaves the program counter where it
/// was; after that, a cycle, a run of any length and a turn of the
/// interactive driver all succeed at once and change nothing.
pub proof fn lemma_halt_is_terminal(s: MachineState, budget: nat)
    requires
        s.wf(),
        s.run_state == RunState::Running,
        s.can_fetch(),
        s.fetched_opcode() == Opcode::Halt,
    ensures
        ({
            let (t, r) = step_spec(s);
            &&& r == Ok::<(), StepError>(())
            &&& t.run_state == RunState::Halted
            &&& t.program_counter == s.program_counter
            &&& step_spec(t) == (t, Ok::<(), StepError>(()))
            &&& run_spec(t, budget) == (t, Ok::<bool, StepError>(true))
            &&& run_step_spec(t) == (t, Ok::<NextAction, StepError>(NextAction::Finish))
        }),
{
}

/// With register slot 0 holding the little-endian byte address `a`, a
/// multiple of the word width, JUMP sets the program counter to `a / 4` and
/// nothing more is added to it.
pub proof fn lemma_jump_sets_counter(s: MachineState, a: u64)
    requires
        s.wf(),
        s.run_state == RunState::Running,
        s.can_fetch(),
        s.fetched_opcode() == Opcode::Jump,
        le_u64_value(s.registers[0]) == a,
        a % 4 == 0,
    ensures
        step_spec(s).1 == Ok::<(), StepError>(()),
        step_spec(s).0.program_counter == a / 4,
        step_spec(s).0.run_state == RunState::Running,
{
}

/// NOOP, MOVE, LOAD and unknown opcodes advance the program counter by one
/// and leave the machine running.
pub proof fn lemma_default_advance(s: MachineState)
    requires
        s.wf(),
        s.run_state == RunState::Running,
        s.can_fetch(),
        s.fetched_opcode() != Opcode::Halt,
        s.fetched_opcode() != Opcode::Jump,
    ensures
        step_spec(s).1 == Ok::<(), StepError>(()),
        step_spec(s).0.program_counter == s.program_counter + 1,
        step_spec(s).0.run_state == RunState::Running,
{
}

/// A running machine whose program counter has reached the end of memory
/// fails its next cycle with `EndOfMemory`, without fetching: its state,
/// the current instruction included, is unchanged.
pub proof fn lemma_end_of_memory(s: MachineState)
    requires
        s.wf(),
        s.run_state == RunState::Running,
        s.program_counter == s.word_count(),
    ensures
        step_spec(s) == (s, Err::<(), StepError>(StepError::EndOfMemory)),
{
}

} // verus!
