//! The machine state and its fetch-decode-execute cycle.
use vstd::prelude::*;

use crate::encoding::{
    decode, decode_spec, le_u32_value, le_u64_value, opcode_field, u64_from_le_bytes,
    word_from_le_bytes, Opcode, WORD_BYTES,
};

verus! {

/// Whether the machine still executes instructions.
#[derive(Clone, Copy, Debug, PartialEq, Eq, Structural)]
pub enum RunState {
    Running,
    Halted,
}

/// The one failure a cycle can report: the program counter points at or past
/// the end of memory, so no instruction can be fetched.
#[derive(Clone, Copy, Debug, PartialEq, Eq, Structural)]
pub enum StepError {
    EndOfMemory,
}

/// The abstract state of a machine.
pub struct MachineState {
    pub memory: Seq<u8>,
    pub registers: Seq<Seq<u8>>,
    pub program_counter: u64,
    pub current_instruction: u32,
    pub run_state: RunState,
}

impl MachineState {
    /// Memory holds whole words, there is a register slot 0, and every
    /// register is eight bytes wide.
    pub open spec fn wf(self) -> bool {
        &&& self.memory.len() % 4 == 0
        &&& self.memory.len() <= usize::MAX
        &&& self.registers.len() >= 1
        &&& forall|i: int| 0 <= i < self.registers.len() ==> #[trigger] self.registers[i].len() == 8
    }

    /// Number of instruction words that memory holds.
    pub open spec fn word_count(self) -> nat {
        self.memory.len() / 4
    }

    /// Whether the program counter names a word inside memory.
    pub open spec fn can_fetch(self) -> bool {
        (self.program_counter as nat) < self.word_count()
    }

    /// The four bytes of the instruction the program counter names.
    pub open spec fn fetched_bytes(self) -> Seq<u8> {
        let at = 4 * self.program_counter as int;
        self.memory.subrange(at, at + 4)
    }

    /// The instruction word the program counter names.
    pub open spec fn fetched_word(self) -> u32 {
        le_u32_value(self.fetched_bytes()) as u32
    }

    /// The operation the program counter names.
    pub open spec fn fetched_opcode(self) -> Opcode {
        decode_spec(opcode_field(self.fetched_word()))
    }

    /// The instruction index a jump goes to: the byte address in register
    /// slot 0, divided by the word width.
    pub open spec fn jump_target(self) -> u64 {
        (le_u64_value(self.registers[0]) / 4) as u64
    }
}

/// One instruction cycle. A halted machine is left as it is.
pub open spec fn step_spec(s: MachineState) -> (MachineState, Result<(), StepError>) {
    if s.run_state == RunState::Halted {
        (s, Ok(()))
    } else if !s.can_fetch() {
        (s, Err(StepError::EndOfMemory))
    } else {
        let fetched = MachineState { current_instruction: s.fetched_word(), ..s };
        match s.fetched_opcode() {
            Opcode::Halt => (MachineState { run_state: RunState::Halted, ..fetched }, Ok(())),
            Opcode::Jump => (MachineState { program_counter: s.jump_target(), ..fetched }, Ok(())),
            _ => (
                MachineState { program_counter: (s.program_counter + 1) as u64, ..fetched },
                Ok(()),
            ),
        }
    }
}

/// The contents of a register as the machine starts: eight zero bytes.
pub open spec fn zeroed_register() -> Seq<u8> {
    Seq::new(8, |k: int| 0u8)
}

/// A virtual machine: memory, registers, program counter and run state.
pub struct Machine {
    memory: Vec<u8>,
    registers: Vec<[u8; 8]>,
    program_counter: u64,
    current_instruction: u32,
    run_state: RunState,
}

impl View for Machine {
    type V = MachineState;

    closed spec fn view(&self) -> MachineState {
        MachineState {
            memory: self.memory@,
            registers: self.registers@.map_values(|r: [u8; 8]| r@),
            program_counter: self.program_counter,
            current_instruction: self.current_instruction,
            run_state: self.run_state,
        }
    }
}

impl Machine {
    /// A running machine with the given memory image, `register_count` zeroed
    /// registers, and the program counter at the first word.
    pub fn new(memory: Vec<u8>, register_count: usize) -> (m: Machine)
        requires
            memory@.len() % 4 == 0,
            register_count >= 1,
        ensures
            m@.wf(),
            m@.memory == memory@,
            m@.registers == Seq::new(register_count as nat, |i: int| zeroed_register()),
            m@.program_counter == 0,
            m@.current_instruction == 0,
            m@.run_state == RunState::Running,
    {
        let mut registers: Vec<[u8; 8]> = Vec::new();
        let mut i: usize = 0;
        while i < register_count
            invariant
                i <= register_count,
                registers@.len() == i,
                forall|j: int| 0 <= j < i ==> #[trigger] registers@[j]@ == zeroed_register(),
            decreases register_count - i,
        {
            let zero: [u8; 8] = [0u8; 8];
            assert(zero@ =~= zeroed_register());
            registers.push(zero);
            i = i + 1;
        }
        let m = Machine {
            memory,
            registers,
            program_counter: 0,
            current_instruction: 0,
            run_state: RunState::Running,
        };
        proof {
            m.lemma_view_wf();
        }
        assert(m@.registers =~= Seq::new(register_count as nat, |i: int| zeroed_register()));
        m
    }

    /// Performs one instruction cycle: fetches the word the program counter
    /// names, decodes it and executes it. A halted machine is left unchanged.
    pub fn step(&mut self) -> (r: Result<(), StepError>)
        requires
            old(self)@.wf(),
        ensures
            final(self)@.wf(),
            (final(self)@, r) == step_spec(old(self)@),
    {
        if let RunState::Halted = self.run_state {
            return Ok(());
        }
        let words = self.memory.len() / WORD_BYTES;
        if self.program_counter >= words as u64 {
            return Err(StepError::EndOfMemory);
        }
        let at = self.program_counter as usize * WORD_BYTES;
        let bytes: [u8; 4] = [
            self.memory[at],
            self.memory[at + 1],
            self.memory[at + 2],
            self.memory[at + 3],
        ];
        proof {
            assert(bytes@ =~= old(self)@.fetched_bytes());
            crate::encoding::lemma_opcode_is_last_byte(bytes@);
        }
        let word = word_from_le_bytes(&bytes);
        self.current_instruction = word;
        match decode(bytes[3]) {
            Opcode::Halt => {
                self.run_state = RunState::Halted;
            },
            Opcode::Jump => {
                let target = u64_from_le_bytes(&self.registers[0]);
                self.program_counter = target / 4;
            },
            _ => {
                self.program_counter = self.program_counter + 1;
            },
        }
        proof {
            self.lemma_view_wf();
        }
        Ok(())
    }

    /// Whether the machine is running or halted.
    pub fn run_state(&self) -> (r: RunState)
        ensures
            r == self@.run_state,
    {
        self.run_state
    }

    /// Index of the next instruction to execute, in words.
    pub fn program_counter(&self) -> (r: u64)
        ensures
            r == self@.program_counter,
    {
        self.program_counter
    }

    /// The most recently fetched instruction word.
    pub fn current_instruction(&self) -> (r: u32)
        ensures
            r == self@.current_instruction,
    {
        self.current_instruction
    }

    /// The memory image.
    pub fn memory(&self) -> (r: &[u8])
        ensures
            r@ == self@.memory,
    {
        self.memory.as_slice()
    }

    /// Number of register slots.
    pub fn register_count(&self) -> (r: usize)
        ensures
            r == self@.registers.len(),
    {
        self.registers.len()
    }

    /// The contents of register `slot`.
    pub fn register(&self, slot: usize) -> (r: [u8; 8])
        requires
            slot < self@.registers.len(),
        ensures
            r@ == self@.registers[slot as int],
    {
        self.registers[slot]
    }

    /// Sets the contents of register `slot`, as a caller does while preparing
    /// a machine before it runs. Nothing else changes.
    pub fn set_register(&mut self, slot: usize, value: [u8; 8])
        requires
            old(self)@.wf(),
            slot < old(self)@.registers.len(),
        ensures
            final(self)@.wf(),
            final(self)@ == (MachineState {
                registers: old(self)@.registers.update(slot as int, value@),
                ..old(self)@
            }),
    {
        self.registers.set(slot, value);
        proof {
            self.lemma_view_wf();
            assert(self@.registers =~= old(self)@.registers.update(slot as int, value@));
        }
    }

    /// The view of a machine whose fields hold their types' limits.
    proof fn lemma_view_wf(&self)
        requires
            self.memory@.len() % 4 == 0,
            self.registers@.len() >= 1,
        ensures
            self@.wf(),
    {
        assert(self.memory@.len() == self.memory.len());
        assert(self@.registers.len() == self.registers@.len());
        assert forall|i: int| 0 <= i < self@.registers.len() implies #[trigger] self@.registers[i].len()
            == 8 by {
            assert(self@.registers[i] == self.registers@[i]@);
        }
    }
}

} // verus!
