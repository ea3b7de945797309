use vcpu::driver::NextAction;
use vcpu::encoding::{decode, decode_word, u64_from_le_bytes, word_from_le_bytes, Opcode};
use vcpu::machine::{Machine, RunState, StepError};

fn zeroed(len: usize) -> Vec<u8> {
    vec![0u8; len]
}

#[test]
fn single_halt_word_halts_without_advancing() {
    let mut m = Machine::new(vec![0x00, 0x00, 0x00, 0x01], 4);
    assert_eq!(m.step(), Ok(()));
    assert_eq!(m.run_state(), RunState::Halted);
    assert_eq!(m.program_counter(), 0);
    assert_eq!(m.current_instruction(), 0x0100_0000);
}

#[test]
fn two_noops_then_end_of_memory() {
    let mut m = Machine::new(zeroed(8), 4);
    assert_eq!(m.step(), Ok(()));
    assert_eq!(m.program_counter(), 1);
    assert_eq!(m.step(), Ok(()));
    assert_eq!(m.program_counter(), 2);
    assert_eq!(m.step(), Err(StepError::EndOfMemory));
    assert_eq!(m.program_counter(), 2);
    assert_eq!(m.run_state(), RunState::Running);
}

#[test]
fn jump_uses_register_zero_as_byte_address() {
    let mut mem = zeroed(16);
    mem[3] = 0x04;
    let mut m = Machine::new(mem, 4);
    m.set_register(0, 12u64.to_le_bytes());
    assert_eq!(m.step(), Ok(()));
    assert_eq!(m.program_counter(), 3);
    assert_eq!(m.run_state(), RunState::Running);
}

#[test]
fn jump_to_large_address() {
    let mut mem = zeroed(4);
    mem[3] = 0x04;
    let mut m = Machine::new(mem, 1);
    m.set_register(0, [0, 1, 0, 0, 0, 0, 0, 0x80]);
    assert_eq!(m.step(), Ok(()));
    assert_eq!(m.program_counter(), 0x8000_0000_0000_0100 / 4);
}

#[test]
fn jump_past_end_then_end_of_memory() {
    let mut mem = zeroed(8);
    mem[3] = 0x04;
    let mut m = Machine::new(mem, 4);
    m.set_register(0, 400u64.to_le_bytes());
    assert_eq!(m.step(), Ok(()));
    assert_eq!(m.program_counter(), 100);
    assert_eq!(m.step(), Err(StepError::EndOfMemory));
    assert_eq!(m.program_counter(), 100);
}

#[test]
fn default_advance_for_move_load_and_unknown() {
    let mut mem = zeroed(16);
    mem[3] = 0x02;
    mem[7] = 0x03;
    mem[11] = 0xAB;
    let mut m = Machine::new(mem, 4);
    for expected in 1..=3u64 {
        assert_eq!(m.step(), Ok(()));
        assert_eq!(m.program_counter(), expected);
        assert_eq!(m.run_state(), RunState::Running);
    }
    assert_eq!(m.current_instruction(), 0xAB00_0000);
}

#[test]
fn payload_bytes_do_not_change_the_opcode() {
    let mut m = Machine::new(vec![0x04, 0x03, 0x02, 0x00], 4);
    assert_eq!(m.step(), Ok(()));
    assert_eq!(m.program_counter(), 1);
    assert_eq!(m.current_instruction(), 0x0002_0304);
}

#[test]
fn halted_machine_is_left_unchanged() {
    let mut m = Machine::new(vec![0x00, 0x00, 0x00, 0x01], 4);
    assert_eq!(m.step(), Ok(()));
    assert_eq!(m.step(), Ok(()));
    assert_eq!(m.program_counter(), 0);
    assert_eq!(m.run_until_halt(10), Ok(true));
    assert_eq!(m.run_step(), Ok(NextAction::Finish));
    assert_eq!(m.program_counter(), 0);
    assert_eq!(m.run_state(), RunState::Halted);
}

#[test]
fn end_of_memory_on_empty_memory() {
    let mut m = Machine::new(Vec::new(), 4);
    assert_eq!(m.step(), Err(StepError::EndOfMemory));
    assert_eq!(m.current_instruction(), 0);
}

#[test]
fn end_of_memory_after_walking_whole_memory() {
    let mut m = Machine::new(zeroed(1024), 4);
    for _ in 0..256 {
        assert_eq!(m.step(), Ok(()));
    }
    assert_eq!(m.program_counter(), 256);
    assert_eq!(m.step(), Err(StepError::EndOfMemory));
}

#[test]
fn run_until_halt_stops_at_last_word() {
    let mut mem = zeroed(1024);
    mem[1023] = 0x01;
    let mut m = Machine::new(mem, 4);
    assert_eq!(m.run_until_halt(1000), Ok(true));
    assert_eq!(m.run_state(), RunState::Halted);
    assert_eq!(m.program_counter(), 255);
}

#[test]
fn run_until_halt_reports_end_of_memory() {
    let mut m = Machine::new(zeroed(64), 4);
    assert_eq!(m.run_until_halt(1000), Err(StepError::EndOfMemory));
    assert_eq!(m.program_counter(), 16);
}

#[test]
fn run_until_halt_stops_when_budget_is_spent() {
    let mut m = Machine::new(zeroed(64), 4);
    assert_eq!(m.run_until_halt(5), Ok(false));
    assert_eq!(m.program_counter(), 5);
    assert_eq!(m.run_state(), RunState::Running);
}

#[test]
fn jump_opcode_at_byte_seven_loops_back_to_start() {
    // Byte 7 is the opcode byte of the second word, so that word is a JUMP to
    // the address in register 0, which is zero: the program never halts.
    let mut mem = zeroed(1024);
    mem[1023] = 0x01;
    mem[7] = 0x04;
    let mut m = Machine::new(mem, 4);
    assert_eq!(m.run_until_halt(1001), Ok(false));
    assert_eq!(m.run_state(), RunState::Running);
    assert_eq!(m.program_counter(), 1);
    assert_eq!(m.step(), Ok(()));
    assert_eq!(m.program_counter(), 0);
}

#[test]
fn run_step_pauses_while_running() {
    let mut m = Machine::new(vec![0, 0, 0, 0, 0, 0, 0, 0x01], 4);
    assert_eq!(m.run_step(), Ok(NextAction::AwaitTrigger));
    assert_eq!(m.program_counter(), 1);
    assert_eq!(m.run_step(), Ok(NextAction::Finish));
    assert_eq!(m.run_state(), RunState::Halted);
    assert_eq!(m.run_step(), Ok(NextAction::Finish));
    assert_eq!(m.program_counter(), 1);
}

#[test]
fn run_step_reports_end_of_memory() {
    let mut m = Machine::new(zeroed(4), 4);
    assert_eq!(m.run_step(), Ok(NextAction::AwaitTrigger));
    assert_eq!(m.run_step(), Err(StepError::EndOfMemory));
}

#[test]
fn decode_table() {
    assert_eq!(decode(0x00), Opcode::Noop);
    assert_eq!(decode(0x01), Opcode::Halt);
    assert_eq!(decode(0x02), Opcode::Move);
    assert_eq!(decode(0x03), Opcode::Load);
    assert_eq!(decode(0x04), Opcode::Jump);
    assert_eq!(decode(0x05), Opcode::Unknown);
    assert_eq!(decode(0xFF), Opcode::Unknown);
}

#[test]
fn decode_word_reads_most_significant_byte() {
    assert_eq!(decode_word(0x0100_0000), Opcode::Halt);
    assert_eq!(decode_word(0x0000_0001), Opcode::Noop);
    assert_eq!(decode_word(0x04FF_FFFF), Opcode::Jump);
    assert_eq!(decode_word(0xFFFF_FFFF), Opcode::Unknown);
    for w in [0u32, 1, 0x0200_0000, 0x0300_0000, 0x0500_0000, 0x8000_0000] {
        assert_eq!(decode_word(w), decode((w >> 24) as u8));
    }
}

#[test]
fn little_endian_readers() {
    assert_eq!(word_from_le_bytes(&[0x78, 0x56, 0x34, 0x12]), 0x1234_5678);
    assert_eq!(word_from_le_bytes(&[0xFF, 0xFF, 0xFF, 0xFF]), u32::MAX);
    assert_eq!(u64_from_le_bytes(&12u64.to_le_bytes()), 12);
    assert_eq!(
        u64_from_le_bytes(&[1, 2, 3, 4, 5, 6, 7, 8]),
        0x0807_0605_0403_0201
    );
    assert_eq!(u64_from_le_bytes(&[0xFF; 8]), u64::MAX);
}

#[test]
fn new_machine_state() {
    let m = Machine::new(vec![1, 2, 3, 4, 5, 6, 7, 8], 4);
    assert_eq!(m.program_counter(), 0);
    assert_eq!(m.current_instruction(), 0);
    assert_eq!(m.run_state(), RunState::Running);
    assert_eq!(m.register_count(), 4);
    assert_eq!(m.register(3), [0u8; 8]);
    assert_eq!(m.memory(), &[1, 2, 3, 4, 5, 6, 7, 8]);
}

#[test]
fn set_register_changes_one_slot() {
    let mut m = Machine::new(zeroed(4), 2);
    m.set_register(1, [9; 8]);
    assert_eq!(m.register(0), [0u8; 8]);
    assert_eq!(m.register(1), [9u8; 8]);
}
