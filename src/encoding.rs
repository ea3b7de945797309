//! The instruction word format: four little-endian bytes, opcode in the
//! most-significant byte.
use vstd::prelude::*;

verus! {

/// Width of one instruction word, in bytes.
pub const WORD_BYTES: usize = 4;

pub const OPCODE_NOOP: u8 = 0x00;
pub const OPCODE_HALT: u8 = 0x01;
pub const OPCODE_MOVE: u8 = 0x02;
pub const OPCODE_LOAD: u8 = 0x03;
pub const OPCODE_JUMP: u8 = 0x04;

/// Mask applied to the opcode field before it is compared.
pub const OPCODE_MASK: u8 = 0xFF;

/// A decoded operation. Opcode bytes outside the table decode to `Unknown`,
/// which executes as a no-op.
#[derive(Clone, Copy, Debug, PartialEq, Eq, Structural)]
pub enum Opcode {
    Noop,
    Halt,
    Move,
    Load,
    Jump,
    Unknown,
}

/// The operation named by an opcode byte.
pub open spec fn decode_spec(op: u8) -> Opcode {
    let m = op & OPCODE_MASK;
    if m == OPCODE_NOOP {
        Opcode::Noop
    } else if m == OPCODE_HALT {
        Opcode::Halt
    } else if m == OPCODE_MOVE {
        Opcode::Move
    } else if m == OPCODE_LOAD {
        Opcode::Load
    } else if m == OPCODE_JUMP {
        Opcode::Jump
    } else {
        Opcode::Unknown
    }
}

/// The value of four bytes read as a little-endian unsigned integer.
pub open spec fn le_u32_value(b: Seq<u8>) -> nat {
    b[0] as nat + 0x100 * (b[1] as nat) + 0x1_0000 * (b[2] as nat) + 0x100_0000 * (b[3] as nat)
}

/// The value of eight bytes read as a little-endian unsigned integer.
pub open spec fn le_u64_value(b: Seq<u8>) -> nat {
    le_u32_value(b.subrange(0, 4)) + 0x1_0000_0000 * le_u32_value(b.subrange(4, 8))
}

/// The opcode field of an instruction word: its most-significant byte.
pub open spec fn opcode_field(word: u32) -> u8 {
    (word / 0x100_0000) as u8
}

/// Decodes an opcode byte.
pub fn decode(op: u8) -> (r: Opcode)
    ensures
        r == decode_spec(op),
{
    let m = op & OPCODE_MASK;
    if m == OPCODE_NOOP {
        Opcode::Noop
    } else if m == OPCODE_HALT {
        Opcode::Halt
    } else if m == OPCODE_MOVE {
        Opcode::Move
    } else if m == OPCODE_LOAD {
        Opcode::Load
    } else if m == OPCODE_JUMP {
        Opcode::Jump
    } else {
        Opcode::Unknown
    }
}

/// Decodes a whole instruction word by its opcode field. Every word decodes
/// to exactly one operation.
pub fn decode_word(word: u32) -> (r: Opcode)
    ensures
        r == decode_spec(opcode_field(word)),
{
    decode((word / 0x100_0000) as u8)
}

/// Reads four bytes as a little-endian 32-bit word.
pub fn word_from_le_bytes(b: &[u8; 4]) -> (r: u32)
    ensures
        r as nat == le_u32_value(b@),
        opcode_field(r) == b@[3],
{
    let w = b[0] as u32 + 0x100 * (b[1] as u32) + 0x1_0000 * (b[2] as u32) + 0x100_0000 * (b[3] as u32);
    assert(w / 0x100_0000 == b[3] as u32);
    w
}

/// Reads eight bytes as a little-endian 64-bit integer.
pub fn u64_from_le_bytes(b: &[u8; 8]) -> (r: u64)
    ensures
        r as nat == le_u64_value(b@),
{
    let lo = word_from_le_bytes(&[b[0], b[1], b[2], b[3]]);
    let hi = word_from_le_bytes(&[b[4], b[5], b[6], b[7]]);
    proof {
        let s = b@;
        assert(s.subrange(0, 4) =~= seq![b[0], b[1], b[2], b[3]]);
        assert(s.subrange(4, 8) =~= seq![b[4], b[5], b[6], b[7]]);
    }
    lo as u64 + 0x1_0000_0000 * (hi as u64)
}

/// The opcode field of a word read from four little-endian bytes is the last
/// of those bytes.
pub proof fn lemma_opcode_is_last_byte(b: Seq<u8>)
    requires
        b.len() == 4,
    ensures
        opcode_field(le_u32_value(b) as u32) == b[3],
{
    let w = le_u32_value(b);
    assert(w < 0x1_0000_0000);
    assert(w / 0x100_0000 == b[3] as nat);
}

} // verus!
