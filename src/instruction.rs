use vstd::prelude::*;
use crate::alu::bit;

verus! {

/// Mask of the literal carried by an A-instruction (bits 0 to 14).
pub const LITERAL_MASK: u16 = 0x7fff;

/// The fields of an instruction word, as read straight from its bits.
#[derive(Clone, Copy, Debug, PartialEq, Eq, Structural)]
pub struct ControlSignals {
    /// Bit 15: a C-instruction (else an A-instruction).
    pub is_c: bool,
    /// Bit 12: the ALU's second operand is the memory cell at A.
    pub use_memory: bool,
    /// Bits 11 to 6: the ALU control bits.
    pub zx: bool,
    pub nx: bool,
    pub zy: bool,
    pub ny: bool,
    pub f: bool,
    pub no: bool,
    /// Bits 5 to 3: destination flags for A, D and memory.
    pub dest_a: bool,
    pub dest_d: bool,
    pub dest_m: bool,
    /// Bits 2 to 0: jump when the result is negative, zero, positive.
    pub jump_negative: bool,
    pub jump_zero: bool,
    pub jump_positive: bool,
}

pub open spec fn decode_spec(instruction: u16) -> ControlSignals {
    ControlSignals {
        is_c: bit(instruction, 15),
        use_memory: bit(instruction, 12),
        zx: bit(instruction, 11),
        nx: bit(instruction, 10),
        zy: bit(instruction, 9),
        ny: bit(instruction, 8),
        f: bit(instruction, 7),
        no: bit(instruction, 6),
        dest_a: bit(instruction, 5),
        dest_d: bit(instruction, 4),
        dest_m: bit(instruction, 3),
        jump_negative: bit(instruction, 2),
        jump_zero: bit(instruction, 1),
        jump_positive: bit(instruction, 0),
    }
}

/// The value an A-instruction loads into register A.
pub open spec fn literal(instruction: u16) -> u16 {
    instruction & LITERAL_MASK
}

/// Register D is loaded only by a C-instruction with its D-destination bit.
pub open spec fn writes_d(c: ControlSignals) -> bool {
    c.is_c && c.dest_d
}

/// Memory is written only by a C-instruction with its M-destination bit.
pub open spec fn writes_m(c: ControlSignals) -> bool {
    c.is_c && c.dest_m
}

fn test_bit(word: u16, k: u16) -> (r: bool)
    requires
        k < 16,
    ensures
        r == bit(word, k),
{
    (word >> k) & 1u16 == 1u16
}

/// Splits an instruction word into its control signals.
pub fn decode(instruction: u16) -> (r: ControlSignals)
    ensures
        r == decode_spec(instruction),
{
    ControlSignals {
        is_c: test_bit(instruction, 15),
        use_memory: test_bit(instruction, 12),
        zx: test_bit(instruction, 11),
        nx: test_bit(instruction, 10),
        zy: test_bit(instruction, 9),
        ny: test_bit(instruction, 8),
        f: test_bit(instruction, 7),
        no: test_bit(instruction, 6),
        dest_a: test_bit(instruction, 5),
        dest_d: test_bit(instruction, 4),
        dest_m: test_bit(instruction, 3),
        jump_negative: test_bit(instruction, 2),
        jump_zero: test_bit(instruction, 1),
        jump_positive: test_bit(instruction, 0),
    }
}

} // verus!
