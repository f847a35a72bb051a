use vstd::prelude::*;
use crate::alu::{alu, alu_spec, mux, AluOutput};
use crate::instruction::{
    decode, decode_spec, literal, writes_d, writes_m, ControlSignals, LITERAL_MASK,
};
use crate::program_counter::{next_index, ProgramCounter};

verus! {

/// A read-only snapshot of the CPU's registers.
#[derive(Clone, Copy, Debug, PartialEq, Eq, Structural)]
pub struct Registers {
    pub a: u16,
    pub d: u16,
    pub pc: u16,
}

/// The ALU's second operand: the memory cell at A when a C-instruction asks
/// for it, else register A.
pub open spec fn operand_y(regs: Registers, c: ControlSignals, memory_in: u16) -> u16 {
    if c.is_c && c.use_memory { memory_in } else { regs.a }
}

/// What the ALU computes in a cycle; its first operand is always D.
pub open spec fn alu_result(regs: Registers, instruction: u16, memory_in: u16) -> AluOutput {
    let c = decode_spec(instruction);
    alu_spec(regs.d, operand_y(regs, c, memory_in), c.zx, c.nx, c.zy, c.ny, c.f, c.no)
}

/// Whether a cycle jumps: only a C-instruction does, when one of its jump
/// bits matches the sign of the ALU result.
pub open spec fn jump_taken(c: ControlSignals, out: AluOutput) -> bool {
    c.is_c && ((c.jump_negative && out.negative) || (c.jump_zero && out.zero) || (
    c.jump_positive && !out.zero && !out.negative))
}

/// The registers after one cycle.
pub open spec fn next_registers(
    regs: Registers,
    instruction: u16,
    memory_in: u16,
    reset: bool,
) -> Registers {
    let c = decode_spec(instruction);
    let out = alu_result(regs, instruction, memory_in);
    let a: u16 = if !c.is_c {
        literal(instruction)
    } else if c.dest_a {
        out.output
    } else {
        regs.a
    };
    let d: u16 = if writes_d(c) { out.output } else { regs.d };
    let pc: u16 = if reset {
        0
    } else if jump_taken(c, out) {
        a
    } else {
        next_index(regs.pc)
    };
    Registers { a, d, pc }
}

/// What a cycle hands on: the value to store, the address (A's new value),
/// whether to write memory, and the index of the next instruction.
pub open spec fn cycle_outputs(regs: Registers, instruction: u16, memory_in: u16, reset: bool) -> (
    u16,
    u16,
    bool,
    u16,
) {
    let next = next_registers(regs, instruction, memory_in, reset);
    (
        alu_result(regs, instruction, memory_in).output,
        next.a,
        writes_m(decode_spec(instruction)),
        next.pc,
    )
}

/// The processor: registers A and D and the program counter.
#[derive(Debug)]
pub struct Cpu {
    register_a: u16,
    register_d: u16,
    pc: ProgramCounter,
}

impl View for Cpu {
    type V = Registers;

    closed spec fn view(&self) -> Registers {
        Registers { a: self.register_a, d: self.register_d, pc: self.pc@ }
    }
}

impl Cpu {
    /// A processor with every register zero.
    pub fn new() -> (r: Self)
        ensures
            r@ == (Registers { a: 0, d: 0, pc: 0 }),
    {
        Cpu { register_a: 0, register_d: 0, pc: ProgramCounter::new() }
    }

    /// Executes one instruction. `input_m` is the memory cell at the current
    /// value of A; `reset` forces the next index to 0. Returns the ALU output,
    /// the new value of A (the memory address), the memory write enable and
    /// the index of the next instruction.
    pub fn cpu(&mut self, instruction: u16, input_m: u16, reset: bool) -> (r: (u16, u16, bool, u16))
        ensures
            final(self)@ == next_registers(old(self)@, instruction, input_m, reset),
            r == cycle_outputs(old(self)@, instruction, input_m, reset),
    {
        let c = decode(instruction);
        let y = mux(self.register_a, input_m, c.is_c && c.use_memory);
        let out = alu(self.register_d, y, c.zx, c.nx, c.zy, c.ny, c.f, c.no);

        let write_a = !c.is_c || c.dest_a;
        let write_d = c.is_c && c.dest_d;
        let write_m = c.is_c && c.dest_m;
        if write_a {
            self.register_a = mux(out.output, instruction & LITERAL_MASK, !c.is_c);
        }
        if write_d {
            self.register_d = out.output;
        }

        let positive = !out.zero && !out.negative;
        let jump = c.is_c && ((c.jump_negative && out.negative) || (c.jump_zero && out.zero) || (
        c.jump_positive && positive));
        if reset {
            self.pc.reset();
        } else if jump {
            self.pc.set(self.register_a);
        } else {
            self.pc.increment();
        }

        (out.output, self.register_a, write_m, self.pc.get())
    }

    pub fn register_a(&self) -> (r: u16)
        ensures
            r == self@.a,
    {
        self.register_a
    }

    pub fn register_d(&self) -> (r: u16)
        ensures
            r == self@.d,
    {
        self.register_d
    }

    pub fn pc(&self) -> (r: u16)
        ensures
            r == self@.pc,
    {
        self.pc.get()
    }

    /// All registers at once, for inspection.
    pub fn snapshot(&self) -> (r: Registers)
        ensures
            r == self@,
    {
        Registers { a: self.register_a, d: self.register_d, pc: self.pc.get() }
    }
}

/// A C-instruction whose A-destination bit is clear leaves A as it was, and
/// an instruction whose D-destination bit is clear leaves D as it was.
pub proof fn lemma_register_retention(
    regs: Registers,
    instruction: u16,
    memory_in: u16,
    reset: bool,
)
    ensures
        decode_spec(instruction).is_c && !decode_spec(instruction).dest_a ==> next_registers(
            regs,
            instruction,
            memory_in,
            reset,
        ).a == regs.a,
        !decode_spec(instruction).dest_d ==> next_registers(regs, instruction, memory_in, reset).d
            == regs.d,
{
}

/// With the reset signal raised the next index is 0, whatever the
/// instruction and the registers.
pub proof fn lemma_reset_priority(regs: Registers, instruction: u16, memory_in: u16)
    ensures
        next_registers(regs, instruction, memory_in, true).pc == 0,
        cycle_outputs(regs, instruction, memory_in, true).3 == 0,
{
}

} // verus!
