use vstd::prelude::*;

verus! {

/// Bit `k` of a 16-bit word (bit 0 is the least significant).
pub open spec fn bit(word: u16, k: u16) -> bool {
    (word >> k) & 1u16 == 1u16
}

/// Addition modulo 2^16.
pub open spec fn add16(x: u16, y: u16) -> u16 {
    ((x + y) % 0x1_0000) as u16
}

/// What the ALU hands back: its output word and the two status flags.
#[derive(Clone, Copy, Debug, PartialEq, Eq, Structural)]
pub struct AluOutput {
    pub output: u16,
    pub zero: bool,
    pub negative: bool,
}

/// The ALU's combinational function, step by step: optionally zero and then
/// negate each operand, add or AND them, optionally negate the result, and
/// derive the flags from the final word.
pub open spec fn alu_spec(
    x: u16,
    y: u16,
    zx: bool,
    nx: bool,
    zy: bool,
    ny: bool,
    f: bool,
    no: bool,
) -> AluOutput {
    let x1: u16 = if zx { 0 } else { x };
    let x2: u16 = if nx { !x1 } else { x1 };
    let y1: u16 = if zy { 0 } else { y };
    let y2: u16 = if ny { !y1 } else { y1 };
    let r: u16 = if f { add16(x2, y2) } else { x2 & y2 };
    let out: u16 = if no { !r } else { r };
    AluOutput { output: out, zero: out == 0, negative: bit(out, 15) }
}

/// Runs the ALU over operands `x`, `y` under the six control bits.
pub fn alu(x: u16, y: u16, zx: bool, nx: bool, zy: bool, ny: bool, f: bool, no: bool) -> (r:
    AluOutput)
    ensures
        r == alu_spec(x, y, zx, nx, zy, ny, f, no),
        r.zero == (r.output == 0),
        r.negative == bit(r.output, 15),
{
    let mut x = x;
    let mut y = y;
    if zx {
        x = 0;
    }
    if nx {
        x = !x;
    }
    if zy {
        y = 0;
    }
    if ny {
        y = !y;
    }
    let mut output: u16 = if f {
        x.wrapping_add(y)
    } else {
        x & y
    };
    if no {
        output = !output;
    }
    AluOutput { output, zero: output == 0, negative: (output >> 15u16) & 1u16 == 1u16 }
}

/// Two-way selector: `b` when `select` is set, else `a`.
pub fn mux(a: u16, b: u16, select: bool) -> (r: u16)
    ensures
        r == (if select { b } else { a }),
{
    if select {
        b
    } else {
        a
    }
}

/// The negative flag is the sign of the output read as a two's-complement
/// number.
pub proof fn lemma_negative_is_sign(out: u16)
    ensures
        bit(out, 15) == ((out as i16) < 0),
{
    assert(((out >> 15u16) & 1u16 == 1u16) == ((out as i16) < 0)) by (bit_vector);
}

} // verus!
