use hemu::alu::{alu, mux, AluOutput};

fn run(x: u16, y: u16, bits: [bool; 6]) -> AluOutput {
    alu(x, y, bits[0], bits[1], bits[2], bits[3], bits[4], bits[5])
}

const ZERO: [bool; 6] = [true, false, true, false, true, false];
const ONE: [bool; 6] = [true, true, true, true, true, true];
const MINUS_ONE: [bool; 6] = [true, true, true, false, true, false];
const X: [bool; 6] = [false, false, true, true, false, false];
const NOT_X: [bool; 6] = [false, false, true, true, false, true];
const NEG_Y: [bool; 6] = [true, true, false, false, true, true];
const X_PLUS_Y: [bool; 6] = [false, false, false, false, true, false];
const X_MINUS_Y: [bool; 6] = [false, true, false, false, true, true];
const Y_MINUS_X: [bool; 6] = [false, false, false, true, true, true];
const X_AND_Y: [bool; 6] = [false, false, false, false, false, false];
const X_OR_Y: [bool; 6] = [false, true, false, true, false, true];

#[test]
fn alu_constants() {
    assert_eq!(run(17, 3, ZERO), AluOutput { output: 0, zero: true, negative: false });
    assert_eq!(run(17, 3, ONE), AluOutput { output: 1, zero: false, negative: false });
    assert_eq!(run(17, 3, MINUS_ONE), AluOutput { output: 0xffff, zero: false, negative: true });
}

#[test]
fn alu_unary() {
    assert_eq!(run(17, 3, X).output, 17);
    assert_eq!(run(17, 3, NOT_X).output, !17u16);
    assert_eq!(run(17, 3, NEG_Y).output, 3u16.wrapping_neg());
}

#[test]
fn alu_binary() {
    assert_eq!(run(17, 3, X_PLUS_Y).output, 20);
    assert_eq!(run(17, 3, X_MINUS_Y).output, 14);
    assert_eq!(run(17, 3, Y_MINUS_X), AluOutput { output: 0xfff2, zero: false, negative: true });
    assert_eq!(run(0b1100, 0b1010, X_AND_Y).output, 0b1000);
    assert_eq!(run(0b1100, 0b1010, X_OR_Y).output, 0b1110);
}

#[test]
fn alu_addition_wraps() {
    assert_eq!(run(0xffff, 1, X_PLUS_Y), AluOutput { output: 0, zero: true, negative: false });
    assert_eq!(run(0x7fff, 1, X_PLUS_Y), AluOutput { output: 0x8000, zero: false, negative: true });
}

#[test]
fn alu_flags_match_output() {
    for x in [0u16, 1, 0x7fff, 0x8000, 0xffff, 1234] {
        for y in [0u16, 1, 0x7fff, 0x8000, 0xffff, 4321] {
            for c in 0u8..64 {
                let b = |k: u8| c & (1 << k) != 0;
                let r = alu(x, y, b(5), b(4), b(3), b(2), b(1), b(0));
                assert_eq!(r.zero, r.output == 0);
                assert_eq!(r.negative, r.output & 0x8000 != 0);
                assert_eq!(r.negative, (r.output as i16) < 0);
            }
        }
    }
}

#[test]
fn alu_matches_stepwise_definition() {
    for x in [0u16, 5, 0x7fff, 0x8000, 0xfffe] {
        for y in [0u16, 9, 0x00ff, 0xff00, 0xffff] {
            for c in 0u8..64 {
                let b = |k: u8| c & (1 << k) != 0;
                let (zx, nx, zy, ny, f, no) = (b(5), b(4), b(3), b(2), b(1), b(0));
                let mut xx = if zx { 0 } else { x };
                if nx {
                    xx = !xx;
                }
                let mut yy = if zy { 0 } else { y };
                if ny {
                    yy = !yy;
                }
                let mut out = if f { xx.wrapping_add(yy) } else { xx & yy };
                if no {
                    out = !out;
                }
                assert_eq!(alu(x, y, zx, nx, zy, ny, f, no).output, out);
            }
        }
    }
}

#[test]
fn mux_selects() {
    assert_eq!(mux(3, 9, false), 3);
    assert_eq!(mux(3, 9, true), 9);
}
