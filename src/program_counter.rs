use vstd::prelude::*;

verus! {

/// The 16-bit program counter: the index of the next instruction.
#[derive(Clone, Copy, Debug, PartialEq, Eq, Structural)]
pub struct ProgramCounter {
    value: u16,
}

/// The successor of a counter value, wrapping at 16 bits.
pub open spec fn next_index(pc: u16) -> u16 {
    if pc == u16::MAX { 0 } else { (pc + 1) as u16 }
}

impl View for ProgramCounter {
    type V = u16;

    closed spec fn view(&self) -> u16 {
        self.value
    }
}

impl ProgramCounter {
    pub fn new() -> (r: Self)
        ensures
            r@ == 0,
    {
        ProgramCounter { value: 0 }
    }

    pub fn get(&self) -> (r: u16)
        ensures
            r == self@,
    {
        self.value
    }

    /// Loads `addr` unconditionally (a jump).
    pub fn set(&mut self, addr: u16)
        ensures
            final(self)@ == addr,
    {
        self.value = addr;
    }

    /// Advances to the next index, wrapping at 16 bits.
    pub fn increment(&mut self)
        ensures
            final(self)@ == next_index(old(self)@),
    {
        self.value = self.value.wrapping_add(1);
    }

    pub fn reset(&mut self)
        ensures
            final(self)@ == 0,
    {
        self.value = 0;
    }
}

} // verus!
