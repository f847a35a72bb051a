use vstd::prelude::*;
use crate::cpu::{cycle_outputs, next_registers, Cpu, Registers};
use crate::memory::{Memory, MemoryView, RAM_SIZE, SCREEN_SIZE};
use crate::stall::{StallDetector, StallView};

verus! {

/// What one fetch/execute cycle did.
#[derive(Clone, Copy, Debug, PartialEq, Eq, Structural)]
pub enum CycleResult {
    /// An instruction was fetched and executed.
    Executed,
    /// The program counter is past the last instruction: the program ended.
    Exhausted,
    /// The fetched instruction completed the stall pattern; it was not executed.
    Stalled,
}

/// Why a run stopped.
#[derive(Clone, Copy, Debug, PartialEq, Eq, Structural)]
pub enum Halt {
    Exhausted,
    Stalled,
    /// The cycle budget was spent with the program still running.
    CycleLimit,
}

/// How a run ended, and how many instructions it executed.
#[derive(Clone, Copy, Debug, PartialEq, Eq, Structural)]
pub struct RunOutcome {
    pub halt: Halt,
    pub cycles: u64,
}

/// The whole machine: program, registers, memory and stall detector.
pub ghost struct EmulatorView {
    pub program: Seq<u16>,
    pub registers: Registers,
    pub memory: MemoryView,
    pub stall: StallView,
}

impl EmulatorView {
    pub open spec fn wf(self) -> bool {
        self.memory.wf()
    }

    /// One cycle: fetch at PC; stop if the program is exhausted or the fetch
    /// is a stall; else run the CPU on the instruction and the memory cell
    /// at A, and store its output when it asks to.
    pub open spec fn cycle(self) -> (EmulatorView, CycleResult) {
        let pc = self.registers.pc;
        if pc >= self.program.len() {
            (self, CycleResult::Exhausted)
        } else {
            let instruction = self.program[pc as int];
            let stall = self.stall.observe(instruction);
            if self.stall.stalls_on(instruction) {
                (EmulatorView { stall, ..self }, CycleResult::Stalled)
            } else {
                let memory_in = self.memory.read(self.registers.a);
                let out = cycle_outputs(self.registers, instruction, memory_in, false);
                let memory = if out.2 {
                    self.memory.write(out.1, out.0)
                } else {
                    self.memory
                };
                (
                    EmulatorView {
                        program: self.program,
                        registers: next_registers(self.registers, instruction, memory_in, false),
                        memory,
                        stall,
                    },
                    CycleResult::Executed,
                )
            }
        }
    }

    /// Up to `budget` cycles: the final state, why the run stopped, and how
    /// many instructions were executed.
    pub open spec fn run(self, budget: nat) -> (EmulatorView, Halt, nat)
        decreases budget,
    {
        if budget == 0 {
            (self, Halt::CycleLimit, 0)
        } else {
            let (next, result) = self.cycle();
            match result {
                CycleResult::Executed => {
                    let (last, halt, n) = next.run((budget - 1) as nat);
                    (last, halt, n + 1)
                },
                CycleResult::Exhausted => (next, Halt::Exhausted, 0),
                CycleResult::Stalled => (next, Halt::Stalled, 0),
            }
        }
    }
}

/// The fetch/execute driver over a program held in memory of its own.
pub struct Emulator {
    program: Vec<u16>,
    cpu: Cpu,
    memory: Memory,
    stall: StallDetector,
}

impl View for Emulator {
    type V = EmulatorView;

    closed spec fn view(&self) -> EmulatorView {
        EmulatorView {
            program: self.program@,
            registers: self.cpu@,
            memory: self.memory@,
            stall: self.stall@,
        }
    }
}

impl Emulator {
    pub open spec fn wf(&self) -> bool {
        self@.wf()
    }

    /// A machine at power-on: registers and memory zero, ready to fetch the
    /// first instruction of `program`. `stall_limit` sets the stall policy
    /// (`None` turns stall detection off).
    pub fn new(program: Vec<u16>, stall_limit: Option<u32>) -> (r: Self)
        ensures
            r.wf(),
            r@.program == program@,
            r@.registers == (Registers { a: 0, d: 0, pc: 0 }),
            forall|i: int| 0 <= i < RAM_SIZE ==> #[trigger] r@.memory.ram[i] == 0,
            forall|i: int| 0 <= i < SCREEN_SIZE ==> #[trigger] r@.memory.screen[i] == 0,
            r@.memory.keyboard == 0,
            r@.stall == (StallView { limit: stall_limit, earlier: None, previous: None, repeats: 0 }),
    {
        Emulator {
            program,
            cpu: Cpu::new(),
            memory: Memory::new(),
            stall: StallDetector::new(stall_limit),
        }
    }

    /// Runs one fetch/execute cycle.
    pub fn cycle(&mut self) -> (r: CycleResult)
        requires
            old(self).wf(),
        ensures
            final(self).wf(),
            (final(self)@, r) == old(self)@.cycle(),
    {
        let pc = self.cpu.pc();
        if pc as usize >= self.program.len() {
            return CycleResult::Exhausted;
        }
        let instruction = self.program[pc as usize];
        if self.stall.observe(instruction) {
            return CycleResult::Stalled;
        }
        let memory_in = self.memory.read(self.cpu.register_a());
        let (output, address, write, _next) = self.cpu.cpu(instruction, memory_in, false);
        if write {
            self.memory.write(address, output);
        }
        CycleResult::Executed
    }

    /// Runs cycles until the program ends, stalls, or `max_cycles`
    /// instructions have been executed.
    pub fn run(&mut self, max_cycles: u64) -> (r: RunOutcome)
        requires
            old(self).wf(),
        ensures
            final(self).wf(),
            final(self)@ == old(self)@.run(max_cycles as nat).0,
            r.halt == old(self)@.run(max_cycles as nat).1,
            r.cycles == old(self)@.run(max_cycles as nat).2,
    {
        let mut cycles: u64 = 0;
        while cycles < max_cycles
            invariant
                self.wf(),
                cycles <= max_cycles,
                old(self)@.run(max_cycles as nat) == ({
                    let rest = self@.run((max_cycles - cycles) as nat);
                    (rest.0, rest.1, (rest.2 + cycles) as nat)
                }),
            decreases max_cycles - cycles,
        {
            let result = self.cycle();
            match result {
                CycleResult::Executed => {
                    cycles = cycles + 1;
                },
                CycleResult::Exhausted => {
                    return RunOutcome { halt: Halt::Exhausted, cycles };
                },
                CycleResult::Stalled => {
                    return RunOutcome { halt: Halt::Stalled, cycles };
                },
            }
        }
        RunOutcome { halt: Halt::CycleLimit, cycles }
    }

    pub fn cpu(&self) -> (r: &Cpu)
        ensures
            r@ == self@.registers,
    {
        &self.cpu
    }

    pub fn memory(&self) -> (r: &Memory)
        ensures
            r@ == self@.memory,
    {
        &self.memory
    }

    /// Supplies the code of the key being pressed (0 for none).
    pub fn set_keyboard(&mut self, key: u16)
        requires
            old(self).wf(),
        ensures
            final(self).wf(),
            final(self)@ == (EmulatorView {
                memory: MemoryView { keyboard: key, ..old(self)@.memory },
                ..old(self)@
            }),
    {
        self.memory.set_keyboard(key);
    }
}

} // verus!
