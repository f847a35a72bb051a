use vstd::prelude::*;

verus! {

/// Number of RAM cells (addresses 0x0000 to 0x3FFF).
pub const RAM_SIZE: usize = 0x4000;

/// Number of screen cells (addresses 0x4000 to 0x5FFF).
pub const SCREEN_SIZE: usize = 0x2000;

/// First address of the screen buffer.
pub const SCREEN_BASE: u16 = 0x4000;

/// Address of the keyboard register; every address from here up reaches it.
pub const KEYBOARD_ADDRESS: u16 = 0x6000;

/// The backing store an address is routed to.
#[derive(Clone, Copy, Debug, PartialEq, Eq, Structural)]
pub enum Region {
    Ram,
    Screen,
    Keyboard,
}

pub open spec fn region_of(address: u16) -> Region {
    if address < SCREEN_BASE {
        Region::Ram
    } else if address < KEYBOARD_ADDRESS {
        Region::Screen
    } else {
        Region::Keyboard
    }
}

/// Routes an address: below 0x4000 to RAM, below 0x6000 to the screen,
/// otherwise to the keyboard register.
pub fn region(address: u16) -> (r: Region)
    ensures
        r == region_of(address),
{
    if address < SCREEN_BASE {
        Region::Ram
    } else if address < KEYBOARD_ADDRESS {
        Region::Screen
    } else {
        Region::Keyboard
    }
}

/// The contents of memory: the RAM cells, the screen cells and the key code.
pub ghost struct MemoryView {
    pub ram: Seq<u16>,
    pub screen: Seq<u16>,
    pub keyboard: u16,
}

impl MemoryView {
    pub open spec fn wf(self) -> bool {
        self.ram.len() == RAM_SIZE && self.screen.len() == SCREEN_SIZE
    }

    /// The cell an address reads.
    pub open spec fn read(self, address: u16) -> u16 {
        match region_of(address) {
            Region::Ram => self.ram[address as int],
            Region::Screen => self.screen[address - SCREEN_BASE],
            Region::Keyboard => self.keyboard,
        }
    }

    /// Memory after the CPU stores `value` at `address`; the keyboard
    /// register cannot be written this way.
    pub open spec fn write(self, address: u16, value: u16) -> MemoryView {
        match region_of(address) {
            Region::Ram => MemoryView {
                ram: self.ram.update(address as int, value),
                screen: self.screen,
                keyboard: self.keyboard,
            },
            Region::Screen => MemoryView {
                ram: self.ram,
                screen: self.screen.update(address - SCREEN_BASE, value),
                keyboard: self.keyboard,
            },
            Region::Keyboard => self,
        }
    }
}

/// The address space: RAM, the memory-mapped screen and the keyboard register.
pub struct Memory {
    ram: Vec<u16>,
    screen: Vec<u16>,
    keyboard: u16,
}

impl View for Memory {
    type V = MemoryView;

    closed spec fn view(&self) -> MemoryView {
        MemoryView { ram: self.ram@, screen: self.screen@, keyboard: self.keyboard }
    }
}

impl Memory {
    pub open spec fn wf(&self) -> bool {
        self@.wf()
    }

    /// Memory with every cell zero.
    pub fn new() -> (r: Self)
        ensures
            r.wf(),
            forall|i: int| 0 <= i < RAM_SIZE ==> #[trigger] r@.ram[i] == 0,
            forall|i: int| 0 <= i < SCREEN_SIZE ==> #[trigger] r@.screen[i] == 0,
            r@.keyboard == 0,
    {
        Memory { ram: vec![0u16; RAM_SIZE], screen: vec![0u16; SCREEN_SIZE], keyboard: 0 }
    }

    /// The value of the cell at `address`.
    pub fn read(&self, address: u16) -> (r: u16)
        requires
            self.wf(),
        ensures
            r == self@.read(address),
    {
        match region(address) {
            Region::Ram => self.ram[address as usize],
            Region::Screen => self.screen[(address - SCREEN_BASE) as usize],
            Region::Keyboard => self.keyboard,
        }
    }

    /// Stores `value` at `address`; a store to the keyboard register does
    /// nothing.
    pub fn write(&mut self, address: u16, value: u16)
        requires
            old(self).wf(),
        ensures
            final(self).wf(),
            final(self)@ == old(self)@.write(address, value),
    {
        match region(address) {
            Region::Ram => {
                self.ram.set(address as usize, value);
            },
            Region::Screen => {
                self.screen.set((address - SCREEN_BASE) as usize, value);
            },
            Region::Keyboard => {},
        }
    }

    /// One memory cycle: stores `input` at `address` when `load` is set, then
    /// returns the cell at `address`.
    pub fn memory(&mut self, input: u16, address: u16, load: bool) -> (r: u16)
        requires
            old(self).wf(),
        ensures
            final(self).wf(),
            final(self)@ == (if load {
                old(self)@.write(address, input)
            } else {
                old(self)@
            }),
            r == final(self)@.read(address),
    {
        if load {
            self.write(address, input);
        }
        self.read(address)
    }

    /// Sets the key code that the keyboard register holds (0 for none).
    pub fn set_keyboard(&mut self, key: u16)
        requires
            old(self).wf(),
        ensures
            final(self).wf(),
            final(self)@ == (MemoryView { keyboard: key, ..old(self)@ }),
    {
        self.keyboard = key;
    }
}

/// The routing of the boundary addresses: the ends of RAM, the ends of the
/// screen, and the keyboard register.
pub proof fn lemma_boundary_routing()
    ensures
        region_of(0) == Region::Ram,
        region_of(0x3fff) == Region::Ram,
        region_of(0x4000) == Region::Screen,
        region_of(0x5fff) == Region::Screen,
        region_of(0x6000) == Region::Keyboard,
{
}

/// A store through the CPU's interface at a keyboard address changes no
/// cell; in particular later reads of the keyboard register are unchanged.
pub proof fn lemma_keyboard_store_ignored(m: MemoryView, address: u16, value: u16)
    requires
        region_of(address) == Region::Keyboard,
    ensures
        m.write(address, value) == m,
        m.write(address, value).read(KEYBOARD_ADDRESS) == m.read(KEYBOARD_ADDRESS),
{
}

/// A store to RAM or the screen is read back at the same address, and
/// leaves every other address as it was.
pub proof fn lemma_read_after_write(m: MemoryView, address: u16, value: u16, other: u16)
    requires
        m.wf(),
    ensures
        m.write(address, value).wf(),
        region_of(address) != Region::Keyboard ==> m.write(address, value).read(address) == value,
        other != address ==> m.write(address, value).read(other) == m.read(other),
{
}

} // verus!
