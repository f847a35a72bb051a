use vstd::prelude::*;

verus! {

/// The usual number of repeats after which a program counts as stalled.
pub const DEFAULT_STALL_LIMIT: u32 = 2;

/// What the stall detector remembers.
pub ghost struct StallView {
    /// Repeats tolerated before a stall is declared; `None` turns detection off.
    pub limit: Option<u32>,
    /// The instruction fetched two cycles ago.
    pub earlier: Option<u16>,
    /// The instruction fetched in the previous cycle.
    pub previous: Option<u16>,
    /// How many fetches in a row matched the one two cycles before them.
    pub repeats: u32,
}

impl StallView {
    /// A fetch repeats when it matches the instruction fetched two cycles
    /// earlier: the shape of a two-instruction jump to itself.
    pub open spec fn is_repeat(self, instruction: u16) -> bool {
        self.earlier == Some(instruction)
    }

    /// The fetch of `instruction` is a stall when it repeats and the repeats
    /// before it already reached the limit.
    pub open spec fn stalls_on(self, instruction: u16) -> bool {
        self.is_repeat(instruction) && match self.limit {
            Some(l) => self.repeats >= l,
            None => false,
        }
    }

    /// The detector after observing a fetch of `instruction`.
    pub open spec fn observe(self, instruction: u16) -> StallView {
        StallView {
            limit: self.limit,
            earlier: self.previous,
            previous: Some(instruction),
            repeats: if !self.is_repeat(instruction) {
                0
            } else if self.repeats == u32::MAX {
                u32::MAX
            } else {
                (self.repeats + 1) as u32
            },
        }
    }
}

/// Halt detection by repeated fetches: a heuristic for the idiom of ending a
/// program with a jump to itself. It can take a short genuine loop for a
/// halt, so it is a policy that can be turned off.
#[derive(Clone, Copy, Debug)]
pub struct StallDetector {
    limit: Option<u32>,
    earlier: Option<u16>,
    previous: Option<u16>,
    repeats: u32,
}

impl View for StallDetector {
    type V = StallView;

    closed spec fn view(&self) -> StallView {
        StallView {
            limit: self.limit,
            earlier: self.earlier,
            previous: self.previous,
            repeats: self.repeats,
        }
    }
}

impl StallDetector {
    /// A detector with no history; `limit` is `None` to turn detection off.
    pub fn new(limit: Option<u32>) -> (r: Self)
        ensures
            r@ == (StallView { limit, earlier: None, previous: None, repeats: 0 }),
    {
        StallDetector { limit, earlier: None, previous: None, repeats: 0 }
    }

    pub fn limit(&self) -> (r: Option<u32>)
        ensures
            r == self@.limit,
    {
        self.limit
    }

    /// Records a fetch of `instruction`; returns whether it is a stall.
    pub fn observe(&mut self, instruction: u16) -> (r: bool)
        ensures
            r == old(self)@.stalls_on(instruction),
            final(self)@ == old(self)@.observe(instruction),
    {
        let repeat = match self.earlier {
            Some(e) => e == instruction,
            None => false,
        };
        let stalled = repeat && match self.limit {
            Some(l) => self.repeats >= l,
            None => false,
        };
        if !repeat {
            self.repeats = 0;
        } else if self.repeats < u32::MAX {
            self.repeats = self.repeats + 1;
        }
        self.earlier = self.previous;
        self.previous = Some(instruction);
        stalled
    }
}

} // verus!
