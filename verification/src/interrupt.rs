//! The five interrupt sources, in priority order (lowest index served first).
use vstd::prelude::*;

verus! {

#[derive(Clone, Copy, PartialEq, Eq, Structural, Debug)]
pub enum Interrupt {
    VBlank,
    LCD,
    Timer,
    Serial,
    Joypad,
}

impl Interrupt {
    /// The source's index: its bit position in IF and IE, and its slot in the
    /// vector table at 0x0040 + 8 * index.
    pub open spec fn index_spec(self) -> u8 {
        match self {
            Interrupt::VBlank => 0,
            Interrupt::LCD => 1,
            Interrupt::Timer => 2,
            Interrupt::Serial => 3,
            Interrupt::Joypad => 4,
        }
    }

    pub fn index(self) -> (r: u8)
        ensures
            r == self.index_spec(),
    {
        match self {
            Interrupt::VBlank => 0,
            Interrupt::LCD => 1,
            Interrupt::Timer => 2,
            Interrupt::Serial => 3,
            Interrupt::Joypad => 4,
        }
    }

    /// The source at a given index; the inverse of `index`.
    pub fn from_index(value: usize) -> (r: Interrupt)
        requires
            value < 5,
        ensures
            r.index_spec() == value,
    {
        match value {
            0 => Interrupt::VBlank,
            1 => Interrupt::LCD,
            2 => Interrupt::Timer,
            3 => Interrupt::Serial,
            _ => Interrupt::Joypad,
        }
    }
}

} // verus!
