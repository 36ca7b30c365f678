//! The joypad: an 8-bit pressed-key shadow (low nibble d-pad, high nibble
//! buttons, 0 = pressed) fed by the host's key poller, with an
//! edge-triggered interrupt when a selected key goes down.
use vstd::prelude::*;

verus! {

use crate::interrupt::Interrupt;
use crate::memory::{AddressSpace, BusView};

/// How often the host key state is sampled, in T-cycles.
pub const JOYPAD_POLL_INTERVAL: u64 = 7022;

/// Whether a selected key went from released to pressed: some bit of the
/// matrixed JOYP read nibble fell from 1 to 0.
pub open spec fn spec_key_edge(before: u8, after: u8) -> bool {
    ||| (before % 2 == 1 && after % 2 == 0)
    ||| (before / 2 % 2 == 1 && after / 2 % 2 == 0)
    ||| (before / 4 % 2 == 1 && after / 4 % 2 == 0)
    ||| (before / 8 % 2 == 1 && after / 8 % 2 == 0)
}

/// The bus after a key-state update: the new matrix is stored and, on a
/// pressed edge of a selected key, the Joypad interrupt is raised.
pub open spec fn spec_joypad_update(b: BusView, keys: u8) -> BusView {
    let before = b.joyp_spec();
    let b1 = BusView { joypad_state: keys, ..b };
    let after = b1.joyp_spec();
    if spec_key_edge(before, after) {
        b1.request_interrupt_spec(Interrupt::Joypad)
    } else {
        b1
    }
}

/// A batch of T-cycles at the joypad: the poll counter accumulates, and
/// each time it crosses the polling interval the host-supplied key state
/// is taken over and published.
pub open spec fn spec_joypad_tick(j: Joypad, b: BusView, nticks: u8, keys: u8) -> (
    Joypad,
    BusView,
) {
    if j.ticks + nticks >= JOYPAD_POLL_INTERVAL {
        (
            Joypad { ticks: (j.ticks + nticks - JOYPAD_POLL_INTERVAL) as u64, state: keys },
            spec_joypad_update(b, keys),
        )
    } else {
        (Joypad { ticks: (j.ticks + nticks) as u64, ..j }, b)
    }
}

pub struct Joypad {
    pub state: u8,
    pub ticks: u64,
}

impl Joypad {
    pub open spec fn wf(&self) -> bool {
        self.ticks < JOYPAD_POLL_INTERVAL
    }

    /// No keys pressed, poll counter at zero.
    pub fn new() -> (r: Joypad)
        ensures
            r.state == 0xFF,
            r.ticks == 0,
            r.wf(),
    {
        Joypad { state: 0xFF, ticks: 0 }
    }

    /// Publishes the key shadow to the bus.
    pub fn update_memory(&self, memory: &mut AddressSpace)
        ensures
            *final(memory) == (AddressSpace { joypad_state: self.state, ..*old(memory) }),
    {
        memory.joypad_write(self.state);
    }

    /// Takes the freshly polled key matrix; a selected key going down
    /// raises the Joypad interrupt.
    pub fn update_state(&mut self, keys: u8, memory: &mut AddressSpace)
        requires
            old(memory)@.wf(),
        ensures
            *final(self) == (Joypad { state: keys, ..*old(self) }),
            final(memory)@ == spec_joypad_update(old(memory)@, keys),
            final(memory)@.wf(),
    {
        let before = memory.joypad_return();
        memory.joypad_write(keys);
        self.state = keys;
        let after = memory.joypad_return();
        let edge = (before % 2 == 1 && after % 2 == 0) || (before / 2 % 2 == 1 && after / 2 % 2
            == 0) || (before / 4 % 2 == 1 && after / 4 % 2 == 0) || (before / 8 % 2 == 1 && after
            / 8 % 2 == 0);
        if edge {
            memory.request_interrupt(Interrupt::Joypad);
        }
    }

    /// Counts T-cycles; every polling interval the host-supplied key state
    /// is taken over and published.
    pub fn tick(&mut self, nticks: u8, keys: u8, memory: &mut AddressSpace)
        requires
            old(self).wf(),
            old(memory)@.wf(),
        ensures
            final(self).wf(),
            final(memory)@.wf(),
            *final(self) == spec_joypad_tick(*old(self), old(memory)@, nticks, keys).0,
            final(memory)@ == spec_joypad_tick(*old(self), old(memory)@, nticks, keys).1,
    {
        self.ticks = self.ticks + nticks as u64;
        if self.ticks >= JOYPAD_POLL_INTERVAL {
            self.ticks = self.ticks % JOYPAD_POLL_INTERVAL;
            self.update_state(keys, memory);
            self.update_memory(memory);
        }
    }
}

} // verus!
