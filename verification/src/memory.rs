//! The memory bus: 16-bit address space arbitration, region routing,
//! OAM/VRAM access gating, the OAM-DMA engine, the DIV/TIMA timer and the
//! joypad matrix.
//!
//! The bus has a ghost view (`BusView`) and every operation is specified as
//! a value or a transition on that view: `read` returns `self@.read_spec(a)`
//! and every mutator ends in a state equal to the corresponding `*_spec`
//! transition of the old view.
use vstd::prelude::*;

verus! {

use crate::bits::{spec_bit, spec_set_bit, spec_clear_bit, spec_is_mask, get_bit, set_bit,
    clear_bit};
use crate::interrupt::Interrupt;
use crate::mappers::{Mapper, MapperView, NoCartridge, RomOnly, MBC1, MBC3, Cartridge,
    spec_header_ok, spec_rom_banks};

/// Ghost mirror of the bus state.
pub struct BusView {
    pub vram: Seq<u8>,
    pub wram: Seq<u8>,
    pub oam: Seq<u8>,
    pub empty_io: Seq<u8>,
    pub io: Seq<u8>,
    pub empty_io2: Seq<u8>,
    pub hram: Seq<u8>,
    pub ie: u8,
    pub dma_source: Option<u16>,
    pub dma_clock_t: u16,
    pub joypad_state: u8,
    pub oam_writeable: bool,
    pub vram_writeable: bool,
    pub internal_div: u16,
    pub past_tick_tima_enabled: bool,
    pub clock: u64,
    pub mapper: MapperView,
    pub ch1_period_written: bool,
    pub save_ram: bool,
    pub title: Seq<u8>,
}

impl BusView {
    pub open spec fn wf(self) -> bool {
        &&& self.vram.len() == 8192
        &&& self.wram.len() == 8192
        &&& self.oam.len() == 160
        &&& self.empty_io.len() == 96
        &&& self.io.len() == 76
        &&& self.empty_io2.len() == 52
        &&& self.hram.len() == 127
        &&& self.io[0x0F] < 32
        &&& self.mapper.wf()
        &&& (self.dma_source is Some ==> self.dma_clock_t < 160)
        &&& (self.dma_source is None ==> self.dma_clock_t == 0)
        &&& (self.dma_source matches Some(src) ==> src % 256 == 0)
    }

    /// What a read of JOYP returns: the selected key nibbles, active-low.
    pub open spec fn joyp_spec(self) -> u8 {
        let selection = (self.io[0] / 16) as u8 % 4;
        if selection == 3 {
            0x3F
        } else {
            let dpad = self.joypad_state % 16;
            let buttons = self.joypad_state / 16;
            if selection == 0 {
                dpad & buttons
            } else if selection == 1 {
                // Bit 4 set: the d-pad row is deselected, buttons remain.
                buttons
            } else {
                dpad
            }
        }
    }

    /// The byte a CPU read returns at each address, §3's routing table.
    /// Opaque: callers go through `read`'s contract; proofs that need the
    /// routing itself reveal it.
    #[verifier::opaque]
    pub open spec fn read_spec(self, index: u16) -> u8 {
        if index < 0x8000 {
            self.mapper.read_spec(index)
        } else if index < 0xA000 {
            if self.vram_writeable {
                self.vram[index - 0x8000]
            } else {
                0xFF
            }
        } else if index < 0xC000 {
            self.mapper.read_spec(index)
        } else if index < 0xE000 {
            self.wram[index - 0xC000]
        } else if index < 0xFE00 {
            self.wram[index - 0xE000]
        } else if index < 0xFEA0 {
            // OAM is unreadable while the PPU holds it or a DMA runs.
            if self.oam_writeable && self.dma_source is None {
                self.oam[index - 0xFE00]
            } else {
                0xFF
            }
        } else if index < 0xFF00 {
            // The unusable region reads 0xFF.
            0xFF
        } else if index == 0xFF00 {
            self.joyp_spec()
        } else if index <= 0xFF4B {
            if index == 0xFF03 || (0xFF08 <= index && index <= 0xFF0E) {
                // Unmapped register slots read 0xFF.
                0xFF
            } else if index == 0xFF04 {
                (self.internal_div / 256) as u8
            } else if index == 0xFF0F {
                // Pending-interrupt readback keeps the upper bits 1.
                (0xE0 + self.io[0x0F]) as u8
            } else if index == 0xFF26 {
                // NR52: enable bit, three unused bits that read 1, status.
                (0x70 + self.io[0x26] / 128 * 128 + self.io[0x26] % 16) as u8
            } else if index == 0xFF11 || index == 0xFF16 {
                // Pulse duty readable, length write-only.
                (self.io[index - 0xFF00] / 64 * 64) as u8
            } else if index == 0xFF13 || index == 0xFF18 || index == 0xFF1D {
                0xFF
            } else if index == 0xFF14 || index == 0xFF19 || index == 0xFF1E || index == 0xFF23 {
                // Only the length-enable bit reads back.
                (self.io[index - 0xFF00] / 64 % 2 * 64) as u8
            } else if index == 0xFF1B || index == 0xFF20 {
                0xFF
            } else {
                self.io[index - 0xFF00]
            }
        } else if index < 0xFF80 {
            // Unmapped slots read 0xFF.
            0xFF
        } else if index < 0xFFFF {
            self.hram[index - 0xFF80]
        } else {
            // Interrupt-enable readback keeps the upper bits 1.
            (0xE0 + self.ie % 32) as u8
        }
    }
}

/// The register file after the APU master enable falls: every audio
/// register NR10-NR52 is cleared; wave RAM is kept.
pub open spec fn spec_clear_audio(io: Seq<u8>) -> Seq<u8> {
    Seq::new(
        io.len(),
        |i: int|
            if 0x10 <= i < 0x27 {
                0u8
            } else {
                io[i]
            },
    )
}

impl BusView {
    /// A CPU write and its register side effects, §4.2's table: ROM-region
    /// writes go to the mapper, LY is read-only, DIV resets the internal
    /// counter, a DMA write starts a transfer unless one is in flight.
    /// Opaque, as `read_spec` is.
    #[verifier::opaque]
    pub open spec fn write_spec(self, index: u16, value: u8) -> BusView {
        if index < 0x8000 {
            BusView { mapper: self.mapper.write_spec(index, value), ..self }
        } else if index < 0xA000 {
            if self.vram_writeable {
                BusView { vram: self.vram.update(index - 0x8000, value), ..self }
            } else {
                self
            }
        } else if index < 0xC000 {
            BusView { mapper: self.mapper.write_spec(index, value), ..self }
        } else if index < 0xE000 {
            BusView { wram: self.wram.update(index - 0xC000, value), ..self }
        } else if index < 0xFE00 {
            BusView { wram: self.wram.update(index - 0xE000, value), ..self }
        } else if index < 0xFEA0 {
            // OAM writes are dropped while the PPU holds it or a DMA runs.
            if self.oam_writeable && self.dma_source is None {
                BusView { oam: self.oam.update(index - 0xFE00, value), ..self }
            } else {
                self
            }
        } else if index < 0xFF00 {
            // Writes into the unusable region are dropped.
            self
        } else if index <= 0xFF4B {
            if index == 0xFF46 {
                // DMA start; a write while a transfer runs is ignored.
                if self.dma_source is Some {
                    self
                } else {
                    BusView { dma_source: Some((value * 256) as u16), ..self }
                }
            } else if index == 0xFF00 {
                // Only the selection bits 4-5 are writable.
                BusView {
                    io: self.io.update(0, (value / 16 * 16 + self.io[0] % 16) as u8),
                    ..self
                }
            } else if index == 0xFF41 {
                // STAT: bits 3-6 writable, low three read-only.
                BusView {
                    io: self.io.update(
                        0x41,
                        (value / 8 % 16 * 8 + self.io[0x41] % 8) as u8,
                    ),
                    ..self
                }
            } else if index == 0xFF44 {
                // LY is read-only.
                self
            } else if index == 0xFF04 {
                BusView { internal_div: 0u16, ..self }
            } else if index == 0xFF0F {
                BusView { io: self.io.update(0x0F, (value % 32) as u8), ..self }
            } else if index == 0xFF03 || (0xFF08 <= index && index <= 0xFF0E) {
                // Unmapped register slots drop writes.
                self
            } else if index == 0xFF26 {
                // NR52: only the master enable bit is writable; switching
                // the APU off clears every audio register.
                if value / 128 % 2 == 1 {
                    BusView {
                        io: self.io.update(
                            0x26,
                            (value / 128 * 128 + self.io[0x26] % 16) as u8,
                        ),
                        ..self
                    }
                } else {
                    BusView { io: spec_clear_audio(self.io), ..self }
                }
            } else if index == 0xFF13 {
                BusView {
                    io: self.io.update(0x13, value),
                    ch1_period_written: true,
                    ..self
                }
            } else {
                BusView { io: self.io.update(index - 0xFF00, value), ..self }
            }
        } else if index < 0xFF80 {
            // Unmapped slots drop writes.
            self
        } else if index < 0xFFFF {
            BusView { hram: self.hram.update(index - 0xFF80, value), ..self }
        } else {
            BusView { ie: value, ..self }
        }
    }

    /// One T-cycle of the DMA engine: while a transfer is in flight, one
    /// byte moves from source + t to OAM[t]; after byte 159 the engine goes
    /// idle.
    pub open spec fn dma_step_spec(self) -> BusView {
        match self.dma_source {
            Option::None => self,
            Option::Some(src) => {
                let b = self.read_spec((src + self.dma_clock_t) as u16);
                let oam2 = self.oam.update(self.dma_clock_t as int, b);
                if self.dma_clock_t + 1 >= 160 {
                    BusView { oam: oam2, dma_clock_t: 0u16, dma_source: Option::None, ..self }
                } else {
                    BusView { oam: oam2, dma_clock_t: (self.dma_clock_t + 1) as u16, ..self }
                }
            },
        }
    }

    /// The TIMA input line: timer enabled and the selected DIV bit high.
    /// TAC's low two bits select bit 9, 3, 5 or 7 of the internal counter.
    pub open spec fn tima_input_line_spec(self) -> bool {
        let tac = self.io[0x07];
        let enabled = tac / 4 % 2 == 1;
        let bit = if tac % 4 == 0 {
            self.internal_div / 512 % 2
        } else if tac % 4 == 1 {
            self.internal_div / 8 % 2
        } else if tac % 4 == 2 {
            self.internal_div / 32 % 2
        } else {
            self.internal_div / 128 % 2
        };
        enabled && bit == 1
    }

    /// TIMA increments; on overflow it reloads from TMA and raises the
    /// Timer interrupt.
    pub open spec fn increment_tima_spec(self) -> BusView {
        let tima = self.io[0x05];
        if tima == 255 {
            let v1 = BusView { io: self.io.update(0x05, self.io[0x06]), ..self };
            v1.request_interrupt_spec(Interrupt::Timer)
        } else {
            BusView { io: self.io.update(0x05, (tima + 1) as u8), ..self }
        }
    }

    /// One T-cycle of the bus: the DMA engine steps, the internal counter
    /// increments, and TIMA increments on a falling edge of its input line.
    pub open spec fn tick1_spec(self) -> BusView {
        let v1 = self.dma_step_spec();
        let v2 = BusView { internal_div: ((v1.internal_div + 1) % 0x10000) as u16, ..v1 };
        let line = v2.tima_input_line_spec();
        let v3 = if self.past_tick_tima_enabled && !line {
            v2.increment_tima_spec()
        } else {
            v2
        };
        BusView {
            past_tick_tima_enabled: line,
            clock: ((v3.clock + 1) % 0x10000000000000000) as u64,
            ..v3
        }
    }

    pub open spec fn tick_cycles_spec(self, n: nat) -> BusView
        decreases n,
    {
        if n == 0 {
            self
        } else {
            self.tick_cycles_spec((n - 1) as nat).tick1_spec()
        }
    }

    /// A batch of `nticks` T-cycles, followed by the mapper's own clock.
    pub open spec fn tick_spec(self, nticks: u8) -> BusView {
        let u = self.tick_cycles_spec(nticks as nat);
        BusView { mapper: u.mapper.tick_spec(nticks), ..u }
    }

    /// Boot's last step: the channel 1 status bit is reported in NR52
    /// through the APU-side path.
    pub open spec fn boot_nr52_spec(self) -> BusView {
        BusView { io: self.io.update(0x26, (1 + self.io[0x26] / 128 * 128) as u8), ..self }
    }

    /// Raising one interrupt: its bit is set in IF.
    pub open spec fn request_interrupt_spec(self, interrupt: Interrupt) -> BusView {
        BusView {
            io: self.io.update(
                0x0F,
                spec_set_bit(self.io[0x0F], crate::bits::spec_mask_of(interrupt.index_spec())),
            ),
            ..self
        }
    }
}

/// The memory bus.  It owns VRAM, WRAM, OAM, high RAM, the hardware register
/// file, the cartridge mapper, the OAM-DMA engine, the internal DIV counter
/// and the joypad matrix.
pub struct AddressSpace {
    pub vram: Vec<u8>,
    pub internal_ram: Vec<u8>,
    pub oam: Vec<u8>,
    pub empty_io: Vec<u8>,
    pub standard_io: Vec<u8>,
    pub empty_io2: Vec<u8>,
    pub hram: Vec<u8>,
    pub interrupt_enable: u8,
    pub dma_source: Option<u16>,
    pub dma_clock_t: u16,
    pub joypad_state: u8,
    pub oam_writeable: bool,
    pub vram_writeable: bool,
    pub internal_div: u16,
    pub past_tick_tima_enabled: bool,
    pub clock: u64,
    pub mapper: Mapper,
    pub ch1_period_written: bool,
    pub save_ram: bool,
    pub game_title: Vec<u8>,
}

impl View for AddressSpace {
    type V = BusView;

    open spec fn view(&self) -> BusView {
        BusView {
            vram: self.vram@,
            wram: self.internal_ram@,
            oam: self.oam@,
            empty_io: self.empty_io@,
            io: self.standard_io@,
            empty_io2: self.empty_io2@,
            hram: self.hram@,
            ie: self.interrupt_enable,
            dma_source: self.dma_source,
            dma_clock_t: self.dma_clock_t,
            joypad_state: self.joypad_state,
            oam_writeable: self.oam_writeable,
            vram_writeable: self.vram_writeable,
            internal_div: self.internal_div,
            past_tick_tima_enabled: self.past_tick_tima_enabled,
            clock: self.clock,
            mapper: self.mapper@,
            ch1_period_written: self.ch1_period_written,
            save_ram: self.save_ram,
            title: self.game_title@,
        }
    }
}

/// A vector of `n` zero bytes.
fn zeros(n: usize) -> (r: Vec<u8>)
    ensures
        r@.len() == n,
        forall|i: int| 0 <= i < n ==> r@[i] == 0u8,
{
    let mut out: Vec<u8> = Vec::new();
    let mut i: usize = 0;
    while i < n
        invariant
            i <= n,
            out@.len() == i,
            forall|j: int| 0 <= j < i ==> out@[j] == 0u8,
        decreases n - i,
    {
        out.push(0u8);
        i = i + 1;
    }
    out
}

/// Copies `v[start..start + n]`.
fn vec_range(v: &Vec<u8>, start: usize, n: usize) -> (r: Vec<u8>)
    requires
        start + n <= v@.len(),
    ensures
        r@ == v@.subrange(start as int, start + n),
{
    let len = v.len();
    let mut out: Vec<u8> = Vec::new();
    let mut i: usize = 0;
    while i < n
        invariant
            i <= n,
            start + n <= len,
            len == v@.len(),
            out@ == v@.subrange(start as int, start + i),
        decreases n - i,
    {
        out.push(v[start + i]);
        proof {
            assert(out@ =~= v@.subrange(start as int, start + i + 1));
        }
        i = i + 1;
    }
    out
}

impl AddressSpace {
    /// A powered-off bus: memories cleared, no cartridge, DMA idle, no keys
    /// pressed.
    pub fn new() -> (r: AddressSpace)
        ensures
            r@.wf(),
            r@.mapper == MapperView::NoCart,
            r@.dma_source is None,
            r@.joypad_state == 0xFF,
            !r@.oam_writeable,
            !r@.vram_writeable,
            r@.internal_div == 0,
            !r@.past_tick_tima_enabled,
            r@.clock == 0,
            r@.ie == 0,
            !r@.save_ram,
            forall|i: int| 0 <= i < 76 ==> r@.io[i] == 0u8,
            forall|i: int| 0 <= i < 8192 ==> r@.vram[i] == 0u8 && r@.wram[i] == 0u8,
            forall|i: int| 0 <= i < 160 ==> r@.oam[i] == 0u8,
            forall|i: int| 0 <= i < 127 ==> r@.hram[i] == 0u8,
    {
        AddressSpace {
            vram: zeros(8192),
            internal_ram: zeros(8192),
            oam: zeros(160),
            empty_io: zeros(96),
            standard_io: zeros(76),
            empty_io2: zeros(52),
            hram: zeros(127),
            interrupt_enable: 0,
            dma_source: None,
            dma_clock_t: 0,
            joypad_state: 0xFF,
            oam_writeable: false,
            vram_writeable: false,
            internal_div: 0,
            past_tick_tima_enabled: false,
            clock: 0,
            mapper: Mapper::NoCart(NoCartridge {  }),
            ch1_period_written: false,
            save_ram: false,
            game_title: Vec::new(),
        }
    }

    /// The selected key nibbles, active-low; see `BusView::joyp_spec`.
    pub fn joypad_return(&self) -> (r: u8)
        requires
            self@.wf(),
        ensures
            r == self@.joyp_spec(),
    {
        let selection = self.standard_io[0] / 16 % 4;
        if selection == 3 {
            0x3F
        } else {
            let dpad = self.joypad_state % 16;
            let buttons = self.joypad_state / 16;
            if selection == 0 {
                dpad & buttons
            } else if selection == 1 {
                buttons
            } else {
                dpad
            }
        }
    }

    /// A CPU read; see `BusView::read_spec` for the exact value by region.
    pub fn read(&self, index: u16) -> (r: u8)
        requires
            self@.wf(),
        ensures
            r == self@.read_spec(index),
    {
        proof {
            reveal(BusView::read_spec);
        }
        if index < 0x8000 {
            self.mapper.read(index)
        } else if index < 0xA000 {
            if self.vram_writeable {
                self.vram[(index - 0x8000) as usize]
            } else {
                0xFF
            }
        } else if index < 0xC000 {
            self.mapper.read(index)
        } else if index < 0xE000 {
            self.internal_ram[(index - 0xC000) as usize]
        } else if index < 0xFE00 {
            self.internal_ram[(index - 0xE000) as usize]
        } else if index < 0xFEA0 {
            if self.oam_writeable && self.dma_source.is_none() {
                self.oam[(index - 0xFE00) as usize]
            } else {
                0xFF
            }
        } else if index < 0xFF00 {
            0xFF
        } else if index == 0xFF00 {
            self.joypad_return()
        } else if index <= 0xFF4B {
            if index == 0xFF03 || (0xFF08 <= index && index <= 0xFF0E) {
                0xFF
            } else if index == 0xFF04 {
                (self.internal_div / 256) as u8
            } else if index == 0xFF0F {
                0xE0 + self.standard_io[0x0F]
            } else if index == 0xFF26 {
                0x70 + self.standard_io[0x26] / 128 * 128 + self.standard_io[0x26] % 16
            } else if index == 0xFF11 || index == 0xFF16 {
                self.standard_io[(index - 0xFF00) as usize] / 64 * 64
            } else if index == 0xFF13 || index == 0xFF18 || index == 0xFF1D {
                0xFF
            } else if index == 0xFF14 || index == 0xFF19 || index == 0xFF1E || index == 0xFF23 {
                self.standard_io[(index - 0xFF00) as usize] / 64 % 2 * 64
            } else if index == 0xFF1B || index == 0xFF20 {
                0xFF
            } else {
                self.standard_io[(index - 0xFF00) as usize]
            }
        } else if index < 0xFF80 {
            0xFF
        } else if index < 0xFFFF {
            self.hram[(index - 0xFF80) as usize]
        } else {
            0xE0 + self.interrupt_enable % 32
        }
    }

    /// The four OAM bytes of one sprite entry, read directly (the PPU's
    /// sprite scan bypasses the access gate).
    pub fn read_sprite(&self, sprite_index: u8) -> (r: [u8; 4])
        requires
            self@.wf(),
            sprite_index <= 156,
        ensures
            r@[0] == self@.oam[sprite_index as int],
            r@[1] == self@.oam[sprite_index + 1],
            r@[2] == self@.oam[sprite_index + 2],
            r@[3] == self@.oam[sprite_index + 3],
    {
        let idx = sprite_index as usize;
        [self.oam[idx], self.oam[idx + 1], self.oam[idx + 2], self.oam[idx + 3]]
    }

    /// A CPU write; see `BusView::write_spec` for the side effects by
    /// address.
    #[verifier::rlimit(100)]
    pub fn write(&mut self, index: u16, value: u8)
        requires
            old(self)@.wf(),
        ensures
            final(self)@ == old(self)@.write_spec(index, value),
            final(self)@.wf(),
    {
        proof {
            reveal(BusView::write_spec);
        }
        if index < 0x8000 {
            self.mapper.write(index, value);
        } else if index < 0xA000 {
            if self.vram_writeable {
                self.vram[(index - 0x8000) as usize] = value;
            }
        } else if index < 0xC000 {
            self.mapper.write(index, value);
        } else if index < 0xE000 {
            self.internal_ram[(index - 0xC000) as usize] = value;
        } else if index < 0xFE00 {
            self.internal_ram[(index - 0xE000) as usize] = value;
        } else if index < 0xFEA0 {
            if self.oam_writeable && self.dma_source.is_none() {
                self.oam[(index - 0xFE00) as usize] = value;
            }
        } else if index < 0xFF00 {
        } else if index <= 0xFF4B {
            if index == 0xFF46 {
                if self.dma_source.is_none() {
                    proof {
                        assert(value * 256 % 256 == 0) by (nonlinear_arith);
                    }
                    self.dma_source = Some(value as u16 * 256);
                }
            } else if index == 0xFF00 {
                self.standard_io[0] = value / 16 * 16 + self.standard_io[0] % 16;
            } else if index == 0xFF41 {
                self.standard_io[0x41] = value / 8 % 16 * 8 + self.standard_io[0x41] % 8;
            } else if index == 0xFF44 {
            } else if index == 0xFF04 {
                self.internal_div = 0;
            } else if index == 0xFF0F {
                self.standard_io[0x0F] = value % 32;
            } else if index == 0xFF03 || (0xFF08 <= index && index <= 0xFF0E) {
            } else if index == 0xFF26 {
                if value / 128 % 2 == 1 {
                    self.standard_io[0x26] = value / 128 * 128 + self.standard_io[0x26] % 16;
                } else {
                    let ghost io0 = self.standard_io@;
                    let mut i: usize = 0x10;
                    while i < 0x27
                        invariant
                            0x10 <= i <= 0x27,
                            self.standard_io@.len() == 76,
                            *self == (AddressSpace {
                                standard_io: self.standard_io,
                                ..*old(self)
                            }),
                            forall|j: int| 0 <= j < 0x10 ==> self.standard_io@[j] == io0[j],
                            forall|j: int| 0x10 <= j < i ==> self.standard_io@[j] == 0u8,
                            forall|j: int|
                                i <= j < 76 ==> self.standard_io@[j] == io0[j],
                        decreases 0x27 - i,
                    {
                        self.standard_io[i] = 0;
                        i = i + 1;
                    }
                    proof {
                        assert(self.standard_io@ =~= spec_clear_audio(io0));
                    }
                }
            } else if index == 0xFF13 {
                self.standard_io[0x13] = value;
                self.ch1_period_written = true;
            } else {
                self.standard_io[(index - 0xFF00) as usize] = value;
            }
        } else if index < 0xFF80 {
        } else if index < 0xFFFF {
            self.hram[(index - 0xFF80) as usize] = value;
        } else {
            self.interrupt_enable = value;
        }
    }

    /// The stored pending-interrupt bits: IF's low five.
    pub fn pending_interrupts(&self) -> (r: u8)
        requires
            self@.wf(),
        ensures
            r == self@.io[0x0F],
            r < 32,
    {
        self.standard_io[0x0F]
    }

    /// Stores the pending-interrupt bits; the interrupt dispatcher clears
    /// the bit of the source it serves.
    pub fn set_pending_interrupts(&mut self, v: u8)
        requires
            old(self)@.wf(),
            v < 32,
        ensures
            final(self)@ == (BusView { io: old(self)@.io.update(0x0F, v), ..old(self)@ }),
            final(self)@.wf(),
    {
        self.standard_io[0x0F] = v;
    }

    /// Sets one source's bit in the pending-interrupt register IF.
    pub fn request_interrupt(&mut self, interrupt: Interrupt)
        requires
            old(self)@.wf(),
        ensures
            final(self)@ == old(self)@.request_interrupt_spec(interrupt),
            final(self)@.wf(),
    {
        let m = crate::bits::mask_of(interrupt.index());
        let cur = self.standard_io[0x0F];
        self.standard_io[0x0F] = set_bit(cur, m);
    }

    /// The PPU locks VRAM while drawing; reads then return 0xFF and writes
    /// are dropped.
    pub fn _lock_vram(&mut self)
        ensures
            *final(self) == (AddressSpace { vram_writeable: false, ..*old(self) }),
    {
        self.vram_writeable = false;
    }

    pub fn unlock_vram(&mut self)
        ensures
            *final(self) == (AddressSpace { vram_writeable: true, ..*old(self) }),
    {
        self.vram_writeable = true;
    }

    pub fn lock_oam(&mut self)
        ensures
            *final(self) == (AddressSpace { oam_writeable: false, ..*old(self) }),
    {
        self.oam_writeable = false;
    }

    pub fn unlock_oam(&mut self)
        ensures
            *final(self) == (AddressSpace { oam_writeable: true, ..*old(self) }),
    {
        self.oam_writeable = true;
    }

    /// The PPU publishes LY and refreshes STAT bit 2 (LY == LYC).
    pub fn ppu_write_LY_update_STAT(&mut self, ly_value: u8)
        requires
            old(self)@.wf(),
        ensures
            final(self)@ == (BusView {
                io: old(self)@.io.update(0x44, ly_value).update(
                    0x41,
                    if ly_value == old(self)@.io[0x45] {
                        spec_set_bit(old(self)@.io[0x41], 4)
                    } else {
                        spec_clear_bit(old(self)@.io[0x41], 4)
                    },
                ),
                ..old(self)@
            }),
            final(self)@.wf(),
    {
        self.standard_io[0x44] = ly_value;
        let lyc = self.standard_io[0x45];
        let stat = self.standard_io[0x41];
        if ly_value == lyc {
            self.standard_io[0x41] = set_bit(stat, 4);
        } else {
            self.standard_io[0x41] = clear_bit(stat, 4);
        }
    }

    /// The PPU publishes its mode in STAT bits 0-1; bits 2-7 are untouched.
    pub fn ppu_write_stat_mode(&mut self, mode_bits: u8)
        requires
            old(self)@.wf(),
            mode_bits < 4,
        ensures
            final(self)@ == (BusView {
                io: old(self)@.io.update(
                    0x41,
                    (old(self)@.io[0x41] / 4 * 4 + mode_bits) as u8,
                ),
                ..old(self)@
            }),
            final(self)@.wf(),
    {
        let stat = self.standard_io[0x41];
        self.standard_io[0x41] = stat / 4 * 4 + mode_bits;
    }

    /// The APU's channel-enable reporting: NR52's low nibble, the enable bit
    /// kept.
    pub fn apu_write_nr52(&mut self, value: u8)
        requires
            old(self)@.wf(),
        ensures
            final(self)@ == (BusView {
                io: old(self)@.io.update(
                    0x26,
                    (value % 16 + old(self)@.io[0x26] / 128 * 128) as u8,
                ),
                ..old(self)@
            }),
            final(self)@.wf(),
    {
        let cur = self.standard_io[0x26];
        self.standard_io[0x26] = value % 16 + cur / 128 * 128;
    }

    /// The channel 1 sweep unit writes its new period back to NR13/NR14.
    pub fn apu_write_ch1_period(&mut self, value: u16)
        requires
            old(self)@.wf(),
            value < 2048,
        ensures
            final(self)@ == (BusView {
                io: old(self)@.io.update(0x13, (value % 256) as u8).update(
                    0x14,
                    (value / 256) as u8,
                ),
                ..old(self)@
            }),
            final(self)@.wf(),
    {
        self.standard_io[0x13] = (value % 256) as u8;
        self.standard_io[0x14] = (value / 256) as u8;
    }

    /// The host key poller hands in the new matrix state (0 = pressed).
    pub fn joypad_write(&mut self, state: u8)
        ensures
            *final(self) == (AddressSpace { joypad_state: state, ..*old(self) }),
    {
        self.joypad_state = state;
    }

    /// The raw stored value of the APU registers whose CPU readback is
    /// masked (the duty/length, period and trigger registers, NR52) and of
    /// wave RAM, bypassing `read`'s write-only masking.
    pub fn apu_read(&self, index: u16) -> (r: u8)
        requires
            self@.wf(),
            index == 0xFF26 || index == 0xFF11 || index == 0xFF16 || index == 0xFF13 || index
                == 0xFF18 || index == 0xFF1D || index == 0xFF14 || index == 0xFF19 || index
                == 0xFF1E || index == 0xFF23 || index == 0xFF1B || index == 0xFF20 || (0xFF30
                <= index && index <= 0xFF3F),
        ensures
            r == self@.io[index - 0xFF00],
    {
        self.standard_io[(index - 0xFF00) as usize]
    }

    fn dma_single_tick(&mut self)
        requires
            old(self)@.wf(),
        ensures
            final(self)@ == old(self)@.dma_step_spec(),
            final(self)@.wf(),
    {
        match self.dma_source {
            Option::None => {},
            Option::Some(src) => {
                let b = self.read(src + self.dma_clock_t);
                let idx = self.dma_clock_t as usize;
                self.oam[idx] = b;
                if self.dma_clock_t + 1 >= 160 {
                    self.dma_clock_t = 0;
                    self.dma_source = None;
                } else {
                    self.dma_clock_t = self.dma_clock_t + 1;
                }
            },
        }
    }

    fn increment_tima(&mut self)
        requires
            old(self)@.wf(),
        ensures
            final(self)@ == old(self)@.increment_tima_spec(),
            final(self)@.wf(),
    {
        let tima = self.standard_io[0x05];
        if tima == 255 {
            let tma = self.standard_io[0x06];
            self.standard_io[0x05] = tma;
            self.request_interrupt(Interrupt::Timer);
        } else {
            self.standard_io[0x05] = tima + 1;
        }
    }

    fn increment_div(&mut self) -> (line: bool)
        requires
            old(self)@.wf(),
        ensures
            final(self)@ == (BusView {
                internal_div: ((old(self)@.internal_div + 1) % 0x10000) as u16,
                ..old(self)@
            }),
            line == final(self)@.tima_input_line_spec(),
            final(self)@.wf(),
    {
        self.internal_div = self.internal_div.wrapping_add(1);
        let tac = self.standard_io[0x07];
        let bit: u16 = if tac % 4 == 0 {
            self.internal_div / 512 % 2
        } else if tac % 4 == 1 {
            self.internal_div / 8 % 2
        } else if tac % 4 == 2 {
            self.internal_div / 32 % 2
        } else {
            self.internal_div / 128 % 2
        };
        let enabled = tac / 4 % 2 == 1;
        enabled && bit == 1
    }

    /// Advances the bus by `nticks` T-cycles: DMA, DIV and TIMA step once
    /// per cycle, then the mapper's clock sees the whole batch.
    pub fn tick(&mut self, nticks: u8)
        requires
            old(self)@.wf(),
        ensures
            final(self)@ == old(self)@.tick_spec(nticks),
            final(self)@.wf(),
    {
        let mut i: u8 = 0;
        while i < nticks
            invariant
                i <= nticks,
                self@.wf(),
                self@ == old(self)@.tick_cycles_spec(i as nat),
            decreases nticks - i,
        {
            self.dma_single_tick();
            let line = self.increment_div();
            if self.past_tick_tima_enabled && !line {
                self.increment_tima();
            }
            self.past_tick_tima_enabled = line;
            self.clock = self.clock.wrapping_add(1);
            i = i + 1;
            proof {
                assert(self@ =~= old(self)@.tick_cycles_spec(i as nat));
            }
        }
        self.mapper.tick(nticks);
        proof {
            assert(self@ =~= old(self)@.tick_spec(nticks));
        }
    }
}

/// A ROM image the bus accepts: the header is present, the cartridge type
/// is one of the supported mappers, and the image holds the banks its
/// header announces.
pub open spec fn spec_rom_loadable(bytes: Seq<u8>) -> bool {
    &&& bytes.len() >= 0x150
    &&& {
        let code = bytes[0x147];
        ||| (code == 0x00 && bytes.len() >= 32768)
        ||| ((code == 0x01 || code == 0x03 || code == 0x11 || code == 0x13) && spec_header_ok(
            bytes,
        ))
    }
}

impl AddressSpace {
    /// Installs the cartridge described by a ROM image: the mapper is chosen
    /// from the type byte, battery variants arm save persistence, and the
    /// title bytes are kept for the host's save path.  A malformed or
    /// unsupported image is rejected and the bus is unchanged.
    pub fn load_rom(&mut self, game_bytes: Vec<u8>) -> (r: Result<(), String>)
        requires
            old(self)@.wf(),
        ensures
            final(self)@.wf(),
            r is Ok <==> spec_rom_loadable(game_bytes@),
            r is Err ==> *final(self) == *old(self),
            r is Ok ==> {
                let code = game_bytes@[0x147];
                &&& final(self)@ == (BusView {
                    mapper: final(self)@.mapper,
                    save_ram: code == 0x03 || code == 0x13,
                    title: game_bytes@.subrange(0x134, 0x144),
                    ..old(self)@
                })
                &&& (code == 0x00 ==> final(self)@.mapper == MapperView::RomOnly(
                    game_bytes@.subrange(0, 32768),
                ))
                &&& ((code == 0x01 || code == 0x03) ==> match final(self)@.mapper {
                    MapperView::MBC1(m) => m.rom == game_bytes@.subrange(
                        0,
                        spec_rom_banks(game_bytes@[0x148]) * 16384,
                    ) && m.rom_select == 1 && m.ram_select == 0 && m.mode == 0 && !m.ram_enable,
                    _ => false,
                })
                &&& ((code == 0x11 || code == 0x13) ==> match final(self)@.mapper {
                    MapperView::MBC3(m) => m.rom == game_bytes@.subrange(
                        0,
                        spec_rom_banks(game_bytes@[0x148]) * 16384,
                    ) && m.rom_select == 1 && m.ram_select == 0 && !m.ram_enable && !m.rtc_halted,
                    _ => false,
                })
            },
    {
        if game_bytes.len() < 0x150 {
            return Err("ROM image too small for a cartridge header".to_string());
        }
        let code = game_bytes[0x147];
        let title = vec_range(&game_bytes, 0x134, 16);
        if code == 0x00 {
            if game_bytes.len() < 32768 {
                return Err("ROM-only image shorter than 32 KiB".to_string());
            }
            self.mapper = Mapper::RomOnly(RomOnly::new(game_bytes));
            self.save_ram = false;
            self.game_title = title;
            Ok(())
        } else if code == 0x01 || code == 0x03 || code == 0x11 || code == 0x13 {
            let rom_code = game_bytes[0x148];
            let ram_code = game_bytes[0x149];
            if rom_code > 5 {
                return Err("unsupported ROM size code".to_string());
            }
            if !(ram_code == 0 || ram_code == 2 || ram_code == 3 || ram_code == 4 || ram_code
                == 5) {
                return Err("invalid RAM size code".to_string());
            }
            let banks = crate::mappers::rom_banks_from_code(rom_code);
            if game_bytes.len() < banks * 16384 {
                return Err("ROM image shorter than its header announces".to_string());
            }
            if code == 0x01 || code == 0x03 {
                self.mapper = Mapper::MBC1(MBC1::new(game_bytes));
            } else {
                self.mapper = Mapper::MBC3(MBC3::new(game_bytes));
            }
            self.save_ram = code == 0x03 || code == 0x13;
            self.game_title = title;
            Ok(())
        } else {
            Err("unsupported cartridge mapper".to_string())
        }
    }
}

} // verus!
