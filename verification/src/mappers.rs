//! Cartridge mappers: address translation, bank switching, battery RAM and
//! the MBC3 real-time clock.
//!
//! Each mapper has a ghost view (`Seq`-based mirror of its state) and every
//! operation is specified as a transition on that view.  The bus dispatches
//! statically over the `Mapper` enum; the `Addressable` trait offers the same
//! capability set with its invariant, for callers that only need that much.
use vstd::prelude::*;

verus! {

use crate::constants::CLOCK_FREQ_HZ;

#[derive(Clone, Copy, PartialEq, Eq, Structural, Debug)]
pub enum Cartridge {
    RomOnly,
    MBC1,
    MBC1_RAM_BATTERY,
    MBC2,
    MBC3,
    MBC3_RAM_BATTERY,
    MBC5,
    MBC6,
}

impl Cartridge {
    pub open spec fn from_code_spec(value: u8) -> Option<Cartridge> {
        if value == 0x00 {
            Some(Cartridge::RomOnly)
        } else if value == 0x01 {
            Some(Cartridge::MBC1)
        } else if value == 0x03 {
            Some(Cartridge::MBC1_RAM_BATTERY)
        } else if value == 0x05 {
            Some(Cartridge::MBC2)
        } else if value == 0x11 {
            Some(Cartridge::MBC3)
        } else if value == 0x13 {
            Some(Cartridge::MBC3_RAM_BATTERY)
        } else if value == 0x19 {
            Some(Cartridge::MBC5)
        } else if value == 0x20 {
            Some(Cartridge::MBC6)
        } else {
            None
        }
    }

    /// Decodes the cartridge-type byte at offset 0x147 of the header.
    pub fn from_code(value: u8) -> (r: Option<Cartridge>)
        ensures
            r == Cartridge::from_code_spec(value),
    {
        if value == 0x00 {
            Some(Cartridge::RomOnly)
        } else if value == 0x01 {
            Some(Cartridge::MBC1)
        } else if value == 0x03 {
            Some(Cartridge::MBC1_RAM_BATTERY)
        } else if value == 0x05 {
            Some(Cartridge::MBC2)
        } else if value == 0x11 {
            Some(Cartridge::MBC3)
        } else if value == 0x13 {
            Some(Cartridge::MBC3_RAM_BATTERY)
        } else if value == 0x19 {
            Some(Cartridge::MBC5)
        } else if value == 0x20 {
            Some(Cartridge::MBC6)
        } else {
            None
        }
    }
}

/// Number of 16 KiB ROM banks for a header size code (byte 0x148): 2 << code.
pub open spec fn spec_rom_banks(code: u8) -> int {
    if code == 0 {
        2
    } else if code == 1 {
        4
    } else if code == 2 {
        8
    } else if code == 3 {
        16
    } else if code == 4 {
        32
    } else {
        64
    }
}

/// Number of 8 KiB RAM banks for a header size code (byte 0x149).
pub open spec fn spec_ram_banks(code: u8) -> int {
    if code == 0 {
        0
    } else if code == 2 {
        1
    } else if code == 3 {
        4
    } else if code == 4 {
        16
    } else {
        8
    }
}

/// A ROM image whose header a banked mapper accepts: the size codes are in
/// range and the image holds every bank the ROM code announces.
pub open spec fn spec_header_ok(bytes: Seq<u8>) -> bool {
    &&& bytes.len() >= 0x150
    &&& bytes[0x148] <= 5
    &&& (bytes[0x149] == 0 || bytes[0x149] == 2 || bytes[0x149] == 3 || bytes[0x149] == 4
        || bytes[0x149] == 5)
    &&& bytes.len() >= spec_rom_banks(bytes[0x148]) * 16384
}

pub fn rom_banks_from_code(code: u8) -> (r: usize)
    requires
        code <= 5,
    ensures
        r == spec_rom_banks(code),
{
    if code == 0 {
        2
    } else if code == 1 {
        4
    } else if code == 2 {
        8
    } else if code == 3 {
        16
    } else if code == 4 {
        32
    } else {
        64
    }
}

fn ram_banks_from_code(code: u8) -> (r: usize)
    requires
        code == 0 || code == 2 || code == 3 || code == 4 || code == 5,
    ensures
        r == spec_ram_banks(code),
{
    if code == 0 {
        0
    } else if code == 2 {
        1
    } else if code == 3 {
        4
    } else if code == 4 {
        16
    } else {
        8
    }
}

/// Copies the first `n` bytes of a vector.
fn vec_prefix(v: &Vec<u8>, n: usize) -> (r: Vec<u8>)
    requires
        n <= v@.len(),
    ensures
        r@ == v@.subrange(0, n as int),
{
    let mut out: Vec<u8> = Vec::new();
    let mut i: usize = 0;
    while i < n
        invariant
            i <= n <= v@.len(),
            out@ == v@.subrange(0, i as int),
        decreases n - i,
    {
        out.push(v[i]);
        proof {
            assert(out@ =~= v@.subrange(0, i + 1));
        }
        i = i + 1;
    }
    out
}

/// A vector of `n` zero bytes.
fn vec_zeros(n: usize) -> (r: Vec<u8>)
    ensures
        r@.len() == n,
        forall|i: int| 0 <= i < n ==> r@[i] == 0u8,
{
    let mut out: Vec<u8> = Vec::new();
    let mut i: usize = 0;
    while i < n
        invariant
            i <= n,
            out@.len() == i,
            forall|j: int| 0 <= j < i ==> out@[j] == 0u8,
        decreases n - i,
    {
        out.push(0u8);
        i = i + 1;
    }
    out
}

/// The capability set every mapper offers.  Precise per-mapper semantics are
/// stated on the inherent methods; the trait carries the invariant so that
/// generic callers stay sound.
pub trait Addressable: Sized {
    spec fn inv(&self) -> bool;

    fn read(&self, index: u16) -> u8
        requires
            self.inv(),
    ;

    fn write(&mut self, index: u16, value: u8)
        requires
            old(self).inv(),
        ensures
            final(self).inv(),
    ;

    fn save_persistent_state(&self) -> Vec<u8>
        requires
            self.inv(),
    ;

    fn load_persistent_state(&mut self, state: Vec<u8>)
        requires
            old(self).inv(),
        ensures
            final(self).inv(),
    ;

    fn cartridge_type(&self) -> Option<Cartridge>;

    fn tick(&mut self, nticks: u8)
        requires
            old(self).inv(),
        ensures
            final(self).inv(),
    ;
}

// ------------------------------------------------------------------
// No cartridge
// ------------------------------------------------------------------
/// The empty slot: every read yields 0xFF, writes are dropped.
pub struct NoCartridge {}

impl NoCartridge {
    pub fn new(_game_bytes: Vec<u8>) -> (r: NoCartridge) {
        NoCartridge {  }
    }

    pub fn read(&self, _index: u16) -> (r: u8)
        ensures
            r == 0xFFu8,
    {
        0xFF
    }

    pub fn write(&mut self, _index: u16, _value: u8)
        ensures
            *final(self) == *old(self),
    {
    }

    pub fn save_persistent_state(&self) -> (r: Vec<u8>)
        ensures
            r@ == Seq::<u8>::empty(),
    {
        Vec::new()
    }

    pub fn load_persistent_state(&mut self, _state: Vec<u8>)
        ensures
            *final(self) == *old(self),
    {
    }

    pub fn cartridge_type(&self) -> (r: Option<Cartridge>)
        ensures
            r == None::<Cartridge>,
    {
        None
    }

    pub fn tick(&mut self, _nticks: u8)
        ensures
            *final(self) == *old(self),
    {
    }
}

impl Addressable for NoCartridge {
    open spec fn inv(&self) -> bool {
        true
    }

    fn read(&self, index: u16) -> u8 {
        NoCartridge::read(self, index)
    }

    fn write(&mut self, index: u16, value: u8) {
        NoCartridge::write(self, index, value)
    }

    fn save_persistent_state(&self) -> Vec<u8> {
        NoCartridge::save_persistent_state(self)
    }

    fn load_persistent_state(&mut self, state: Vec<u8>) {
        NoCartridge::load_persistent_state(self, state)
    }

    fn cartridge_type(&self) -> Option<Cartridge> {
        NoCartridge::cartridge_type(self)
    }

    fn tick(&mut self, nticks: u8) {
        NoCartridge::tick(self, nticks)
    }
}

// ------------------------------------------------------------------
// ROM only
// ------------------------------------------------------------------
/// Flat 32 KiB ROM mapped at 0x0000-0x7FFF; no RAM, writes ignored.
pub struct RomOnly {
    pub rom: Vec<u8>,
}

impl RomOnly {
    pub open spec fn wf(&self) -> bool {
        self.rom@.len() == 32768
    }

    pub open spec fn rom_spec(&self) -> Seq<u8> {
        self.rom@
    }

    pub open spec fn read_spec(&self, index: u16) -> u8 {
        if index < 0x8000 {
            self.rom@[index as int]
        } else {
            0xFF
        }
    }

    pub fn new(game_bytes: Vec<u8>) -> (r: RomOnly)
        requires
            game_bytes@.len() >= 32768,
        ensures
            r.wf(),
            r.rom_spec() == game_bytes@.subrange(0, 32768),
    {
        RomOnly { rom: vec_prefix(&game_bytes, 32768) }
    }

    pub fn read(&self, index: u16) -> (r: u8)
        requires
            self.wf(),
        ensures
            r == self.read_spec(index),
    {
        if index < 0x8000 {
            self.rom[index as usize]
        } else {
            0xFF
        }
    }

    pub fn write(&mut self, _index: u16, _value: u8)
        ensures
            *final(self) == *old(self),
    {
    }

    pub fn save_persistent_state(&self) -> (r: Vec<u8>)
        ensures
            r@ == Seq::<u8>::empty(),
    {
        Vec::new()
    }

    pub fn load_persistent_state(&mut self, _state: Vec<u8>)
        ensures
            *final(self) == *old(self),
    {
    }

    pub fn cartridge_type(&self) -> (r: Option<Cartridge>)
        ensures
            r == Some(Cartridge::RomOnly),
    {
        Some(Cartridge::RomOnly)
    }

    pub fn tick(&mut self, _nticks: u8)
        ensures
            *final(self) == *old(self),
    {
    }
}

impl Addressable for RomOnly {
    open spec fn inv(&self) -> bool {
        self.wf()
    }

    fn read(&self, index: u16) -> u8 {
        RomOnly::read(self, index)
    }

    fn write(&mut self, index: u16, value: u8) {
        RomOnly::write(self, index, value)
    }

    fn save_persistent_state(&self) -> Vec<u8> {
        RomOnly::save_persistent_state(self)
    }

    fn load_persistent_state(&mut self, state: Vec<u8>) {
        RomOnly::load_persistent_state(self, state)
    }

    fn cartridge_type(&self) -> Option<Cartridge> {
        RomOnly::cartridge_type(self)
    }

    fn tick(&mut self, nticks: u8) {
        RomOnly::tick(self, nticks)
    }
}

// ------------------------------------------------------------------
// MBC1
// ------------------------------------------------------------------
/// Ghost mirror of the MBC1 state, used by the specifications.
pub struct Mbc1View {
    pub rom: Seq<u8>,
    pub ram: Seq<u8>,
    pub rom_select: u8,
    pub ram_select: u8,
    pub mode: u8,
    pub ram_enable: bool,
    pub num_rom_banks: int,
    pub num_ram_banks: int,
}

impl Mbc1View {
    pub open spec fn wf(self) -> bool {
        &&& (self.num_rom_banks == 2 || self.num_rom_banks == 4 || self.num_rom_banks == 8
            || self.num_rom_banks == 16 || self.num_rom_banks == 32 || self.num_rom_banks == 64)
        &&& self.rom.len() == self.num_rom_banks * 16384
        &&& (self.num_ram_banks == 0 || self.num_ram_banks == 1 || self.num_ram_banks == 4
            || self.num_ram_banks == 8 || self.num_ram_banks == 16)
        &&& self.ram.len() == self.num_ram_banks * 8192
        &&& 1 <= self.rom_select <= 31
        &&& self.ram_select <= 3
        &&& self.mode <= 1
    }

    /// Bank shown in 0x0000-0x3FFF: bank 0, except in advanced mode on a
    /// large ROM, where the secondary register supplies the upper bits.
    pub open spec fn low_bank(self) -> int {
        if self.mode == 0 || self.num_rom_banks <= 32 {
            0
        } else {
            (self.ram_select * 32) % self.num_rom_banks
        }
    }

    /// Bank shown in 0x4000-0x7FFF, masked to the banks available.
    pub open spec fn high_bank(self) -> int {
        if self.num_rom_banks <= 32 {
            (self.rom_select as int) % self.num_rom_banks
        } else {
            (self.ram_select * 32 + self.rom_select) % self.num_rom_banks
        }
    }

    /// RAM bank shown in 0xA000-0xBFFF (bank 0 in simple mode).
    pub open spec fn ram_bank(self) -> int {
        if self.num_ram_banks == 0 {
            0
        } else if self.mode == 0 {
            0
        } else {
            (self.ram_select as int) % self.num_ram_banks
        }
    }

    pub open spec fn read_spec(self, index: u16) -> u8 {
        if index < 0x4000 {
            self.rom[self.low_bank() * 16384 + index]
        } else if index < 0x8000 {
            self.rom[self.high_bank() * 16384 + (index - 0x4000)]
        } else if 0xA000 <= index && index < 0xC000 {
            if !self.ram_enable || self.num_ram_banks == 0 {
                0xFF
            } else {
                self.ram[self.ram_bank() * 8192 + (index - 0xA000)]
            }
        } else {
            0xFF
        }
    }

    pub open spec fn write_spec(self, index: u16, value: u8) -> Mbc1View {
        if index < 0x2000 {
            Mbc1View { ram_enable: value % 16 == 0xA, ..self }
        } else if index < 0x4000 {
            Mbc1View {
                rom_select: if value % 32 == 0 {
                    1u8
                } else {
                    (value % 32) as u8
                },
                ..self
            }
        } else if index < 0x6000 {
            if self.num_ram_banks > 1 || self.num_rom_banks > 32 {
                Mbc1View { ram_select: (value % 4) as u8, ..self }
            } else {
                self
            }
        } else if index < 0x8000 {
            Mbc1View { mode: (value % 2) as u8, ..self }
        } else if 0xA000 <= index && index < 0xC000 {
            if !self.ram_enable || self.num_ram_banks == 0 {
                self
            } else {
                Mbc1View {
                    ram: self.ram.update(self.ram_bank() * 8192 + (index - 0xA000), value),
                    ..self
                }
            }
        } else {
            self
        }
    }
}

/// A DH value rebuilt from bits 0, 6 and 7 has bits 1-5 clear.
proof fn lemma_dh_mask(v: u8)
    by (nonlinear_arith)
    ensures
        ((v % 2 + v / 64 * 64) / 2) % 32 == 0,
        v % 2 + v / 64 * 64 <= 255,
{
}

/// Offsets into a banked array stay inside it.
proof fn lemma_bank_index(bank: int, num: int, size: int, off: int)
    by (nonlinear_arith)
    requires
        0 <= bank < num,
        0 <= off < size,
    ensures
        0 <= bank * size + off < num * size,
{
}

/// MBC1: 5-bit ROM bank register (0 coerced to 1), 2-bit secondary register,
/// 1-bit mode, RAM enable gate.
pub struct MBC1 {
    pub rom: Vec<u8>,
    pub ram: Vec<u8>,
    pub rom_select_register: u8,
    pub ram_select_register: u8,
    pub bank_mode_register: u8,
    pub external_ram_enable: bool,
    pub num_rom_banks: usize,
    pub num_ram_banks: usize,
}

impl View for MBC1 {
    type V = Mbc1View;

    open spec fn view(&self) -> Mbc1View {
        Mbc1View {
            rom: self.rom@,
            ram: self.ram@,
            rom_select: self.rom_select_register,
            ram_select: self.ram_select_register,
            mode: self.bank_mode_register,
            ram_enable: self.external_ram_enable,
            num_rom_banks: self.num_rom_banks as int,
            num_ram_banks: self.num_ram_banks as int,
        }
    }
}

impl MBC1 {
    /// Builds the mapper from a ROM image with a valid header; RAM is sized
    /// from the header and cleared.
    pub fn new(game_bytes: Vec<u8>) -> (r: MBC1)
        requires
            spec_header_ok(game_bytes@),
        ensures
            r@.wf(),
            r@.rom == game_bytes@.subrange(0, spec_rom_banks(game_bytes@[0x148]) * 16384),
            r@.num_rom_banks == spec_rom_banks(game_bytes@[0x148]),
            r@.num_ram_banks == spec_ram_banks(game_bytes@[0x149]),
            forall|i: int| 0 <= i < r@.ram.len() ==> r@.ram[i] == 0u8,
            r@.rom_select == 1,
            r@.ram_select == 0,
            r@.mode == 0,
            !r@.ram_enable,
    {
        let num_rom_banks = rom_banks_from_code(game_bytes[0x148]);
        let num_ram_banks = ram_banks_from_code(game_bytes[0x149]);
        let rom = vec_prefix(&game_bytes, num_rom_banks * 16384);
        let ram = vec_zeros(num_ram_banks * 8192);
        MBC1 {
            rom,
            ram,
            rom_select_register: 1,
            ram_select_register: 0,
            bank_mode_register: 0,
            external_ram_enable: false,
            num_rom_banks,
            num_ram_banks,
        }
    }

    pub fn read(&self, index: u16) -> (r: u8)
        requires
            self@.wf(),
        ensures
            r == self@.read_spec(index),
    {
        if index < 0x4000 {
            let bank: usize = if self.bank_mode_register == 0 || self.num_rom_banks <= 32 {
                0
            } else {
                (self.ram_select_register as usize * 32) % self.num_rom_banks
            };
            proof {
                lemma_bank_index(bank as int, self.num_rom_banks as int, 16384, index as int);
            }
            self.rom[bank * 16384 + index as usize]
        } else if index < 0x8000 {
            let bank: usize = if self.num_rom_banks <= 32 {
                self.rom_select_register as usize % self.num_rom_banks
            } else {
                (self.ram_select_register as usize * 32 + self.rom_select_register as usize)
                    % self.num_rom_banks
            };
            proof {
                lemma_bank_index(bank as int, self.num_rom_banks as int, 16384, index - 0x4000);
            }
            self.rom[bank * 16384 + (index as usize - 0x4000)]
        } else if 0xA000 <= index && index < 0xC000 {
            if !self.external_ram_enable || self.num_ram_banks == 0 {
                0xFF
            } else {
                let bank: usize = if self.bank_mode_register == 0 {
                    0
                } else {
                    self.ram_select_register as usize % self.num_ram_banks
                };
                proof {
                    lemma_bank_index(bank as int, self.num_ram_banks as int, 8192, index - 0xA000);
                }
                self.ram[bank * 8192 + (index as usize - 0xA000)]
            }
        } else {
            0xFF
        }
    }

    pub fn write(&mut self, index: u16, value: u8)
        requires
            old(self)@.wf(),
        ensures
            final(self)@ == old(self)@.write_spec(index, value),
            final(self)@.wf(),
    {
        if index < 0x2000 {
            self.external_ram_enable = value % 16 == 0xA;
        } else if index < 0x4000 {
            if value % 32 == 0 {
                self.rom_select_register = 1;
            } else {
                self.rom_select_register = value % 32;
            }
        } else if index < 0x6000 {
            if self.num_ram_banks > 1 || self.num_rom_banks > 32 {
                self.ram_select_register = value % 4;
            }
        } else if index < 0x8000 {
            self.bank_mode_register = value % 2;
        } else if 0xA000 <= index && index < 0xC000 {
            if !self.external_ram_enable || self.num_ram_banks == 0 {
            } else {
                let bank: usize = if self.bank_mode_register == 0 {
                    0
                } else {
                    self.ram_select_register as usize % self.num_ram_banks
                };
                proof {
                    lemma_bank_index(bank as int, self.num_ram_banks as int, 8192, index - 0xA000);
                }
                self.ram[bank * 8192 + (index as usize - 0xA000)] = value;
            }
        }
    }

    /// Battery persistence: the external RAM contents, verbatim.
    pub fn save_persistent_state(&self) -> (r: Vec<u8>)
        ensures
            r@ == self@.ram,
    {
        self.ram.clone()
    }

    /// Restores the external RAM; an image of the wrong size is ignored.
    pub fn load_persistent_state(&mut self, state: Vec<u8>)
        ensures
            state@.len() == old(self)@.ram.len() ==> final(self)@ == (Mbc1View {
                ram: state@,
                ..old(self)@
            }),
            state@.len() != old(self)@.ram.len() ==> final(self)@ == old(self)@,
            final(self)@.wf() == old(self)@.wf(),
    {
        if state.len() == self.ram.len() {
            self.ram = state;
        }
    }

    pub fn cartridge_type(&self) -> (r: Option<Cartridge>)
        ensures
            r == Some(Cartridge::MBC1),
    {
        Some(Cartridge::MBC1)
    }

    pub fn tick(&mut self, _nticks: u8)
        ensures
            *final(self) == *old(self),
    {
    }
}

impl Addressable for MBC1 {
    open spec fn inv(&self) -> bool {
        self@.wf()
    }

    fn read(&self, index: u16) -> u8 {
        MBC1::read(self, index)
    }

    fn write(&mut self, index: u16, value: u8) {
        MBC1::write(self, index, value)
    }

    fn save_persistent_state(&self) -> Vec<u8> {
        MBC1::save_persistent_state(self)
    }

    fn load_persistent_state(&mut self, state: Vec<u8>) {
        MBC1::load_persistent_state(self, state)
    }

    fn cartridge_type(&self) -> Option<Cartridge> {
        MBC1::cartridge_type(self)
    }

    fn tick(&mut self, nticks: u8) {
        MBC1::tick(self, nticks)
    }
}

// ------------------------------------------------------------------
// MBC3
// ------------------------------------------------------------------
/// The five RTC registers: seconds, minutes, hours and the two day-counter
/// bytes (DH carries the day high bit, the halt bit and the day-carry bit).
#[derive(Clone, Copy, PartialEq, Eq, Structural, Debug)]
pub struct RTCreg {
    pub RTCS: u8,
    pub RTCM: u8,
    pub RTCH: u8,
    pub RTCDL: u8,
    pub RTCDH: u8,
}

impl RTCreg {
    /// Registers in range: 6-bit seconds and minutes, 5-bit hours, and only
    /// bits 0, 6 and 7 of DH in use.
    pub open spec fn wf(self) -> bool {
        &&& self.RTCS <= 63
        &&& self.RTCM <= 63
        &&& self.RTCH <= 31
        &&& (self.RTCDH / 2) % 32 == 0
    }

    pub fn new() -> (r: RTCreg)
        ensures
            r == (RTCreg { RTCS: 0u8, RTCM: 0u8, RTCH: 0u8, RTCDL: 0u8, RTCDH: 0u8 }),
    {
        RTCreg { RTCS: 0, RTCM: 0, RTCH: 0, RTCDL: 0, RTCDH: 0 }
    }
}

/// One second of real time applied to the RTC.  Each counter that overflows
/// its nominal range carries into the next; out-of-range values written by
/// software wrap within their field without carrying.  Overflow of DL sets
/// DH bit 0; overflow of DH bit 0 sets the day-carry bit 7.
pub open spec fn spec_rtc_advance(r: RTCreg) -> RTCreg {
    if r.RTCS != 59 {
        RTCreg { RTCS: if r.RTCS >= 63 { 0u8 } else { (r.RTCS + 1) as u8 }, ..r }
    } else if r.RTCM != 59 {
        RTCreg { RTCS: 0u8, RTCM: if r.RTCM >= 63 { 0u8 } else { (r.RTCM + 1) as u8 }, ..r }
    } else if r.RTCH != 23 {
        RTCreg {
            RTCS: 0u8,
            RTCM: 0u8,
            RTCH: if r.RTCH >= 31 {
                0u8
            } else {
                (r.RTCH + 1) as u8
            },
            ..r
        }
    } else if r.RTCDL != 255 {
        RTCreg { RTCS: 0u8, RTCM: 0u8, RTCH: 0u8, RTCDL: (r.RTCDL + 1) as u8, ..r }
    } else if r.RTCDH % 2 == 0 {
        RTCreg { RTCS: 0u8, RTCM: 0u8, RTCH: 0u8, RTCDL: 0u8, RTCDH: (r.RTCDH + 1) as u8 }
    } else {
        // Day counter overflow: clear bit 0, set the day-carry bit 7.
        RTCreg {
            RTCS: 0u8,
            RTCM: 0u8,
            RTCH: 0u8,
            RTCDL: 0u8,
            RTCDH: (r.RTCDH - 1 + (if r.RTCDH < 128 {
                128int
            } else {
                0int
            })) as u8,
        }
    }
}

fn rtc_advance(r: RTCreg) -> (out: RTCreg)
    requires
        r.wf(),
    ensures
        out == spec_rtc_advance(r),
        out.wf(),
{
    if r.RTCS != 59 {
        RTCreg { RTCS: if r.RTCS >= 63 { 0 } else { r.RTCS + 1 }, ..r }
    } else if r.RTCM != 59 {
        RTCreg { RTCS: 0, RTCM: if r.RTCM >= 63 { 0 } else { r.RTCM + 1 }, ..r }
    } else if r.RTCH != 23 {
        RTCreg { RTCS: 0, RTCM: 0, RTCH: if r.RTCH >= 31 { 0 } else { r.RTCH + 1 }, ..r }
    } else if r.RTCDL != 255 {
        RTCreg { RTCS: 0, RTCM: 0, RTCH: 0, RTCDL: r.RTCDL + 1, ..r }
    } else if r.RTCDH % 2 == 0 {
        RTCreg { RTCS: 0, RTCM: 0, RTCH: 0, RTCDL: 0, RTCDH: r.RTCDH + 1 }
    } else {
        RTCreg {
            RTCS: 0,
            RTCM: 0,
            RTCH: 0,
            RTCDL: 0,
            RTCDH: if r.RTCDH < 128 {
                r.RTCDH - 1 + 128
            } else {
                r.RTCDH - 1
            },
        }
    }
}

/// Ghost mirror of the MBC3 state.
pub struct Mbc3View {
    pub rom: Seq<u8>,
    pub ram: Seq<u8>,
    pub rom_select: u8,
    pub ram_select: u8,
    pub ram_enable: bool,
    pub latch_clock: u8,
    pub rtc: RTCreg,
    pub latched_rtc: RTCreg,
    pub ticks_since_last_second: u32,
    pub rtc_halted: bool,
    pub num_rom_banks: int,
    pub num_ram_banks: int,
}

impl Mbc3View {
    pub open spec fn wf(self) -> bool {
        &&& (self.num_rom_banks == 2 || self.num_rom_banks == 4 || self.num_rom_banks == 8
            || self.num_rom_banks == 16 || self.num_rom_banks == 32 || self.num_rom_banks == 64)
        &&& self.rom.len() == self.num_rom_banks * 16384
        &&& (self.num_ram_banks == 0 || self.num_ram_banks == 1 || self.num_ram_banks == 4
            || self.num_ram_banks == 8 || self.num_ram_banks == 16)
        &&& self.ram.len() == self.num_ram_banks * 8192
        &&& 1 <= self.rom_select <= 127
        &&& (self.ram_select <= 3 || (8 <= self.ram_select && self.ram_select <= 0xC))
        &&& self.rtc.wf()
        &&& self.ticks_since_last_second < CLOCK_FREQ_HZ
    }

    pub open spec fn high_bank(self) -> int {
        (self.rom_select as int) % self.num_rom_banks
    }

    pub open spec fn ram_bank(self) -> int {
        if self.num_ram_banks == 0 {
            0
        } else {
            (self.ram_select as int) % self.num_ram_banks
        }
    }

    pub open spec fn read_spec(self, index: u16) -> u8 {
        if index < 0x4000 {
            self.rom[index as int]
        } else if index < 0x8000 {
            self.rom[self.high_bank() * 16384 + (index - 0x4000)]
        } else if 0xA000 <= index && index < 0xC000 {
            if !self.ram_enable {
                0xFF
            } else if self.ram_select <= 3 {
                if self.num_ram_banks == 0 {
                    0xFF
                } else {
                    self.ram[self.ram_bank() * 8192 + (index - 0xA000)]
                }
            } else if self.ram_select == 0x8 {
                self.latched_rtc.RTCS
            } else if self.ram_select == 0x9 {
                self.latched_rtc.RTCM
            } else if self.ram_select == 0xA {
                self.latched_rtc.RTCH
            } else if self.ram_select == 0xB {
                self.latched_rtc.RTCDL
            } else if self.ram_select == 0xC {
                self.latched_rtc.RTCDH
            } else {
                0xFF
            }
        } else {
            0xFF
        }
    }

    pub open spec fn write_spec(self, index: u16, value: u8) -> Mbc3View {
        if index < 0x2000 {
            Mbc3View { ram_enable: value % 16 == 0xA, ..self }
        } else if index < 0x4000 {
            Mbc3View {
                rom_select: if value % 128 == 0 {
                    1u8
                } else {
                    (value % 128) as u8
                },
                ..self
            }
        } else if index < 0x6000 {
            if value <= 3 || (8 <= value && value <= 0xC) {
                Mbc3View { ram_select: value, ..self }
            } else {
                self
            }
        } else if index < 0x8000 {
            // Latch on a 0 -> 1 edge of the latch register.
            Mbc3View {
                latched_rtc: if self.latch_clock == 0 && value == 1 {
                    self.rtc
                } else {
                    self.latched_rtc
                },
                latch_clock: value,
                ..self
            }
        } else if 0xA000 <= index && index < 0xC000 {
            if !self.ram_enable {
                self
            } else if self.ram_select <= 3 {
                if self.num_ram_banks == 0 {
                    self
                } else {
                    Mbc3View {
                        ram: self.ram.update(self.ram_bank() * 8192 + (index - 0xA000), value),
                        ..self
                    }
                }
            } else if self.ram_select == 0x8 {
                Mbc3View {
                    rtc: RTCreg { RTCS: (value % 64) as u8, ..self.rtc },
                    ticks_since_last_second: 0u32,
                    ..self
                }
            } else if self.ram_select == 0x9 {
                Mbc3View { rtc: RTCreg { RTCM: (value % 64) as u8, ..self.rtc }, ..self }
            } else if self.ram_select == 0xA {
                Mbc3View { rtc: RTCreg { RTCH: (value % 32) as u8, ..self.rtc }, ..self }
            } else if self.ram_select == 0xB {
                Mbc3View { rtc: RTCreg { RTCDL: value, ..self.rtc }, ..self }
            } else if self.ram_select == 0xC {
                Mbc3View {
                    rtc: RTCreg {
                        RTCDH: (value % 2 + value / 64 * 64) as u8,
                        ..self.rtc
                    },
                    rtc_halted: (value / 64) % 2 == 1,
                    ..self
                }
            } else {
                self
            }
        } else {
            self
        }
    }

    /// A batch of T-cycles: while the halt bit is clear the tick counter
    /// accumulates, and each time it reaches one second of clock cycles the
    /// RTC advances by one second.
    pub open spec fn tick_spec(self, nticks: u8) -> Mbc3View {
        if self.rtc_halted {
            self
        } else if self.ticks_since_last_second + nticks >= CLOCK_FREQ_HZ {
            Mbc3View {
                ticks_since_last_second: (self.ticks_since_last_second + nticks
                    - CLOCK_FREQ_HZ) as u32,
                rtc: spec_rtc_advance(self.rtc),
                ..self
            }
        } else {
            Mbc3View {
                ticks_since_last_second: (self.ticks_since_last_second + nticks) as u32,
                ..self
            }
        }
    }
}

/// Restoring MBC3 battery state: a RAM-plus-clock image restores both
/// (the clock bytes masked to their fields), a bare RAM image restores the
/// RAM alone, and anything of the wrong size is ignored.
pub open spec fn spec_mbc3_restore(m: Mbc3View, state: Seq<u8>) -> Mbc3View {
    let n = m.ram.len() as int;
    if state.len() == n + 5 {
        Mbc3View {
            ram: state.subrange(0, n),
            rtc: RTCreg {
                RTCS: (state[n] % 64) as u8,
                RTCM: (state[n + 1] % 64) as u8,
                RTCH: (state[n + 2] % 32) as u8,
                RTCDL: state[n + 3],
                RTCDH: (state[n + 4] % 2 + state[n + 4] / 64 * 64) as u8,
            },
            ..m
        }
    } else if state.len() == n {
        Mbc3View { ram: state, ..m }
    } else {
        m
    }
}

/// MBC3: 7-bit ROM bank register (0 coerced to 1), RAM/RTC selector, latch
/// register and a battery-backed real-time clock.
pub struct MBC3 {
    pub rom: Vec<u8>,
    pub ram: Vec<u8>,
    pub rom_select_register: u8,
    pub ram_select_register: u8,
    pub external_ram_enable: bool,
    pub latch_clock: u8,
    pub rtc: RTCreg,
    pub latched_rtc: RTCreg,
    pub ticks_since_last_second: u32,
    pub rtc_halted: bool,
    pub num_rom_banks: usize,
    pub num_ram_banks: usize,
}

impl View for MBC3 {
    type V = Mbc3View;

    open spec fn view(&self) -> Mbc3View {
        Mbc3View {
            rom: self.rom@,
            ram: self.ram@,
            rom_select: self.rom_select_register,
            ram_select: self.ram_select_register,
            ram_enable: self.external_ram_enable,
            latch_clock: self.latch_clock,
            rtc: self.rtc,
            latched_rtc: self.latched_rtc,
            ticks_since_last_second: self.ticks_since_last_second,
            rtc_halted: self.rtc_halted,
            num_rom_banks: self.num_rom_banks as int,
            num_ram_banks: self.num_ram_banks as int,
        }
    }
}

impl MBC3 {
    pub fn new(game_bytes: Vec<u8>) -> (r: MBC3)
        requires
            spec_header_ok(game_bytes@),
        ensures
            r@.wf(),
            r@.rom == game_bytes@.subrange(0, spec_rom_banks(game_bytes@[0x148]) * 16384),
            r@.num_rom_banks == spec_rom_banks(game_bytes@[0x148]),
            r@.num_ram_banks == spec_ram_banks(game_bytes@[0x149]),
            forall|i: int| 0 <= i < r@.ram.len() ==> r@.ram[i] == 0u8,
            r@.rom_select == 1,
            r@.ram_select == 0,
            !r@.ram_enable,
            r@.rtc == (RTCreg { RTCS: 0u8, RTCM: 0u8, RTCH: 0u8, RTCDL: 0u8, RTCDH: 0u8 }),
            r@.latched_rtc == r@.rtc,
            r@.ticks_since_last_second == 0,
            !r@.rtc_halted,
    {
        let num_rom_banks = rom_banks_from_code(game_bytes[0x148]);
        let num_ram_banks = ram_banks_from_code(game_bytes[0x149]);
        let rom = vec_prefix(&game_bytes, num_rom_banks * 16384);
        let ram = vec_zeros(num_ram_banks * 8192);
        MBC3 {
            rom,
            ram,
            rom_select_register: 1,
            ram_select_register: 0,
            external_ram_enable: false,
            latch_clock: 255,
            rtc: RTCreg::new(),
            latched_rtc: RTCreg::new(),
            ticks_since_last_second: 0,
            rtc_halted: false,
            num_rom_banks,
            num_ram_banks,
        }
    }

    pub fn read(&self, index: u16) -> (r: u8)
        requires
            self@.wf(),
        ensures
            r == self@.read_spec(index),
    {
        if index < 0x4000 {
            self.rom[index as usize]
        } else if index < 0x8000 {
            let bank: usize = self.rom_select_register as usize % self.num_rom_banks;
            proof {
                lemma_bank_index(bank as int, self.num_rom_banks as int, 16384, index - 0x4000);
            }
            self.rom[bank * 16384 + (index as usize - 0x4000)]
        } else if 0xA000 <= index && index < 0xC000 {
            if !self.external_ram_enable {
                0xFF
            } else if self.ram_select_register <= 3 {
                if self.num_ram_banks == 0 {
                    0xFF
                } else {
                    let bank: usize = self.ram_select_register as usize % self.num_ram_banks;
                    proof {
                        lemma_bank_index(
                            bank as int,
                            self.num_ram_banks as int,
                            8192,
                            index - 0xA000,
                        );
                    }
                    self.ram[bank * 8192 + (index as usize - 0xA000)]
                }
            } else if self.ram_select_register == 0x8 {
                self.latched_rtc.RTCS
            } else if self.ram_select_register == 0x9 {
                self.latched_rtc.RTCM
            } else if self.ram_select_register == 0xA {
                self.latched_rtc.RTCH
            } else if self.ram_select_register == 0xB {
                self.latched_rtc.RTCDL
            } else if self.ram_select_register == 0xC {
                self.latched_rtc.RTCDH
            } else {
                0xFF
            }
        } else {
            0xFF
        }
    }

    pub fn write(&mut self, index: u16, value: u8)
        requires
            old(self)@.wf(),
        ensures
            final(self)@ == old(self)@.write_spec(index, value),
            final(self)@.wf(),
    {
        if index < 0x2000 {
            self.external_ram_enable = value % 16 == 0xA;
        } else if index < 0x4000 {
            if value % 128 == 0 {
                self.rom_select_register = 1;
            } else {
                self.rom_select_register = value % 128;
            }
        } else if index < 0x6000 {
            if value <= 3 || (8 <= value && value <= 0xC) {
                self.ram_select_register = value;
            }
        } else if index < 0x8000 {
            if self.latch_clock == 0 && value == 1 {
                self.latched_rtc = self.rtc;
            }
            self.latch_clock = value;
        } else if 0xA000 <= index && index < 0xC000 {
            if !self.external_ram_enable {
            } else if self.ram_select_register <= 3 {
                if self.num_ram_banks == 0 {
                } else {
                    let bank: usize = self.ram_select_register as usize % self.num_ram_banks;
                    proof {
                        lemma_bank_index(
                            bank as int,
                            self.num_ram_banks as int,
                            8192,
                            index - 0xA000,
                        );
                    }
                    self.ram[bank * 8192 + (index as usize - 0xA000)] = value;
                }
            } else if self.ram_select_register == 0x8 {
                self.rtc.RTCS = value % 64;
                self.ticks_since_last_second = 0;
            } else if self.ram_select_register == 0x9 {
                self.rtc.RTCM = value % 64;
            } else if self.ram_select_register == 0xA {
                self.rtc.RTCH = value % 32;
            } else if self.ram_select_register == 0xB {
                self.rtc.RTCDL = value;
            } else if self.ram_select_register == 0xC {
                proof {
                    lemma_dh_mask(value);
                }
                self.rtc.RTCDH = value % 2 + value / 64 * 64;
                self.rtc_halted = (value / 64) % 2 == 1;
            }
        }
    }

    /// Battery persistence: the external RAM followed by the five RTC
    /// bytes (seconds, minutes, hours, day low, day high).
    pub fn save_persistent_state(&self) -> (r: Vec<u8>)
        ensures
            r@ == self@.ram + seq![
                self.rtc.RTCS,
                self.rtc.RTCM,
                self.rtc.RTCH,
                self.rtc.RTCDL,
                self.rtc.RTCDH,
            ],
    {
        let mut v = self.ram.clone();
        v.push(self.rtc.RTCS);
        v.push(self.rtc.RTCM);
        v.push(self.rtc.RTCH);
        v.push(self.rtc.RTCDL);
        v.push(self.rtc.RTCDH);
        proof {
            assert(v@ =~= self@.ram + seq![
                self.rtc.RTCS,
                self.rtc.RTCM,
                self.rtc.RTCH,
                self.rtc.RTCDL,
                self.rtc.RTCDH,
            ]);
        }
        v
    }

    /// Restores the external RAM and the clock; see `spec_mbc3_restore`.
    pub fn load_persistent_state(&mut self, state: Vec<u8>)
        requires
            old(self)@.wf(),
        ensures
            final(self)@ == spec_mbc3_restore(old(self)@, state@),
            final(self)@.wf(),
    {
        let n = self.ram.len();
        if state.len() == n + 5 {
            let s0 = state[n];
            let s1 = state[n + 1];
            let s2 = state[n + 2];
            let s3 = state[n + 3];
            let s4 = state[n + 4];
            let mut st = state;
            st.truncate(n);
            self.ram = st;
            self.rtc.RTCS = s0 % 64;
            self.rtc.RTCM = s1 % 64;
            self.rtc.RTCH = s2 % 32;
            self.rtc.RTCDL = s3;
            proof {
                lemma_dh_mask(s4);
            }
            self.rtc.RTCDH = s4 % 2 + s4 / 64 * 64;
        } else if state.len() == n {
            self.ram = state;
        }
    }

    pub fn cartridge_type(&self) -> (r: Option<Cartridge>)
        ensures
            r == Some(Cartridge::MBC3),
    {
        Some(Cartridge::MBC3)
    }

    pub fn tick(&mut self, nticks: u8)
        requires
            old(self)@.wf(),
        ensures
            final(self)@ == old(self)@.tick_spec(nticks),
            final(self)@.wf(),
    {
        if self.rtc_halted {
            return ;
        }
        self.ticks_since_last_second = self.ticks_since_last_second + nticks as u32;
        if self.ticks_since_last_second >= CLOCK_FREQ_HZ {
            self.ticks_since_last_second = self.ticks_since_last_second - CLOCK_FREQ_HZ;
            self.rtc = rtc_advance(self.rtc);
        }
    }
}

impl Addressable for MBC3 {
    open spec fn inv(&self) -> bool {
        self@.wf()
    }

    fn read(&self, index: u16) -> u8 {
        MBC3::read(self, index)
    }

    fn write(&mut self, index: u16, value: u8) {
        MBC3::write(self, index, value)
    }

    fn save_persistent_state(&self) -> Vec<u8> {
        MBC3::save_persistent_state(self)
    }

    fn load_persistent_state(&mut self, state: Vec<u8>) {
        MBC3::load_persistent_state(self, state)
    }

    fn cartridge_type(&self) -> Option<Cartridge> {
        MBC3::cartridge_type(self)
    }

    fn tick(&mut self, nticks: u8) {
        MBC3::tick(self, nticks)
    }
}

// ------------------------------------------------------------------
// The mapper slot of the bus
// ------------------------------------------------------------------
/// The mapper installed in the bus, dispatched statically so that each
/// variant keeps its precise contracts.
pub enum Mapper {
    NoCart(NoCartridge),
    RomOnly(RomOnly),
    MBC1(MBC1),
    MBC3(MBC3),
}

/// Ghost mirror of the mapper slot.
pub enum MapperView {
    NoCart,
    RomOnly(Seq<u8>),
    MBC1(Mbc1View),
    MBC3(Mbc3View),
}

impl MapperView {
    pub open spec fn wf(self) -> bool {
        match self {
            MapperView::NoCart => true,
            MapperView::RomOnly(rom) => rom.len() == 32768,
            MapperView::MBC1(v) => v.wf(),
            MapperView::MBC3(v) => v.wf(),
        }
    }

    pub open spec fn read_spec(self, index: u16) -> u8 {
        match self {
            MapperView::NoCart => 0xFF,
            MapperView::RomOnly(rom) => if index < 0x8000 {
                rom[index as int]
            } else {
                0xFF
            },
            MapperView::MBC1(v) => v.read_spec(index),
            MapperView::MBC3(v) => v.read_spec(index),
        }
    }

    pub open spec fn write_spec(self, index: u16, value: u8) -> MapperView {
        match self {
            MapperView::NoCart => self,
            MapperView::RomOnly(_) => self,
            MapperView::MBC1(v) => MapperView::MBC1(v.write_spec(index, value)),
            MapperView::MBC3(v) => MapperView::MBC3(v.write_spec(index, value)),
        }
    }

    /// Only the MBC3 has time-dependent state; the bus ticks it per batch.
    pub open spec fn tick_spec(self, nticks: u8) -> MapperView {
        match self {
            MapperView::MBC3(v) => MapperView::MBC3(v.tick_spec(nticks)),
            _ => self,
        }
    }

    pub open spec fn cartridge_type_spec(self) -> Option<Cartridge> {
        match self {
            MapperView::NoCart => None,
            MapperView::RomOnly(_) => Some(Cartridge::RomOnly),
            MapperView::MBC1(_) => Some(Cartridge::MBC1),
            MapperView::MBC3(_) => Some(Cartridge::MBC3),
        }
    }
}

impl View for Mapper {
    type V = MapperView;

    open spec fn view(&self) -> MapperView {
        match self {
            Mapper::NoCart(_) => MapperView::NoCart,
            Mapper::RomOnly(m) => MapperView::RomOnly(m.rom@),
            Mapper::MBC1(m) => MapperView::MBC1(m@),
            Mapper::MBC3(m) => MapperView::MBC3(m@),
        }
    }
}

impl Mapper {
    pub fn read(&self, index: u16) -> (r: u8)
        requires
            self@.wf(),
        ensures
            r == self@.read_spec(index),
    {
        match self {
            Mapper::NoCart(m) => m.read(index),
            Mapper::RomOnly(m) => m.read(index),
            Mapper::MBC1(m) => m.read(index),
            Mapper::MBC3(m) => m.read(index),
        }
    }

    pub fn write(&mut self, index: u16, value: u8)
        requires
            old(self)@.wf(),
        ensures
            final(self)@ == old(self)@.write_spec(index, value),
            final(self)@.wf(),
    {
        match self {
            Mapper::NoCart(m) => m.write(index, value),
            Mapper::RomOnly(m) => m.write(index, value),
            Mapper::MBC1(m) => m.write(index, value),
            Mapper::MBC3(m) => m.write(index, value),
        }
    }

    /// What a power-off saves: nothing for the unbanked mappers, the
    /// battery RAM for MBC1, the battery RAM plus the five RTC bytes for
    /// MBC3.
    pub fn save_persistent_state(&self) -> (r: Vec<u8>)
        requires
            self@.wf(),
        ensures
            self@ is NoCart ==> r@ == Seq::<u8>::empty(),
            self@ is RomOnly ==> r@ == Seq::<u8>::empty(),
            self@ matches MapperView::MBC1(m) ==> r@ == m.ram,
            self@ matches MapperView::MBC3(m) ==> r@ == m.ram + seq![
                m.rtc.RTCS,
                m.rtc.RTCM,
                m.rtc.RTCH,
                m.rtc.RTCDL,
                m.rtc.RTCDH,
            ],
    {
        match self {
            Mapper::NoCart(m) => m.save_persistent_state(),
            Mapper::RomOnly(m) => m.save_persistent_state(),
            Mapper::MBC1(m) => m.save_persistent_state(),
            Mapper::MBC3(m) => m.save_persistent_state(),
        }
    }

    /// Restores what `save_persistent_state` wrote; an image that does not
    /// fit the mapper is ignored.
    pub fn load_persistent_state(&mut self, state: Vec<u8>)
        requires
            old(self)@.wf(),
        ensures
            final(self)@.wf(),
            old(self)@ is NoCart ==> final(self)@ == old(self)@,
            old(self)@ is RomOnly ==> final(self)@ == old(self)@,
            old(self)@ matches MapperView::MBC1(m) ==> final(self)@ == MapperView::MBC1(
                if state@.len() == m.ram.len() {
                    Mbc1View { ram: state@, ..m }
                } else {
                    m
                },
            ),
            old(self)@ matches MapperView::MBC3(m) ==> final(self)@ == MapperView::MBC3(
                spec_mbc3_restore(m, state@),
            ),
    {
        match self {
            Mapper::NoCart(m) => m.load_persistent_state(state),
            Mapper::RomOnly(m) => m.load_persistent_state(state),
            Mapper::MBC1(m) => m.load_persistent_state(state),
            Mapper::MBC3(m) => m.load_persistent_state(state),
        }
    }

    pub fn cartridge_type(&self) -> (r: Option<Cartridge>)
        ensures
            r == self@.cartridge_type_spec(),
    {
        match self {
            Mapper::NoCart(m) => m.cartridge_type(),
            Mapper::RomOnly(m) => m.cartridge_type(),
            Mapper::MBC1(m) => m.cartridge_type(),
            Mapper::MBC3(m) => m.cartridge_type(),
        }
    }

    pub fn tick(&mut self, nticks: u8)
        requires
            old(self)@.wf(),
        ensures
            final(self)@ == old(self)@.tick_spec(nticks),
            final(self)@.wf(),
    {
        match self {
            Mapper::NoCart(_) => (),
            Mapper::RomOnly(_) => (),
            Mapper::MBC1(_) => (),
            Mapper::MBC3(m) => m.tick(nticks),
        }
    }
}

} // verus!
