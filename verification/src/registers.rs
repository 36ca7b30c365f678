//! The LR35902 register file: A, F, B, C, D, E, H, L plus 16-bit SP and PC.
//!
//! The flag register F holds Z (bit 7), N (6), H (5) and C (4); its low
//! nibble is zero at all times.  The flags are kept as four booleans, so the
//! low-nibble invariant holds by construction and `AF` always reports a value
//! whose low nibble is clear.
use vstd::prelude::*;

verus! {

pub struct RegisterBank {
    pub A: u8,
    pub B: u8,
    pub C: u8,
    pub D: u8,
    pub E: u8,
    pub H: u8,
    pub L: u8,
    pub SP: u16,
    pub PC: u16,
    pub flag_z: bool,
    pub flag_n: bool,
    pub flag_h: bool,
    pub flag_c: bool,
}

impl RegisterBank {
    /// The value of the F register: flag bits packed into the high nibble.
    pub open spec fn f_spec(self) -> u8 {
        ((if self.flag_z { 128int } else { 0int }) + (if self.flag_n { 64int } else { 0int })
            + (if self.flag_h { 32int } else { 0int }) + (if self.flag_c {
            16int
        } else {
            0int
        })) as u8
    }

    pub open spec fn af_spec(self) -> u16 {
        (self.A * 256 + self.f_spec()) as u16
    }

    pub open spec fn bc_spec(self) -> u16 {
        (self.B * 256 + self.C) as u16
    }

    pub open spec fn de_spec(self) -> u16 {
        (self.D * 256 + self.E) as u16
    }

    pub open spec fn hl_spec(self) -> u16 {
        (self.H * 256 + self.L) as u16
    }

    /// Post-boot state: registers cleared, SP at the top of high RAM, PC at
    /// the cartridge entry point.
    pub fn new() -> (r: RegisterBank)
        ensures
            r == (RegisterBank {
                A: 0u8,
                B: 0u8,
                C: 0u8,
                D: 0u8,
                E: 0u8,
                H: 0u8,
                L: 0u8,
                SP: 0xFFFEu16,
                PC: 0x0100u16,
                flag_z: false,
                flag_n: false,
                flag_h: false,
                flag_c: false,
            }),
    {
        RegisterBank {
            A: 0,
            B: 0,
            C: 0,
            D: 0,
            E: 0,
            H: 0,
            L: 0,
            SP: 0xFFFE,
            PC: 0x0100,
            flag_z: false,
            flag_n: false,
            flag_h: false,
            flag_c: false,
        }
    }

    pub fn BC(&self) -> (r: u16)
        ensures
            r == self.bc_spec(),
    {
        (self.B as u16) * 256 + (self.C as u16)
    }

    pub fn DE(&self) -> (r: u16)
        ensures
            r == self.de_spec(),
    {
        (self.D as u16) * 256 + (self.E as u16)
    }

    pub fn HL(&self) -> (r: u16)
        ensures
            r == self.hl_spec(),
    {
        (self.H as u16) * 256 + (self.L as u16)
    }

    pub fn AF(&self) -> (r: u16)
        ensures
            r == self.af_spec(),
            r % 16 == 0,
    {
        let f: u16 = (if self.flag_z {
            128u16
        } else {
            0u16
        }) + (if self.flag_n {
            64u16
        } else {
            0u16
        }) + (if self.flag_h {
            32u16
        } else {
            0u16
        }) + (if self.flag_c {
            16u16
        } else {
            0u16
        });
        (self.A as u16) * 256 + f
    }

    pub fn PC(&self) -> (r: u16)
        ensures
            r == self.PC,
    {
        self.PC
    }

    pub fn increment_PC(&mut self)
        ensures
            *final(self) == (RegisterBank { PC: ((old(self).PC + 1) % 0x10000) as u16, ..*old(
                self,
            ) }),
    {
        self.PC = self.PC.wrapping_add(1);
    }

    pub fn set_BC(&mut self, v: u16)
        ensures
            *final(self) == (RegisterBank {
                B: (v / 256) as u8,
                C: (v % 256) as u8,
                ..*old(self)
            }),
            final(self).bc_spec() == v,
    {
        self.B = (v / 256) as u8;
        self.C = (v % 256) as u8;
    }

    pub fn set_DE(&mut self, v: u16)
        ensures
            *final(self) == (RegisterBank {
                D: (v / 256) as u8,
                E: (v % 256) as u8,
                ..*old(self)
            }),
            final(self).de_spec() == v,
    {
        self.D = (v / 256) as u8;
        self.E = (v % 256) as u8;
    }

    pub fn set_HL(&mut self, v: u16)
        ensures
            *final(self) == (RegisterBank {
                H: (v / 256) as u8,
                L: (v % 256) as u8,
                ..*old(self)
            }),
            final(self).hl_spec() == v,
    {
        self.H = (v / 256) as u8;
        self.L = (v % 256) as u8;
    }

    /// Loads AF; the low nibble of the value is discarded, as F's low nibble
    /// is always zero.
    pub fn set_AF(&mut self, v: u16)
        ensures
            *final(self) == (RegisterBank {
                A: (v / 256) as u8,
                flag_z: v / 128 % 2 == 1,
                flag_n: v / 64 % 2 == 1,
                flag_h: v / 32 % 2 == 1,
                flag_c: v / 16 % 2 == 1,
                ..*old(self)
            }),
    {
        self.A = (v / 256) as u8;
        self.flag_z = v / 128 % 2 == 1;
        self.flag_n = v / 64 % 2 == 1;
        self.flag_h = v / 32 % 2 == 1;
        self.flag_c = v / 16 % 2 == 1;
    }

    pub fn write_PC(&mut self, v: u16)
        ensures
            *final(self) == (RegisterBank { PC: v, ..*old(self) }),
    {
        self.PC = v
    }

    pub fn read_C(&self) -> (r: bool)
        ensures
            r == self.flag_c,
    {
        self.flag_c
    }

    pub fn read_H(&self) -> (r: bool)
        ensures
            r == self.flag_h,
    {
        self.flag_h
    }

    pub fn read_N(&self) -> (r: bool)
        ensures
            r == self.flag_n,
    {
        self.flag_n
    }

    pub fn read_Z(&self) -> (r: bool)
        ensures
            r == self.flag_z,
    {
        self.flag_z
    }

    pub fn set_C(&mut self)
        ensures
            *final(self) == (RegisterBank { flag_c: true, ..*old(self) }),
    {
        self.flag_c = true;
    }

    pub fn set_H(&mut self)
        ensures
            *final(self) == (RegisterBank { flag_h: true, ..*old(self) }),
    {
        self.flag_h = true;
    }

    pub fn set_N(&mut self)
        ensures
            *final(self) == (RegisterBank { flag_n: true, ..*old(self) }),
    {
        self.flag_n = true;
    }

    pub fn set_Z(&mut self)
        ensures
            *final(self) == (RegisterBank { flag_z: true, ..*old(self) }),
    {
        self.flag_z = true;
    }

    pub fn clear_C(&mut self)
        ensures
            *final(self) == (RegisterBank { flag_c: false, ..*old(self) }),
    {
        self.flag_c = false;
    }

    pub fn clear_H(&mut self)
        ensures
            *final(self) == (RegisterBank { flag_h: false, ..*old(self) }),
    {
        self.flag_h = false;
    }

    pub fn clear_N(&mut self)
        ensures
            *final(self) == (RegisterBank { flag_n: false, ..*old(self) }),
    {
        self.flag_n = false;
    }

    pub fn clear_Z(&mut self)
        ensures
            *final(self) == (RegisterBank { flag_z: false, ..*old(self) }),
    {
        self.flag_z = false;
    }

    /// Writes one flag from a condition; used by the arithmetic handlers.
    pub fn set_C_from_bool(&mut self, b: bool)
        ensures
            *final(self) == (RegisterBank { flag_c: b, ..*old(self) }),
    {
        self.flag_c = b;
    }

    pub fn set_H_from_bool(&mut self, b: bool)
        ensures
            *final(self) == (RegisterBank { flag_h: b, ..*old(self) }),
    {
        self.flag_h = b;
    }

    pub fn set_N_from_bool(&mut self, b: bool)
        ensures
            *final(self) == (RegisterBank { flag_n: b, ..*old(self) }),
    {
        self.flag_n = b;
    }

    pub fn set_Z_from_bool(&mut self, b: bool)
        ensures
            *final(self) == (RegisterBank { flag_z: b, ..*old(self) }),
    {
        self.flag_z = b;
    }
}

} // verus!
