//! The LR35902 instruction interpreter: fetch, decode and execute of the
//! unprefixed and CB-prefixed opcodes, interrupt enable handling and HALT.
//!
//! Every instruction handler is specified as a transition on the CPU state
//! and the bus view; the flag rules are stated arithmetically, exactly as
//! §4.1's table gives them.
use vstd::prelude::*;

verus! {

use crate::registers::RegisterBank;
use crate::memory::{AddressSpace, BusView};
use crate::opcodes::{Opcode, get_instr, spec_instr_len, spec_cycles_taken, spec_cycles_not_taken};
use crate::bits::{spec_mask_of, spec_set_bit, spec_clear_bit, spec_bit, mask_of, set_bit,
    clear_bit, get_bit};

pub struct CPU {
    pub registers: RegisterBank,
    pub master_interrupt_enable: bool,
    pub enable_interrupts_next_instr: bool,
    pub clock: u64,
    pub halted: bool,
    /// Debug channel for runaway emulated code: the last opcode byte that
    /// decoded to no instruction, kept instead of corrupting state.
    pub last_illegal_opcode: Option<u16>,
}

/// The little-endian immediate operand: low byte first.
pub fn bytes_to_u16(extra_bytes: Vec<u8>) -> (r: u16)
    requires
        extra_bytes@.len() >= 2,
    ensures
        r == extra_bytes@[1] * 256 + extra_bytes@[0],
{
    (extra_bytes[1] as u16) * 256 + (extra_bytes[0] as u16)
}

/// Sign extension of a relative-jump operand to 16 bits.
pub fn byte_to_i16(in_value: u8) -> (r: u16)
    ensures
        r == spec_sign_extend(in_value),
{
    if in_value >= 128 {
        0xFF00 + in_value as u16
    } else {
        in_value as u16
    }
}

pub open spec fn spec_sign_extend(v: u8) -> u16 {
    if v >= 128 {
        (0xFF00 + v) as u16
    } else {
        v as u16
    }
}

/// The value of 8-bit operand `i` of the bit-field encoding: registers
/// B, C, D, E, H, L, the byte at (HL), then A.
pub open spec fn spec_r8_get(c: CPU, b: BusView, i: u8) -> u8 {
    if i == 0 {
        c.registers.B
    } else if i == 1 {
        c.registers.C
    } else if i == 2 {
        c.registers.D
    } else if i == 3 {
        c.registers.E
    } else if i == 4 {
        c.registers.H
    } else if i == 5 {
        c.registers.L
    } else if i == 6 {
        b.read_spec(c.registers.hl_spec())
    } else {
        c.registers.A
    }
}

/// Writing 8-bit operand `i`: a register write, or a bus write at (HL).
pub open spec fn spec_r8_set(c: CPU, b: BusView, i: u8, v: u8) -> (CPU, BusView) {
    if i == 0 {
        (CPU { registers: RegisterBank { B: v, ..c.registers }, ..c }, b)
    } else if i == 1 {
        (CPU { registers: RegisterBank { C: v, ..c.registers }, ..c }, b)
    } else if i == 2 {
        (CPU { registers: RegisterBank { D: v, ..c.registers }, ..c }, b)
    } else if i == 3 {
        (CPU { registers: RegisterBank { E: v, ..c.registers }, ..c }, b)
    } else if i == 4 {
        (CPU { registers: RegisterBank { H: v, ..c.registers }, ..c }, b)
    } else if i == 5 {
        (CPU { registers: RegisterBank { L: v, ..c.registers }, ..c }, b)
    } else if i == 6 {
        (c, b.write_spec(c.registers.hl_spec(), v))
    } else {
        (CPU { registers: RegisterBank { A: v, ..c.registers }, ..c }, b)
    }
}

/// The value of 16-bit operand `i`: BC, DE, HL, SP, then AF for the stack
/// instructions.
pub open spec fn spec_r16_get(c: CPU, i: u8) -> u16 {
    if i == 0 {
        c.registers.bc_spec()
    } else if i == 1 {
        c.registers.de_spec()
    } else if i == 2 {
        c.registers.hl_spec()
    } else if i == 3 {
        c.registers.SP
    } else {
        c.registers.af_spec()
    }
}

pub open spec fn spec_r16_set(c: CPU, i: u8, v: u16) -> CPU {
    if i == 0 {
        CPU {
            registers: RegisterBank {
                B: (v / 256) as u8,
                C: (v % 256) as u8,
                ..c.registers
            },
            ..c
        }
    } else if i == 1 {
        CPU {
            registers: RegisterBank {
                D: (v / 256) as u8,
                E: (v % 256) as u8,
                ..c.registers
            },
            ..c
        }
    } else if i == 2 {
        CPU {
            registers: RegisterBank {
                H: (v / 256) as u8,
                L: (v % 256) as u8,
                ..c.registers
            },
            ..c
        }
    } else if i == 3 {
        CPU { registers: RegisterBank { SP: v, ..c.registers }, ..c }
    } else {
        CPU {
            registers: RegisterBank {
                A: (v / 256) as u8,
                flag_z: v / 128 % 2 == 1,
                flag_n: v / 64 % 2 == 1,
                flag_h: v / 32 % 2 == 1,
                flag_c: v / 16 % 2 == 1,
                ..c.registers
            },
            ..c
        }
    }
}

/// The branch condition of the conditional jumps, calls and returns:
/// NZ, Z, NC, C for the two condition bits of the opcode.
pub open spec fn spec_condition(c: CPU, opcode: u16) -> bool {
    let cc = opcode / 8 % 4;
    if cc == 0 {
        !c.registers.flag_z
    } else if cc == 1 {
        c.registers.flag_z
    } else if cc == 2 {
        !c.registers.flag_c
    } else {
        c.registers.flag_c
    }
}

/// 16-bit wraparound.
pub open spec fn w16(x: int) -> u16 {
    (x % 0x10000) as u16
}

/// 8-bit wraparound.
pub open spec fn w8(x: int) -> u8 {
    (x % 0x100) as u8
}

/// ADD/ADC: A += operand (+ carry); Z from the result, N clear, H from the
/// low-nibble sum, C from the full sum.
pub open spec fn spec_add_u8(c: CPU, operand: u8, carry_in: bool) -> CPU {
    let a = c.registers.A;
    let cin: int = if carry_in {
        1
    } else {
        0
    };
    let result = w8(a + operand + cin);
    CPU {
        registers: RegisterBank {
            A: result,
            flag_c: a + operand + cin > 0xFF,
            flag_h: a % 16 + operand % 16 + cin > 0xF,
            flag_n: false,
            flag_z: result == 0,
            ..c.registers
        },
        ..c
    }
}

/// SUB/SBC: A -= operand (+ carry); Z from the result, N set, H from the
/// low-nibble borrow, C from the full borrow.
pub open spec fn spec_sub_u8(c: CPU, operand: u8, carry_in: bool) -> CPU {
    let a = c.registers.A;
    let cin: int = if carry_in {
        1
    } else {
        0
    };
    let result = w8(a - operand - cin);
    CPU {
        registers: RegisterBank {
            A: result,
            flag_c: a < operand + cin,
            flag_h: a % 16 < operand % 16 + cin,
            flag_n: true,
            flag_z: result == 0,
            ..c.registers
        },
        ..c
    }
}

/// AND: Z from the result, N = 0, H = 1, C = 0.
pub open spec fn spec_and_u8(c: CPU, operand: u8) -> CPU {
    let result = c.registers.A & operand;
    CPU {
        registers: RegisterBank {
            A: result,
            flag_c: false,
            flag_h: true,
            flag_n: false,
            flag_z: result == 0,
            ..c.registers
        },
        ..c
    }
}

/// XOR: Z from the result, N = H = C = 0.
pub open spec fn spec_xor_u8(c: CPU, operand: u8) -> CPU {
    let result = c.registers.A ^ operand;
    CPU {
        registers: RegisterBank {
            A: result,
            flag_c: false,
            flag_h: false,
            flag_n: false,
            flag_z: result == 0,
            ..c.registers
        },
        ..c
    }
}

/// OR: Z from the result, N = H = C = 0.
pub open spec fn spec_or_u8(c: CPU, operand: u8) -> CPU {
    let result = c.registers.A | operand;
    CPU {
        registers: RegisterBank {
            A: result,
            flag_c: false,
            flag_h: false,
            flag_n: false,
            flag_z: result == 0,
            ..c.registers
        },
        ..c
    }
}

/// CP: the flags of SUB, A unchanged.
pub open spec fn spec_compare_u8(c: CPU, operand: u8) -> CPU {
    let a = c.registers.A;
    CPU {
        registers: RegisterBank {
            flag_c: a < operand,
            flag_h: a % 16 < operand % 16,
            flag_n: true,
            flag_z: a == operand,
            ..c.registers
        },
        ..c
    }
}

/// DAA: adjusts A back to packed BCD after an addition or subtraction,
/// using N, H and C; sets C when the high adjustment fired, clears H.
pub open spec fn spec_daa(c: CPU) -> CPU {
    let a = c.registers.A;
    if c.registers.flag_n {
        let v1 = if c.registers.flag_c {
            w8(a - 0x60)
        } else {
            a
        };
        let v2 = if c.registers.flag_h {
            w8(v1 - 0x06)
        } else {
            v1
        };
        CPU {
            registers: RegisterBank { A: v2, flag_z: v2 == 0, flag_h: false, ..c.registers },
            ..c
        }
    } else {
        let carry = c.registers.flag_c || a > 0x99;
        let v1 = if carry {
            w8(a + 0x60)
        } else {
            a
        };
        let v2 = if c.registers.flag_h || a % 16 > 9 {
            w8(v1 + 0x06)
        } else {
            v1
        };
        CPU {
            registers: RegisterBank {
                A: v2,
                flag_z: v2 == 0,
                flag_h: false,
                flag_c: carry,
                ..c.registers
            },
            ..c
        }
    }
}

/// CPL: complements A, sets N and H.
pub open spec fn spec_cpl(c: CPU) -> CPU {
    CPU {
        registers: RegisterBank {
            A: (255 - c.registers.A) as u8,
            flag_h: true,
            flag_n: true,
            ..c.registers
        },
        ..c
    }
}

/// SCF: sets C, clears N and H.
pub open spec fn spec_scf(c: CPU) -> CPU {
    CPU {
        registers: RegisterBank { flag_c: true, flag_h: false, flag_n: false, ..c.registers },
        ..c
    }
}

/// CCF: complements C, clears N and H.
pub open spec fn spec_ccf(c: CPU) -> CPU {
    CPU {
        registers: RegisterBank {
            flag_c: !c.registers.flag_c,
            flag_h: false,
            flag_n: false,
            ..c.registers
        },
        ..c
    }
}

/// The rotate-accumulator group RLCA/RRCA/RLA/RRA: Z, N and H clear, C is
/// the ejected bit.
pub open spec fn spec_rotate_accumulator(c: CPU, opcode: u16) -> CPU {
    let a = c.registers.A;
    let sel = opcode / 8 % 4;
    let newa = if sel == 0 {
        w8(a % 128 * 2 + a / 128)
    } else if sel == 1 {
        w8(a / 2 + a % 2 * 128)
    } else if sel == 2 {
        w8(a % 128 * 2 + (if c.registers.flag_c {
            1int
        } else {
            0int
        }))
    } else {
        w8(a / 2 + (if c.registers.flag_c {
            128int
        } else {
            0int
        }))
    };
    let carry = if sel == 0 || sel == 2 {
        a / 128 == 1
    } else {
        a % 2 == 1
    };
    CPU {
        registers: RegisterBank {
            A: newa,
            flag_c: carry,
            flag_z: false,
            flag_n: false,
            flag_h: false,
            ..c.registers
        },
        ..c
    }
}

/// The result and ejected bit of one CB-prefixed shift or rotate applied to
/// a value, for the operation selector (opcode bits 3-5).
pub open spec fn spec_shift_val(sel: u16, v: u8, carry: bool) -> (u8, bool) {
    let cin: int = if carry {
        1
    } else {
        0
    };
    if sel == 0 {
        // RLC
        (w8(v % 128 * 2 + v / 128), v / 128 == 1)
    } else if sel == 1 {
        // RRC
        (w8(v / 2 + v % 2 * 128), v % 2 == 1)
    } else if sel == 2 {
        // RL
        (w8(v % 128 * 2 + cin), v / 128 == 1)
    } else if sel == 3 {
        // RR
        (w8(v / 2 + cin * 128), v % 2 == 1)
    } else if sel == 4 {
        // SLA
        (w8(v % 128 * 2), v / 128 == 1)
    } else if sel == 5 {
        // SRA
        (w8(v / 2 + v / 128 * 128), v % 2 == 1)
    } else if sel == 6 {
        // SWAP
        (w8(v % 16 * 16 + v / 16), false)
    } else {
        // SRL
        (w8((v / 2) as int), v % 2 == 1)
    }
}

/// Applying a CB shift result to operand `i`: the operand is written and
/// the flags are Z from the result, N = H = 0, C the ejected bit.
pub open spec fn spec_shift_apply(c: CPU, b: BusView, i: u8, out_val: u8, carry: bool) -> (
    CPU,
    BusView,
) {
    let p = spec_r8_set(c, b, i, out_val);
    (
        CPU {
            registers: RegisterBank {
                flag_c: carry,
                flag_z: out_val == 0,
                flag_n: false,
                flag_h: false,
                ..p.0.registers
            },
            ..p.0
        },
        p.1,
    )
}

/// LD r, r': the destination operand takes the source operand's value;
/// every other register and all flags are unchanged.
pub open spec fn spec_ld_r_r(c: CPU, b: BusView, opcode: u16) -> (CPU, BusView) {
    spec_r8_set(c, b, (opcode / 8 % 8) as u8, spec_r8_get(c, b, (opcode % 8) as u8))
}

/// LD r, d8.
pub open spec fn spec_ld_d8(c: CPU, b: BusView, opcode: u16, imm: u8) -> (CPU, BusView) {
    spec_r8_set(c, b, (opcode / 8 % 8) as u8, imm)
}

/// LD rr, d16.
pub open spec fn spec_ld_d16_r16(c: CPU, opcode: u16, imm: u16) -> CPU {
    spec_r16_set(c, (opcode / 16 % 4) as u8, imm)
}

/// The LD A,(rr) / LD (rr),A group, including the post-increment and
/// post-decrement forms on HL.
pub open spec fn spec_indirect_loads(c: CPU, b: BusView, opcode: u16) -> (CPU, BusView) {
    let dst = if opcode / 32 % 2 == 1 {
        2u8
    } else {
        (opcode / 16 % 4) as u8
    };
    let addr = spec_r16_get(c, dst);
    let load_to_acc = opcode / 8 % 2 == 1;
    let c1 = if load_to_acc {
        CPU { registers: RegisterBank { A: b.read_spec(addr), ..c.registers }, ..c }
    } else {
        c
    };
    let b1 = if load_to_acc {
        b
    } else {
        b.write_spec(addr, c.registers.A)
    };
    if dst == 2 {
        let hl = c1.registers.hl_spec();
        if opcode / 16 % 2 == 0 {
            (spec_r16_set(c1, 2, w16(hl + 1)), b1)
        } else {
            (spec_r16_set(c1, 2, w16(hl - 1)), b1)
        }
    } else {
        (c1, b1)
    }
}

/// LD HL, SP+e8 (with its H/C flags from the low byte) or LD SP, HL.
pub open spec fn spec_ld_r16_r16(c: CPU, opcode: u16, imm: u8) -> CPU {
    if opcode % 2 == 0 {
        let e = spec_sign_extend(imm);
        let sp = c.registers.SP;
        let result = w16(sp + e);
        CPU {
            registers: RegisterBank {
                H: (result / 256) as u8,
                L: (result % 256) as u8,
                flag_c: sp % 256 + e % 256 > 0xFF,
                flag_h: sp % 16 + e % 16 > 0xF,
                flag_z: false,
                flag_n: false,
                ..c.registers
            },
            ..c
        }
    } else {
        CPU { registers: RegisterBank { SP: c.registers.hl_spec(), ..c.registers }, ..c }
    }
}

/// The LDH group and the absolute forms LD (a16),A / LD A,(a16).
pub open spec fn spec_misc_indirect_loads(c: CPU, b: BusView, opcode: u16, imm: u16) -> (
    CPU,
    BusView,
) {
    let addr = if opcode / 2 % 2 == 1 {
        if opcode / 8 % 2 == 0 {
            (0xFF00 + c.registers.C) as u16
        } else {
            imm
        }
    } else {
        (0xFF00 + imm % 256) as u16
    };
    if opcode / 16 % 2 == 0 {
        (c, b.write_spec(addr, c.registers.A))
    } else {
        (CPU { registers: RegisterBank { A: b.read_spec(addr), ..c.registers }, ..c }, b)
    }
}

/// LD (a16), SP: the stack pointer, little-endian, at the immediate
/// address.
pub open spec fn spec_ld_sp_ind(c: CPU, b: BusView, imm: u16) -> BusView {
    b.write_spec(imm, (c.registers.SP % 256) as u8).write_spec(
        w16(imm + 1),
        (c.registers.SP / 256) as u8,
    )
}

/// INC r / DEC r: H from the nibble boundary, N says which way, C is
/// untouched.
pub open spec fn spec_inc_dec_r8(c: CPU, b: BusView, opcode: u16) -> (CPU, BusView) {
    let i = (opcode / 8 % 8) as u8;
    let v = spec_r8_get(c, b, i);
    let increment = opcode % 2 == 0;
    let newv = if increment {
        w8(v + 1)
    } else {
        w8(v - 1)
    };
    let p = spec_r8_set(c, b, i, newv);
    (
        CPU {
            registers: RegisterBank {
                flag_h: if increment {
                    v % 16 == 0xF
                } else {
                    v % 16 == 0
                },
                flag_n: !increment,
                flag_z: newv == 0,
                ..p.0.registers
            },
            ..p.0
        },
        p.1,
    )
}

/// INC rr / DEC rr: no flags.
pub open spec fn spec_inc_dec_r16(c: CPU, opcode: u16) -> CPU {
    let i = (opcode / 16 % 4) as u8;
    let v = spec_r16_get(c, i);
    if opcode / 8 % 2 == 0 {
        spec_r16_set(c, i, w16(v + 1))
    } else {
        spec_r16_set(c, i, w16(v - 1))
    }
}

/// ADD HL, rr: N clear, H from the bit-11 carry, C from the bit-15 carry,
/// Z untouched.
pub open spec fn spec_add_r16(c: CPU, opcode: u16) -> CPU {
    let v = spec_r16_get(c, (opcode / 16 % 4) as u8);
    let hl = c.registers.hl_spec();
    let result = w16(hl + v);
    CPU {
        registers: RegisterBank {
            H: (result / 256) as u8,
            L: (result % 256) as u8,
            flag_c: hl + v > 0xFFFF,
            flag_h: hl % 4096 + v % 4096 > 0xFFF,
            flag_n: false,
            ..c.registers
        },
        ..c
    }
}

/// ADD SP, e8: Z and N clear, H and C from the low byte.
pub open spec fn spec_add_sp_e8(c: CPU, imm: u8) -> CPU {
    let e = spec_sign_extend(imm);
    let sp = c.registers.SP;
    CPU {
        registers: RegisterBank {
            SP: w16(sp + e),
            flag_c: sp % 256 + e % 256 > 0xFF,
            flag_h: sp % 16 + e % 16 > 0xF,
            flag_z: false,
            flag_n: false,
            ..c.registers
        },
        ..c
    }
}

/// A taken conditional or unconditional jump to an absolute address.
pub open spec fn spec_jump_to(c: CPU, addr: u16) -> CPU {
    CPU { registers: RegisterBank { PC: addr, ..c.registers }, ..c }
}

/// A taken relative jump: PC moves by the sign-extended operand.
pub open spec fn spec_jump_relative(c: CPU, imm: u8) -> CPU {
    spec_jump_to(c, w16(c.registers.PC + spec_sign_extend(imm)))
}

/// A taken call: the return address is pushed, PC becomes the target.
pub open spec fn spec_call(c: CPU, b: BusView, addr: u16) -> (CPU, BusView) {
    let p = spec_push(c, b, c.registers.PC);
    (spec_jump_to(p.0, addr), p.1)
}

/// A plain return: PC is popped from the stack.
pub open spec fn spec_ret_plain(c: CPU, b: BusView) -> CPU {
    let p = spec_pop(c, b);
    spec_jump_to(p.0, p.1)
}

/// RET (and RETI, which also schedules the interrupt enable): PC is popped.
pub open spec fn spec_return(c: CPU, b: BusView, opcode: u16) -> CPU {
    let c1 = spec_ret_plain(c, b);
    if opcode / 16 % 2 == 1 {
        CPU { enable_interrupts_next_instr: true, ..c1 }
    } else {
        c1
    }
}

/// POP rr (rr 3 denotes AF, whose low nibble is discarded).
pub open spec fn spec_pop_r16(c: CPU, b: BusView, opcode: u16) -> CPU {
    let i = (opcode / 16 % 4) as u8;
    let i2 = if i == 3 {
        4u8
    } else {
        i
    };
    let p = spec_pop(c, b);
    spec_r16_set(p.0, i2, p.1)
}

/// PUSH rr (rr 3 denotes AF).
pub open spec fn spec_push_r16(c: CPU, b: BusView, opcode: u16) -> (CPU, BusView) {
    let i = (opcode / 16 % 4) as u8;
    let i2 = if i == 3 {
        4u8
    } else {
        i
    };
    spec_push(c, b, spec_r16_get(c, i2))
}

/// The 8-bit ALU family dispatch: ADD, ADC, SUB, SBC, AND, XOR, OR, CP on
/// one operand value.
pub open spec fn spec_alu(c: CPU, opcode: u16, operand: u8) -> CPU {
    let sel = opcode / 8 % 8;
    if sel == 0 {
        spec_add_u8(c, operand, false)
    } else if sel == 1 {
        spec_add_u8(c, operand, c.registers.flag_c)
    } else if sel == 2 {
        spec_sub_u8(c, operand, false)
    } else if sel == 3 {
        spec_sub_u8(c, operand, c.registers.flag_c)
    } else if sel == 4 {
        spec_and_u8(c, operand)
    } else if sel == 5 {
        spec_xor_u8(c, operand)
    } else if sel == 6 {
        spec_or_u8(c, operand)
    } else {
        spec_compare_u8(c, operand)
    }
}

/// The CB rotate/shift/swap family on operand `low % 8`.
pub open spec fn spec_cb_shift(c: CPU, b: BusView, low: u8) -> (CPU, BusView) {
    let src = low % 8;
    let sv = spec_shift_val((low / 8 % 8) as u16, spec_r8_get(c, b, src), c.registers.flag_c);
    spec_shift_apply(c, b, src, sv.0, sv.1)
}

/// BIT b, r: Z is the complement of the tested bit, N = 0, H = 1, C and the
/// operand unchanged.
pub open spec fn spec_bit_test(c: CPU, b: BusView, low: u8) -> CPU {
    let v = spec_r8_get(c, b, low % 8);
    CPU {
        registers: RegisterBank {
            flag_z: !spec_bit(v, spec_mask_of(low / 8 % 8)),
            flag_n: false,
            flag_h: true,
            ..c.registers
        },
        ..c
    }
}

/// RES b, r.
pub open spec fn spec_bit_clear(c: CPU, b: BusView, low: u8) -> (CPU, BusView) {
    let v = spec_r8_get(c, b, low % 8);
    spec_r8_set(c, b, low % 8, spec_clear_bit(v, spec_mask_of(low / 8 % 8)))
}

/// SET b, r.
pub open spec fn spec_bit_set(c: CPU, b: BusView, low: u8) -> (CPU, BusView) {
    let v = spec_r8_get(c, b, low % 8);
    spec_r8_set(c, b, low % 8, spec_set_bit(v, spec_mask_of(low / 8 % 8)))
}

/// The clock's 64-bit wraparound.
pub open spec fn wclk(x: int) -> u64 {
    (x % 0x10000000000000000) as u64
}

/// Wrapping additions compose: wrapping after a wrapped sum equals one
/// wrapped sum.
pub proof fn lemma_wclk_chain(a: int, b: int)
    by (nonlinear_arith)
    requires
        0 <= b,
    ensures
        wclk(wclk(a) + b) == wclk(a + b),
{
}

/// Whether the instruction completes its branch: the flag condition for the
/// conditional jumps, calls and returns, true for everything else.
pub open spec fn spec_branch_taken(c: CPU, opcode: u16) -> bool {
    if opcode / 32 == 6 && (opcode % 8 == 0 || opcode % 8 == 2 || opcode % 8 == 4) {
        spec_condition(c, opcode)
    } else if opcode / 32 == 1 && opcode % 8 == 0 {
        spec_condition(c, opcode)
    } else {
        true
    }
}

/// The load-and-store families of the dispatch: the 8-bit and 16-bit
/// loads, the indirect and high-page forms, NOP and STOP.
pub open spec fn spec_is_load_op(opcode: u16) -> bool {
    ||| opcode == 0x00
    ||| opcode == 0x10
    ||| opcode == 0x08
    ||| (0x40 <= opcode && opcode < 0x80 && opcode != 0x76)
    ||| (opcode / 64 == 0 && opcode % 8 == 6)
    ||| (opcode / 64 == 0 && opcode % 16 == 1)
    ||| (opcode / 64 == 0 && opcode % 8 == 2)
    ||| opcode == 0xF8
    ||| opcode == 0xF9
    ||| opcode == 0xE0
    ||| opcode == 0xE2
    ||| opcode == 0xEA
    ||| opcode == 0xF0
    ||| opcode == 0xF2
    ||| opcode == 0xFA
}

/// The little-endian 16-bit operand, or zero where none was fetched.
pub open spec fn spec_imm16(imm: Seq<u8>) -> u16 {
    if imm.len() >= 2 {
        (imm[1] * 256 + imm[0]) as u16
    } else if imm.len() == 1 {
        imm[0] as u16
    } else {
        0u16
    }
}

pub open spec fn spec_imm8(imm: Seq<u8>) -> u8 {
    if imm.len() >= 1 {
        imm[0]
    } else {
        0u8
    }
}

/// The load tier of the dispatch (see `spec_is_load_op`).
pub open spec fn spec_execute_loads(c: CPU, b: BusView, opcode: u16, imm: Seq<u8>) -> (
    CPU,
    BusView,
) {
    let imm16 = spec_imm16(imm);
    let imm8 = spec_imm8(imm);
    if opcode == 0x00 {
        (c, b)
    } else if opcode == 0x10 {
        // STOP: treated as NOP plus a DIV reset.
        (c, b.write_spec(0xFF04, 0))
    } else if opcode == 0x08 {
        (c, spec_ld_sp_ind(c, b, imm16))
    } else if 0x40 <= opcode && opcode < 0x80 && opcode != 0x76 {
        spec_ld_r_r(c, b, opcode)
    } else if opcode / 64 == 0 && opcode % 8 == 6 {
        spec_ld_d8(c, b, opcode, imm8)
    } else if opcode / 64 == 0 && opcode % 16 == 1 {
        (spec_ld_d16_r16(c, opcode, imm16), b)
    } else if opcode / 64 == 0 && opcode % 8 == 2 {
        spec_indirect_loads(c, b, opcode)
    } else if opcode == 0xF8 || opcode == 0xF9 {
        (spec_ld_r16_r16(c, opcode, imm8), b)
    } else {
        spec_misc_indirect_loads(c, b, opcode, imm16)
    }
}

/// The jump and 8-bit arithmetic part of the non-load tier.
pub open spec fn spec_is_jump_alu_op(opcode: u16) -> bool {
    ||| (opcode / 32 == 6 && opcode % 8 == 2)
    ||| opcode == 0xC3
    ||| opcode == 0xE9
    ||| (opcode / 32 == 1 && opcode % 8 == 0)
    ||| opcode == 0x18
    ||| (0x80 <= opcode && opcode < 0xC0)
    ||| (opcode / 64 == 3 && opcode % 8 == 6)
    ||| (opcode / 32 == 1 && opcode % 8 == 7)
}

/// The jump and 8-bit arithmetic tier of the dispatch.
pub open spec fn spec_execute_jump_alu(c: CPU, b: BusView, opcode: u16, imm: Seq<u8>) -> (
    CPU,
    BusView,
) {
    let imm16 = spec_imm16(imm);
    let imm8 = spec_imm8(imm);
    {
        if opcode / 32 == 6 && opcode % 8 == 2 {
            (
                if spec_condition(c, opcode) {
                    spec_jump_to(c, imm16)
                } else {
                    c
                },
                b,
            )
        } else if opcode == 0xC3 {
            (spec_jump_to(c, imm16), b)
        } else if opcode == 0xE9 {
            (spec_jump_to(c, c.registers.hl_spec()), b)
        } else if opcode / 32 == 1 && opcode % 8 == 0 {
            (
                if spec_condition(c, opcode) {
                    spec_jump_relative(c, imm8)
                } else {
                    c
                },
                b,
            )
        } else if opcode == 0x18 {
            (spec_jump_relative(c, imm8), b)
        } else if 0x80 <= opcode && opcode < 0xC0 {
            (spec_alu(c, opcode, spec_r8_get(c, b, (opcode % 8) as u8)), b)
        } else if opcode / 64 == 3 && opcode % 8 == 6 {
            (spec_alu(c, opcode, imm8), b)
        } else {
            (
                if opcode / 8 % 4 == 0 {
                    spec_daa(c)
                } else if opcode / 8 % 4 == 1 {
                    spec_cpl(c)
                } else if opcode / 8 % 4 == 2 {
                    spec_scf(c)
                } else {
                    spec_ccf(c)
                },
                b,
            )
        }
    }
}

/// The 16-bit arithmetic, stack and control tier of the dispatch.
pub open spec fn spec_execute_stack_ctrl(c: CPU, b: BusView, opcode: u16, imm: Seq<u8>) -> (
    CPU,
    BusView,
) {
    let imm16 = spec_imm16(imm);
    let imm8 = spec_imm8(imm);
    {
        if opcode / 64 == 0 && (opcode % 8 == 4 || opcode % 8 == 5) {
            spec_inc_dec_r8(c, b, opcode)
        } else if opcode / 64 == 0 && opcode % 8 == 3 {
            (spec_inc_dec_r16(c, opcode), b)
        } else if opcode / 64 == 0 && opcode % 16 == 9 {
            (spec_add_r16(c, opcode), b)
        } else if opcode == 0xE8 {
            (spec_add_sp_e8(c, imm8), b)
        } else if opcode / 64 == 3 && opcode % 16 == 1 {
            (spec_pop_r16(c, b, opcode), b)
        } else if opcode / 64 == 3 && opcode % 16 == 5 {
            spec_push_r16(c, b, opcode)
        } else if opcode / 32 == 0 && opcode % 8 == 7 {
            (spec_rotate_accumulator(c, opcode), b)
        } else if opcode / 32 == 6 && opcode % 8 == 4 {
            if spec_condition(c, opcode) {
                spec_call(c, b, imm16)
            } else {
                (c, b)
            }
        } else if opcode == 0xCD {
            spec_call(c, b, imm16)
        } else if opcode / 64 == 3 && opcode % 8 == 7 {
            spec_call(c, b, (opcode / 8 % 8 * 8) as u16)
        } else if opcode / 32 == 6 && opcode % 16 == 9 {
            (spec_return(c, b, opcode), b)
        } else if opcode / 32 == 6 && opcode % 8 == 0 {
            (
                if spec_condition(c, opcode) {
                    spec_ret_plain(c, b)
                } else {
                    c
                },
                b,
            )
        } else if opcode == 0xF3 {
            (CPU { master_interrupt_enable: false, ..c }, b)
        } else if opcode == 0xFB {
            (CPU { enable_interrupts_next_instr: true, ..c }, b)
        } else if opcode == 0x76 {
            // HALT: the CPU re-executes the HALT byte until it is woken.
            (
                CPU {
                    halted: true,
                    registers: RegisterBank {
                        PC: w16(c.registers.PC - 1),
                        ..c.registers
                    },
                    ..c
                },
                b,
            )
        } else {
            // An undefined opcode: reported, state left intact.
            (CPU { last_illegal_opcode: Some(opcode), ..c }, b)
        }
    }
}

/// The arithmetic, jump, stack and control tier of the dispatch.
pub open spec fn spec_execute_other(c: CPU, b: BusView, opcode: u16, imm: Seq<u8>) -> (
    CPU,
    BusView,
) {
    if spec_is_jump_alu_op(opcode) {
        spec_execute_jump_alu(c, b, opcode, imm)
    } else {
        spec_execute_stack_ctrl(c, b, opcode, imm)
    }
}

/// The state transition of one decoded instruction, dispatched over the
/// §4.1 families.  `c` and `b` are the state after the operand fetches and
/// `imm` holds the operand bytes.
#[verifier::opaque]
pub open spec fn spec_execute(c: CPU, b: BusView, opcode: u16, imm: Seq<u8>) -> (CPU, BusView) {
    if opcode < 0x100 {
        if spec_is_load_op(opcode) {
            spec_execute_loads(c, b, opcode, imm)
        } else {
            spec_execute_other(c, b, opcode, imm)
        }
    } else {
        let low = (opcode % 256) as u8;
        if low / 64 == 0 {
            spec_cb_shift(c, b, low)
        } else if low / 64 == 1 {
            (spec_bit_test(c, b, low), b)
        } else if low / 64 == 2 {
            spec_bit_clear(c, b, low)
        } else {
            spec_bit_set(c, b, low)
        }
    }
}

/// PUSH: SP falls by two; the high byte goes to SP-1, the low to SP-2.
pub open spec fn spec_push(c: CPU, b: BusView, value: u16) -> (CPU, BusView) {
    let sp1 = w16(c.registers.SP - 1);
    let b1 = b.write_spec(sp1, (value / 256) as u8);
    let sp2 = w16(c.registers.SP - 2);
    let b2 = b1.write_spec(sp2, (value % 256) as u8);
    (CPU { registers: RegisterBank { SP: sp2, ..c.registers }, ..c }, b2)
}

/// POP: the little-endian word at SP; SP rises by two.
pub open spec fn spec_pop(c: CPU, b: BusView) -> (CPU, u16) {
    let lo = b.read_spec(c.registers.SP);
    let hi = b.read_spec(w16(c.registers.SP + 1));
    (
        CPU { registers: RegisterBank { SP: w16(c.registers.SP + 2), ..c.registers }, ..c },
        (hi * 256 + lo) as u16,
    )
}

impl CPU {
    pub fn new() -> (r: CPU)
        ensures
            r.registers == (RegisterBank {
                A: 0u8,
                B: 0u8,
                C: 0u8,
                D: 0u8,
                E: 0u8,
                H: 0u8,
                L: 0u8,
                SP: 0xFFFEu16,
                PC: 0x0100u16,
                flag_z: false,
                flag_n: false,
                flag_h: false,
                flag_c: false,
            }),
            !r.master_interrupt_enable,
            !r.enable_interrupts_next_instr,
            r.clock == 0,
            !r.halted,
            r.last_illegal_opcode is None,
    {
        CPU {
            registers: RegisterBank::new(),
            master_interrupt_enable: false,
            enable_interrupts_next_instr: false,
            clock: 0,
            halted: false,
            last_illegal_opcode: None,
        }
    }

    pub fn is_halted(&self) -> (r: bool)
        ensures
            r == self.halted,
    {
        self.halted
    }

    /// Wakes the CPU from HALT; the fetch that was suspended resumes one
    /// byte further.
    pub fn quit_halt(&mut self)
        ensures
            *final(self) == (CPU {
                halted: false,
                registers: RegisterBank {
                    PC: ((old(self).registers.PC + 1) % 0x10000) as u16,
                    ..old(self).registers
                },
                ..*old(self)
            }),
    {
        self.halted = false;
        self.registers.increment_PC();
    }

    /// Charges T-cycles to the CPU's own clock.
    pub fn tick(&mut self, nticks: u8)
        ensures
            *final(self) == (CPU {
                clock: ((old(self).clock + nticks) % 0x10000000000000000) as u64,
                ..*old(self)
            }),
    {
        self.clock = self.clock.wrapping_add(nticks as u64);
    }

    /// Fetches the byte at PC, advances PC and charges one M-cycle.
    pub fn fetch(&mut self, memory: &AddressSpace) -> (r: u8)
        requires
            memory@.wf(),
        ensures
            r == memory@.read_spec(old(self).registers.PC),
            *final(self) == (CPU {
                registers: RegisterBank {
                    PC: ((old(self).registers.PC + 1) % 0x10000) as u16,
                    ..old(self).registers
                },
                clock: ((old(self).clock + 4) % 0x10000000000000000) as u64,
                ..*old(self)
            }),
    {
        let opcode = memory.read(self.registers.PC());
        self.registers.increment_PC();
        self.tick(4);
        opcode
    }

    /// Decodes one opcode byte: 0xCB fetches the second byte and yields the
    /// 16-bit CB code; anything else is the instruction itself.  The
    /// returned descriptor is the fixed table's entry.
    pub fn decode(&mut self, opcode_byte: u8, memory: &AddressSpace) -> (r: (Opcode, u16))
        requires
            memory@.wf(),
        ensures
            r.0.length == spec_instr_len(r.1),
            r.0.cycles_taken == spec_cycles_taken(r.1),
            r.0.cycles_not_taken == spec_cycles_not_taken(r.1),
            opcode_byte == 0xCB ==> {
                &&& r.1 == 0xCB00 + memory@.read_spec(old(self).registers.PC)
                &&& *final(self) == (CPU {
                    registers: RegisterBank {
                        PC: ((old(self).registers.PC + 1) % 0x10000) as u16,
                        ..old(self).registers
                    },
                    clock: ((old(self).clock + 4) % 0x10000000000000000) as u64,
                    ..*old(self)
                })
            },
            opcode_byte != 0xCB ==> r.1 == opcode_byte && *final(self) == *old(self),
    {
        if opcode_byte == 0xCB {
            let opcode_lower = self.fetch(memory) as u16;
            let opcode = 0xCB00 + opcode_lower;
            (get_instr(opcode), opcode)
        } else {
            (get_instr(opcode_byte as u16), opcode_byte as u16)
        }
    }

    /// Seeds the registers and the hardware I/O registers with the
    /// documented post-boot values.
    pub fn boot(&mut self, memory: &mut AddressSpace)
        requires
            old(memory)@.wf(),
        ensures
            final(self).registers == (RegisterBank {
                A: 0x01u8,
                flag_z: true,
                flag_n: false,
                flag_h: true,
                flag_c: true,
                B: 0x00u8,
                C: 0x13u8,
                D: 0x00u8,
                E: 0xD8u8,
                H: 0x01u8,
                L: 0x4Du8,
                SP: 0xFFFEu16,
                PC: 0x0100u16,
            }),
            final(self).master_interrupt_enable == old(self).master_interrupt_enable,
            final(self).enable_interrupts_next_instr == old(
                self,
            ).enable_interrupts_next_instr,
            final(self).clock == old(self).clock,
            final(self).halted == old(self).halted,
            final(memory)@ == old(memory)@.write_spec(0xFF05, 0x00).write_spec(
                0xFF06,
                0x00,
            ).write_spec(0xFF07, 0x00).write_spec(0xFF10, 0x80).write_spec(
                0xFF11,
                0xBF,
            ).write_spec(0xFF12, 0xF3).write_spec(0xFF14, 0xBF).write_spec(
                0xFF16,
                0x3F,
            ).write_spec(0xFF17, 0x00).write_spec(0xFF19, 0xBF).write_spec(
                0xFF1A,
                0x7F,
            ).write_spec(0xFF1B, 0xFF).write_spec(0xFF1C, 0x9F).write_spec(
                0xFF1E,
                0xBF,
            ).write_spec(0xFF20, 0xFF).write_spec(0xFF21, 0x00).write_spec(
                0xFF22,
                0x00,
            ).write_spec(0xFF23, 0xBF).write_spec(0xFF24, 0x77).write_spec(
                0xFF25,
                0xF3,
            ).write_spec(0xFF26, 0xF1).write_spec(0xFF40, 0x91).write_spec(
                0xFF42,
                0x00,
            ).write_spec(0xFF43, 0x00).write_spec(0xFF45, 0x00).write_spec(
                0xFF47,
                0xFC,
            ).write_spec(0xFF48, 0xFF).write_spec(0xFF49, 0xFF).write_spec(
                0xFF4A,
                0x00,
            ).write_spec(0xFF4B, 0x00).write_spec(0xFFFF, 0x00).boot_nr52_spec(),
            final(memory)@.wf(),
    {
        self.registers.set_AF(0x01B0);
        self.registers.set_BC(0x0013);
        self.registers.set_DE(0x00D8);
        self.registers.set_HL(0x014D);
        self.registers.SP = 0xFFFE;
        self.registers.write_PC(0x0100);
        memory.write(0xFF05, 0x00);
        memory.write(0xFF06, 0x00);
        memory.write(0xFF07, 0x00);
        memory.write(0xFF10, 0x80);
        memory.write(0xFF11, 0xBF);
        memory.write(0xFF12, 0xF3);
        memory.write(0xFF14, 0xBF);
        memory.write(0xFF16, 0x3F);
        memory.write(0xFF17, 0x00);
        memory.write(0xFF19, 0xBF);
        memory.write(0xFF1A, 0x7F);
        memory.write(0xFF1B, 0xFF);
        memory.write(0xFF1C, 0x9F);
        memory.write(0xFF1E, 0xBF);
        memory.write(0xFF20, 0xFF);
        memory.write(0xFF21, 0x00);
        memory.write(0xFF22, 0x00);
        memory.write(0xFF23, 0xBF);
        memory.write(0xFF24, 0x77);
        memory.write(0xFF25, 0xF3);
        memory.write(0xFF26, 0xF1);
        memory.write(0xFF40, 0x91);
        memory.write(0xFF42, 0x00);
        memory.write(0xFF43, 0x00);
        memory.write(0xFF45, 0x00);
        memory.write(0xFF47, 0xFC);
        memory.write(0xFF48, 0xFF);
        memory.write(0xFF49, 0xFF);
        memory.write(0xFF4A, 0x00);
        memory.write(0xFF4B, 0x00);
        memory.write(0xFFFF, 0x00);
        // Channel 1 reports on after boot, so NR52 reads back 0xF1.
        memory.apu_write_nr52(0x01);
    }

    /// Reads 8-bit operand `src` (6 is the byte at (HL)).
    pub fn read_single(&self, src: u8, memory: &AddressSpace) -> (r: u8)
        requires
            src < 8,
            memory@.wf(),
        ensures
            r == spec_r8_get(*self, memory@, src),
    {
        if src == 0 {
            self.registers.B
        } else if src == 1 {
            self.registers.C
        } else if src == 2 {
            self.registers.D
        } else if src == 3 {
            self.registers.E
        } else if src == 4 {
            self.registers.H
        } else if src == 5 {
            self.registers.L
        } else if src == 6 {
            memory.read(self.registers.HL())
        } else {
            self.registers.A
        }
    }

    /// Writes 8-bit operand `dst` (6 writes the bus at (HL)).
    fn write_single(&mut self, dst: u8, value: u8, memory: &mut AddressSpace)
        requires
            dst < 8,
            old(memory)@.wf(),
        ensures
            *final(self) == spec_r8_set(*old(self), old(memory)@, dst, value).0,
            final(memory)@ == spec_r8_set(*old(self), old(memory)@, dst, value).1,
            final(memory)@.wf(),
    {
        if dst == 0 {
            self.registers.B = value;
        } else if dst == 1 {
            self.registers.C = value;
        } else if dst == 2 {
            self.registers.D = value;
        } else if dst == 3 {
            self.registers.E = value;
        } else if dst == 4 {
            self.registers.H = value;
        } else if dst == 5 {
            self.registers.L = value;
        } else if dst == 6 {
            let addr = self.registers.HL();
            memory.write(addr, value);
        } else {
            self.registers.A = value;
        }
    }

    /// Reads 16-bit operand `src`: BC, DE, HL, SP, or AF for 4.
    pub fn read_double(&self, src: u8) -> (r: u16)
        requires
            src < 5,
        ensures
            r == spec_r16_get(*self, src),
    {
        if src == 0 {
            self.registers.BC()
        } else if src == 1 {
            self.registers.DE()
        } else if src == 2 {
            self.registers.HL()
        } else if src == 3 {
            self.registers.SP
        } else {
            self.registers.AF()
        }
    }

    fn write_double(&mut self, dst: u8, value: u16)
        requires
            dst < 5,
        ensures
            *final(self) == spec_r16_set(*old(self), dst, value),
    {
        if dst == 0 {
            self.registers.set_BC(value);
        } else if dst == 1 {
            self.registers.set_DE(value);
        } else if dst == 2 {
            self.registers.set_HL(value);
        } else if dst == 3 {
            self.registers.SP = value;
        } else {
            self.registers.set_AF(value);
        }
    }

    pub fn add_u8(&mut self, operand: u8, with_carry: bool)
        ensures
            *final(self) == spec_add_u8(*old(self), operand, with_carry),
    {
        let value_pre = self.registers.A;
        self.registers.A = value_pre.wrapping_add(operand);
        if with_carry {
            self.registers.A = self.registers.A.wrapping_add(1);
        }
        let cin: u16 = if with_carry {
            1
        } else {
            0
        };
        self.registers.set_C_from_bool(
            (value_pre as u16) + (operand as u16) + cin > 0xFF,
        );
        self.registers.set_H_from_bool(
            (value_pre % 16) as u16 + (operand % 16) as u16 + cin > 0xF,
        );
        self.registers.clear_N();
        let z = self.registers.A == 0;
        self.registers.set_Z_from_bool(z);
    }

    pub fn subtract_u8(&mut self, operand: u8, with_carry: bool)
        ensures
            *final(self) == spec_sub_u8(*old(self), operand, with_carry),
    {
        let value_pre = self.registers.A;
        self.registers.A = value_pre.wrapping_sub(operand);
        if with_carry {
            self.registers.A = self.registers.A.wrapping_sub(1);
        }
        let cin: u16 = if with_carry {
            1
        } else {
            0
        };
        self.registers.set_C_from_bool((value_pre as u16) < (operand as u16) + cin);
        self.registers.set_H_from_bool(
            ((value_pre % 16) as u16) < (operand % 16) as u16 + cin,
        );
        self.registers.set_N();
        let z = self.registers.A == 0;
        self.registers.set_Z_from_bool(z);
    }

    pub fn and_u8(&mut self, operand: u8)
        ensures
            *final(self) == spec_and_u8(*old(self), operand),
    {
        self.registers.A = self.registers.A & operand;
        self.registers.clear_C();
        self.registers.set_H();
        self.registers.clear_N();
        let z = self.registers.A == 0;
        self.registers.set_Z_from_bool(z);
    }

    pub fn xor_u8(&mut self, operand: u8)
        ensures
            *final(self) == spec_xor_u8(*old(self), operand),
    {
        self.registers.A = self.registers.A ^ operand;
        self.registers.clear_C();
        self.registers.clear_H();
        self.registers.clear_N();
        let z = self.registers.A == 0;
        self.registers.set_Z_from_bool(z);
    }

    pub fn or_u8(&mut self, operand: u8)
        ensures
            *final(self) == spec_or_u8(*old(self), operand),
    {
        self.registers.A = self.registers.A | operand;
        self.registers.clear_C();
        self.registers.clear_H();
        self.registers.clear_N();
        let z = self.registers.A == 0;
        self.registers.set_Z_from_bool(z);
    }

    pub fn compare_u8(&mut self, operand: u8)
        ensures
            *final(self) == spec_compare_u8(*old(self), operand),
    {
        let value_pre = self.registers.A;
        let output = value_pre.wrapping_sub(operand);
        self.registers.set_C_from_bool(value_pre < operand);
        self.registers.set_H_from_bool(value_pre % 16 < operand % 16);
        self.registers.set_N();
        self.registers.set_Z_from_bool(output == 0);
    }

    #[verifier::rlimit(100)]
    pub fn decimal_adjust_acc(&mut self)
        ensures
            *final(self) == spec_daa(*old(self)),
    {
        let mut output_value = self.registers.A;
        if self.registers.read_N() {
            if self.registers.read_C() {
                output_value = output_value.wrapping_sub(0x60);
            }
            if self.registers.read_H() {
                output_value = output_value.wrapping_sub(0x06);
            }
        } else {
            if self.registers.read_C() || self.registers.A > 0x99 {
                output_value = output_value.wrapping_add(0x60);
                self.registers.set_C();
            }
            if self.registers.read_H() || self.registers.A % 16 > 0x09 {
                output_value = output_value.wrapping_add(0x06);
            }
        }
        self.registers.A = output_value;
        self.registers.set_Z_from_bool(output_value == 0);
        self.registers.clear_H();
    }

    pub fn complement_acc(&mut self)
        ensures
            *final(self) == spec_cpl(*old(self)),
    {
        self.registers.A = 255 - self.registers.A;
        self.registers.set_H();
        self.registers.set_N();
    }

    pub fn set_carry_flag(&mut self)
        ensures
            *final(self) == spec_scf(*old(self)),
    {
        self.registers.set_C();
        self.registers.clear_H();
        self.registers.clear_N();
    }

    pub fn complement_carry_flag(&mut self)
        ensures
            *final(self) == spec_ccf(*old(self)),
    {
        let c = self.registers.read_C();
        self.registers.set_C_from_bool(!c);
        self.registers.clear_H();
        self.registers.clear_N();
    }

    /// DAA, CPL, SCF or CCF, by opcode bits 3-4.
    fn handle_accumulator_misc(&mut self, opcode: u16)
        requires
            opcode % 256 % 8 == 7 && opcode < 0x40 && opcode >= 0x20,
        ensures
            *final(self) == (if opcode / 8 % 4 == 0 {
                spec_daa(*old(self))
            } else if opcode / 8 % 4 == 1 {
                spec_cpl(*old(self))
            } else if opcode / 8 % 4 == 2 {
                spec_scf(*old(self))
            } else {
                spec_ccf(*old(self))
            }),
    {
        let sel = (opcode / 8 % 4) as u8;
        if sel == 0 {
            self.decimal_adjust_acc();
        } else if sel == 1 {
            self.complement_acc();
        } else if sel == 2 {
            self.set_carry_flag();
        } else {
            self.complement_carry_flag();
        }
    }

    /// RLCA/RRCA/RLA/RRA.
    #[verifier::rlimit(100)]
    fn handle_rotate_accumulator(&mut self, opcode: u16)
        ensures
            *final(self) == spec_rotate_accumulator(*old(self), opcode),
    {
        let sel = (opcode / 8 % 4) as u8;
        let a = self.registers.A;
        if sel == 0 {
            let top_bit = a / 128;
            self.registers.A = a % 128 * 2 + top_bit;
            self.registers.set_C_from_bool(top_bit > 0);
        } else if sel == 1 {
            let bottom_bit = a % 2;
            self.registers.A = a / 2 + bottom_bit * 128;
            self.registers.set_C_from_bool(bottom_bit > 0);
        } else if sel == 2 {
            let top_bit = a / 128;
            let cin: u8 = if self.registers.read_C() {
                1
            } else {
                0
            };
            self.registers.A = a % 128 * 2 + cin;
            self.registers.set_C_from_bool(top_bit > 0);
        } else {
            let bottom_bit = a % 2;
            let cin: u8 = if self.registers.read_C() {
                128
            } else {
                0
            };
            self.registers.A = a / 2 + cin;
            self.registers.set_C_from_bool(bottom_bit > 0);
        }
        self.registers.clear_Z();
        self.registers.clear_N();
        self.registers.clear_H();
    }

    #[verifier::rlimit(60)]
    pub fn push_stack(&mut self, value: u16, memory: &mut AddressSpace)
        requires
            old(memory)@.wf(),
        ensures
            *final(self) == spec_push(*old(self), old(memory)@, value).0,
            final(memory)@ == spec_push(*old(self), old(memory)@, value).1,
            final(memory)@.wf(),
    {
        let sp0 = self.registers.SP;
        let mut sp = sp0.wrapping_sub(1);
        proof {
            assert(sp == w16(sp0 - 1));
        }
        self.registers.SP = sp;
        memory.write(sp, (value / 256) as u8);
        sp = sp.wrapping_sub(1);
        proof {
            assert(sp == w16(sp0 - 2));
        }
        self.registers.SP = sp;
        memory.write(sp, (value % 256) as u8);
    }

    pub fn pop_stack(&mut self, memory: &AddressSpace) -> (r: u16)
        requires
            memory@.wf(),
        ensures
            *final(self) == spec_pop(*old(self), memory@).0,
            r == spec_pop(*old(self), memory@).1,
    {
        let mut sp = self.registers.SP;
        let lo = memory.read(sp);
        sp = sp.wrapping_add(1);
        let hi = memory.read(sp);
        sp = sp.wrapping_add(1);
        self.registers.SP = sp;
        hi as u16 * 256 + lo as u16
    }

    fn handle_no_param_loads(&mut self, opcode: u16, memory: &mut AddressSpace)
        requires
            old(memory)@.wf(),
        ensures
            *final(self) == spec_ld_r_r(*old(self), old(memory)@, opcode).0,
            final(memory)@ == spec_ld_r_r(*old(self), old(memory)@, opcode).1,
            final(memory)@.wf(),
    {
        let src = (opcode % 8) as u8;
        let dst = (opcode / 8 % 8) as u8;
        let value = self.read_single(src, memory);
        self.write_single(dst, value, memory);
    }

    fn handle_d8_loads(&mut self, opcode: u16, extra_bytes: Vec<u8>, memory: &mut AddressSpace)
        requires
            old(memory)@.wf(),
            extra_bytes@.len() >= 1,
        ensures
            *final(self) == spec_ld_d8(*old(self), old(memory)@, opcode, extra_bytes@[0]).0,
            final(memory)@ == spec_ld_d8(*old(self), old(memory)@, opcode, extra_bytes@[0]).1,
            final(memory)@.wf(),
    {
        let immediate = extra_bytes[0];
        let dst = (opcode / 8 % 8) as u8;
        self.write_single(dst, immediate, memory);
    }

    fn handle_load_d16_to_r16(&mut self, opcode: u16, extra_bytes: Vec<u8>)
        requires
            extra_bytes@.len() >= 2,
        ensures
            *final(self) == spec_ld_d16_r16(
                *old(self),
                opcode,
                (extra_bytes@[1] * 256 + extra_bytes@[0]) as u16,
            ),
    {
        let immediate = bytes_to_u16(extra_bytes);
        let dst = (opcode / 16 % 4) as u8;
        self.write_double(dst, immediate);
    }

    /// The post-increment or post-decrement of HL after LD (HL+)/(HL-).
    #[verifier::rlimit(60)]
    fn hl_post_adjust(&mut self, opcode: u16)
        ensures
            *final(self) == (if opcode / 16 % 2 == 0 {
                spec_r16_set(*old(self), 2, w16(old(self).registers.hl_spec() + 1))
            } else {
                spec_r16_set(*old(self), 2, w16(old(self).registers.hl_spec() - 1))
            }),
    {
        if opcode / 16 % 2 == 0 {
            let hl = self.read_double(2);
            let value = hl.wrapping_add(1);
            proof {
                assert(value == w16(hl + 1));
            }
            self.write_double(2, value);
        } else {
            let hl = self.read_double(2);
            let value = hl.wrapping_sub(1);
            proof {
                assert(value == w16(hl - 1));
            }
            self.write_double(2, value);
        }
    }

    #[verifier::rlimit(100)]
    fn handle_indirect_loads(&mut self, opcode: u16, memory: &mut AddressSpace)
        requires
            old(memory)@.wf(),
        ensures
            *final(self) == spec_indirect_loads(*old(self), old(memory)@, opcode).0,
            final(memory)@ == spec_indirect_loads(*old(self), old(memory)@, opcode).1,
            final(memory)@.wf(),
    {
        let dst: u8 = if opcode / 32 % 2 == 1 {
            2
        } else {
            (opcode / 16 % 4) as u8
        };
        let load_to_acc = opcode / 8 % 2 == 1;
        if load_to_acc {
            let src_address = self.read_double(dst);
            let value = memory.read(src_address);
            self.registers.A = value;
        } else {
            let value = self.registers.A;
            let dst_address = self.read_double(dst);
            memory.write(dst_address, value);
        }
        if dst == 2 {
            self.hl_post_adjust(opcode);
        }
    }

    #[verifier::rlimit(100)]
    fn handle_load_r16_to_r16(&mut self, opcode: u16, extra_bytes: Vec<u8>)
        requires
            opcode % 2 == 0 ==> extra_bytes@.len() >= 1,
        ensures
            *final(self) == spec_ld_r16_r16(*old(self), opcode, extra_bytes@[0]),
    {
        if opcode % 2 == 0 {
            let immediate = byte_to_i16(extra_bytes[0]);
            let value_pre = self.registers.SP;
            let result = self.registers.SP.wrapping_add(immediate);
            proof {
                assert(result == w16(value_pre + immediate));
            }
            self.write_double(2, result);
            self.registers.set_C_from_bool(value_pre % 256 + immediate % 256 > 0xFF);
            self.registers.set_H_from_bool(value_pre % 16 + immediate % 16 > 0xF);
            self.registers.clear_Z();
            self.registers.clear_N();
        } else {
            self.registers.SP = self.registers.HL();
        }
    }

    fn handle_misc_indirect_loads(
        &mut self,
        opcode: u16,
        extra_bytes: Vec<u8>,
        memory: &mut AddressSpace,
    )
        requires
            old(memory)@.wf(),
            opcode / 2 % 2 == 1 && opcode / 8 % 2 == 1 ==> extra_bytes@.len() >= 2,
            opcode / 2 % 2 == 0 ==> extra_bytes@.len() >= 1,
        ensures
            ({
                let imm = if opcode / 2 % 2 == 1 && opcode / 8 % 2 == 1 {
                    (extra_bytes@[1] * 256 + extra_bytes@[0]) as u16
                } else if opcode / 2 % 2 == 0 {
                    extra_bytes@[0] as u16
                } else {
                    0u16
                };
                let p = spec_misc_indirect_loads(*old(self), old(memory)@, opcode, imm);
                *final(self) == p.0 && final(memory)@ == p.1
            }),
            final(memory)@.wf(),
    {
        if opcode / 2 % 2 == 1 {
            let address: u16 = if opcode / 8 % 2 == 0 {
                0xFF00 + self.registers.C as u16
            } else {
                bytes_to_u16(extra_bytes)
            };
            if opcode / 16 % 2 == 0 {
                memory.write(address, self.registers.A);
            } else {
                self.registers.A = memory.read(address);
            }
        } else {
            let address = 0xFF00 + extra_bytes[0] as u16;
            if opcode / 16 % 2 == 0 {
                memory.write(address, self.registers.A);
            } else {
                self.registers.A = memory.read(address);
            }
        }
    }

    #[verifier::rlimit(100)]
    fn handle_load_from_SP_to_indirect_address(
        &mut self,
        extra_bytes: Vec<u8>,
        memory: &mut AddressSpace,
    )
        requires
            old(memory)@.wf(),
            extra_bytes@.len() >= 2,
        ensures
            *final(self) == *old(self),
            final(memory)@ == spec_ld_sp_ind(
                *old(self),
                old(memory)@,
                (extra_bytes@[1] * 256 + extra_bytes@[0]) as u16,
            ),
            final(memory)@.wf(),
    {
        let immediate = bytes_to_u16(extra_bytes);
        memory.write(immediate, (self.registers.SP % 256) as u8);
        let next = immediate.wrapping_add(1);
        proof {
            assert(next == w16(immediate + 1));
        }
        memory.write(next, (self.registers.SP / 256) as u8);
    }

    #[verifier::rlimit(100)]
    fn handle_inc_dec_r8(&mut self, opcode: u16, memory: &mut AddressSpace)
        requires
            old(memory)@.wf(),
        ensures
            *final(self) == spec_inc_dec_r8(*old(self), old(memory)@, opcode).0,
            final(memory)@ == spec_inc_dec_r8(*old(self), old(memory)@, opcode).1,
            final(memory)@.wf(),
    {
        let src = (opcode / 8 % 8) as u8;
        let operand_value = self.read_single(src, memory);
        let increment_op = opcode % 2 == 0;
        let new_value: u8;
        if increment_op {
            new_value = operand_value.wrapping_add(1);
            proof {
                assert(new_value == w8(operand_value + 1));
            }
            self.write_single(src, new_value, memory);
            self.registers.set_H_from_bool(operand_value % 16 == 0xF);
        } else {
            new_value = operand_value.wrapping_sub(1);
            proof {
                assert(new_value == w8(operand_value - 1));
            }
            self.write_single(src, new_value, memory);
            self.registers.set_H_from_bool(operand_value % 16 == 0);
        }
        self.registers.set_N_from_bool(!increment_op);
        self.registers.set_Z_from_bool(new_value == 0);
    }

    #[verifier::rlimit(100)]
    #[verifier::spinoff_prover]
    fn handle_inc_dec_r16(&mut self, opcode: u16)
        ensures
            *final(self) == spec_inc_dec_r16(*old(self), opcode),
    {
        let src = (opcode / 16 % 4) as u8;
        let operand_value = self.read_double(src);
        if opcode / 8 % 2 == 0 {
            self.write_double(src, operand_value.wrapping_add(1));
        } else {
            self.write_double(src, operand_value.wrapping_sub(1));
        }
    }

    #[verifier::rlimit(60)]
    fn handle_add_r16(&mut self, opcode: u16)
        ensures
            *final(self) == spec_add_r16(*old(self), opcode),
    {
        let src = (opcode / 16 % 4) as u8;
        let operand_value = self.read_double(src);
        let value_pre = self.registers.HL();
        let new_value = value_pre.wrapping_add(operand_value);
        self.write_double(2, new_value);
        self.registers.set_C_from_bool(
            value_pre as u32 + operand_value as u32 > 0xFFFF,
        );
        self.registers.set_H_from_bool(
            value_pre % 4096 + operand_value % 4096 > 0xFFF,
        );
        self.registers.clear_N();
    }

    #[verifier::rlimit(60)]
    fn handle_add_SP_int8(&mut self, extra_bytes: Vec<u8>)
        requires
            extra_bytes@.len() >= 1,
        ensures
            *final(self) == spec_add_sp_e8(*old(self), extra_bytes@[0]),
    {
        let immediate = byte_to_i16(extra_bytes[0]);
        let value_pre = self.registers.SP;
        let new_value = self.registers.SP.wrapping_add(immediate);
        self.write_double(3, new_value);
        self.registers.set_H_from_bool(value_pre % 16 + immediate % 16 > 0xF);
        self.registers.set_C_from_bool(value_pre % 256 + immediate % 256 > 0xFF);
        self.registers.clear_Z();
        self.registers.clear_N();
    }

    /// JP cc, a16; reports whether the branch was taken.
    fn handle_jump_d16_cond(&mut self, opcode: u16, extra_bytes: Vec<u8>) -> (branch: bool)
        requires
            extra_bytes@.len() >= 2,
        ensures
            branch == spec_condition(*old(self), opcode),
            *final(self) == (if spec_condition(*old(self), opcode) {
                spec_jump_to(*old(self), (extra_bytes@[1] * 256 + extra_bytes@[0]) as u16)
            } else {
                *old(self)
            }),
    {
        let condition = self.check_condition(opcode);
        let address = bytes_to_u16(extra_bytes);
        if !condition {
            return false;
        }
        self.registers.write_PC(address);
        true
    }

    /// The branch condition NZ, Z, NC or C from opcode bits 3-4.
    fn check_condition(&self, opcode: u16) -> (r: bool)
        ensures
            r == spec_condition(*self, opcode),
    {
        let cc = (opcode / 8 % 4) as u8;
        if cc == 0 {
            !self.registers.read_Z()
        } else if cc == 1 {
            self.registers.read_Z()
        } else if cc == 2 {
            !self.registers.read_C()
        } else {
            self.registers.read_C()
        }
    }

    fn handle_jump_absolute_d16(&mut self, extra_bytes: Vec<u8>)
        requires
            extra_bytes@.len() >= 2,
        ensures
            *final(self) == spec_jump_to(
                *old(self),
                (extra_bytes@[1] * 256 + extra_bytes@[0]) as u16,
            ),
    {
        let address = bytes_to_u16(extra_bytes);
        self.registers.write_PC(address);
    }

    fn handle_jump_absolute_HL(&mut self)
        ensures
            *final(self) == spec_jump_to(*old(self), old(self).registers.hl_spec()),
    {
        let address = self.read_double(2);
        self.registers.write_PC(address);
    }

    /// JR cc, e8; reports whether the branch was taken.
    fn handle_jump_relative_cond(&mut self, opcode: u16, extra_bytes: Vec<u8>) -> (branch: bool)
        requires
            extra_bytes@.len() >= 1,
        ensures
            branch == spec_condition(*old(self), opcode),
            *final(self) == (if spec_condition(*old(self), opcode) {
                spec_jump_relative(*old(self), extra_bytes@[0])
            } else {
                *old(self)
            }),
    {
        let condition = self.check_condition(opcode);
        let immediate = byte_to_i16(extra_bytes[0]);
        if !condition {
            return false;
        }
        let address = self.registers.PC().wrapping_add(immediate);
        self.registers.write_PC(address);
        true
    }

    fn handle_jump_relative(&mut self, extra_bytes: Vec<u8>)
        requires
            extra_bytes@.len() >= 1,
        ensures
            *final(self) == spec_jump_relative(*old(self), extra_bytes@[0]),
    {
        let immediate = byte_to_i16(extra_bytes[0]);
        let address = self.registers.PC().wrapping_add(immediate);
        self.registers.write_PC(address);
    }

    /// CALL cc, a16; reports whether the branch was taken.
    fn handle_call_cond(
        &mut self,
        opcode: u16,
        extra_bytes: Vec<u8>,
        memory: &mut AddressSpace,
    ) -> (branch: bool)
        requires
            old(memory)@.wf(),
            extra_bytes@.len() >= 2,
        ensures
            branch == spec_condition(*old(self), opcode),
            ({
                let addr = (extra_bytes@[1] * 256 + extra_bytes@[0]) as u16;
                if spec_condition(*old(self), opcode) {
                    let p = spec_call(*old(self), old(memory)@, addr);
                    *final(self) == p.0 && final(memory)@ == p.1
                } else {
                    *final(self) == *old(self) && final(memory)@ == old(memory)@
                }
            }),
            final(memory)@.wf(),
    {
        let condition = self.check_condition(opcode);
        let address = bytes_to_u16(extra_bytes);
        if !condition {
            return false;
        }
        let pc = self.registers.PC();
        self.push_stack(pc, memory);
        self.registers.write_PC(address);
        true
    }

    fn handle_call_d16(&mut self, extra_bytes: Vec<u8>, memory: &mut AddressSpace)
        requires
            old(memory)@.wf(),
            extra_bytes@.len() >= 2,
        ensures
            *final(self) == spec_call(
                *old(self),
                old(memory)@,
                (extra_bytes@[1] * 256 + extra_bytes@[0]) as u16,
            ).0,
            final(memory)@ == spec_call(
                *old(self),
                old(memory)@,
                (extra_bytes@[1] * 256 + extra_bytes@[0]) as u16,
            ).1,
            final(memory)@.wf(),
    {
        let address = bytes_to_u16(extra_bytes);
        let pc = self.registers.PC();
        self.push_stack(pc, memory);
        self.registers.write_PC(address);
    }

    /// RST: a call to one of the eight fixed vectors.
    fn handle_reset_vector(&mut self, opcode: u16, memory: &mut AddressSpace)
        requires
            old(memory)@.wf(),
        ensures
            *final(self) == spec_call(
                *old(self),
                old(memory)@,
                (opcode / 8 % 8 * 8) as u16,
            ).0,
            final(memory)@ == spec_call(
                *old(self),
                old(memory)@,
                (opcode / 8 % 8 * 8) as u16,
            ).1,
            final(memory)@.wf(),
    {
        let dst_address = opcode / 8 % 8 * 8;
        let pc = self.registers.PC();
        self.push_stack(pc, memory);
        self.registers.write_PC(dst_address);
    }

    fn handle_return(&mut self, opcode: u16, memory: &AddressSpace)
        requires
            memory@.wf(),
        ensures
            *final(self) == spec_return(*old(self), memory@, opcode),
    {
        let address = self.pop_stack(memory);
        self.registers.write_PC(address);
        if opcode / 16 % 2 == 1 {
            self.enable_interrupts_next_instr = true;
        }
    }

    /// RET cc; reports whether the branch was taken.
    fn handle_return_cond(&mut self, opcode: u16, memory: &AddressSpace) -> (branch: bool)
        requires
            memory@.wf(),
        ensures
            branch == spec_condition(*old(self), opcode),
            *final(self) == (if spec_condition(*old(self), opcode) {
                spec_ret_plain(*old(self), memory@)
            } else {
                *old(self)
            }),
    {
        let condition = self.check_condition(opcode);
        if !condition {
            return false;
        }
        let address = self.pop_stack(memory);
        self.registers.write_PC(address);
        true
    }

    fn handle_r16_pop(&mut self, opcode: u16, memory: &AddressSpace)
        requires
            memory@.wf(),
        ensures
            *final(self) == spec_pop_r16(*old(self), memory@, opcode),
    {
        let src0 = (opcode / 16 % 4) as u8;
        let src: u8 = if src0 == 3 {
            4
        } else {
            src0
        };
        let value = self.pop_stack(memory);
        self.write_double(src, value);
    }

    fn handle_r16_push(&mut self, opcode: u16, memory: &mut AddressSpace)
        requires
            old(memory)@.wf(),
        ensures
            *final(self) == spec_push_r16(*old(self), old(memory)@, opcode).0,
            final(memory)@ == spec_push_r16(*old(self), old(memory)@, opcode).1,
            final(memory)@.wf(),
    {
        let src0 = (opcode / 16 % 4) as u8;
        let src: u8 = if src0 == 3 {
            4
        } else {
            src0
        };
        let value = self.read_double(src);
        self.push_stack(value, memory);
    }

    fn handle_u8_alu(&mut self, opcode: u16, extra_bytes: Vec<u8>, memory: &AddressSpace)
        requires
            memory@.wf(),
        ensures
            *final(self) == (if extra_bytes@.len() == 0 {
                spec_alu(
                    *old(self),
                    opcode,
                    spec_r8_get(*old(self), memory@, (opcode % 8) as u8),
                )
            } else {
                spec_alu(*old(self), opcode, extra_bytes@[0])
            }),
    {
        let operand_value: u8;
        if extra_bytes.len() == 0 {
            let src_reg_i = (opcode % 8) as u8;
            operand_value = self.read_single(src_reg_i, memory);
        } else {
            operand_value = extra_bytes[0];
        }
        let sel = (opcode / 8 % 8) as u8;
        if sel == 0 {
            self.add_u8(operand_value, false);
        } else if sel == 1 {
            let carry = self.registers.read_C();
            self.add_u8(operand_value, carry);
        } else if sel == 2 {
            self.subtract_u8(operand_value, false);
        } else if sel == 3 {
            let carry = self.registers.read_C();
            self.subtract_u8(operand_value, carry);
        } else if sel == 4 {
            self.and_u8(operand_value);
        } else if sel == 5 {
            self.xor_u8(operand_value);
        } else if sel == 6 {
            self.or_u8(operand_value);
        } else {
            self.compare_u8(operand_value);
        }
    }

    /// Applies a CB shift result and its flags to operand `src`.
    #[verifier::rlimit(100)]
    fn apply_shift_result(&mut self, src: u8, output_value: u8, carry: bool, memory: &mut AddressSpace)
        requires
            src < 8,
            old(memory)@.wf(),
        ensures
            *final(self) == spec_shift_apply(*old(self), old(memory)@, src, output_value, carry).0,
            final(memory)@ == spec_shift_apply(
                *old(self),
                old(memory)@,
                src,
                output_value,
                carry,
            ).1,
            final(memory)@.wf(),
    {
        self.write_single(src, output_value, memory);
        self.registers.set_C_from_bool(carry);
        self.registers.set_Z_from_bool(output_value == 0);
        self.registers.clear_N();
        self.registers.clear_H();
    }

    pub fn rotate_left_circular(&mut self, src: u8, memory: &mut AddressSpace)
        requires
            src < 8,
            old(memory)@.wf(),
        ensures
            ({
                let sv = spec_shift_val(
                    0,
                    spec_r8_get(*old(self), old(memory)@, src),
                    old(self).registers.flag_c,
                );
                let p = spec_shift_apply(*old(self), old(memory)@, src, sv.0, sv.1);
                *final(self) == p.0 && final(memory)@ == p.1
            }),
            final(memory)@.wf(),
    {
        let operand_value = self.read_single(src, memory);
        let top_bit = operand_value / 128;
        let output_value = operand_value % 128 * 2 + top_bit;
        self.apply_shift_result(src, output_value, top_bit > 0, memory);
    }

    pub fn rotate_right_circular(&mut self, src: u8, memory: &mut AddressSpace)
        requires
            src < 8,
            old(memory)@.wf(),
        ensures
            ({
                let sv = spec_shift_val(
                    1,
                    spec_r8_get(*old(self), old(memory)@, src),
                    old(self).registers.flag_c,
                );
                let p = spec_shift_apply(*old(self), old(memory)@, src, sv.0, sv.1);
                *final(self) == p.0 && final(memory)@ == p.1
            }),
            final(memory)@.wf(),
    {
        let operand_value = self.read_single(src, memory);
        let bottom_bit = operand_value % 2;
        let output_value = operand_value / 2 + bottom_bit * 128;
        self.apply_shift_result(src, output_value, bottom_bit > 0, memory);
    }

    pub fn rotate_left(&mut self, src: u8, memory: &mut AddressSpace)
        requires
            src < 8,
            old(memory)@.wf(),
        ensures
            ({
                let sv = spec_shift_val(
                    2,
                    spec_r8_get(*old(self), old(memory)@, src),
                    old(self).registers.flag_c,
                );
                let p = spec_shift_apply(*old(self), old(memory)@, src, sv.0, sv.1);
                *final(self) == p.0 && final(memory)@ == p.1
            }),
            final(memory)@.wf(),
    {
        let operand_value = self.read_single(src, memory);
        let top_bit = operand_value / 128;
        let cin: u8 = if self.registers.read_C() {
            1
        } else {
            0
        };
        let output_value = operand_value % 128 * 2 + cin;
        self.apply_shift_result(src, output_value, top_bit > 0, memory);
    }

    #[verifier::rlimit(100)]
    #[verifier::spinoff_prover]
    pub fn rotate_right(&mut self, src: u8, memory: &mut AddressSpace)
        requires
            src < 8,
            old(memory)@.wf(),
        ensures
            ({
                let sv = spec_shift_val(
                    3,
                    spec_r8_get(*old(self), old(memory)@, src),
                    old(self).registers.flag_c,
                );
                let p = spec_shift_apply(*old(self), old(memory)@, src, sv.0, sv.1);
                *final(self) == p.0 && final(memory)@ == p.1
            }),
            final(memory)@.wf(),
    {
        let operand_value = self.read_single(src, memory);
        let bottom_bit = operand_value % 2;
        let cin: u8 = if self.registers.read_C() {
            128
        } else {
            0
        };
        let output_value = operand_value / 2 + cin;
        self.apply_shift_result(src, output_value, bottom_bit > 0, memory);
    }

    pub fn shift_left_arith(&mut self, src: u8, memory: &mut AddressSpace)
        requires
            src < 8,
            old(memory)@.wf(),
        ensures
            ({
                let sv = spec_shift_val(
                    4,
                    spec_r8_get(*old(self), old(memory)@, src),
                    old(self).registers.flag_c,
                );
                let p = spec_shift_apply(*old(self), old(memory)@, src, sv.0, sv.1);
                *final(self) == p.0 && final(memory)@ == p.1
            }),
            final(memory)@.wf(),
    {
        let operand_value = self.read_single(src, memory);
        let top_bit = operand_value / 128;
        let output_value = operand_value % 128 * 2;
        self.apply_shift_result(src, output_value, top_bit > 0, memory);
    }

    pub fn shift_right_arith(&mut self, src: u8, memory: &mut AddressSpace)
        requires
            src < 8,
            old(memory)@.wf(),
        ensures
            ({
                let sv = spec_shift_val(
                    5,
                    spec_r8_get(*old(self), old(memory)@, src),
                    old(self).registers.flag_c,
                );
                let p = spec_shift_apply(*old(self), old(memory)@, src, sv.0, sv.1);
                *final(self) == p.0 && final(memory)@ == p.1
            }),
            final(memory)@.wf(),
    {
        let operand_value = self.read_single(src, memory);
        let bottom_bit = operand_value % 2;
        let output_value = operand_value / 2 + operand_value / 128 * 128;
        self.apply_shift_result(src, output_value, bottom_bit > 0, memory);
    }

    pub fn swap(&mut self, src: u8, memory: &mut AddressSpace)
        requires
            src < 8,
            old(memory)@.wf(),
        ensures
            ({
                let sv = spec_shift_val(
                    6,
                    spec_r8_get(*old(self), old(memory)@, src),
                    old(self).registers.flag_c,
                );
                let p = spec_shift_apply(*old(self), old(memory)@, src, sv.0, sv.1);
                *final(self) == p.0 && final(memory)@ == p.1
            }),
            final(memory)@.wf(),
    {
        let operand_value = self.read_single(src, memory);
        let output_value = operand_value % 16 * 16 + operand_value / 16;
        self.apply_shift_result(src, output_value, false, memory);
    }

    pub fn shift_right_logic(&mut self, src: u8, memory: &mut AddressSpace)
        requires
            src < 8,
            old(memory)@.wf(),
        ensures
            ({
                let sv = spec_shift_val(
                    7,
                    spec_r8_get(*old(self), old(memory)@, src),
                    old(self).registers.flag_c,
                );
                let p = spec_shift_apply(*old(self), old(memory)@, src, sv.0, sv.1);
                *final(self) == p.0 && final(memory)@ == p.1
            }),
            final(memory)@.wf(),
    {
        let operand_value = self.read_single(src, memory);
        let bottom_bit = operand_value % 2;
        let output_value = operand_value / 2;
        self.apply_shift_result(src, output_value, bottom_bit > 0, memory);
    }

    /// The CB rotate/shift/swap family.
    fn handle_no_params_shifts(&mut self, opcode: u8, memory: &mut AddressSpace)
        requires
            opcode < 0x40,
            old(memory)@.wf(),
        ensures
            *final(self) == spec_cb_shift(*old(self), old(memory)@, opcode).0,
            final(memory)@ == spec_cb_shift(*old(self), old(memory)@, opcode).1,
            final(memory)@.wf(),
    {
        let src_reg_i = opcode % 8;
        let sel = opcode / 8 % 8;
        if sel == 0 {
            self.rotate_left_circular(src_reg_i, memory);
        } else if sel == 1 {
            self.rotate_right_circular(src_reg_i, memory);
        } else if sel == 2 {
            self.rotate_left(src_reg_i, memory);
        } else if sel == 3 {
            self.rotate_right(src_reg_i, memory);
        } else if sel == 4 {
            self.shift_left_arith(src_reg_i, memory);
        } else if sel == 5 {
            self.shift_right_arith(src_reg_i, memory);
        } else if sel == 6 {
            self.swap(src_reg_i, memory);
        } else {
            self.shift_right_logic(src_reg_i, memory);
        }
    }

    fn handle_bit_test(&mut self, opcode: u8, memory: &AddressSpace)
        requires
            memory@.wf(),
        ensures
            *final(self) == spec_bit_test(*old(self), memory@, opcode),
    {
        let src_reg_i = opcode % 8;
        let operand_value = self.read_single(src_reg_i, memory);
        let bit_n = opcode / 8 % 8;
        let m = mask_of(bit_n);
        let b = get_bit(operand_value, m);
        self.registers.set_Z_from_bool(!b);
        self.registers.clear_N();
        self.registers.set_H();
    }

    fn handle_bit_clear(&mut self, opcode: u8, memory: &mut AddressSpace)
        requires
            old(memory)@.wf(),
        ensures
            *final(self) == spec_bit_clear(*old(self), old(memory)@, opcode).0,
            final(memory)@ == spec_bit_clear(*old(self), old(memory)@, opcode).1,
            final(memory)@.wf(),
    {
        let src_reg_i = opcode % 8;
        let operand_value = self.read_single(src_reg_i, memory);
        let bit_n = opcode / 8 % 8;
        let m = mask_of(bit_n);
        let output = clear_bit(operand_value, m);
        self.write_single(src_reg_i, output, memory);
    }

    fn handle_bit_set(&mut self, opcode: u8, memory: &mut AddressSpace)
        requires
            old(memory)@.wf(),
        ensures
            *final(self) == spec_bit_set(*old(self), old(memory)@, opcode).0,
            final(memory)@ == spec_bit_set(*old(self), old(memory)@, opcode).1,
            final(memory)@.wf(),
    {
        let src_reg_i = opcode % 8;
        let operand_value = self.read_single(src_reg_i, memory);
        let bit_n = opcode / 8 % 8;
        let m = mask_of(bit_n);
        let output = set_bit(operand_value, m);
        self.write_single(src_reg_i, output, memory);
    }

    /// Whether the opcode belongs to the load tier of the dispatch.
    fn is_load_op(opcode: u16) -> (r: bool)
        ensures
            r == spec_is_load_op(opcode),
    {
        opcode == 0x00 || opcode == 0x10 || opcode == 0x08 || (0x40 <= opcode && opcode < 0x80
            && opcode != 0x76) || (opcode / 64 == 0 && opcode % 8 == 6) || (opcode / 64 == 0
            && opcode % 16 == 1) || (opcode / 64 == 0 && opcode % 8 == 2) || opcode == 0xF8
            || opcode == 0xF9 || opcode == 0xE0 || opcode == 0xE2 || opcode == 0xEA || opcode
            == 0xF0 || opcode == 0xF2 || opcode == 0xFA
    }

    /// The load tier: every branch completes, so no cycle count varies.
    #[verifier::rlimit(100)]
    fn execute_loads(&mut self, opcode: u16, extra_bytes: Vec<u8>, memory: &mut AddressSpace)
        requires
            old(memory)@.wf(),
            opcode < 0x100,
            spec_is_load_op(opcode),
            extra_bytes@.len() == spec_instr_len(opcode) - 1,
        ensures
            *final(self) == spec_execute_loads(*old(self), old(memory)@, opcode, extra_bytes@).0,
            final(memory)@ == spec_execute_loads(
                *old(self),
                old(memory)@,
                opcode,
                extra_bytes@,
            ).1,
            final(memory)@.wf(),
    {
        if opcode == 0x00 {
        } else if opcode == 0x10 {
            memory.write(0xFF04, 0);
        } else if opcode == 0x08 {
            self.handle_load_from_SP_to_indirect_address(extra_bytes, memory);
        } else if 0x40 <= opcode && opcode < 0x80 && opcode != 0x76 {
            self.handle_no_param_loads(opcode, memory);
        } else if opcode / 64 == 0 && opcode % 8 == 6 {
            self.handle_d8_loads(opcode, extra_bytes, memory);
        } else if opcode / 64 == 0 && opcode % 16 == 1 {
            self.handle_load_d16_to_r16(opcode, extra_bytes);
        } else if opcode / 64 == 0 && opcode % 8 == 2 {
            self.handle_indirect_loads(opcode, memory);
        } else if opcode == 0xF8 || opcode == 0xF9 {
            self.handle_load_r16_to_r16(opcode, extra_bytes);
        } else {
            self.handle_misc_indirect_loads(opcode, extra_bytes, memory);
        }
    }

    /// Whether the opcode is in the jump/8-bit-arithmetic tier.
    fn is_jump_alu_op(opcode: u16) -> (r: bool)
        ensures
            r == spec_is_jump_alu_op(opcode),
    {
        (opcode / 32 == 6 && opcode % 8 == 2) || opcode == 0xC3 || opcode == 0xE9 || (opcode / 32
            == 1 && opcode % 8 == 0) || opcode == 0x18 || (0x80 <= opcode && opcode < 0xC0) || (
        opcode / 64 == 3 && opcode % 8 == 6) || (opcode / 32 == 1 && opcode % 8 == 7)
    }

    /// The arithmetic, jump, stack and control tier; reports whether the
    /// instruction's branch, if any, was taken.
    fn execute_other(
        &mut self,
        opcode: u16,
        extra_bytes: Vec<u8>,
        memory: &mut AddressSpace,
    ) -> (taken: bool)
        requires
            old(memory)@.wf(),
            opcode < 0x100,
            !spec_is_load_op(opcode),
            extra_bytes@.len() == spec_instr_len(opcode) - 1,
        ensures
            *final(self) == spec_execute_other(*old(self), old(memory)@, opcode, extra_bytes@).0,
            final(memory)@ == spec_execute_other(
                *old(self),
                old(memory)@,
                opcode,
                extra_bytes@,
            ).1,
            final(memory)@.wf(),
            taken == spec_branch_taken(*old(self), opcode),
    {
        if CPU::is_jump_alu_op(opcode) {
            self.execute_jump_alu(opcode, extra_bytes, memory)
        } else {
            self.execute_stack_ctrl(opcode, extra_bytes, memory)
        }
    }

    /// The jump and 8-bit arithmetic tier.
    #[verifier::rlimit(100)]
    fn execute_jump_alu(
        &mut self,
        opcode: u16,
        extra_bytes: Vec<u8>,
        memory: &mut AddressSpace,
    ) -> (taken: bool)
        requires
            old(memory)@.wf(),
            opcode < 0x100,
            !spec_is_load_op(opcode),
            spec_is_jump_alu_op(opcode),
            extra_bytes@.len() == spec_instr_len(opcode) - 1,
        ensures
            *final(self) == spec_execute_jump_alu(
                *old(self),
                old(memory)@,
                opcode,
                extra_bytes@,
            ).0,
            final(memory)@ == spec_execute_jump_alu(
                *old(self),
                old(memory)@,
                opcode,
                extra_bytes@,
            ).1,
            final(memory)@.wf(),
            taken == spec_branch_taken(*old(self), opcode),
    {
        if opcode / 32 == 6 && opcode % 8 == 2 {
            self.handle_jump_d16_cond(opcode, extra_bytes)
        } else if opcode == 0xC3 {
            self.handle_jump_absolute_d16(extra_bytes);
            true
        } else if opcode == 0xE9 {
            self.handle_jump_absolute_HL();
            true
        } else if opcode / 32 == 1 && opcode % 8 == 0 {
            self.handle_jump_relative_cond(opcode, extra_bytes)
        } else if opcode == 0x18 {
            self.handle_jump_relative(extra_bytes);
            true
        } else if 0x80 <= opcode && opcode < 0xC0 {
            self.handle_u8_alu(opcode, Vec::new(), memory);
            true
        } else if opcode / 64 == 3 && opcode % 8 == 6 {
            self.handle_u8_alu(opcode, extra_bytes, memory);
            true
        } else {
            self.handle_accumulator_misc(opcode);
            true
        }
    }

    /// The 16-bit arithmetic, stack and control tier.
    #[verifier::rlimit(100)]
    #[verifier::spinoff_prover]
    fn execute_stack_ctrl(
        &mut self,
        opcode: u16,
        extra_bytes: Vec<u8>,
        memory: &mut AddressSpace,
    ) -> (taken: bool)
        requires
            old(memory)@.wf(),
            opcode < 0x100,
            !spec_is_load_op(opcode),
            !spec_is_jump_alu_op(opcode),
            extra_bytes@.len() == spec_instr_len(opcode) - 1,
        ensures
            *final(self) == spec_execute_stack_ctrl(
                *old(self),
                old(memory)@,
                opcode,
                extra_bytes@,
            ).0,
            final(memory)@ == spec_execute_stack_ctrl(
                *old(self),
                old(memory)@,
                opcode,
                extra_bytes@,
            ).1,
            final(memory)@.wf(),
            taken == spec_branch_taken(*old(self), opcode),
    {
        if opcode / 64 == 0 && (opcode % 8 == 4 || opcode % 8 == 5) {
            self.handle_inc_dec_r8(opcode, memory);
            true
        } else if opcode / 64 == 0 && opcode % 8 == 3 {
            self.handle_inc_dec_r16(opcode);
            true
        } else if opcode / 64 == 0 && opcode % 16 == 9 {
            self.handle_add_r16(opcode);
            true
        } else if opcode == 0xE8 {
            self.handle_add_SP_int8(extra_bytes);
            true
        } else if opcode / 64 == 3 && opcode % 16 == 1 {
            self.handle_r16_pop(opcode, memory);
            true
        } else if opcode / 64 == 3 && opcode % 16 == 5 {
            self.handle_r16_push(opcode, memory);
            true
        } else if opcode / 32 == 0 && opcode % 8 == 7 {
            self.handle_rotate_accumulator(opcode);
            true
        } else if opcode / 32 == 6 && opcode % 8 == 4 {
            self.handle_call_cond(opcode, extra_bytes, memory)
        } else if opcode == 0xCD {
            self.handle_call_d16(extra_bytes, memory);
            true
        } else if opcode / 64 == 3 && opcode % 8 == 7 {
            self.handle_reset_vector(opcode, memory);
            true
        } else if opcode / 32 == 6 && opcode % 16 == 9 {
            self.handle_return(opcode, memory);
            true
        } else if opcode / 32 == 6 && opcode % 8 == 0 {
            self.handle_return_cond(opcode, memory)
        } else if opcode == 0xF3 {
            self.master_interrupt_enable = false;
            true
        } else if opcode == 0xFB {
            self.enable_interrupts_next_instr = true;
            true
        } else if opcode == 0x76 {
            self.halted = true;
            let pc = self.registers.PC().wrapping_sub(1);
            proof {
                assert(pc == w16(old(self).registers.PC - 1));
            }
            self.registers.write_PC(pc);
            true
        } else {
            self.last_illegal_opcode = Some(opcode);
            true
        }
    }

    /// Dispatches one CB-prefixed opcode.
    fn execute_cb(&mut self, opcode: u16, memory: &mut AddressSpace)
        requires
            old(memory)@.wf(),
            0xCB00 <= opcode && opcode <= 0xCBFF,
        ensures
            *final(self) == spec_execute(*old(self), old(memory)@, opcode, Seq::<u8>::empty()).0,
            final(memory)@ == spec_execute(
                *old(self),
                old(memory)@,
                opcode,
                Seq::<u8>::empty(),
            ).1,
            final(memory)@.wf(),
    {
        proof {
            reveal(spec_execute);
        }
        let low_opcode = (opcode % 256) as u8;
        if low_opcode / 64 == 0 {
            self.handle_no_params_shifts(low_opcode, memory);
        } else if low_opcode / 64 == 1 {
            self.handle_bit_test(low_opcode, memory);
        } else if low_opcode / 64 == 2 {
            self.handle_bit_clear(low_opcode, memory);
        } else {
            self.handle_bit_set(low_opcode, memory);
        }
    }

    /// Fetches the instruction's operand bytes, runs it, and returns the
    /// T-cycles still to charge: the instruction's full table cost (taken or
    /// not-taken branch) minus the 4 already charged per fetched byte.
    #[verifier::rlimit(100)]
    #[verifier::spinoff_prover]
    pub fn execute(&mut self, opcode: u16, opcode_dict: Opcode, memory: &mut AddressSpace) -> (r:
        u8)
        requires
            old(memory)@.wf(),
            opcode < 0x100 || (0xCB00 <= opcode && opcode <= 0xCBFF),
            opcode_dict.length == spec_instr_len(opcode),
            opcode_dict.cycles_taken == spec_cycles_taken(opcode),
            opcode_dict.cycles_not_taken == spec_cycles_not_taken(opcode),
        ensures
            ({
                let lfetch = if opcode >= 0x100 {
                    spec_instr_len(opcode) - 2
                } else {
                    spec_instr_len(opcode) - 1
                };
                let imm = Seq::new(
                    lfetch as nat,
                    |i: int| old(memory)@.read_spec(w16(old(self).registers.PC + i)),
                );
                let cmid = CPU {
                    registers: RegisterBank {
                        PC: w16(old(self).registers.PC + lfetch),
                        ..old(self).registers
                    },
                    clock: wclk(old(self).clock + 4 * lfetch),
                    ..*old(self)
                };
                let p = spec_execute(cmid, old(memory)@, opcode, imm);
                *final(self) == p.0 && final(memory)@ == p.1
            }),
            final(memory)@.wf(),
            r + 4 * spec_instr_len(opcode) == (if spec_branch_taken(*old(self), opcode) {
                spec_cycles_taken(opcode)
            } else {
                spec_cycles_not_taken(opcode)
            }),
            final(self).clock == wclk(
                old(self).clock + 4 * (if opcode >= 0x100 {
                    spec_instr_len(opcode) - 2
                } else {
                    spec_instr_len(opcode) - 1
                }),
            ),
    {
        proof {
            reveal(spec_execute);
        }
        let ghost pc0 = self.registers.PC;
        let ghost clock0 = self.clock;
        let code_length: u8 = if opcode >= 0x100 {
            opcode_dict.length - 2
        } else {
            opcode_dict.length - 1
        };
        let mut extra_bytes: Vec<u8> = Vec::new();
        let mut k: u8 = 0;
        while k < code_length
            invariant
                k <= code_length,
                code_length <= 2,
                memory@ == old(memory)@,
                old(memory)@.wf(),
                extra_bytes@ == Seq::new(
                    k as nat,
                    |i: int| old(memory)@.read_spec(w16(pc0 + i)),
                ),
                *self == (CPU {
                    registers: RegisterBank { PC: w16(pc0 + k), ..old(self).registers },
                    clock: wclk(clock0 + 4 * k),
                    ..*old(self)
                }),
                pc0 == old(self).registers.PC,
                clock0 == old(self).clock,
            decreases code_length - k,
        {
            let ghost pck = self.registers.PC;
            let ghost clkk = self.clock;
            let b = self.fetch(memory);
            extra_bytes.push(b);
            k = k + 1;
            proof {
                assert(w16(pck + 1) == w16(pc0 + k)) by (nonlinear_arith)
                    requires
                        pck == w16(pc0 + (k - 1)),
                        k >= 1,
                ;
                assert(wclk(clkk + 4) == wclk(clock0 + 4 * k)) by (nonlinear_arith)
                    requires
                        clkk == wclk(clock0 + 4 * (k - 1)),
                        k >= 1,
                ;
                assert(extra_bytes@ =~= Seq::new(
                    k as nat,
                    |i: int| old(memory)@.read_spec(w16(pc0 + i)),
                ));
            }
        }
        let taken: bool;
        if opcode < 0x100 {
            if CPU::is_load_op(opcode) {
                self.execute_loads(opcode, extra_bytes, memory);
                taken = true;
            } else {
                taken = self.execute_other(opcode, extra_bytes, memory);
            }
        } else {
            self.execute_cb(opcode, memory);
            taken = true;
        }
        let consumed = 4 * opcode_dict.length;
        let cycles = if taken {
            opcode_dict.cycles_taken
        } else {
            opcode_dict.cycles_not_taken
        };
        cycles - consumed
    }
}

} // verus!
