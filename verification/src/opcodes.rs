//! The fixed instruction descriptor table: length in bytes and T-cycle cost
//! (taken and not-taken) for the 256 unprefixed and 256 CB-prefixed opcodes.
//!
//! A CB-prefixed opcode is identified by a 16-bit code 0xCB00 | low, as the
//! decoder produces it; unprefixed opcodes are their own byte value.
use vstd::prelude::*;

verus! {

#[derive(Clone, Copy, PartialEq, Eq, Structural, Debug)]
pub struct Opcode {
    pub length: u8,
    pub cycles_taken: u8,
    pub cycles_not_taken: u8,
}

/// Instruction length in bytes, the opcode byte(s) included.
pub open spec fn spec_instr_len(op: u16) -> u8 {
    if op >= 0x100 {
        2
    } else if op == 0x01 || op == 0x08 || op == 0x11 || op == 0x21 || op == 0x31 || op == 0xC2
        || op == 0xC3 || op == 0xC4 || op == 0xCA || op == 0xCC || op == 0xCD || op == 0xD2 || op
        == 0xD4 || op == 0xDA || op == 0xDC || op == 0xEA || op == 0xFA {
        3
    } else if op == 0x06 || op == 0x0E || op == 0x16 || op == 0x1E || op == 0x26 || op == 0x2E
        || op == 0x36 || op == 0x3E || op == 0x18 || op == 0x20 || op == 0x28 || op == 0x30 || op
        == 0x38 || op == 0xC6 || op == 0xCE || op == 0xD6 || op == 0xDE || op == 0xE6 || op == 0xEE
        || op == 0xF6 || op == 0xFE || op == 0xE0 || op == 0xE8 || op == 0xF0 || op == 0xF8 {
        2
    } else {
        1
    }
}

/// T-cycles charged when the instruction runs to completion (the branch, if
/// any, is taken).
pub open spec fn spec_cycles_taken(op: u16) -> u8 {
    if op >= 0x100 {
        // CB-prefixed: 8 on a register, 16 on (HL), 12 for BIT b,(HL).
        if op % 8 == 6 {
            if 0x40 <= op % 256 && op % 256 < 0x80 {
                12
            } else {
                16
            }
        } else {
            8
        }
    } else if op == 0x76 {
        // HALT: one idle M-cycle per halted step.
        4
    } else if 0x40 <= op && op < 0xC0 {
        // Loads and 8-bit ALU: 4, or 8 when (HL) is an operand.
        if op % 8 == 6 || (op < 0x80 && op / 8 % 8 == 6) {
            8
        } else {
            4
        }
    } else if op < 0x40 {
        if op % 8 == 0 {
            if op == 0x08 {
                20
            } else if op == 0x00 || op == 0x10 {
                4
            } else {
                12
            }
        } else if op % 8 == 1 {
            if op % 16 == 1 {
                12
            } else {
                8
            }
        } else if op % 8 == 2 || op % 8 == 3 {
            8
        } else if op % 8 == 4 || op % 8 == 5 {
            if op == 0x34 || op == 0x35 {
                12
            } else {
                4
            }
        } else if op % 8 == 6 {
            if op == 0x36 {
                12
            } else {
                8
            }
        } else {
            4
        }
    } else if op == 0xC0 || op == 0xC8 || op == 0xD0 || op == 0xD8 {
        20
    } else if op == 0xC1 || op == 0xD1 || op == 0xE1 || op == 0xF1 {
        12
    } else if op == 0xC2 || op == 0xCA || op == 0xD2 || op == 0xDA || op == 0xC3 {
        16
    } else if op == 0xC4 || op == 0xCC || op == 0xD4 || op == 0xDC || op == 0xCD {
        24
    } else if op == 0xC5 || op == 0xD5 || op == 0xE5 || op == 0xF5 {
        16
    } else if op == 0xC6 || op == 0xCE || op == 0xD6 || op == 0xDE || op == 0xE6 || op == 0xEE
        || op == 0xF6 || op == 0xFE {
        8
    } else if op == 0xC7 || op == 0xCF || op == 0xD7 || op == 0xDF || op == 0xE7 || op == 0xEF
        || op == 0xF7 || op == 0xFF {
        16
    } else if op == 0xC9 || op == 0xD9 {
        16
    } else if op == 0xE0 || op == 0xF0 {
        12
    } else if op == 0xE2 || op == 0xF2 {
        8
    } else if op == 0xE8 {
        16
    } else if op == 0xE9 {
        4
    } else if op == 0xEA || op == 0xFA {
        16
    } else if op == 0xF8 {
        12
    } else if op == 0xF9 {
        8
    } else {
        4
    }
}

/// T-cycles charged when a conditional branch is not taken; equal to the
/// taken cost for every other instruction.
pub open spec fn spec_cycles_not_taken(op: u16) -> u8 {
    if op == 0x20 || op == 0x28 || op == 0x30 || op == 0x38 {
        8
    } else if op == 0xC0 || op == 0xC8 || op == 0xD0 || op == 0xD8 {
        8
    } else if op == 0xC2 || op == 0xCA || op == 0xD2 || op == 0xDA {
        12
    } else if op == 0xC4 || op == 0xCC || op == 0xD4 || op == 0xDC {
        12
    } else {
        spec_cycles_taken(op)
    }
}

/// Looks up the descriptor of one opcode.
pub fn get_instr(op: u16) -> (r: Opcode)
    ensures
        r.length == spec_instr_len(op),
        r.cycles_taken == spec_cycles_taken(op),
        r.cycles_not_taken == spec_cycles_not_taken(op),
{
    let length: u8 = if op >= 0x100 {
        2
    } else if op == 0x01 || op == 0x08 || op == 0x11 || op == 0x21 || op == 0x31 || op == 0xC2
        || op == 0xC3 || op == 0xC4 || op == 0xCA || op == 0xCC || op == 0xCD || op == 0xD2 || op
        == 0xD4 || op == 0xDA || op == 0xDC || op == 0xEA || op == 0xFA {
        3
    } else if op == 0x06 || op == 0x0E || op == 0x16 || op == 0x1E || op == 0x26 || op == 0x2E
        || op == 0x36 || op == 0x3E || op == 0x18 || op == 0x20 || op == 0x28 || op == 0x30 || op
        == 0x38 || op == 0xC6 || op == 0xCE || op == 0xD6 || op == 0xDE || op == 0xE6 || op == 0xEE
        || op == 0xF6 || op == 0xFE || op == 0xE0 || op == 0xE8 || op == 0xF0 || op == 0xF8 {
        2
    } else {
        1
    };
    let cycles_taken: u8 = if op >= 0x100 {
        if op % 8 == 6 {
            if 0x40 <= op % 256 && op % 256 < 0x80 {
                12
            } else {
                16
            }
        } else {
            8
        }
    } else if op == 0x76 {
        4
    } else if 0x40 <= op && op < 0xC0 {
        if op % 8 == 6 || (op < 0x80 && op / 8 % 8 == 6) {
            8
        } else {
            4
        }
    } else if op < 0x40 {
        if op % 8 == 0 {
            if op == 0x08 {
                20
            } else if op == 0x00 || op == 0x10 {
                4
            } else {
                12
            }
        } else if op % 8 == 1 {
            if op % 16 == 1 {
                12
            } else {
                8
            }
        } else if op % 8 == 2 || op % 8 == 3 {
            8
        } else if op % 8 == 4 || op % 8 == 5 {
            if op == 0x34 || op == 0x35 {
                12
            } else {
                4
            }
        } else if op % 8 == 6 {
            if op == 0x36 {
                12
            } else {
                8
            }
        } else {
            4
        }
    } else if op == 0xC0 || op == 0xC8 || op == 0xD0 || op == 0xD8 {
        20
    } else if op == 0xC1 || op == 0xD1 || op == 0xE1 || op == 0xF1 {
        12
    } else if op == 0xC2 || op == 0xCA || op == 0xD2 || op == 0xDA || op == 0xC3 {
        16
    } else if op == 0xC4 || op == 0xCC || op == 0xD4 || op == 0xDC || op == 0xCD {
        24
    } else if op == 0xC5 || op == 0xD5 || op == 0xE5 || op == 0xF5 {
        16
    } else if op == 0xC6 || op == 0xCE || op == 0xD6 || op == 0xDE || op == 0xE6 || op == 0xEE
        || op == 0xF6 || op == 0xFE {
        8
    } else if op == 0xC7 || op == 0xCF || op == 0xD7 || op == 0xDF || op == 0xE7 || op == 0xEF
        || op == 0xF7 || op == 0xFF {
        16
    } else if op == 0xC9 || op == 0xD9 {
        16
    } else if op == 0xE0 || op == 0xF0 {
        12
    } else if op == 0xE2 || op == 0xF2 {
        8
    } else if op == 0xE8 {
        16
    } else if op == 0xE9 {
        4
    } else if op == 0xEA || op == 0xFA {
        16
    } else if op == 0xF8 {
        12
    } else if op == 0xF9 {
        8
    } else {
        4
    };
    let cycles_not_taken: u8 = if op == 0x20 || op == 0x28 || op == 0x30 || op == 0x38 {
        8
    } else if op == 0xC0 || op == 0xC8 || op == 0xD0 || op == 0xD8 {
        8
    } else if op == 0xC2 || op == 0xCA || op == 0xD2 || op == 0xDA {
        12
    } else if op == 0xC4 || op == 0xCC || op == 0xD4 || op == 0xDC {
        12
    } else {
        cycles_taken
    };
    Opcode { length, cycles_taken, cycles_not_taken }
}

} // verus!
