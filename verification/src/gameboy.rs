//! The orchestrator: one instruction advance drives the CPU, then ticks the
//! bus, PPU, APU and joypad in lock-step by the instruction's cycle count.
//!
//! The host runs the loop: it supplies the polled key matrix, presents the
//! framebuffer when a frame is ready, drains the audio sample buffer and
//! prints the diagnostic serial bytes this returns.
use vstd::prelude::*;

verus! {

use crate::cpu::{CPU, wclk, w16, spec_push, spec_jump_to, spec_branch_taken};
use crate::opcodes::{spec_instr_len, spec_cycles_taken, spec_cycles_not_taken};
use crate::memory::{AddressSpace, BusView, spec_rom_loadable};
use crate::graphics::{PPU, spec_ppu_tick, spec_ppu_tick_n};
use crate::joypad::{Joypad, spec_joypad_tick};
use crate::sound::{APU, spec_apu_cycle_n};
use crate::cpu::spec_execute;
use crate::interrupt::Interrupt;
use crate::bits::{spec_bit, spec_mask_of, spec_clear_bit, get_bit, mask_of, clear_bit};
use crate::registers::RegisterBank;

/// The lowest-index interrupt source that is both pending and enabled.
pub open spec fn spec_pending_interrupt(b: BusView) -> Option<Interrupt> {
    if spec_bit(b.io[0x0F], 1) && spec_bit(b.ie, 1) {
        Some(Interrupt::VBlank)
    } else if spec_bit(b.io[0x0F], 2) && spec_bit(b.ie, 2) {
        Some(Interrupt::LCD)
    } else if spec_bit(b.io[0x0F], 4) && spec_bit(b.ie, 4) {
        Some(Interrupt::Timer)
    } else if spec_bit(b.io[0x0F], 8) && spec_bit(b.ie, 8) {
        Some(Interrupt::Serial)
    } else if spec_bit(b.io[0x0F], 16) && spec_bit(b.ie, 16) {
        Some(Interrupt::Joypad)
    } else {
        None
    }
}

/// Servicing one source: IME falls, the source's IF bit is cleared, the
/// return address is pushed and PC jumps to the source's vector.
pub open spec fn spec_serve(c: CPU, b: BusView, i: Interrupt) -> (CPU, BusView) {
    let c0 = CPU { master_interrupt_enable: false, ..c };
    let b0 = BusView {
        io: b.io.update(0x0F, spec_clear_bit(b.io[0x0F], spec_mask_of(i.index_spec()))),
        ..b
    };
    let p = spec_push(c0, b0, c0.registers.PC);
    (spec_jump_to(p.0, (0x40 + 8 * i.index_spec()) as u16), p.1)
}

/// The PPU's dot counter advances once per T-cycle, enabled or not.
proof fn lemma_ppu_tick_n_counts(p: crate::graphics::PpuView, b: BusView, n: nat)
    ensures
        spec_ppu_tick_n(p, b, n).0.tick_i == wclk(p.tick_i + n),
    decreases n,
{
    if n == 0 {
        assert(wclk(p.tick_i + 0) == p.tick_i);
    } else {
        lemma_ppu_tick_n_counts(p, b, (n - 1) as nat);
        let r = spec_ppu_tick_n(p, b, (n - 1) as nat);
        assert(spec_ppu_tick(r.0, r.1).0.tick_i == wclk(r.0.tick_i + 1));
        assert(wclk(wclk(p.tick_i + (n - 1)) + 1) == wclk(p.tick_i + n)) by (nonlinear_arith);
    }
}

/// One fetched instruction at the specification level: the opcode byte at
/// PC (two bytes for the CB prefix), the operand fetches, the dispatch
/// through `spec_execute`, and the table's full cycle cost.
#[verifier::opaque]
pub open spec fn spec_run_instruction(c: CPU, b: BusView) -> (CPU, BusView, u8) {
    let op0 = b.read_spec(c.registers.PC);
    let c1 = CPU {
        registers: RegisterBank { PC: w16(c.registers.PC + 1), ..c.registers },
        clock: wclk(c.clock + 4),
        ..c
    };
    let opcode: u16 = if op0 == 0xCB {
        (0xCB00 + b.read_spec(c1.registers.PC)) as u16
    } else {
        op0 as u16
    };
    let c2 = if op0 == 0xCB {
        CPU {
            registers: RegisterBank { PC: w16(c1.registers.PC + 1), ..c1.registers },
            clock: wclk(c1.clock + 4),
            ..c1
        }
    } else {
        c1
    };
    let lfetch: int = if opcode >= 0x100 {
        spec_instr_len(opcode) - 2
    } else {
        spec_instr_len(opcode) - 1
    };
    let imm = Seq::new(lfetch as nat, |i: int| b.read_spec(w16(c2.registers.PC + i)));
    let cmid = CPU {
        registers: RegisterBank { PC: w16(c2.registers.PC + lfetch), ..c2.registers },
        clock: wclk(c2.clock + 4 * lfetch),
        ..c2
    };
    let p = spec_execute(cmid, b, opcode, imm);
    let total: u8 = if spec_branch_taken(c2, opcode) {
        spec_cycles_taken(opcode)
    } else {
        spec_cycles_not_taken(opcode)
    };
    let remaining: u8 = (total - 4 * spec_instr_len(opcode)) as u8;
    (CPU { clock: wclk(p.0.clock + remaining), ..p.0 }, p.1, total)
}

pub struct Gameboy {
    pub cpu: CPU,
    pub memory: AddressSpace,
    pub ppu: PPU,
    pub joypad: Joypad,
    pub apu: APU,
}

impl Gameboy {
    pub open spec fn wf(&self) -> bool {
        &&& self.memory@.wf()
        &&& self.ppu@.wf()
        &&& self.joypad.wf()
        &&& self.apu@.wf()
    }

    /// A powered-off system with no cartridge.
    pub fn new() -> (r: Gameboy)
        ensures
            r.wf(),
            !r.cpu.master_interrupt_enable,
            !r.cpu.enable_interrupts_next_instr,
            !r.cpu.halted,
            r.cpu.clock == 0,
            r.cpu.registers.PC == 0x0100,
            r.cpu.registers.SP == 0xFFFE,
            r.memory@.mapper is NoCart,
            r.memory@.dma_source is None,
            r.memory@.internal_div == 0,
            r.memory@.clock == 0,
            r.ppu@.ly == 0 && r.ppu@.dot == 0 && r.ppu@.mode is OAMScan,
            r.ppu@.tick_i == 0 && !r.ppu@.frame_ready,
            r.joypad.state == 0xFF && r.joypad.ticks == 0,
            r.apu@.clock == 0 && r.apu@.frame_sequencer_i == 0 && r.apu@.buffer
                == Seq::<(u8, u8, u8, u8)>::empty(),
    {
        Gameboy {
            cpu: CPU::new(),
            memory: AddressSpace::new(),
            ppu: PPU::new(),
            joypad: Joypad::new(),
            apu: APU::new(),
        }
    }

    /// Installs a ROM image; see `AddressSpace::load_rom`.
    pub fn load_game(&mut self, game_bytes: Vec<u8>) -> (r: Result<(), String>)
        requires
            old(self).wf(),
        ensures
            final(self).wf(),
            r is Ok <==> spec_rom_loadable(game_bytes@),
            r is Err ==> *final(self) == *old(self),
            final(self).cpu == old(self).cpu,
            final(self).ppu == old(self).ppu,
            final(self).apu == old(self).apu,
            final(self).joypad == old(self).joypad,
    {
        self.memory.load_rom(game_bytes)
    }

    /// Seeds registers and I/O with the post-boot values: the register
    /// file takes the documented seeds and the hardware registers take
    /// §3's post-boot defaults through the bus write path.
    pub fn boot(&mut self)
        requires
            old(self).wf(),
        ensures
            final(self).wf(),
            final(self).cpu.registers.PC == 0x0100,
            final(self).cpu.registers.SP == 0xFFFE,
            final(self).cpu.registers.af_spec() == 0x01B0,
            final(self).cpu.registers.bc_spec() == 0x0013,
            final(self).cpu.registers.de_spec() == 0x00D8,
            final(self).cpu.registers.hl_spec() == 0x014D,
            final(self).cpu.master_interrupt_enable == old(self).cpu.master_interrupt_enable,
            final(self).cpu.halted == old(self).cpu.halted,
            final(self).cpu.clock == old(self).cpu.clock,
            final(self).memory@ == old(self).memory@.write_spec(0xFF05, 0x00).write_spec(
                0xFF06,
                0x00,
            ).write_spec(0xFF07, 0x00).write_spec(0xFF10, 0x80).write_spec(
                0xFF11,
                0xBF,
            ).write_spec(0xFF12, 0xF3).write_spec(0xFF14, 0xBF).write_spec(
                0xFF16,
                0x3F,
            ).write_spec(0xFF17, 0x00).write_spec(0xFF19, 0xBF).write_spec(
                0xFF1A,
                0x7F,
            ).write_spec(0xFF1B, 0xFF).write_spec(0xFF1C, 0x9F).write_spec(
                0xFF1E,
                0xBF,
            ).write_spec(0xFF20, 0xFF).write_spec(0xFF21, 0x00).write_spec(
                0xFF22,
                0x00,
            ).write_spec(0xFF23, 0xBF).write_spec(0xFF24, 0x77).write_spec(
                0xFF25,
                0xF3,
            ).write_spec(0xFF26, 0xF1).write_spec(0xFF40, 0x91).write_spec(
                0xFF42,
                0x00,
            ).write_spec(0xFF43, 0x00).write_spec(0xFF45, 0x00).write_spec(
                0xFF47,
                0xFC,
            ).write_spec(0xFF48, 0xFF).write_spec(0xFF49, 0xFF).write_spec(
                0xFF4A,
                0x00,
            ).write_spec(0xFF4B, 0x00).write_spec(0xFFFF, 0x00).boot_nr52_spec(),
            final(self).ppu == old(self).ppu,
            final(self).apu == old(self).apu,
            final(self).joypad == old(self).joypad,
    {
        self.cpu.boot(&mut self.memory);
    }

    /// The lowest-index pending and enabled interrupt source, if any.
    #[verifier::rlimit(100)]
    pub fn check_interrupts(&self) -> (r: Option<Interrupt>)
        requires
            self.wf(),
        ensures
            r == spec_pending_interrupt(self.memory@),
    {
        proof {
            reveal(BusView::read_spec);
        }
        let flags = self.memory.read(crate::constants::IF_ADDR);
        let enables = self.memory.read(crate::constants::IE_ADDR);
        proof {
            let st = self.memory@.io[0x0F];
            assert(flags == 0xE0 + st);
            assert((0xE0 + st) / 1 % 2 == st / 1 % 2 && (0xE0 + st) / 2 % 2 == st / 2 % 2 && (
            0xE0 + st) / 4 % 2 == st / 4 % 2 && (0xE0 + st) / 8 % 2 == st / 8 % 2 && (0xE0 + st)
                / 16 % 2 == st / 16 % 2) by (nonlinear_arith)
                requires
                    st < 32,
            ;
            let en = self.memory@.ie;
            assert(enables == 0xE0 + en % 32);
            assert((0xE0 + en % 32) / 1 % 2 == en / 1 % 2 && (0xE0 + en % 32) / 2 % 2 == en / 2
                % 2 && (0xE0 + en % 32) / 4 % 2 == en / 4 % 2 && (0xE0 + en % 32) / 8 % 2 == en
                / 8 % 2 && (0xE0 + en % 32) / 16 % 2 == en / 16 % 2) by (nonlinear_arith)
                requires
                    en < 256,
            ;
        }
        if get_bit(flags, 1) && get_bit(enables, 1) {
            Some(Interrupt::VBlank)
        } else if get_bit(flags, 2) && get_bit(enables, 2) {
            Some(Interrupt::LCD)
        } else if get_bit(flags, 4) && get_bit(enables, 4) {
            Some(Interrupt::Timer)
        } else if get_bit(flags, 8) && get_bit(enables, 8) {
            Some(Interrupt::Serial)
        } else if get_bit(flags, 16) && get_bit(enables, 16) {
            Some(Interrupt::Joypad)
        } else {
            None
        }
    }

    /// Services one interrupt source; see `spec_serve`.
    pub fn serve_interrupt(&mut self, interrupt: Interrupt)
        requires
            old(self).wf(),
        ensures
            final(self).wf(),
            final(self).cpu == spec_serve(old(self).cpu, old(self).memory@, interrupt).0,
            final(self).memory@ == spec_serve(old(self).cpu, old(self).memory@, interrupt).1,
            final(self).ppu == old(self).ppu,
            final(self).apu == old(self).apu,
            final(self).joypad == old(self).joypad,
    {
        self.cpu.master_interrupt_enable = false;
        let m = mask_of(interrupt.index());
        let st = self.memory.pending_interrupts();
        let cleared = clear_bit(st, m);
        self.memory.set_pending_interrupts(cleared);
        let pc = self.cpu.registers.PC();
        self.cpu.push_stack(pc, &mut self.memory);
        let address = 0x40 + 8 * interrupt.index() as u16;
        self.cpu.registers.write_PC(address);
    }

    /// Fetch, decode and execute of one instruction; returns the full
    /// T-cycle cost from the instruction table, charged to the CPU clock.
    #[verifier::rlimit(100)]
    fn run_instruction(&mut self) -> (n: u8)
        requires
            old(self).wf(),
        ensures
            final(self).wf(),
            final(self).cpu.clock == wclk(old(self).cpu.clock + n),
            final(self).ppu == old(self).ppu,
            final(self).apu == old(self).apu,
            final(self).joypad == old(self).joypad,
            final(self).cpu == spec_run_instruction(old(self).cpu, old(self).memory@).0,
            final(self).memory@ == spec_run_instruction(old(self).cpu, old(self).memory@).1,
            n == spec_run_instruction(old(self).cpu, old(self).memory@).2,
            ({
                let op0 = old(self).memory@.read_spec(old(self).cpu.registers.PC);
                let opcode: u16 = if op0 == 0xCB {
                    (0xCB00 + old(self).memory@.read_spec(
                        w16(old(self).cpu.registers.PC + 1),
                    )) as u16
                } else {
                    op0 as u16
                };
                n == (if spec_branch_taken(old(self).cpu, opcode) {
                    spec_cycles_taken(opcode)
                } else {
                    spec_cycles_not_taken(opcode)
                })
            }),
    {
        proof {
            reveal(spec_run_instruction);
        }
        let ghost cpu0 = self.cpu;
        let ghost bus0 = self.memory@;
        let opcode_byte = self.cpu.fetch(&self.memory);
        proof {
            assert(self.cpu == (CPU {
                registers: RegisterBank { PC: w16(cpu0.registers.PC + 1), ..cpu0.registers },
                clock: wclk(cpu0.clock + 4),
                ..cpu0
            }));
        }
        let ghost c1g = self.cpu;
        let (opcode_dict, opcode) = self.cpu.decode(opcode_byte, &self.memory);
        proof {
            if opcode_byte == 0xCB {
                assert(self.cpu == (CPU {
                    registers: RegisterBank {
                        PC: w16(c1g.registers.PC + 1),
                        ..c1g.registers
                    },
                    clock: wclk(c1g.clock + 4),
                    ..c1g
                }));
            }
        }
        let ghost c2g = self.cpu;
        let remaining_ticks = self.cpu.execute(opcode, opcode_dict, &mut self.memory);
        proof {
            let lf: int = if opcode >= 0x100 {
                spec_instr_len(opcode) - 2
            } else {
                spec_instr_len(opcode) - 1
            };
            let immg = Seq::new(
                lf as nat,
                |i: int| bus0.read_spec(w16(c2g.registers.PC + i)),
            );
            let cmidg = CPU {
                registers: RegisterBank { PC: w16(c2g.registers.PC + lf), ..c2g.registers },
                clock: wclk(c2g.clock + 4 * lf),
                ..c2g
            };
            assert(self.cpu == spec_execute(cmidg, bus0, opcode, immg).0);
            assert(self.memory@ == spec_execute(cmidg, bus0, opcode, immg).1);
        }
        self.cpu.tick(remaining_ticks);
        let n = 4 * opcode_dict.length + remaining_ticks;
        proof {
            assert(n == spec_run_instruction(cpu0, bus0).2);
            assert(self.cpu == spec_run_instruction(cpu0, bus0).0);
            assert(self.memory@ == spec_run_instruction(cpu0, bus0).1);
        }
        proof {
            let ghost ck0 = cpu0.clock;
            assert(self.cpu.clock == wclk(ck0 + n)) by (nonlinear_arith)
                requires
                    self.cpu.clock == wclk(
                        wclk(
                            wclk(
                                ck0 + 4 + (if opcode >= 0x100 {
                                    4int
                                } else {
                                    0int
                                }),
                            ) + 4 * (if opcode >= 0x100 {
                                spec_instr_len(opcode) - 2
                            } else {
                                spec_instr_len(opcode) - 1
                            }),
                        ) + remaining_ticks,
                    ),
                    n == 4 * spec_instr_len(opcode) + remaining_ticks,
                    1 <= spec_instr_len(opcode) <= 3,
                    opcode >= 0x100 ==> spec_instr_len(opcode) == 2,
            ;
        }
        n
    }

    /// One iteration of the main loop, §4.6's order: EI promotion,
    /// interrupt dispatch or one fetched instruction, then the PPU, the
    /// joypad, the bus and the APU advance by the same T-cycle count, and
    /// the SC == 0x81 serial handshake emits its byte.  The full transition
    /// is stated below; the count equals the T-cycles charged to the CPU
    /// clock and the dots charged to the PPU: 20 for an interrupt dispatch,
    /// otherwise the instruction table's cost for the executed opcode.
    #[verifier::rlimit(100)]
    pub fn step(&mut self, keys: u8) -> (r: (u8, Option<u8>))
        requires
            old(self).wf(),
        ensures
            final(self).wf(),
            final(self).cpu.clock == wclk(old(self).cpu.clock + r.0),
            final(self).ppu@.tick_i == wclk(old(self).ppu@.tick_i + r.0),
            ({
                let c1 = CPU {
                    master_interrupt_enable: old(self).cpu.master_interrupt_enable || old(
                        self,
                    ).cpu.enable_interrupts_next_instr,
                    enable_interrupts_next_instr: false,
                    ..old(self).cpu
                };
                let b0 = old(self).memory@;
                let pend = spec_pending_interrupt(b0);
                let c2 = if pend is Some && c1.halted {
                    CPU {
                        halted: false,
                        registers: RegisterBank {
                            PC: w16(c1.registers.PC + 1),
                            ..c1.registers
                        },
                        ..c1
                    }
                } else {
                    c1
                };
                let exec_r = match pend {
                    Some(i) => if c2.master_interrupt_enable {
                        let s = spec_serve(c2, b0, i);
                        (CPU { clock: wclk(s.0.clock + 20), ..s.0 }, s.1, 20u8)
                    } else {
                        spec_run_instruction(c2, b0)
                    },
                    None => spec_run_instruction(c2, b0),
                };
                let c3 = exec_r.0;
                let b3 = exec_r.1;
                let n = exec_r.2;
                let pr = spec_ppu_tick_n(old(self).ppu@, b3, n as nat);
                let jr = spec_joypad_tick(old(self).joypad, pr.1, n, keys);
                let b5 = jr.1.tick_spec(n);
                let apu_on = spec_bit(b5.io[0x26], 128);
                let a6 = if apu_on {
                    spec_apu_cycle_n(old(self).apu@, b5, n as nat).0
                } else {
                    old(self).apu@
                };
                let b6 = if apu_on {
                    spec_apu_cycle_n(old(self).apu@, b5, n as nat).1
                } else {
                    b5
                };
                let serial_hit = b6.read_spec(0xFF02) == 0x81;
                &&& final(self).cpu == c3
                &&& final(self).ppu@ =~= pr.0
                &&& final(self).joypad == jr.0
                &&& final(self).apu@ =~= a6
                &&& final(self).memory@ == (if serial_hit {
                    b6.write_spec(0xFF02, 0)
                } else {
                    b6
                })
                &&& r.0 == n
                &&& r.1 == (if serial_hit {
                    Some(b6.read_spec(0xFF01))
                } else {
                    None::<u8>
                })
            }),
            ({
                let c1 = CPU {
                    master_interrupt_enable: old(self).cpu.master_interrupt_enable || old(
                        self,
                    ).cpu.enable_interrupts_next_instr,
                    enable_interrupts_next_instr: false,
                    ..old(self).cpu
                };
                let pend = spec_pending_interrupt(old(self).memory@);
                if pend is Some && c1.master_interrupt_enable {
                    r.0 == 20
                } else {
                    let c2 = if pend is Some && c1.halted {
                        CPU {
                            halted: false,
                            registers: RegisterBank {
                                PC: w16(c1.registers.PC + 1),
                                ..c1.registers
                            },
                            ..c1
                        }
                    } else {
                        c1
                    };
                    let op0 = old(self).memory@.read_spec(c2.registers.PC);
                    let opcode: u16 = if op0 == 0xCB {
                        (0xCB00 + old(self).memory@.read_spec(
                            w16(c2.registers.PC + 1),
                        )) as u16
                    } else {
                        op0 as u16
                    };
                    r.0 == (if spec_branch_taken(c2, opcode) {
                        spec_cycles_taken(opcode)
                    } else {
                        spec_cycles_not_taken(opcode)
                    })
                }
            }),
    {
        let ghost cpu0 = self.cpu;
        if self.cpu.enable_interrupts_next_instr {
            self.cpu.master_interrupt_enable = true;
            self.cpu.enable_interrupts_next_instr = false;
        }
        let pending = self.check_interrupts();
        let mut serviced = false;
        match pending {
            Some(interrupt) => {
                if self.cpu.is_halted() {
                    self.cpu.quit_halt();
                }
                if self.cpu.master_interrupt_enable {
                    self.serve_interrupt(interrupt);
                    serviced = true;
                }
            },
            None => {},
        }
        let ghost c2g = self.cpu;
        let ghost b0g = old(self).memory@;
        let nticks: u8;
        if serviced {
            self.cpu.tick(20);
            nticks = 20;
        } else {
            nticks = self.run_instruction();
        }
        let ghost c3g = self.cpu;
        let ghost b3g = self.memory@;
        let ghost ppu_pre = self.ppu@;
        let ghost bus_pre = self.memory@;
        self.ppu.tick(nticks, &mut self.memory);
        proof {
            lemma_ppu_tick_n_counts(ppu_pre, bus_pre, nticks as nat);
        }
        self.joypad.tick(nticks, keys, &mut self.memory);
        self.memory.tick(nticks);
        self.apu.tick(nticks, &mut self.memory);
        let ghost b6g = self.memory@;
        let mut serial: Option<u8> = None;
        proof {
            reveal(BusView::read_spec);
        }
        if self.memory.read(crate::constants::SC_ADDR) == 0x81 {
            serial = Some(self.memory.read(crate::constants::SB_ADDR));
            self.memory.write(crate::constants::SC_ADDR, 0);
        }
        proof {
            assert(serial == (if b6g.read_spec(0xFF02) == 0x81 {
                Some(b6g.read_spec(0xFF01))
            } else {
                None::<u8>
            }));
        }
        (nticks, serial)
    }
}

} // verus!
