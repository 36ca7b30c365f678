//! System-wide laws, proved over the same specifications the executable
//! contracts use: the stack round trip, DIV write idempotence, the STAT
//! interrupt edge discipline, the one-VBlank-per-frame period of the PPU
//! and the OAM DMA copy.
use vstd::prelude::*;

verus! {

use crate::cpu::{CPU, spec_push, spec_pop, spec_r16_set, spec_r16_get, w16};
use crate::memory::BusView;
use crate::graphics::{PpuView, PPUMode, spec_ppu_phase_stat, spec_stat_line, spec_mode_bits};
use crate::bits::spec_bit;

/// PUSH then POP round-trips: popping right after pushing a word returns
/// that word, and the stack pointer comes back to where it started.  The
/// precondition keeps the two stack bytes inside work RAM.
pub proof fn lemma_push_pop_round_trip(c: CPU, b: BusView, value: u16)
    requires
        b.wf(),
        0xC002 <= c.registers.SP,
        c.registers.SP <= 0xDFFF,
    ensures
        spec_pop(spec_push(c, b, value).0, spec_push(c, b, value).1).1 == value,
        spec_pop(spec_push(c, b, value).0, spec_push(c, b, value).1).0.registers.SP
            == c.registers.SP,
{
    reveal(BusView::write_spec);
    reveal(BusView::read_spec);
    let sp = c.registers.SP;
    assert(w16(sp - 1) == sp - 1);
    assert(w16(sp - 2) == sp - 2);
    let p = spec_push(c, b, value);
    assert(p.1.wram[sp - 2 - 0xC000] == (value % 256) as u8);
    assert(p.1.wram[sp - 1 - 0xC000] == (value / 256) as u8);
    assert(w16(p.0.registers.SP + 1) == sp - 1);
    assert(spec_pop(p.0, p.1).1 == (value / 256) * 256 + value % 256);
}

/// POP into AF masks the popped word's low nibble to zero: F's low four
/// bits do not exist.
pub proof fn lemma_pop_af_masks_low_nibble(c: CPU, value: u16)
    ensures
        spec_r16_get(spec_r16_set(c, 4, value), 4) == value - value % 16,
{
    let c1 = spec_r16_set(c, 4, value);
    assert(c1.registers.af_spec() == value - value % 16) by (nonlinear_arith)
        requires
            c1.registers.A == value / 256,
            c1.registers.flag_z == (value / 128 % 2 == 1),
            c1.registers.flag_n == (value / 64 % 2 == 1),
            c1.registers.flag_h == (value / 32 % 2 == 1),
            c1.registers.flag_c == (value / 16 % 2 == 1),
            c1.registers.af_spec() == (c1.registers.A * 256 + c1.registers.f_spec()) as u16,
            c1.registers.f_spec() == ((if c1.registers.flag_z {
                128int
            } else {
                0int
            }) + (if c1.registers.flag_n {
                64int
            } else {
                0int
            }) + (if c1.registers.flag_h {
                32int
            } else {
                0int
            }) + (if c1.registers.flag_c {
                16int
            } else {
                0int
            })) as u8,
    ;
}

/// Writing DIV is idempotent: two successive writes leave the internal
/// 16-bit counter at zero, and neither write touches TIMA.  Any spurious
/// TIMA step caused by the counter reset comes from the falling-edge
/// detector on a later cycle, which moves TIMA by at most one reload or
/// increment per cycle.
pub proof fn lemma_div_write_idempotent(b: BusView, x: u8, y: u8)
    requires
        b.wf(),
    ensures
        b.write_spec(0xFF04, x).write_spec(0xFF04, y).internal_div == 0,
        b.write_spec(0xFF04, x).internal_div == 0,
        b.write_spec(0xFF04, x).write_spec(0xFF04, y).io[0x05] == b.io[0x05],
        b.write_spec(0xFF04, x).write_spec(0xFF04, y) == b.write_spec(0xFF04, y),
{
    reveal(BusView::write_spec);
}

/// One bus cycle changes TIMA by at most one step: it stays, increments,
/// or reloads from TMA.
pub proof fn lemma_tima_single_step(b: BusView)
    requires
        b.wf(),
    ensures
        b.tick1_spec().io[0x05] == b.io[0x05] || b.tick1_spec().io[0x05] == (b.io[0x05]
            + 1) as u8 || b.tick1_spec().io[0x05] == b.io[0x06],
{
}

/// Holding the STAT line high does not re-raise the LCD interrupt: when
/// the previous level was already high, the STAT bookkeeping phase leaves
/// the pending-interrupt register untouched.
pub proof fn lemma_stat_irq_level_holds(p: PpuView, b: BusView, lyc: u8)
    requires
        b.wf(),
        p.stat_flag,
    ensures
        spec_ppu_phase_stat(p, b, lyc).1.io[0x0F] == b.io[0x0F],
{
}

/// The LCD interrupt is raised only on a rising edge: if the STAT phase
/// changed the pending-interrupt register at all, the previous level was
/// low and the line is high now.
pub proof fn lemma_stat_irq_rising_edge_only(p: PpuView, b: BusView, lyc: u8)
    requires
        b.wf(),
    ensures
        spec_ppu_phase_stat(p, b, lyc).1.io != b.io.update(
            0x41,
            (b.io[0x41] / 4 * 4 + spec_mode_bits(p.mode)) as u8,
        ) ==> !p.stat_flag && spec_stat_line(
            p,
            BusView {
                io: b.io.update(0x41, (b.io[0x41] / 4 * 4 + spec_mode_bits(p.mode)) as u8),
                ..b
            },
        ),
{
}

/// Progress of a running DMA whose source page lies in work RAM: after `k`
/// cycles the first `k` OAM bytes hold the source bytes, work RAM is
/// untouched, and after byte 159 the engine is idle.
proof fn lemma_dma_steps(b1: BusView, src: u16, k: nat)
    requires
        b1.wf(),
        b1.dma_source == Some(src),
        0xC000 <= src,
        src <= 0xDF00,
        b1.dma_clock_t == 0,
        k <= 160,
    ensures
        ({
            let bk = b1.tick_cycles_spec(k);
            &&& bk.wf()
            &&& bk.wram == b1.wram
            &&& bk.oam.len() == 160
            &&& (k < 160 ==> bk.dma_source == Some(src) && bk.dma_clock_t == k)
            &&& (k == 160 ==> bk.dma_source is None)
            &&& forall|j: int| 0 <= j < k ==> bk.oam[j] == b1.wram[src + j - 0xC000]
            &&& forall|j: int| k <= j < 160 ==> bk.oam[j] == b1.oam[j]
        }),
    decreases k,
{
    reveal(BusView::read_spec);
    if k == 0 {
    } else {
        lemma_dma_steps(b1, src, (k - 1) as nat);
        let bp = b1.tick_cycles_spec((k - 1) as nat);
        assert(bp.read_spec((src + (k - 1)) as u16) == b1.wram[src + (k - 1) - 0xC000]);
        let bk = b1.tick_cycles_spec(k);
        assert(bk == bp.tick1_spec());
    }
}

/// OAM DMA: writing a work-RAM page number to the DMA register and running
/// 160 T-cycles leaves every OAM byte equal to the corresponding source
/// byte, each taken at the moment it was copied (work RAM does not change
/// while the engine runs, so that is the byte at the start too); the
/// engine then sits idle.
pub proof fn lemma_oam_dma_copies_page(b: BusView, v: u8, i: int)
    requires
        b.wf(),
        b.dma_source is None,
        0xC0 <= v,
        v <= 0xDE,
        0 <= i < 160,
    ensures
        b.write_spec(0xFF46, v).tick_spec(160).dma_source is None,
        b.write_spec(0xFF46, v).tick_spec(160).oam[i] == b.read_spec((v * 256 + i) as u16),
{
    reveal(BusView::write_spec);
    reveal(BusView::read_spec);
    let b1 = b.write_spec(0xFF46, v);
    assert(v * 256 >= 0xC000 && v * 256 <= 0xDE00 && v * 256 % 256 == 0) by (nonlinear_arith)
        requires
            0xC0 <= v <= 0xDE,
    ;
    let src = (v * 256) as u16;
    assert(b1.dma_source == Some(src));
    lemma_dma_steps(b1, src, 160);
    let bk = b1.tick_cycles_spec(160);
    assert(bk.oam[i] == b1.wram[src + i - 0xC000]);
    assert(b.read_spec((v * 256 + i) as u16) == b.wram[v * 256 + i - 0xC000]);
}

/// The PPU's position within the frame, in dots: 0 to 70223.
pub open spec fn spec_pos(p: PpuView) -> int {
    p.ly * 456 + p.dot
}

/// The dot at which the machine steps into the vertical blank: the last
/// dot of line 143's horizontal blank, with the PPU enabled.
pub open spec fn spec_vblank_entry(p: PpuView, b: BusView) -> bool {
    &&& crate::graphics::spec_get_ppu_enabled(b)
    &&& p.mode is HBlank
    &&& p.dot == 455
    &&& p.ly == 143
}

/// One enabled PPU dot: the frame position advances by one, wrapping at
/// 70224; LCDC is not touched, so the PPU stays enabled; and the VBlank
/// interrupt bit rises at the frame's entry dot and at no other.
#[verifier::rlimit(100)]
pub proof fn lemma_ppu_cycle_position(p: PpuView, b: BusView)
    requires
        p.wf(),
        b.wf(),
        !p.past_cycle_disabled,
        crate::graphics::spec_get_ppu_enabled(b),
    ensures
        ({
            let r = crate::graphics::spec_ppu_tick(p, b);
            &&& r.0.wf()
            &&& r.1.wf()
            &&& !r.0.past_cycle_disabled
            &&& r.1.io[0x40] == b.io[0x40]
            &&& spec_pos(r.0) == (if spec_pos(p) == 70223 {
                0int
            } else {
                spec_pos(p) + 1
            })
            &&& spec_bit(r.1.io[0x0F], 1) == (spec_bit(b.io[0x0F], 1) || spec_vblank_entry(
                p,
                b,
            ))
        }),
{
    let h: u8 = if crate::graphics::spec_get_obj_size(b) {
        16u8
    } else {
        8u8
    };
    crate::graphics::lemma_scan_len(b, p.ly, h, !crate::graphics::spec_get_obj_enabled(b), 40);
    let b1 = crate::graphics::spec_ppu_phase_lyc(p, b);
    crate::graphics::lemma_scan_len(
        b1,
        p.ly,
        if crate::graphics::spec_get_obj_size(b1) {
            16u8
        } else {
            8u8
        },
        !crate::graphics::spec_get_obj_enabled(b1),
        40,
    );
    let b1w = crate::graphics::spec_ppu_phase_lyc(p, b);
    let p2 = crate::graphics::spec_ppu_phase_window(p, b1w);
    crate::graphics::lemma_render_line_len(
        PpuView { dot: 252u16, mode: PPUMode::HBlank, ..p2 },
        BusView { oam_writeable: true, vram_writeable: true, ..b1w },
    );
    let r = crate::graphics::spec_ppu_tick(p, b);
    assert(r.0.wf());
    assert(r.1.wf());
    assert(!r.0.past_cycle_disabled);
    assert(r.1.io[0x40] == b.io[0x40]);
    assert(spec_pos(r.0) == (if spec_pos(p) == 70223 {
        0int
    } else {
        spec_pos(p) + 1
    }));
    assert(spec_bit(r.1.io[0x0F], 1) == (spec_bit(b.io[0x0F], 1) || spec_vblank_entry(p, b)));
}

/// `k` enabled PPU dots move the frame position by `k`, modulo the frame
/// length: the machine's phase is periodic with the frame.
pub proof fn lemma_ppu_frame_position(p: PpuView, b: BusView, k: nat)
    requires
        p.wf(),
        b.wf(),
        !p.past_cycle_disabled,
        crate::graphics::spec_get_ppu_enabled(b),
        k <= 70224,
    ensures
        ({
            let r = crate::graphics::spec_ppu_tick_n(p, b, k);
            &&& r.0.wf()
            &&& r.1.wf()
            &&& !r.0.past_cycle_disabled
            &&& r.1.io[0x40] == b.io[0x40]
            &&& spec_pos(r.0) == (spec_pos(p) + k) % 70224
        }),
    decreases k,
{
    assert(0 <= spec_pos(p) < 70224) by (nonlinear_arith)
        requires
            p.ly < 154,
            p.dot < 456,
            spec_pos(p) == p.ly * 456 + p.dot,
    ;
    if k == 0 {
        assert(spec_pos(p) % 70224 == spec_pos(p)) by (nonlinear_arith)
            requires
                0 <= spec_pos(p) < 70224,
        ;
    } else {
        lemma_ppu_frame_position(p, b, (k - 1) as nat);
        let rp = crate::graphics::spec_ppu_tick_n(p, b, (k - 1) as nat);
        lemma_ppu_cycle_position(rp.0, rp.1);
        assert((if (spec_pos(p) + (k - 1)) % 70224 == 70223 {
            0int
        } else {
            (spec_pos(p) + (k - 1)) % 70224 + 1
        }) == (spec_pos(p) + k) % 70224) by (nonlinear_arith)
            requires
                0 <= spec_pos(p) < 70224,
                1 <= k,
        ;
    }
}

/// One VBlank per frame: over any window of 70224 enabled dots there is
/// exactly one dot whose tick enters the vertical blank and raises the
/// VBlank interrupt — the dot at offset (65663 - position) mod 70224.
pub proof fn lemma_one_vblank_per_frame(p: PpuView, b: BusView, k: nat)
    requires
        p.wf(),
        b.wf(),
        !p.past_cycle_disabled,
        crate::graphics::spec_get_ppu_enabled(b),
        k < 70224,
    ensures
        ({
            let r = crate::graphics::spec_ppu_tick_n(p, b, k);
            spec_vblank_entry(r.0, r.1) <==> k == (65663 - spec_pos(p)) % 70224
        }),
        ({
            let r = crate::graphics::spec_ppu_tick_n(p, b, k);
            spec_vblank_entry(r.0, r.1) ==> spec_bit(
                crate::graphics::spec_ppu_tick(r.0, r.1).1.io[0x0F],
                1,
            )
        }),
{
    lemma_ppu_frame_position(p, b, k);
    let r = crate::graphics::spec_ppu_tick_n(p, b, k);
    assert(0 <= spec_pos(p) < 70224) by (nonlinear_arith)
        requires
            p.ly < 154,
            p.dot < 456,
            spec_pos(p) == p.ly * 456 + p.dot,
    ;
    assert(((spec_pos(p) + k) % 70224 == 65663) <==> (k == (65663 - spec_pos(p)) % 70224))
        by (nonlinear_arith)
        requires
            0 <= spec_pos(p) < 70224,
            0 <= k < 70224,
    ;
    // Position 65663 pins down line 143, dot 455, and the mode must then
    // be the horizontal blank.
    if spec_pos(r.0) == 65663 {
        assert(r.0.ly == 143 && r.0.dot == 455) by (nonlinear_arith)
            requires
                r.0.ly < 154,
                r.0.dot < 456,
                r.0.ly * 456 + r.0.dot == 65663,
        ;
    }
    if spec_vblank_entry(r.0, r.1) {
        assert(spec_pos(r.0) == 65663);
        lemma_ppu_cycle_position(r.0, r.1);
    }
}

} // verus!
