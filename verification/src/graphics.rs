//! The pixel processing unit: mode state machine, sprite scan, per-scanline
//! rendering, LY/LYC/STAT upkeep and the STAT interrupt edge detector.
//!
//! One dot is one T-cycle; a scanline is 456 dots (OAM scan 0-79, drawing
//! 80-251, horizontal blank to 455) and a frame is 154 lines, the last ten
//! being the vertical blank.  The renderer writes 2-bit shades into a
//! 160 x 144 framebuffer; the host presents it once per frame.
use vstd::prelude::*;

verus! {

use crate::bits::{spec_bit, spec_mask_of, get_bit, mask_of};
use crate::interrupt::Interrupt;
use crate::memory::{AddressSpace, BusView};
use crate::sprites::{SpriteData, SpriteAttributes, ColorId, ColorPalette};

pub open spec fn spec_lcdc(b: BusView) -> u8 {
    b.io[0x40]
}

pub open spec fn spec_get_bg_win_display(b: BusView) -> bool {
    spec_bit(spec_lcdc(b), 1)
}

pub open spec fn spec_get_obj_enabled(b: BusView) -> bool {
    spec_bit(spec_lcdc(b), 2)
}

pub open spec fn spec_get_obj_size(b: BusView) -> bool {
    spec_bit(spec_lcdc(b), 4)
}

pub open spec fn spec_get_bg_tile_map(b: BusView) -> bool {
    spec_bit(spec_lcdc(b), 8)
}

pub open spec fn spec_get_bg_win_tile_data_zone(b: BusView) -> bool {
    spec_bit(spec_lcdc(b), 16)
}

pub open spec fn spec_window_enable_bit(b: BusView) -> bool {
    spec_bit(spec_lcdc(b), 32)
}

pub open spec fn spec_get_win_tile_map(b: BusView) -> bool {
    spec_bit(spec_lcdc(b), 64)
}

pub open spec fn spec_get_ppu_enabled(b: BusView) -> bool {
    spec_bit(spec_lcdc(b), 128)
}

pub open spec fn spec_scx(b: BusView) -> u8 {
    b.io[0x43]
}

pub open spec fn spec_scy(b: BusView) -> u8 {
    b.io[0x42]
}

pub open spec fn spec_wx(b: BusView) -> u8 {
    b.io[0x4B]
}

pub open spec fn spec_wy(b: BusView) -> u8 {
    b.io[0x4A]
}

/// Reads LCDC; the bus routes 0xFF40 straight to its register file.
fn read_lcdc(memory: &AddressSpace) -> (r: u8)
    requires
        memory@.wf(),
    ensures
        r == spec_lcdc(memory@),
{
    proof {
        reveal(BusView::read_spec);
    }
    memory.read(crate::constants::LCDC_ADDR)
}

/// LCDC bit 0: background and window display.
pub fn get_bg_win_display(memory: &AddressSpace) -> (r: bool)
    requires
        memory@.wf(),
    ensures
        r == spec_get_bg_win_display(memory@),
{
    get_bit(read_lcdc(memory), 1)
}

/// LCDC bit 6: window tile map select.
pub fn get_win_tile_map(memory: &AddressSpace) -> (r: bool)
    requires
        memory@.wf(),
    ensures
        r == spec_get_win_tile_map(memory@),
{
    get_bit(read_lcdc(memory), 64)
}

/// LCDC bit 4: tile data addressing mode.
pub fn get_bg_win_tile_data_zone(memory: &AddressSpace) -> (r: bool)
    requires
        memory@.wf(),
    ensures
        r == spec_get_bg_win_tile_data_zone(memory@),
{
    get_bit(read_lcdc(memory), 16)
}

/// LCDC bit 3: background tile map select.
pub fn get_bg_tile_map(memory: &AddressSpace) -> (r: bool)
    requires
        memory@.wf(),
    ensures
        r == spec_get_bg_tile_map(memory@),
{
    get_bit(read_lcdc(memory), 8)
}

/// LCDC bit 2: 8x16 sprites when set.
pub fn get_obj_size(memory: &AddressSpace) -> (r: bool)
    requires
        memory@.wf(),
    ensures
        r == spec_get_obj_size(memory@),
{
    get_bit(read_lcdc(memory), 4)
}

/// LCDC bit 7: PPU enable.
pub fn get_ppu_enabled(memory: &AddressSpace) -> (r: bool)
    requires
        memory@.wf(),
    ensures
        r == spec_get_ppu_enabled(memory@),
{
    get_bit(read_lcdc(memory), 128)
}

/// LCDC bit 1: sprite display.
pub fn get_obj_enabled(memory: &AddressSpace) -> (r: bool)
    requires
        memory@.wf(),
    ensures
        r == spec_get_obj_enabled(memory@),
{
    get_bit(read_lcdc(memory), 2)
}

pub fn scx(memory: &AddressSpace) -> (r: usize)
    requires
        memory@.wf(),
    ensures
        r == spec_scx(memory@),
{
    proof {
        reveal(BusView::read_spec);
    }
    memory.read(crate::constants::SCX_ADDR) as usize
}

pub fn scy(memory: &AddressSpace) -> (r: usize)
    requires
        memory@.wf(),
    ensures
        r == spec_scy(memory@),
{
    proof {
        reveal(BusView::read_spec);
    }
    memory.read(crate::constants::SCY_ADDR) as usize
}

pub fn wx(memory: &AddressSpace) -> (r: usize)
    requires
        memory@.wf(),
    ensures
        r == spec_wx(memory@),
{
    proof {
        reveal(BusView::read_spec);
    }
    memory.read(crate::constants::WX_ADDR) as usize
}

pub fn wy(memory: &AddressSpace) -> (r: usize)
    requires
        memory@.wf(),
    ensures
        r == spec_wy(memory@),
{
    proof {
        reveal(BusView::read_spec);
    }
    memory.read(crate::constants::WY_ADDR) as usize
}

/// The window draws when both its enable bit and the master BG/window bit
/// are set.
pub fn window_enabled(memory: &AddressSpace) -> (r: bool)
    requires
        memory@.wf(),
    ensures
        r == (spec_window_enable_bit(memory@) && spec_get_bg_win_display(memory@)),
{
    let lcdc = read_lcdc(memory);
    get_bit(lcdc, 32) && get_bit(lcdc, 1)
}

/// The shade a 2-bit palette register assigns to a color index.
pub open spec fn spec_palette_shade(pal: u8, color: u8) -> u8 {
    if color == 0 {
        (pal % 4) as u8
    } else if color == 1 {
        (pal / 4 % 4) as u8
    } else if color == 2 {
        (pal / 16 % 4) as u8
    } else {
        (pal / 64 % 4) as u8
    }
}

fn palette_shade(pal: u8, color: u8) -> (r: u8)
    requires
        color < 4,
    ensures
        r == spec_palette_shade(pal, color),
        r < 4,
{
    if color == 0 {
        pal % 4
    } else if color == 1 {
        pal / 4 % 4
    } else if color == 2 {
        pal / 16 % 4
    } else {
        pal / 64 % 4
    }
}

/// Unpacks one palette register into its four colors.
pub fn make_palette(packed_palette: u8) -> (r: [ColorId; 4])
    ensures
        forall|i: int|
            0 <= i < 4 ==> r@[i] == ColorId::from_code_spec(
                spec_palette_shade(packed_palette, i as u8),
            ),
{
    [
        ColorId::from_code(palette_shade(packed_palette, 0)),
        ColorId::from_code(palette_shade(packed_palette, 1)),
        ColorId::from_code(palette_shade(packed_palette, 2)),
        ColorId::from_code(palette_shade(packed_palette, 3)),
    ]
}

#[derive(Clone, Copy, PartialEq, Eq, Structural, Debug)]
pub enum PPUMode {
    HBlank,
    VBlank,
    OAMScan,
    Drawing,
}

/// Ghost mirror of the PPU state.
pub struct PpuView {
    pub dot: u16,
    pub ly: u8,
    pub line_objects: Seq<SpriteData>,
    pub mode: PPUMode,
    pub tick_i: u64,
    pub frame: Seq<u8>,
    pub frame_ready: bool,
    pub render_window_on_cur_frame: bool,
    pub wly: usize,
    pub stat_flag: bool,
    pub past_cycle_disabled: bool,
    pub past_tick_lyc: Option<u8>,
}

impl PpuView {
    pub open spec fn wf(self) -> bool {
        &&& self.dot < 456
        &&& self.ly < 154
        &&& self.frame.len() == 23040
        &&& self.line_objects.len() <= 10
        &&& (self.mode is OAMScan ==> self.line_objects.len() == 0)
        &&& (self.mode is OAMScan ==> self.dot < 80)
        &&& (self.mode is Drawing ==> 80 <= self.dot < 252)
        &&& (self.mode is HBlank ==> 252 <= self.dot || self.past_cycle_disabled)
        &&& (self.mode is VBlank ==> self.ly >= 144)
        &&& self.wly <= self.ly
        &&& (self.ly >= 144 ==> self.mode is VBlank)
        &&& (self.past_cycle_disabled ==> self.ly == 0 && self.dot == 0 && self.mode is HBlank)
    }
}

/// The PPU.  The framebuffer holds one 2-bit shade per screen pixel,
/// row-major; `frame_ready` goes up when line 143 has been drawn and the
/// host may present.
pub struct PPU {
    pub dot: u16,
    pub ly: u8,
    pub line_objects: Vec<SpriteData>,
    pub mode: PPUMode,
    pub tick_i: u64,
    pub framebuffer: Vec<u8>,
    pub frame_ready: bool,
    pub render_window_on_cur_frame: bool,
    pub wly: usize,
    pub stat_flag: bool,
    pub past_cycle_disabled: bool,
    pub past_tick_lyc: Option<u8>,
}

impl View for PPU {
    type V = PpuView;

    open spec fn view(&self) -> PpuView {
        PpuView {
            dot: self.dot,
            ly: self.ly,
            line_objects: self.line_objects@,
            mode: self.mode,
            tick_i: self.tick_i,
            frame: self.framebuffer@,
            frame_ready: self.frame_ready,
            render_window_on_cur_frame: self.render_window_on_cur_frame,
            wly: self.wly,
            stat_flag: self.stat_flag,
            past_cycle_disabled: self.past_cycle_disabled,
            past_tick_lyc: self.past_tick_lyc,
        }
    }
}

/// The composite STAT interrupt line: (LY == LYC and bit 6), or the mode
/// matched against its enable bit (3: HBlank, 4: VBlank, 5: OAM scan).
pub open spec fn spec_stat_line(p: PpuView, b: BusView) -> bool {
    let stat = b.io[0x41];
    ||| (spec_bit(stat, 4) && spec_bit(stat, 64))
    ||| (spec_bit(stat, 8) && p.mode is HBlank)
    ||| (spec_bit(stat, 16) && p.mode is VBlank)
    ||| (spec_bit(stat, 32) && p.mode is OAMScan)
}

impl PPU {
    /// A dark, idle PPU with a cleared framebuffer.
    pub fn new() -> (r: PPU)
        ensures
            r@.wf(),
            r@.dot == 0,
            r@.ly == 0,
            r@.mode is OAMScan,
            r@.line_objects.len() == 0,
            r@.frame.len() == 23040,
            r@.tick_i == 0,
            !r@.frame_ready,
            !r@.stat_flag,
            !r@.past_cycle_disabled,
            r@.past_tick_lyc is None,
            r@.wly == 0,
            !r@.render_window_on_cur_frame,
    {
        let mut framebuffer: Vec<u8> = Vec::new();
        let mut i: usize = 0;
        while i < 23040
            invariant
                i <= 23040,
                framebuffer@.len() == i,
            decreases 23040 - i,
        {
            framebuffer.push(0u8);
            i = i + 1;
        }
        PPU {
            dot: 0,
            ly: 0,
            line_objects: Vec::new(),
            mode: PPUMode::OAMScan,
            tick_i: 0,
            framebuffer,
            frame_ready: false,
            render_window_on_cur_frame: false,
            wly: 0,
            stat_flag: false,
            past_cycle_disabled: false,
            past_tick_lyc: None,
        }
    }

    /// Whether the composite STAT interrupt line is high.
    pub fn check_stat_irq(&self, memory: &AddressSpace) -> (r: bool)
        requires
            memory@.wf(),
    ensures
            r == spec_stat_line(self@, memory@),
    {
        proof {
            reveal(BusView::read_spec);
        }
        let value = memory.read(crate::constants::STAT_ADDR);
        let interrupt_on_equal_lyc = get_bit(value, 64);
        if get_bit(value, 4) && interrupt_on_equal_lyc {
            return true;
        }
        if get_bit(value, 8) && matches!(self.mode, PPUMode::HBlank) {
            true
        } else if get_bit(value, 16) && matches!(self.mode, PPUMode::VBlank) {
            true
        } else if get_bit(value, 32) && matches!(self.mode, PPUMode::OAMScan) {
            true
        } else {
            false
        }
    }
}

/// Whether the sprite scan keeps entry `s`: sprites are enabled, the sprite
/// is not hidden (y of 0 or 160 always hides; y below 8 hides 8-pixel
/// sprites), the line buffer is not full, and the sprite's y range covers
/// the current line.
pub open spec fn spec_scan_keep(
    prev: Seq<SpriteData>,
    s: SpriteData,
    ly: u8,
    h: u8,
    disabled: bool,
) -> bool {
    &&& !disabled
    &&& !(s.y < 8 && h == 8)
    &&& s.y != 0
    &&& s.y != 160
    &&& prev.len() < 10
    &&& ly + 16 >= s.y
    &&& ly + 16 < s.y + h
}

/// Inserting a sprite into a priority-ordered list: it goes before the
/// first sprite it beats by (x ascending, then OAM index ascending) and
/// after everything it does not beat, so equal x keeps OAM order.
pub open spec fn spec_sorted_insert(s: Seq<SpriteData>, x: SpriteData) -> Seq<SpriteData>
    decreases s.len(),
{
    if s.len() == 0 {
        seq![x]
    } else if x.wins_prio_spec(s[0]) {
        seq![x] + s
    } else {
        seq![s[0]] + spec_sorted_insert(s.drop_first(), x)
    }
}

/// Drawing priority order: no sprite strictly precedes one that stands
/// before it in the list.
pub open spec fn spec_prio_sorted(s: Seq<SpriteData>) -> bool {
    forall|i: int, j: int| 0 <= i < j < s.len() ==> !s[j].wins_prio_spec(s[i])
}

pub proof fn lemma_sorted_insert_len(s: Seq<SpriteData>, x: SpriteData)
    ensures
        spec_sorted_insert(s, x).len() == s.len() + 1,
    decreases s.len(),
{
    if s.len() != 0 && !x.wins_prio_spec(s[0]) {
        lemma_sorted_insert_len(s.drop_first(), x);
    }
}

/// Inserting into a priority-ordered list keeps it ordered.
pub proof fn lemma_sorted_insert_sorted(s: Seq<SpriteData>, x: SpriteData)
    requires
        spec_prio_sorted(s),
    ensures
        spec_prio_sorted(spec_sorted_insert(s, x)),
    decreases s.len(),
{
    if s.len() == 0 {
    } else if x.wins_prio_spec(s[0]) {
        let r = seq![x] + s;
        assert forall|i: int, j: int| 0 <= i < j < r.len() implies !r[j].wins_prio_spec(
            r[i],
        ) by {
            if i == 0 {
                // x beats s[0]; a sprite beating x would beat s[0] too,
                // which order rules out.
                assert(r[j] == s[j - 1]);
                if j - 1 > 0 {
                    assert(!s[j - 1].wins_prio_spec(s[0]));
                }
            }
        }
    } else {
        lemma_sorted_insert_sorted(s.drop_first(), x);
        let t = spec_sorted_insert(s.drop_first(), x);
        lemma_sorted_insert_len(s.drop_first(), x);
        let r = seq![s[0]] + t;
        assert forall|i: int, j: int| 0 <= i < j < r.len() implies !r[j].wins_prio_spec(
            r[i],
        ) by {
            if i == 0 {
                // Everything in the tail insertion is either x (which does
                // not beat s[0]) or a tail sprite (ordered after s[0]).
                lemma_sorted_insert_members(s.drop_first(), x, j - 1);
            }
        }
    }
}

/// Every slot of an insertion holds the inserted sprite or one of the
/// list's own.
proof fn lemma_sorted_insert_members(s: Seq<SpriteData>, x: SpriteData, k: int)
    requires
        0 <= k < spec_sorted_insert(s, x).len(),
    ensures
        spec_sorted_insert(s, x)[k] == x || exists|m: int|
            0 <= m < s.len() && spec_sorted_insert(s, x)[k] == s[m],
    decreases s.len(),
{
    if s.len() == 0 {
    } else if x.wins_prio_spec(s[0]) {
    } else {
        if k > 0 {
            lemma_sorted_insert_members(s.drop_first(), x, k - 1);
            let t = spec_sorted_insert(s.drop_first(), x);
            if t[k - 1] != x {
                let m = choose|m: int| 0 <= m < s.drop_first().len() && t[k - 1]
                    == s.drop_first()[m];
                assert(spec_sorted_insert(s, x)[k] == s[m + 1]);
            }
        }
    }
}

/// An insertion is the list split at the first sprite the newcomer beats.
pub proof fn lemma_sorted_insert_at(s: Seq<SpriteData>, x: SpriteData, k: int)
    requires
        0 <= k <= s.len(),
        forall|j: int| 0 <= j < k ==> !x.wins_prio_spec(s[j]),
        k < s.len() ==> x.wins_prio_spec(s[k]),
    ensures
        spec_sorted_insert(s, x) == s.insert(k, x),
    decreases s.len(),
{
    if s.len() == 0 {
        assert(spec_sorted_insert(s, x) =~= s.insert(0, x));
    } else if x.wins_prio_spec(s[0]) {
        assert(k == 0);
        assert(seq![x] + s =~= s.insert(0, x));
    } else {
        assert(k >= 1);
        lemma_sorted_insert_at(s.drop_first(), x, k - 1);
        assert(seq![s[0]] + s.drop_first().insert(k - 1, x) =~= s.insert(k, x));
    }
}

/// The line's sprite list after scanning the first `n` OAM entries: each
/// kept entry is placed at its drawing-priority position, so the list is
/// ordered by (x ascending, then OAM index ascending).
#[verifier::opaque]
pub open spec fn spec_scan(b: BusView, ly: u8, h: u8, disabled: bool, n: nat) -> Seq<SpriteData>
    decreases n,
{
    if n == 0 {
        Seq::empty()
    } else {
        let prev = spec_scan(b, ly, h, disabled, (n - 1) as nat);
        let s = SpriteData::new_spec(b, (4 * (n - 1)) as u8);
        if spec_scan_keep(prev, s, ly, h, disabled) {
            spec_sorted_insert(prev, s)
        } else {
            prev
        }
    }
}

/// The scan's list is always in drawing-priority order.
pub proof fn lemma_scan_sorted(b: BusView, ly: u8, h: u8, disabled: bool, n: nat)
    ensures
        spec_prio_sorted(spec_scan(b, ly, h, disabled, n)),
    decreases n,
{
    reveal(spec_scan);
    if n > 0 {
        lemma_scan_sorted(b, ly, h, disabled, (n - 1) as nat);
        let prev = spec_scan(b, ly, h, disabled, (n - 1) as nat);
        let s = SpriteData::new_spec(b, (4 * (n - 1)) as u8);
        if spec_scan_keep(prev, s, ly, h, disabled) {
            lemma_sorted_insert_sorted(prev, s);
        }
    }
}

/// The color index (0-3) of one pixel of a tile: the two tile bytes of the
/// row supply the low and high bit, bit 7 being the leftmost pixel.
pub open spec fn spec_tile_pixel(b: BusView, tile_addr: u16, row: u8, col: u8) -> u8 {
    let lo = b.read_spec(crate::cpu::w16(tile_addr + 2 * row));
    let hi = b.read_spec(crate::cpu::w16(tile_addr + 2 * row + 1));
    let lobit: u8 = if spec_bit(lo, spec_mask_of((7 - col) as u8)) {
        1u8
    } else {
        0u8
    };
    let hibit: u8 = if spec_bit(hi, spec_mask_of((7 - col) as u8)) {
        1u8
    } else {
        0u8
    };
    (lobit + 2 * hibit) as u8
}

/// Where a background or window tile's data lives: base 0x8000 with an
/// unsigned index, or base 0x9000 with a signed offset.
pub open spec fn spec_tile_addr(b: BusView, tile_offset: u8) -> u16 {
    if spec_get_bg_win_tile_data_zone(b) {
        (0x8000 + tile_offset * 16) as u16
    } else if tile_offset > 127 {
        (0x8000 + tile_offset * 16) as u16
    } else {
        (0x9000 + tile_offset * 16) as u16
    }
}

/// The background (or window) color index under screen column `x` of line
/// `ly`, before palette mapping.
pub open spec fn spec_bg_color(b: BusView, ly: u8, wly: usize, renwin: bool, x: u8) -> u8 {
    if renwin && x + 7 >= spec_wx(b) && spec_window_enable_bit(b) {
        let tile_y = (wly as int) / 8;
        let off_y = (wly as int) % 8;
        let col_row = x + 7 - spec_wx(b);
        let tile_x = col_row / 8;
        let off_x = col_row % 8;
        let map_base: int = if spec_get_win_tile_map(b) {
            0x9C00
        } else {
            0x9800
        };
        let tile_offset = b.read_spec((map_base + tile_y * 32 + tile_x) as u16);
        spec_tile_pixel(b, spec_tile_addr(b, tile_offset), off_y as u8, off_x as u8)
    } else {
        let src_row = (ly + spec_scy(b)) % 256;
        let src_col = (x + spec_scx(b)) % 256;
        let tile_y = src_row / 8;
        let off_y = src_row % 8;
        let tile_x = src_col / 8;
        let off_x = src_col % 8;
        let map_base: int = if spec_get_bg_tile_map(b) {
            0x9C00
        } else {
            0x9800
        };
        let tile_offset = b.read_spec((map_base + tile_y * 32 + tile_x) as u16);
        spec_tile_pixel(b, spec_tile_addr(b, tile_offset), off_y as u8, off_x as u8)
    }
}

/// The color index sprite `s` contributes at column `x`, with both flips
/// applied; in 16-pixel mode the tile index's low bit is masked.
pub open spec fn spec_sprite_px(b: BusView, s: SpriteData, ly: u8, x: u8, h: u8) -> u8 {
    let idx = if h == 16 {
        (s.raw_tile_index - s.raw_tile_index % 2) as u8
    } else {
        s.raw_tile_index
    };
    let addr = (0x8000 + idx * 16) as u16;
    let within_y = if ly + 16 >= s.y {
        ((ly + 16 - s.y) % (h as int)) as u8
    } else {
        0u8
    };
    let row = if s.attrs.y_flip {
        (h - 1 - within_y) as u8
    } else {
        within_y
    };
    let within_x = (x + 8 - s.x) as u8;
    let col = if s.attrs.x_flip {
        (7 - within_x) as u8
    } else {
        within_x
    };
    spec_tile_pixel(b, addr, row, col)
}

/// The first sprite at or after list position `i` that covers column `x`
/// with a nonzero color: its color, palette choice and priority bit.
pub open spec fn spec_sprite_match(
    sprites: Seq<SpriteData>,
    b: BusView,
    ly: u8,
    x: u8,
    h: u8,
    i: nat,
) -> Option<(u8, ColorPalette, bool)>
    decreases sprites.len() - i,
{
    if i >= sprites.len() {
        None
    } else {
        let s = sprites[i as int];
        if x + 8 >= s.x && x < s.x {
            let color = spec_sprite_px(b, s, ly, x, h);
            if color != 0 {
                Some((color, s.attrs.palette, s.attrs.priority))
            } else {
                spec_sprite_match(sprites, b, ly, x, h, i + 1)
            }
        } else {
            spec_sprite_match(sprites, b, ly, x, h, i + 1)
        }
    }
}

/// The object palette register for a palette choice.
pub open spec fn spec_obp(b: BusView, pal: ColorPalette) -> u8 {
    if pal is OBP1 {
        b.io[0x49]
    } else {
        b.io[0x48]
    }
}

/// The final 2-bit shade of one screen pixel, §4.4's composition: the
/// winning sprite pixel unless the background wins by priority, each mapped
/// through its palette; with the BG/window display bit clear the background
/// is forced to color 0.
pub open spec fn spec_pixel(
    sprites: Seq<SpriteData>,
    b: BusView,
    ly: u8,
    wly: usize,
    renwin: bool,
    x: u8,
) -> u8 {
    let h: u8 = if spec_get_obj_size(b) {
        16u8
    } else {
        8u8
    };
    let bg_color = spec_bg_color(b, ly, wly, renwin, x);
    match spec_sprite_match(sprites, b, ly, x, h, 0) {
        Some(t) => if spec_get_bg_win_display(b) {
            if t.2 && bg_color != 0 {
                spec_palette_shade(b.io[0x47], bg_color)
            } else {
                spec_palette_shade(spec_obp(b, t.1), t.0)
            }
        } else {
            spec_palette_shade(spec_obp(b, t.1), t.0)
        },
        None => if spec_get_bg_win_display(b) {
            spec_palette_shade(b.io[0x47], bg_color)
        } else {
            0u8
        },
    }
}

/// The framebuffer after line `ly` has been drawn; other rows keep their
/// contents.
#[verifier::opaque]
pub open spec fn spec_render_line(p: PpuView, b: BusView) -> Seq<u8> {
    Seq::new(
        p.frame.len(),
        |i: int|
            if p.ly * 160 <= i < p.ly * 160 + 160 {
                spec_pixel(
                    p.line_objects,
                    b,
                    p.ly,
                    p.wly,
                    p.render_window_on_cur_frame,
                    (i - p.ly * 160) as u8,
                )
            } else {
                p.frame[i]
            },
    )
}

/// Rendering a line keeps the framebuffer's size.
pub proof fn lemma_render_line_len(p: PpuView, b: BusView)
    ensures
        spec_render_line(p, b).len() == p.frame.len(),
{
    reveal(spec_render_line);
}

/// The sprite scan never keeps more than ten entries.
pub proof fn lemma_scan_len(b: BusView, ly: u8, h: u8, disabled: bool, n: nat)
    ensures
        spec_scan(b, ly, h, disabled, n).len() <= 10,
    decreases n,
{
    reveal(spec_scan);
    if n > 0 {
        lemma_scan_len(b, ly, h, disabled, (n - 1) as nat);
        let prev = spec_scan(b, ly, h, disabled, (n - 1) as nat);
        let s = SpriteData::new_spec(b, (4 * (n - 1)) as u8);
        if spec_scan_keep(prev, s, ly, h, disabled) {
            lemma_sorted_insert_len(prev, s);
        }
    }
}

impl PPU {
    /// Scans the 40 OAM entries in OAM order, collecting up to ten sprites
    /// whose y range covers the current line; each kept sprite is inserted
    /// at its drawing-priority position, so the list comes out ordered by
    /// (x ascending, then OAM index ascending).
    fn scan_sprites(&mut self, memory: &AddressSpace)
        requires
            memory@.wf(),
            old(self).line_objects@.len() == 0,
        ensures
            ({
                let h: u8 = if spec_get_obj_size(memory@) {
                    16u8
                } else {
                    8u8
                };
                let dis = !spec_get_obj_enabled(memory@);
                final(self)@ == (PpuView {
                    line_objects: spec_scan(memory@, old(self)@.ly, h, dis, 40),
                    ..old(self)@
                })
            }),
            final(self).line_objects@.len() <= 10,
            spec_prio_sorted(final(self).line_objects@),
    {
        proof {
            let h: u8 = if spec_get_obj_size(memory@) {
                16u8
            } else {
                8u8
            };
            lemma_scan_sorted(memory@, old(self)@.ly, h, !spec_get_obj_enabled(memory@), 40);
        }
        let sprite_height: u8 = if get_obj_size(memory) {
            16
        } else {
            8
        };
        let sprites_disabled = !get_obj_enabled(memory);
        proof {
            reveal(spec_scan);
        }
        let mut sprite_i: u8 = 0;
        while sprite_i < 40
            invariant
                sprite_i <= 40,
                memory@.wf(),
                sprite_height == (if spec_get_obj_size(memory@) {
                    16u8
                } else {
                    8u8
                }),
                sprites_disabled == !spec_get_obj_enabled(memory@),
                self.line_objects@ == spec_scan(
                    memory@,
                    old(self)@.ly,
                    sprite_height,
                    sprites_disabled,
                    sprite_i as nat,
                ),
                self.line_objects@.len() <= 10,
                *self == (PPU { line_objects: self.line_objects, ..*old(self) }),
            decreases 40 - sprite_i,
        {
            let sprite = SpriteData::new(sprite_i * 4, memory);
            let short_sprite_hidden = sprite.y < 8 && sprite_height == 8;
            let sprites_full = self.line_objects.len() == 10;
            let stop_scanning = sprites_disabled || short_sprite_hidden || sprite.y == 0
                || sprite.y == 160 || sprites_full;
            if !stop_scanning {
                if self.ly as u16 + 16 >= sprite.y as u16 && (self.ly as u16) + 16 < sprite.y
                    as u16 + sprite_height as u16 {
                    let ghost before = self.line_objects@;
                    let mut k: usize = 0;
                    while k < self.line_objects.len() && !sprite.wins_prio(
                        &self.line_objects[k],
                    )
                        invariant
                            k <= self.line_objects@.len(),
                            self.line_objects@ == before,
                            forall|j: int|
                                0 <= j < k ==> !sprite.wins_prio_spec(before[j]),
                        decreases self.line_objects@.len() - k,
                    {
                        k = k + 1;
                    }
                    self.line_objects.insert(k, sprite);
                    proof {
                        lemma_sorted_insert_at(before, sprite, k as int);
                    }
                }
            }
            sprite_i = sprite_i + 1;
            proof {
                reveal(spec_scan);
                assert(self.line_objects@ == spec_scan(
                    memory@,
                    old(self)@.ly,
                    sprite_height,
                    sprites_disabled,
                    sprite_i as nat,
                ));
            }
        }
    }

    /// One pixel of one tile row; see `spec_tile_pixel`.
    fn tile_pixel(&self, memory: &AddressSpace, tile_addr: u16, row: u8, col: u8) -> (r: u8)
        requires
            memory@.wf(),
            row < 16,
            col < 8,
        ensures
            r == spec_tile_pixel(memory@, tile_addr, row, col),
            r < 4,
    {
        let a1 = tile_addr.wrapping_add(2 * row as u16);
        let a2 = a1.wrapping_add(1);
        proof {
            assert(a1 == crate::cpu::w16(tile_addr + 2 * row));
            assert(a2 == crate::cpu::w16(tile_addr + 2 * row + 1)) by (nonlinear_arith)
                requires
                    a1 == crate::cpu::w16(tile_addr + 2 * row),
                    a2 == (if a1 == 0xFFFF {
                        0int
                    } else {
                        a1 + 1
                    }),
            ;
        }
        let lo = memory.read(a1);
        let hi = memory.read(a2);
        let lobit: u8 = if get_bit(lo, mask_of(7 - col)) {
            1
        } else {
            0
        };
        let hibit: u8 = if get_bit(hi, mask_of(7 - col)) {
            1
        } else {
            0
        };
        lobit + 2 * hibit
    }

    /// Resolves a tile index to its data address; see `spec_tile_addr`.
    fn tile_addr(&self, memory: &AddressSpace, tile_offset: u8) -> (r: u16)
        requires
            memory@.wf(),
        ensures
            r == spec_tile_addr(memory@, tile_offset),
    {
        if get_bg_win_tile_data_zone(memory) {
            0x8000 + tile_offset as u16 * 16
        } else if tile_offset > 127 {
            0x8000 + tile_offset as u16 * 16
        } else {
            0x9000 + tile_offset as u16 * 16
        }
    }

    /// The background or window color index under column `x`.
    fn bg_color_at(&self, memory: &AddressSpace, x: u8) -> (r: u8)
        requires
            memory@.wf(),
            self@.wly < 144,
            self@.ly < 144,
            x < 160,
        ensures
            r == spec_bg_color(
                memory@,
                self@.ly,
                self@.wly,
                self@.render_window_on_cur_frame,
                x,
            ),
            r < 4,
    {
        let win_x = wx(memory);
        let win_enabled = get_bit(read_lcdc(memory), 32);
        if self.render_window_on_cur_frame && x as usize + 7 >= win_x && win_enabled {
            let tile_y = self.wly / 8;
            let off_y = self.wly % 8;
            let col_row = x as usize + 7 - win_x;
            let tile_x = col_row / 8;
            let off_x = col_row % 8;
            let map_base: u16 = if get_win_tile_map(memory) {
                0x9C00
            } else {
                0x9800
            };
            let map_addr = map_base + (tile_y as u16) * 32 + tile_x as u16;
            let tile_offset = memory.read(map_addr);
            let addr = self.tile_addr(memory, tile_offset);
            self.tile_pixel(memory, addr, off_y as u8, off_x as u8)
        } else {
            let src_row = (self.ly as usize + scy(memory)) % 256;
            let src_col = (x as usize + scx(memory)) % 256;
            let tile_y = src_row / 8;
            let off_y = src_row % 8;
            let tile_x = src_col / 8;
            let off_x = src_col % 8;
            let map_base: u16 = if get_bg_tile_map(memory) {
                0x9C00
            } else {
                0x9800
            };
            let map_addr = map_base + (tile_y as u16) * 32 + tile_x as u16;
            let tile_offset = memory.read(map_addr);
            let addr = self.tile_addr(memory, tile_offset);
            self.tile_pixel(memory, addr, off_y as u8, off_x as u8)
        }
    }

    /// The winning sprite pixel at column `x`, if any.
    fn sprite_pixel_at(&self, memory: &AddressSpace, x: u8, sprite_height: u8) -> (r: Option<
        (u8, ColorPalette, bool),
    >)
        requires
            memory@.wf(),
            sprite_height == (if spec_get_obj_size(memory@) {
                16u8
            } else {
                8u8
            }),
        ensures
            r == spec_sprite_match(
                self@.line_objects,
                memory@,
                self@.ly,
                x,
                sprite_height,
                0,
            ),
            r matches Some(t) ==> t.0 < 4,
    {
        let n = self.line_objects.len();
        let mut k: usize = 0;
        while k < n
            invariant
                k <= n,
                n == self.line_objects@.len(),
                memory@.wf(),
                sprite_height == (if spec_get_obj_size(memory@) {
                    16u8
                } else {
                    8u8
                }),
                spec_sprite_match(
                    self@.line_objects,
                    memory@,
                    self@.ly,
                    x,
                    sprite_height,
                    0,
                ) == spec_sprite_match(
                    self@.line_objects,
                    memory@,
                    self@.ly,
                    x,
                    sprite_height,
                    k as nat,
                ),
            decreases n - k,
        {
            let sprite = self.line_objects[k];
            if x as u16 + 8 >= sprite.x as u16 && (x as u16) < sprite.x as u16 {
                let idx: u8 = if sprite_height == 16 {
                    sprite.raw_tile_index - sprite.raw_tile_index % 2
                } else {
                    sprite.raw_tile_index
                };
                let addr: u16 = 0x8000 + idx as u16 * 16;
                let within_y: u8 = if self.ly as u16 + 16 >= sprite.y as u16 {
                    (((self.ly as u16 + 16 - sprite.y as u16) % sprite_height as u16)) as u8
                } else {
                    0
                };
                let row: u8 = if sprite.attrs.y_flip {
                    sprite_height - 1 - within_y
                } else {
                    within_y
                };
                let within_x: u8 = (x as u16 + 8 - sprite.x as u16) as u8;
                let col: u8 = if sprite.attrs.x_flip {
                    7 - within_x
                } else {
                    within_x
                };
                let color = self.tile_pixel(memory, addr, row, col);
                if color != 0 {
                    return Some((color, sprite.attrs.palette, sprite.attrs.priority));
                }
            }
            k = k + 1;
        }
        None
    }

    /// The final 2-bit shade of one pixel; see `spec_pixel`.
    fn render_pixel(&self, memory: &AddressSpace, x: u8) -> (r: u8)
        requires
            memory@.wf(),
            self@.wly < 144,
            self@.ly < 144,
            x < 160,
        ensures
            r == spec_pixel(
                self@.line_objects,
                memory@,
                self@.ly,
                self@.wly,
                self@.render_window_on_cur_frame,
                x,
            ),
            r < 4,
    {
        proof {
            reveal(BusView::read_spec);
        }
        let sprite_height: u8 = if get_obj_size(memory) {
            16
        } else {
            8
        };
        let bg_color = self.bg_color_at(memory, x);
        let sprite_pixel = self.sprite_pixel_at(memory, x, sprite_height);
        let bgp = memory.read(crate::constants::BGP_ADDR);
        let obp0 = memory.read(crate::constants::OBP0_ADDR);
        let obp1 = memory.read(crate::constants::OBP1_ADDR);
        match sprite_pixel {
            Some(t) => {
                let (sprite_color, sprite_palette, sprite_prio) = t;
                let obp = if matches!(sprite_palette, ColorPalette::OBP1) {
                    obp1
                } else {
                    obp0
                };
                if get_bg_win_display(memory) {
                    if sprite_prio && bg_color != 0 {
                        palette_shade(bgp, bg_color)
                    } else {
                        palette_shade(obp, sprite_color)
                    }
                } else {
                    palette_shade(obp, sprite_color)
                }
            },
            None => {
                if get_bg_win_display(memory) {
                    palette_shade(bgp, bg_color)
                } else {
                    0
                }
            },
        }
    }

    /// Draws the current scanline into the framebuffer; on line 143 the
    /// frame becomes ready for the host to present.
    pub fn show(&mut self, memory: &AddressSpace)
        requires
            memory@.wf(),
            old(self)@.wf(),
            old(self)@.ly < 144,
            old(self)@.wly < 144,
        ensures
            final(self)@ == (PpuView {
                frame: spec_render_line(old(self)@, memory@),
                frame_ready: old(self)@.frame_ready || old(self)@.ly == 143,
                ..old(self)@
            }),
            final(self)@.wf(),
    {
        let line_j: usize = self.ly as usize;
        let mut x: u8 = 0;
        while x < 160
            invariant
                x <= 160,
                memory@.wf(),
                line_j == self@.ly,
                self@.ly < 144,
                self@.wly < 144,
                self@.frame.len() == 23040,
                *self == (PPU { framebuffer: self.framebuffer, ..*old(self) }),
                forall|i: int|
                    0 <= i < 23040 && !(line_j * 160 <= i < line_j * 160 + x) ==> self@.frame[i]
                        == old(self)@.frame[i],
                forall|i: int|
                    line_j * 160 <= i < line_j * 160 + x ==> self@.frame[i] == spec_pixel(
                        old(self)@.line_objects,
                        memory@,
                        old(self)@.ly,
                        old(self)@.wly,
                        old(self)@.render_window_on_cur_frame,
                        (i - line_j * 160) as u8,
                    ),
            decreases 160 - x,
        {
            let shade = self.render_pixel(memory, x);
            self.framebuffer[line_j * 160 + x as usize] = shade;
            x = x + 1;
        }
        if self.ly == 143 {
            self.frame_ready = true;
        }
        proof {
            reveal(spec_render_line);
            assert(self@.frame =~= spec_render_line(old(self)@, memory@));
        }
    }
}

/// STAT's low two bits for a mode.
pub open spec fn spec_mode_bits(m: PPUMode) -> u8 {
    match m {
        PPUMode::HBlank => 0,
        PPUMode::VBlank => 1,
        PPUMode::OAMScan => 2,
        PPUMode::Drawing => 3,
    }
}

/// The bus after the PPU publishes LY and the LY == LYC compare bit.
pub open spec fn spec_write_ly(b: BusView, ly: u8) -> BusView {
    BusView {
        io: b.io.update(0x44, ly).update(
            0x41,
            if ly == b.io[0x45] {
                crate::bits::spec_set_bit(b.io[0x41], 4)
            } else {
                crate::bits::spec_clear_bit(b.io[0x41], 4)
            },
        ),
        ..b
    }
}

/// Re-enabling after LCDC bit 7 was clear: the disable already put the
/// machine at line 0, dot 0; the PPU resumes in OAM scan with the window
/// bookkeeping reset and OAM locked.
pub open spec fn spec_ppu_phase_reset(p: PpuView, b: BusView) -> (PpuView, BusView) {
    if p.past_cycle_disabled {
        (
            PpuView {
                mode: PPUMode::OAMScan,
                line_objects: Seq::empty(),
                wly: 0usize,
                render_window_on_cur_frame: false,
                past_cycle_disabled: false,
                ..p
            },
            BusView { oam_writeable: false, ..b },
        )
    } else {
        (p, b)
    }
}

/// A LYC write since the previous dot refreshes the compare bit.
pub open spec fn spec_ppu_phase_lyc(p: PpuView, b: BusView) -> BusView {
    if (p.past_tick_lyc matches Some(x) && x != b.io[0x45]) {
        spec_write_ly(b, p.ly)
    } else {
        b
    }
}

/// The window trigger: during OAM scan, the first line where the window is
/// enabled and LY has reached WY arms window rendering for this frame.
pub open spec fn spec_ppu_phase_window(p: PpuView, b: BusView) -> PpuView {
    if p.mode is OAMScan && !p.render_window_on_cur_frame && p.ly == spec_wy(b)
        && spec_window_enable_bit(b) && spec_get_bg_win_display(b) {
        PpuView { render_window_on_cur_frame: true, wly: 0usize, ..p }
    } else {
        p
    }
}

/// One dot of progress: mode transitions at dot 80 (sprite scan done) and
/// dot 252 (line rendered, blank entered), line and frame advance at dot
/// 456; entering line 144 raises the VBlank interrupt.
pub open spec fn spec_ppu_phase_advance(p: PpuView, b: BusView) -> (PpuView, BusView) {
    match p.mode {
        PPUMode::OAMScan => {
            if p.dot + 1 == 80 {
                let h: u8 = if spec_get_obj_size(b) {
                    16u8
                } else {
                    8u8
                };
                let dis = !spec_get_obj_enabled(b);
                (
                    PpuView {
                        dot: 80u16,
                        mode: PPUMode::Drawing,
                        line_objects: spec_scan(b, p.ly, h, dis, 40),
                        ..p
                    },
                    // Drawing locks VRAM as well.
                    BusView { vram_writeable: false, ..b },
                )
            } else {
                (PpuView { dot: (p.dot + 1) as u16, ..p }, b)
            }
        },
        PPUMode::Drawing => {
            if p.dot + 1 == 252 {
                let b1 = BusView { oam_writeable: true, vram_writeable: true, ..b };
                let p1 = PpuView { dot: 252u16, mode: PPUMode::HBlank, ..p };
                (
                    PpuView {
                        frame: spec_render_line(p1, b1),
                        frame_ready: p1.frame_ready || p1.ly == 143,
                        ..p1
                    },
                    b1,
                )
            } else {
                (PpuView { dot: (p.dot + 1) as u16, ..p }, b)
            }
        },
        PPUMode::HBlank => {
            if p.dot + 1 == 456 {
                let ly1 = (p.ly + 1) as u8;
                if ly1 == 144 {
                    let p1 = PpuView { dot: 0u16, ly: ly1, mode: PPUMode::VBlank, ..p };
                    let b1 = spec_write_ly(
                        b.request_interrupt_spec(Interrupt::VBlank),
                        ly1,
                    );
                    (p1, b1)
                } else {
                    let p1 = PpuView {
                        dot: 0u16,
                        ly: ly1,
                        mode: PPUMode::OAMScan,
                        line_objects: Seq::empty(),
                        wly: if p.render_window_on_cur_frame && spec_wx(b) <= 166 {
                            (p.wly + 1) as usize
                        } else {
                            p.wly
                        },
                        ..p
                    };
                    let b1 = spec_write_ly(BusView { oam_writeable: false, ..b }, ly1);
                    (p1, b1)
                }
            } else {
                (PpuView { dot: (p.dot + 1) as u16, ..p }, b)
            }
        },
        PPUMode::VBlank => {
            if p.dot + 1 == 456 {
                if p.ly + 1 == 154 {
                    let p1 = PpuView {
                        dot: 0u16,
                        ly: 0u8,
                        mode: PPUMode::OAMScan,
                        line_objects: Seq::empty(),
                        render_window_on_cur_frame: false,
                        wly: 0usize,
                        ..p
                    };
                    (p1, spec_write_ly(BusView { oam_writeable: false, ..b }, 0))
                } else {
                    let ly1 = (p.ly + 1) as u8;
                    (
                        PpuView { dot: 0u16, ly: ly1, ..p },
                        spec_write_ly(b, ly1),
                    )
                }
            } else {
                (PpuView { dot: (p.dot + 1) as u16, ..p }, b)
            }
        },
    }
}

/// STAT bookkeeping at the end of the dot: the mode bits are published and
/// the LCD interrupt fires only on a rising edge of the composite line.
pub open spec fn spec_ppu_phase_stat(p: PpuView, b: BusView, lyc: u8) -> (PpuView, BusView) {
    let b1 = BusView {
        io: b.io.update(0x41, (b.io[0x41] / 4 * 4 + spec_mode_bits(p.mode)) as u8),
        ..b
    };
    let line = spec_stat_line(p, b1);
    let b2 = if !p.stat_flag && line {
        b1.request_interrupt_spec(Interrupt::LCD)
    } else {
        b1
    };
    (
        PpuView {
            stat_flag: line,
            past_tick_lyc: Some(lyc),
            tick_i: crate::cpu::wclk(p.tick_i + 1),
            ..p
        },
        b2,
    )
}

/// One T-cycle of the PPU.  With the PPU disabled nothing advances and the
/// STAT line is remembered low; otherwise the phases run in order.
pub open spec fn spec_ppu_tick(p: PpuView, b: BusView) -> (PpuView, BusView) {
    if !spec_get_ppu_enabled(b) {
        if p.past_cycle_disabled {
            (PpuView { stat_flag: false, tick_i: crate::cpu::wclk(p.tick_i + 1), ..p }, b)
        } else {
            // The disable itself: enter the horizontal blank, reset LY and
            // dot, unlock OAM and VRAM, clear the STAT line level.
            (
                PpuView {
                    stat_flag: false,
                    past_cycle_disabled: true,
                    ly: 0u8,
                    dot: 0u16,
                    mode: PPUMode::HBlank,
                    line_objects: Seq::empty(),
                    wly: 0usize,
                    render_window_on_cur_frame: false,
                    tick_i: crate::cpu::wclk(p.tick_i + 1),
                    ..p
                },
                spec_write_ly(
                    BusView { oam_writeable: true, vram_writeable: true, ..b },
                    0,
                ),
            )
        }
    } else {
        let r0 = spec_ppu_phase_reset(p, b);
        let b1 = spec_ppu_phase_lyc(r0.0, r0.1);
        let lyc = b1.io[0x45];
        let p2 = spec_ppu_phase_window(r0.0, b1);
        let r3 = spec_ppu_phase_advance(p2, b1);
        spec_ppu_phase_stat(r3.0, r3.1, lyc)
    }
}

/// `n` T-cycles of the PPU.
pub open spec fn spec_ppu_tick_n(p: PpuView, b: BusView, n: nat) -> (PpuView, BusView)
    decreases n,
{
    if n == 0 {
        (p, b)
    } else {
        let r = spec_ppu_tick_n(p, b, (n - 1) as nat);
        spec_ppu_tick(r.0, r.1)
    }
}

impl PPU {
    /// The dot-advance phase of one T-cycle; see `spec_ppu_phase_advance`.
    #[verifier::rlimit(100)]
    fn phase_advance(&mut self, memory: &mut AddressSpace)
        requires
            old(self)@.wf(),
            old(memory)@.wf(),
            !old(self)@.past_cycle_disabled,
        ensures
            final(self)@ =~= spec_ppu_phase_advance(old(self)@, old(memory)@).0,
            final(memory)@ == spec_ppu_phase_advance(old(self)@, old(memory)@).1,
            final(self)@.wf(),
            final(memory)@.wf(),
    {
        match self.mode {
            PPUMode::OAMScan => {
                if self.dot + 1 == 80 {
                    self.scan_sprites(memory);
                    self.dot = 80;
                    self.mode = PPUMode::Drawing;
                    memory._lock_vram();
                } else {
                    self.dot = self.dot + 1;
                }
            },
            PPUMode::Drawing => {
                if self.dot + 1 == 252 {
                    memory.unlock_oam();
                    memory.unlock_vram();
                    self.dot = 252;
                    self.mode = PPUMode::HBlank;
                    self.show(memory);
                } else {
                    self.dot = self.dot + 1;
                }
            },
            PPUMode::HBlank => {
                if self.dot + 1 == 456 {
                    self.dot = 0;
                    self.ly = self.ly + 1;
                    if self.ly == 144 {
                        self.mode = PPUMode::VBlank;
                        memory.request_interrupt(Interrupt::VBlank);
                    } else {
                        self.mode = PPUMode::OAMScan;
                        self.line_objects = Vec::new();
                        if self.render_window_on_cur_frame && wx(memory) <= 166 {
                            self.wly = self.wly + 1;
                        }
                        memory.lock_oam();
                    }
                    let ly_now = self.ly;
                    memory.ppu_write_LY_update_STAT(ly_now);
                } else {
                    self.dot = self.dot + 1;
                }
            },
            PPUMode::VBlank => {
                if self.dot + 1 == 456 {
                    self.dot = 0;
                    if self.ly == 153 {
                        self.ly = 0;
                        self.mode = PPUMode::OAMScan;
                        self.line_objects = Vec::new();
                        self.render_window_on_cur_frame = false;
                        self.wly = 0;
                        memory.lock_oam();
                    } else {
                        self.ly = self.ly + 1;
                    }
                    let ly_now = self.ly;
                    memory.ppu_write_LY_update_STAT(ly_now);
                } else {
                    self.dot = self.dot + 1;
                }
            },
        }
    }

    /// One T-cycle; see `spec_ppu_tick`.
    #[verifier::rlimit(100)]
    pub fn single_tick(&mut self, memory: &mut AddressSpace)
        requires
            old(self)@.wf(),
            old(memory)@.wf(),
        ensures
            final(self)@ =~= spec_ppu_tick(old(self)@, old(memory)@).0,
            final(memory)@ == spec_ppu_tick(old(self)@, old(memory)@).1,
            final(self)@.wf(),
            final(memory)@.wf(),
    {
        if !get_ppu_enabled(memory) {
            self.stat_flag = false;
            if !self.past_cycle_disabled {
                self.past_cycle_disabled = true;
                self.ly = 0;
                self.dot = 0;
                self.mode = PPUMode::HBlank;
                self.line_objects = Vec::new();
                self.wly = 0;
                self.render_window_on_cur_frame = false;
                memory.unlock_oam();
                memory.unlock_vram();
                memory.ppu_write_LY_update_STAT(0);
            }
            self.tick_i = self.tick_i.wrapping_add(1);
            return ;
        }
        if self.past_cycle_disabled {
            self.mode = PPUMode::OAMScan;
            self.line_objects = Vec::new();
            self.wly = 0;
            self.render_window_on_cur_frame = false;
            self.past_cycle_disabled = false;
            memory.lock_oam();
        }
        proof {
            assert(self@ == spec_ppu_phase_reset(old(self)@, old(memory)@).0);
            assert(memory@ == spec_ppu_phase_reset(old(self)@, old(memory)@).1);
        }
        let ghost pr = spec_ppu_phase_reset(old(self)@, old(memory)@).0;
        proof {
            reveal(BusView::read_spec);
        }
        let lyc = memory.read(0xFF45);
        let changed = match self.past_tick_lyc {
            Some(x) => x != lyc,
            None => false,
        };
        if changed {
            memory.ppu_write_LY_update_STAT(self.ly);
        }
        proof {
            assert(memory@ == spec_ppu_phase_lyc(
                pr,
                spec_ppu_phase_reset(old(self)@, old(memory)@).1,
            ));
        }
        let ghost b1 = memory@;
        if matches!(self.mode, PPUMode::OAMScan) && !self.render_window_on_cur_frame {
            let wyv = wy(memory);
            if self.ly as usize == wyv && window_enabled(memory) {
                self.render_window_on_cur_frame = true;
                self.wly = 0;
            }
        }
        proof {
            assert(self@ == spec_ppu_phase_window(pr, b1));
        }
        self.phase_advance(memory);
        let mode_bits: u8 = match self.mode {
            PPUMode::HBlank => 0,
            PPUMode::VBlank => 1,
            PPUMode::OAMScan => 2,
            PPUMode::Drawing => 3,
        };
        memory.ppu_write_stat_mode(mode_bits);
        let line = self.check_stat_irq(memory);
        if !self.stat_flag && line {
            memory.request_interrupt(Interrupt::LCD);
        }
        self.stat_flag = line;
        self.past_tick_lyc = Some(lyc);
        self.tick_i = self.tick_i.wrapping_add(1);
    }

    /// `nticks` T-cycles of the PPU.
    pub fn tick(&mut self, nticks: u8, memory: &mut AddressSpace)
        requires
            old(self)@.wf(),
            old(memory)@.wf(),
        ensures
            final(self)@ =~= spec_ppu_tick_n(old(self)@, old(memory)@, nticks as nat).0,
            final(memory)@ == spec_ppu_tick_n(old(self)@, old(memory)@, nticks as nat).1,
            final(self)@.wf(),
            final(memory)@.wf(),
    {
        let mut i: u8 = 0;
        while i < nticks
            invariant
                i <= nticks,
                self@.wf(),
                memory@.wf(),
                self@ =~= spec_ppu_tick_n(old(self)@, old(memory)@, i as nat).0,
                memory@ == spec_ppu_tick_n(old(self)@, old(memory)@, i as nat).1,
            decreases nticks - i,
        {
            self.single_tick(memory);
            i = i + 1;
        }
    }
}

} // verus!
