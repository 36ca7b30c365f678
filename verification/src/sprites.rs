//! Sprite (object) data: OAM entries, their attributes, and the 2-bit color
//! identifiers the pixel pipeline emits.
use vstd::prelude::*;

verus! {

use crate::memory::{AddressSpace, BusView};

#[derive(Clone, Copy, PartialEq, Eq, Structural, Debug)]
pub enum ColorId {
    Zero,
    One,
    Two,
    Three,
    Debug,
    Blank,
}

impl ColorId {
    pub open spec fn from_code_spec(value: u8) -> ColorId {
        if value == 0 {
            ColorId::Zero
        } else if value == 1 {
            ColorId::One
        } else if value == 2 {
            ColorId::Two
        } else {
            ColorId::Three
        }
    }

    /// The color for a 2-bit code.
    pub fn from_code(value: u8) -> (r: ColorId)
        requires
            value < 4,
        ensures
            r == ColorId::from_code_spec(value),
    {
        if value == 0 {
            ColorId::Zero
        } else if value == 1 {
            ColorId::One
        } else if value == 2 {
            ColorId::Two
        } else {
            ColorId::Three
        }
    }

    pub open spec fn code_spec(self) -> u8 {
        match self {
            ColorId::Zero => 0,
            ColorId::One => 1,
            ColorId::Two => 2,
            ColorId::Three => 3,
            ColorId::Debug => 4,
            ColorId::Blank => 5,
        }
    }

    /// The 2-bit code of a shade (the debug colors map above 3).
    pub fn code(self) -> (r: u8)
        ensures
            r == self.code_spec(),
    {
        match self {
            ColorId::Zero => 0,
            ColorId::One => 1,
            ColorId::Two => 2,
            ColorId::Three => 3,
            ColorId::Debug => 4,
            ColorId::Blank => 5,
        }
    }
}

#[derive(Clone, Copy, PartialEq, Eq, Structural, Debug)]
pub enum ColorPalette {
    BPG,
    OBP0,
    OBP1,
}

#[derive(Clone, Copy, PartialEq, Eq, Structural, Debug)]
pub struct SpriteAttributes {
    pub priority: bool,
    pub x_flip: bool,
    pub y_flip: bool,
    pub palette: ColorPalette,
}

impl SpriteAttributes {
    pub open spec fn new_spec(attrs: u8) -> SpriteAttributes {
        SpriteAttributes {
            priority: attrs / 128 % 2 == 1,
            x_flip: attrs / 32 % 2 == 1,
            y_flip: attrs / 64 % 2 == 1,
            palette: if attrs / 16 % 2 == 1 {
                ColorPalette::OBP1
            } else {
                ColorPalette::OBP0
            },
        }
    }

    /// Decodes the attribute byte: bit 7 priority, 6 y-flip, 5 x-flip,
    /// 4 palette choice.
    pub fn new(attrs: u8) -> (r: SpriteAttributes)
        ensures
            r == SpriteAttributes::new_spec(attrs),
    {
        SpriteAttributes {
            priority: attrs / 128 % 2 == 1,
            x_flip: attrs / 32 % 2 == 1,
            y_flip: attrs / 64 % 2 == 1,
            palette: if attrs / 16 % 2 == 1 {
                ColorPalette::OBP1
            } else {
                ColorPalette::OBP0
            },
        }
    }
}

#[derive(Clone, Copy, PartialEq, Eq, Structural, Debug)]
pub struct SpriteData {
    pub x: u8,
    pub y: u8,
    pub raw_tile_index: u8,
    pub attrs: SpriteAttributes,
    pub oam_index: u8,
}

impl SpriteData {
    /// The OAM entry starting at byte offset `sprite_index`: y, x, tile
    /// index, attributes.
    pub open spec fn new_spec(b: BusView, sprite_index: u8) -> SpriteData {
        SpriteData {
            y: b.oam[sprite_index as int],
            x: b.oam[sprite_index + 1],
            raw_tile_index: b.oam[sprite_index + 2],
            attrs: SpriteAttributes::new_spec(b.oam[sprite_index + 3]),
            oam_index: sprite_index,
        }
    }

    pub fn new(sprite_index: u8, memory: &AddressSpace) -> (r: SpriteData)
        requires
            memory@.wf(),
            sprite_index <= 156,
        ensures
            r == SpriteData::new_spec(memory@, sprite_index),
    {
        let sprite_bytes = memory.read_sprite(sprite_index);
        SpriteData {
            y: sprite_bytes[0],
            x: sprite_bytes[1],
            raw_tile_index: sprite_bytes[2],
            attrs: SpriteAttributes::new(sprite_bytes[3]),
            oam_index: sprite_index,
        }
    }

    /// Drawing priority: smaller x wins; equal x falls back to OAM order.
    pub open spec fn wins_prio_spec(self, other: SpriteData) -> bool {
        if self.x == other.x {
            self.oam_index < other.oam_index
        } else {
            self.x < other.x
        }
    }

    pub fn wins_prio(&self, other: &Self) -> (r: bool)
        ensures
            r == self.wins_prio_spec(*other),
    {
        if self.x == other.x {
            self.oam_index < other.oam_index
        } else {
            self.x < other.x
        }
    }

    /// The comparison `sort` needs: `Less` exactly when this sprite wins.
    pub fn cmp(&self, other: &Self) -> (r: core::cmp::Ordering)
        ensures
            r == (if self.wins_prio_spec(*other) {
                core::cmp::Ordering::Less
            } else {
                core::cmp::Ordering::Greater
            }),
    {
        if self.wins_prio(other) {
            core::cmp::Ordering::Less
        } else {
            core::cmp::Ordering::Greater
        }
    }
}

} // verus!
