//! Sprites as the unit reads them out of sprite memory: four bytes, and
//! what they say about place, tile, palette, flips and priority.

use vstd::prelude::*;
use crate::ppu::Ppu;
use crate::regs::{PpuCtrl, SpriteSize};

verus! {

/// One sprite. `y` is the first scanline it is drawn on.
#[derive(Clone, Copy, PartialEq, Eq, Structural, Debug)]
pub struct Sprite {
    pub x: u8,
    pub y: u8,
    pub tile_index_byte: u8,
    pub attribute_byte: u8,
}

/// The pattern tiles that make up a sprite.
#[derive(Clone, Copy, PartialEq, Eq, Structural, Debug)]
pub enum SpriteTiles {
    SpriteTiles8x8(u16),
    SpriteTiles8x16(u16, u16),
}

/// Whether a sprite is drawn over or under an opaque background pixel.
#[derive(Clone, Copy, PartialEq, Eq, Structural, Debug)]
pub enum SpritePriority {
    AboveBg,
    BelowBg,
}

/// The number of scanlines a sprite of the given size spans.
pub open spec fn sprite_height(size: SpriteSize) -> int {
    match size {
        SpriteSize::SpriteSize8x8 => 8,
        SpriteSize::SpriteSize8x16 => 16,
    }
}

impl Sprite {
    /// The sprite's tiles under a control byte. In 8x8 mode one tile: the
    /// tile byte joined with the control byte's sprite table base. In 8x16
    /// mode the base is ignored: the tile byte's low bit picks the table at
    /// 0 or at 0x1000, the even tile is the top half and the next one the
    /// bottom half.
    pub open spec fn tiles_under(self, ctrl: PpuCtrl) -> SpriteTiles {
        match ctrl.sprite_size() {
            SpriteSize::SpriteSize8x8 => SpriteTiles::SpriteTiles8x8(
                self.tile_index_byte as u16 | ctrl.sprite_pattern_table_addr(),
            ),
            SpriteSize::SpriteSize8x16 => {
                let bank: int = if self.tile_index_byte & 1 != 0 {
                    0x1000
                } else {
                    0
                };
                let first = (self.tile_index_byte & !1u8) + bank;
                SpriteTiles::SpriteTiles8x16(first as u16, (first + 1) as u16)
            },
        }
    }

    /// The sprite's tiles under the unit's control register.
    pub fn tiles<VM, OM>(&self, ppu: &Ppu<VM, OM>) -> (tiles: SpriteTiles)
        ensures
            tiles == self.tiles_under(ppu.regs.ctrl),
    {
        let base = ppu.regs.ctrl.sprite_pattern_table_addr();
        match ppu.regs.ctrl.sprite_size() {
            SpriteSize::SpriteSize8x8 => SpriteTiles::SpriteTiles8x8(
                self.tile_index_byte as u16 | base,
            ),
            SpriteSize::SpriteSize8x16 => {
                let tile: u8 = self.tile_index_byte;
                let even: u8 = tile & !1u8;
                assert(even <= 254) by (bit_vector)
                    requires
                        even == tile & !1u8,
                ;
                let mut first: u16 = even as u16;
                if (tile & 1) != 0 {
                    first += 0x1000;
                }
                SpriteTiles::SpriteTiles8x16(first, first + 1)
            },
        }
    }

    pub open spec fn spec_palette(&self) -> u8 {
        ((self.attribute_byte & 3) + 4) as u8
    }

    /// The sprite's palette bank, one of 4 to 7.
    #[verifier::when_used_as_spec(spec_palette)]
    pub fn palette(&self) -> (bank: u8)
        ensures
            bank == self.spec_palette(),
            4 <= bank <= 7,
    {
        let attribute: u8 = self.attribute_byte;
        let low: u8 = attribute & 3;
        assert(low <= 3) by (bit_vector)
            requires
                low == attribute & 3,
        ;
        low + 4
    }

    pub open spec fn spec_flip_horizontal(&self) -> bool {
        self.attribute_byte & 0x40 != 0
    }

    /// Whether the sprite is mirrored left to right: attribute bit 6.
    #[verifier::when_used_as_spec(spec_flip_horizontal)]
    pub fn flip_horizontal(&self) -> (on: bool)
        ensures
            on == self.spec_flip_horizontal(),
    {
        (self.attribute_byte & 0x40) != 0
    }

    pub open spec fn spec_flip_vertical(&self) -> bool {
        self.attribute_byte & 0x80 != 0
    }

    /// Whether the sprite is mirrored top to bottom: attribute bit 7.
    #[verifier::when_used_as_spec(spec_flip_vertical)]
    pub fn flip_vertical(&self) -> (on: bool)
        ensures
            on == self.spec_flip_vertical(),
    {
        (self.attribute_byte & 0x80) != 0
    }

    pub open spec fn spec_priority(&self) -> SpritePriority {
        if self.attribute_byte & 0x20 == 0 {
            SpritePriority::AboveBg
        } else {
            SpritePriority::BelowBg
        }
    }

    /// Above the background unless attribute bit 5 is set.
    #[verifier::when_used_as_spec(spec_priority)]
    pub fn priority(&self) -> (priority: SpritePriority)
        ensures
            priority == self.spec_priority(),
    {
        if (self.attribute_byte & 0x20) == 0 {
            SpritePriority::AboveBg
        } else {
            SpritePriority::BelowBg
        }
    }

    /// Whether scanline `y` is one of the sprite's rows: `y` is at or past
    /// the sprite's first row and before that row plus the sprite's height.
    pub open spec fn covers_line(self, size: SpriteSize, y: u8) -> bool {
        self.y <= y < self.y + sprite_height(size)
    }

    /// Whether the point lies in the sprite's box, which is 8 columns wide.
    pub open spec fn covers(self, size: SpriteSize, x: u8, y: u8) -> bool {
        self.x <= x < self.x + 8 && self.covers_line(size, y)
    }

    /// Whether the sprite has a row on scanline `y`.
    pub fn on_scanline<VM, OM>(&self, ppu: &Ppu<VM, OM>, y: u8) -> (on: bool)
        ensures
            on == self.covers_line(ppu.regs.ctrl.sprite_size(), y),
    {
        if y < self.y {
            return false;
        }
        match ppu.regs.ctrl.sprite_size() {
            SpriteSize::SpriteSize8x8 => (y as u16) < self.y as u16 + 8,
            SpriteSize::SpriteSize8x16 => (y as u16) < self.y as u16 + 16,
        }
    }

    /// Whether the point lies in the sprite's box.
    pub fn in_bounding_box<VM, OM>(&self, ppu: &Ppu<VM, OM>, x: u8, y: u8) -> (inside: bool)
        ensures
            inside == self.covers(ppu.regs.ctrl.sprite_size(), x, y),
    {
        x >= self.x && (x as u16) < self.x as u16 + 8 && self.on_scanline(ppu, y)
    }
}

} // verus!
