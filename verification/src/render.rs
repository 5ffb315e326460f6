//! The pixel pipeline: what each pixel of a scanline is, stated over the
//! unit's model, and the functions that compute it into the frame buffer.

use vstd::prelude::*;
use crate::mem::Mem;
use crate::palette::{palette_color, Rgb};
use crate::ppu::{Ppu, PpuView, SCREEN_BYTES, SCREEN_HEIGHT, SCREEN_WIDTH};
use crate::regs::{
    with_flag, PpuCtrl, PpuMask, PpuStatus, Regs, SpriteSize, STATUS_SPRITE_OVERFLOW,
    STATUS_SPRITE_ZERO_HIT,
};
use crate::sprite::{Sprite, SpritePriority, SpriteTiles};

verus! {

/// Which layer a pattern pixel is fetched for.
#[derive(Clone, Copy, PartialEq, Eq, Structural, Debug)]
pub enum PatternPixelKind {
    Background,
    Sprite,
}

/// A cell of the background: the name table it lies in and its place there.
#[derive(Clone, Copy, PartialEq, Eq, Structural, Debug)]
pub struct NametableAddr {
    pub base: u16,
    pub x_index: u8,
    pub y_index: u8,
}

/// The colour a sprite gives a pixel, and whether it goes over the background.
#[derive(Clone, Copy, PartialEq, Eq, Structural, Debug)]
pub struct SpriteColor {
    pub priority: SpritePriority,
    pub color: Rgb,
}

/// The part of the unit's state that decides what a scanline looks like.
pub struct Scene {
    pub ctrl: PpuCtrl,
    pub mask: PpuMask,
    pub scroll_x: u16,
    pub scroll_y: u16,
    pub vram: Map<u16, u8>,
    pub oam: Map<u16, u8>,
}

impl PpuView {
    /// The part of the state that drawing reads.
    pub open spec fn scene(self) -> Scene {
        Scene {
            ctrl: self.regs.ctrl,
            mask: self.regs.mask,
            scroll_x: self.scroll_x,
            scroll_y: self.scroll_y,
            vram: self.vram,
            oam: self.oam,
        }
    }
}

/// The name-table cell of a tile coordinate. The plane is 64 by 60 tiles
/// and wraps; its four quarters of 32 by 30 tiles are the tables at 0x2000,
/// 0x2400 (right), 0x2800 (below) and 0x2C00.
pub open spec fn nametable_cell(x_index: u16, y_index: u16) -> NametableAddr {
    let x = x_index % 64;
    let y = y_index % 60;
    NametableAddr {
        base: if x < 32 {
            if y < 30 {
                0x2000
            } else {
                0x2800
            }
        } else {
            if y < 30 {
                0x2400
            } else {
                0x2c00
            }
        },
        x_index: (x % 32) as u8,
        y_index: (y % 30) as u8,
    }
}

/// The sprite of slot `index`: its four bytes are the row less one, the tile,
/// the attributes and the column.
pub open spec fn sprite_at(oam: Map<u16, u8>, index: u16) -> Sprite {
    Sprite {
        y: oam[(index * 4) as u16].wrapping_add(1),
        tile_index_byte: oam[(index * 4 + 1) as u16],
        attribute_byte: oam[(index * 4 + 2) as u16],
        x: oam[(index * 4 + 3) as u16],
    }
}

/// The pattern table that a layer's tiles are read from.
pub open spec fn pattern_table(ctrl: PpuCtrl, kind: PatternPixelKind) -> u16 {
    match kind {
        PatternPixelKind::Background => ctrl.background_pattern_table_addr(),
        PatternPixelKind::Sprite => ctrl.sprite_pattern_table_addr(),
    }
}

/// The address of the first bit plane of row `y` of a tile: 16 bytes a
/// tile, within 16 bits. The second plane lies 8 bytes on.
pub open spec fn plane_addr(base: u16, tile: u16, y: u8) -> u16 {
    (tile << 4).wrapping_add(y as u16).wrapping_add(base)
}

/// The bit of column `x` in a plane byte; column 0 is the top bit.
pub open spec fn plane_bit(plane: u8, x: u8) -> u8 {
    (plane >> ((7 - x % 8) as u8)) & 1
}

/// The two-bit pattern colour of column `x`, from a row's two plane bytes.
pub open spec fn pattern_color(plane0: u8, plane1: u8, x: u8) -> u8 {
    (plane_bit(plane1, x) << 1) | plane_bit(plane0, x)
}

/// What shows where the layers may both be opaque: the background where it
/// alone is, or where the sprite goes below it; the sprite where it alone
/// is, or where it goes above; the backdrop where neither is.
pub open spec fn composite(
    background: Option<Rgb>,
    sprite: Option<SpriteColor>,
    backdrop: Rgb,
) -> Rgb {
    match (background, sprite) {
        (None, None) => backdrop,
        (Some(color), None) => color,
        (Some(color), Some(over)) => match over.priority {
            SpritePriority::BelowBg => color,
            SpritePriority::AboveBg => over.color,
        },
        (None, Some(over)) => over.color,
    }
}

impl Scene {
    /// The pattern colour of pixel (`x`, `y`) of a tile.
    pub open spec fn pattern_pixel(self, kind: PatternPixelKind, tile: u16, x: u8, y: u8) -> u8 {
        let at = plane_addr(pattern_table(self.ctrl, kind), tile, y);
        pattern_color(self.vram[at], self.vram[at.wrapping_add(8)], x)
    }

    /// The background cell under column `x` of scanline `line`, after scrolling.
    pub open spec fn background_cell(self, line: u16, x: u8) -> NametableAddr {
        nametable_cell(((x + self.scroll_x) / 8) as u16, ((line + self.scroll_y) / 8) as u16)
    }

    /// The background's pattern colour at column `x` of scanline `line`.
    pub open spec fn background_pattern(self, line: u16, x: u8) -> u8 {
        let cell = self.background_cell(line, x);
        let tile = self.vram[(cell.base + 32 * cell.y_index + cell.x_index) as u16];
        self.pattern_pixel(
            PatternPixelKind::Background,
            tile as u16,
            ((x + self.scroll_x) % 8) as u8,
            ((line + self.scroll_y) % 8) as u8,
        )
    }

    /// The two attribute bits of the cell under the pixel: one field of the
    /// byte that its group of four by four cells shares, chosen by the
    /// cell's quarter of the group.
    pub open spec fn background_attribute(self, line: u16, x: u8) -> u8 {
        let cell = self.background_cell(line, x);
        let group = cell.y_index / 4 * 8 + cell.x_index / 4;
        let attr = self.vram[(cell.base + 0x3c0 + group) as u16];
        if cell.y_index % 4 < 2 {
            if cell.x_index % 4 < 2 {
                attr & 0x3
            } else {
                (attr >> 2) & 0x3
            }
        } else {
            if cell.x_index % 4 < 2 {
                (attr >> 4) & 0x3
            } else {
                (attr >> 6) & 0x3
            }
        }
    }

    /// The background's colour at the pixel; none where its pattern colour is 0.
    pub open spec fn background_pixel(self, line: u16, x: u8) -> Option<Rgb> {
        let pattern = self.background_pattern(line, x);
        if pattern == 0 {
            None
        } else {
            let tile_color = (self.background_attribute(line, x) << 2) | pattern;
            Some(palette_color(self.vram[(0x3f00 + tile_color) as u16] & 0x3f))
        }
    }

    /// The pattern colour that a sprite of one tile has at a point of its
    /// box, with the flips applied. A sprite of two tiles is not sampled:
    /// the functions that would do so leave that case out.
    pub open spec fn sprite_pattern(self, sprite: Sprite, x: u8, line: u8) -> u8 {
        match sprite.tiles_under(self.ctrl) {
            SpriteTiles::SpriteTiles8x8(tile) => {
                let column = if sprite.flip_horizontal() {
                    7 - (x - sprite.x)
                } else {
                    x - sprite.x
                };
                let row = if sprite.flip_vertical() {
                    7 - (line - sprite.y)
                } else {
                    line - sprite.y
                };
                self.pattern_pixel(PatternPixelKind::Sprite, tile, column as u8, row as u8)
            },
            SpriteTiles::SpriteTiles8x16(_, _) => 0,
        }
    }

    /// Whether the sprite of slot `index` is opaque at the point.
    pub open spec fn sprite_opaque(self, index: u8, x: u8, line: u8) -> bool {
        let sprite = sprite_at(self.oam, index as u16);
        sprite.covers(self.ctrl.sprite_size(), x, line) && self.sprite_pattern(sprite, x, line)
            != 0
    }

    /// The first slot of the list, from place `from` up to its first empty
    /// place, whose sprite is opaque at the point.
    pub open spec fn sprite_hit(self, slots: Seq<Option<u8>>, from: int, x: u8, line: u8) -> Option<
        u8,
    >
        decreases slots.len() - from,
    {
        if from < 0 || from >= slots.len() {
            None
        } else {
            match slots[from] {
                None => None,
                Some(index) => if self.sprite_opaque(index, x, line) {
                    Some(index)
                } else {
                    self.sprite_hit(slots, from + 1, x, line)
                },
            }
        }
    }

    /// Whether the walk down the list to the point's first opaque sprite
    /// would have to sample a sprite of two tiles.
    pub open spec fn samples_tall_sprite(
        self,
        slots: Seq<Option<u8>>,
        from: int,
        x: u8,
        line: u8,
    ) -> bool
        decreases slots.len() - from,
    {
        if from < 0 || from >= slots.len() {
            false
        } else {
            match slots[from] {
                None => false,
                Some(index) => self.ctrl.sprite_size() == SpriteSize::SpriteSize8x16 && (sprite_at(
                    self.oam,
                    index as u16,
                ).covers(self.ctrl.sprite_size(), x, line) || self.samples_tall_sprite(
                    slots,
                    from + 1,
                    x,
                    line,
                )),
            }
        }
    }

    /// The colour and priority that the sprite of slot `index` gives the point.
    pub open spec fn sprite_color(self, index: u8, x: u8, line: u8) -> SpriteColor {
        let sprite = sprite_at(self.oam, index as u16);
        let tile_color = (sprite.palette() << 2) | self.sprite_pattern(sprite, x, line);
        SpriteColor {
            priority: sprite.priority(),
            color: palette_color(self.vram[(0x3f00 + tile_color) as u16] & 0x3f),
        }
    }

    /// What the listed sprites give the point: the colour of the first
    /// opaque one.
    pub open spec fn sprite_pixel(self, slots: Seq<Option<u8>>, x: u8, line: u8) -> Option<
        SpriteColor,
    > {
        match self.sprite_hit(slots, 0, x, line) {
            None => None,
            Some(index) => Some(self.sprite_color(index, x, line)),
        }
    }

    /// The slots below `upto` whose sprites have a row on scanline `line`,
    /// in slot order.
    pub open spec fn matching(self, line: u8, upto: int) -> Seq<u8>
        decreases upto,
    {
        if upto <= 0 {
            Seq::empty()
        } else if sprite_at(self.oam, (upto - 1) as u16).covers_line(self.ctrl.sprite_size(), line) {
            self.matching(line, upto - 1).push((upto - 1) as u8)
        } else {
            self.matching(line, upto - 1)
        }
    }

    /// The sprites drawn on a scanline: the first eight of the 64 slots
    /// that have a row on it, in slot order, then empty places.
    pub open spec fn visible_slots(self, line: u8) -> Seq<Option<u8>> {
        let all = self.matching(line, 64);
        Seq::new(
            8,
            |k: int|
                if k < all.len() {
                    Some(all[k])
                } else {
                    None
                },
        )
    }

    /// Whether more than eight sprites have a row on the scanline.
    pub open spec fn overflows(self, line: u8) -> bool {
        self.matching(line, 64).len() > 8
    }

    /// The colour shown where no layer is opaque: palette cell 0.
    pub open spec fn backdrop(self) -> Rgb {
        palette_color(self.vram[0x3f00] & 0x3f)
    }

    /// The background layer at the pixel: transparent where the mask hides it.
    pub open spec fn background_layer(self, line: u16, x: u8) -> Option<Rgb> {
        if self.mask.show_background() {
            self.background_pixel(line, x)
        } else {
            None
        }
    }

    /// The sprite layer at the pixel: transparent where the mask hides it.
    pub open spec fn sprite_layer(self, line: u16, x: u8) -> Option<SpriteColor> {
        if self.mask.show_sprites() {
            self.sprite_pixel(self.visible_slots(line as u8), x, line as u8)
        } else {
            None
        }
    }

    /// The colour of the pixel at column `x` of scanline `line`.
    pub open spec fn pixel(self, line: u16, x: u8) -> Rgb {
        composite(self.background_layer(line, x), self.sprite_layer(line, x), self.backdrop())
    }

    /// Whether sprite zero is the first opaque sprite at the pixel, over an
    /// opaque background.
    pub open spec fn zero_hit_at(self, line: u16, x: u8) -> bool {
        &&& self.mask.show_sprites()
        &&& self.background_layer(line, x) is Some
        &&& self.sprite_hit(self.visible_slots(line as u8), 0, x, line as u8) == Some(0u8)
    }

    /// Whether drawing the scanline would sample a sprite of two tiles:
    /// sprites are shown and two tiles tall, and one has a row on the line.
    pub open spec fn draws_tall_sprite(self, line: u16) -> bool {
        &&& self.mask.show_sprites()
        &&& self.ctrl.sprite_size() == SpriteSize::SpriteSize8x16
        &&& self.matching(line as u8, 64).len() > 0
    }
}

impl PpuView {
    /// Byte `i` of the frame buffer once the current scanline is drawn: in
    /// the scanline's row each pixel's three bytes `r`, `g`, `b`; elsewhere
    /// the byte as it was.
    pub open spec fn drawn_byte(self, i: int) -> u8 {
        let row = self.scanline * 768;
        if row <= i < row + 768 {
            let color = self.scene().pixel(self.scanline, ((i - row) / 3) as u8);
            if (i - row) % 3 == 0 {
                color.r
            } else if (i - row) % 3 == 1 {
                color.g
            } else {
                color.b
            }
        } else {
            self.screen[i]
        }
    }

    /// Whether sprite zero hits on a column of the current scanline before
    /// column `end`.
    pub open spec fn zero_hit_before(self, end: int) -> bool {
        exists|x: u8| x < end && #[trigger] self.scene().zero_hit_at(self.scanline, x)
    }

    /// The status byte once sprites are chosen for the current scanline:
    /// the overflow flag is set where more than eight have a row on it.
    pub open spec fn status_after_evaluation(self) -> u8 {
        if self.scene().overflows(self.scanline as u8) {
            with_flag(self.regs.status.0, STATUS_SPRITE_OVERFLOW, true)
        } else {
            self.regs.status.0
        }
    }

    /// The state once sprites are chosen for the current scanline.
    pub open spec fn after_evaluation(self) -> PpuView {
        PpuView {
            regs: Regs { status: PpuStatus(self.status_after_evaluation()), ..self.regs },
            ..self
        }
    }

    /// The state once the current scanline is drawn: its row of the frame
    /// buffer holds its pixels, and the status byte has the overflow flag
    /// set where more than eight sprites have a row on the line, and the
    /// sprite-zero-hit flag set where sprite zero hits on one of its columns.
    pub open spec fn after_render(self) -> PpuView {
        let status = self.status_after_evaluation();
        PpuView {
            regs: Regs {
                status: PpuStatus(
                    if self.zero_hit_before(256) {
                        with_flag(status, STATUS_SPRITE_ZERO_HIT, true)
                    } else {
                        status
                    },
                ),
                ..self.regs
            },
            screen: Seq::new(SCREEN_BYTES as nat, |i: int| self.drawn_byte(i)),
            ..self
        }
    }
}

impl Scene {
    /// The matching slots below a bound are the first of those below a
    /// larger bound, and number at most the bound.
    pub proof fn lemma_matching_prefix(self, line: u8, a: int, b: int)
        requires
            0 <= a <= b,
        ensures
            self.matching(line, a).len() <= a,
            self.matching(line, a).len() <= self.matching(line, b).len(),
            forall|k: int|
                0 <= k < self.matching(line, a).len() ==> self.matching(line, b)[k]
                    == self.matching(line, a)[k],
        decreases b,
    {
        if a > 0 {
            self.lemma_matching_prefix(line, a - 1, a - 1);
        }
        if a < b {
            self.lemma_matching_prefix(line, a, b - 1);
        }
    }

    /// Every matching slot is a slot: below the bound.
    pub proof fn lemma_matching_in_range(self, line: u8, upto: int)
        requires
            0 <= upto <= 64,
        ensures
            forall|k: int|
                0 <= k < self.matching(line, upto).len() ==> #[trigger] self.matching(line, upto)[k]
                    < upto,
        decreases upto,
    {
        if upto > 0 {
            self.lemma_matching_in_range(line, upto - 1);
            let below = self.matching(line, upto - 1);
            assert forall|k: int| 0 <= k < self.matching(line, upto).len() implies #[trigger] self.matching(
                line,
                upto,
            )[k] < upto by {
                if k < below.len() {
                    assert(self.matching(line, upto)[k] == below[k]);
                }
            }
        }
    }

    /// With an empty list no sprite is sampled.
    pub proof fn lemma_no_sprites_none_sampled(self, line: u8, x: u8)
        requires
            self.matching(line, 64).len() == 0,
        ensures
            !self.samples_tall_sprite(self.visible_slots(line), 0, x, line),
    {
    }

    /// With sprites of one tile no sprite of two tiles is sampled.
    pub proof fn lemma_small_sprites_none_sampled(
        self,
        slots: Seq<Option<u8>>,
        from: int,
        x: u8,
        line: u8,
    )
        requires
            self.ctrl.sprite_size() == SpriteSize::SpriteSize8x8,
        ensures
            !self.samples_tall_sprite(slots, from, x, line),
        decreases slots.len() - from,
    {
        if 0 <= from < slots.len() {
            self.lemma_small_sprites_none_sampled(slots, from + 1, x, line);
        }
    }
}

/// Setting a status flag twice is setting it once, and setting the
/// sprite-zero-hit flag leaves the overflow flag as it is.
pub proof fn lemma_flag_bits(status: u8)
    by (bit_vector)
    ensures
        (status | 0x40) | 0x40 == status | 0x40,
        (status | 0x20) & 0x20 != 0,
        (status | 0x40) & 0x20 == status & 0x20,
{
}

/// Sprite evaluation raises the overflow flag exactly for a ninth sprite:
/// with the flag clear before, it is set afterwards if and only if nine or
/// more sprites have a row on the scanline.
pub proof fn law_overflow_on_ninth_sprite(v: PpuView)
    requires
        v.regs.status.0 & STATUS_SPRITE_OVERFLOW == 0,
    ensures
        v.after_evaluation().regs.status.0 & STATUS_SPRITE_OVERFLOW != 0 <==> v.scene().matching(
            v.scanline as u8,
            64,
        ).len() >= 9,
        v.after_render().regs.status.0 & STATUS_SPRITE_OVERFLOW != 0 <==> v.scene().matching(
            v.scanline as u8,
            64,
        ).len() >= 9,
{
    lemma_flag_bits(v.regs.status.0);
    lemma_flag_bits(v.status_after_evaluation());
}

/// Where the background's pattern colour is 0 and no listed sprite is
/// opaque, the pixel shows the backdrop: the colour of palette cell 0.
pub proof fn law_backdrop_shows(scene: Scene, line: u16, x: u8)
    requires
        scene.background_pattern(line, x) == 0,
        scene.sprite_hit(scene.visible_slots(line as u8), 0, x, line as u8) is None,
    ensures
        scene.pixel(line, x) == palette_color(scene.vram[0x3f00] & 0x3f),
{
}

/// A tile's rows start within the first 0xFF0 bytes of a table: the shift
/// drops a table bit that the tile number carries.
pub proof fn lemma_tile_offset(tile: u8, base: u16)
    by (bit_vector)
    requires
        base == 0 || base == 0x1000,
    ensures
        ((tile as u16) << 4) <= 0xff0,
        ((tile as u16 | base) << 4) <= 0xff0,
{
}

/// A pattern colour has two bits.
pub proof fn lemma_pattern_color_range(plane0: u8, plane1: u8, x: u8)
    by (bit_vector)
    ensures
        (((plane1 >> ((7 - x % 8) as u8)) & 1) << 1) | ((plane0 >> ((7 - x % 8) as u8)) & 1) < 4,
{
}

/// A tile colour, two attribute or bank bits over a pattern colour, is a
/// cell of the palette: below 16 for the background, below 32 for sprites.
pub proof fn lemma_tile_color_range(attr: u8, pattern: u8, bank: u8)
    by (bit_vector)
    requires
        pattern < 4,
        4 <= bank <= 7,
    ensures
        ((attr & 0x3) << 2) | pattern < 16,
        (((attr >> 2) & 0x3) << 2) | pattern < 16,
        (((attr >> 4) & 0x3) << 2) | pattern < 16,
        (((attr >> 6) & 0x3) << 2) | pattern < 16,
        (bank << 2) | pattern < 32,
{
}

/// The low six bits of a palette byte are an index into the colour table.
pub proof fn lemma_color_index_range(entry: u8)
    by (bit_vector)
    ensures
        entry & 0x3f < 64,
{
}

impl<VM: Mem, OM: Mem> Ppu<VM, OM> {
    /// Finds the name-table cell of a tile coordinate.
    pub fn nametable_addr(&mut self, x_index: u16, y_index: u16) -> (cell: NametableAddr)
        ensures
            *final(self) == *old(self),
            cell == nametable_cell(x_index, y_index),
    {
        let x_index: u16 = x_index % 64;
        let y_index: u16 = y_index % 60;
        let nametable_base: u16 = match (x_index >= 32, y_index >= 30) {
            (false, false) => 0x2000,
            (true, false) => 0x2400,
            (false, true) => 0x2800,
            (true, true) => 0x2c00,
        };
        NametableAddr {
            base: nametable_base,
            x_index: (x_index % 32) as u8,
            y_index: (y_index % 30) as u8,
        }
    }

    /// Reads the sprite of slot `index` out of sprite memory.
    pub fn make_sprite_info(&mut self, index: u16) -> (sprite: Sprite)
        requires
            old(self).wf(),
            index < 64,
        ensures
            final(self).wf(),
            final(self)@ == old(self)@,
            sprite == sprite_at(old(self)@.oam, index),
    {
        assert(self@.oam.dom().contains((index * 4) as u16));
        let y: u8 = self.oam.loadb(index * 4);
        let tile_index_byte: u8 = self.oam.loadb(index * 4 + 1);
        let attribute_byte: u8 = self.oam.loadb(index * 4 + 2);
        let x: u8 = self.oam.loadb(index * 4 + 3);
        Sprite { x, y: y.wrapping_add(1), tile_index_byte, attribute_byte }
    }

    /// Writes one pixel into the frame buffer.
    pub fn putpixel(&mut self, x: usize, y: usize, color: Rgb)
        requires
            old(self).wf(),
            x < SCREEN_WIDTH,
            y < SCREEN_HEIGHT,
        ensures
            final(self).wf(),
            final(self)@ == (PpuView {
                screen: old(self)@.screen.update((y * 256 + x) * 3, color.r).update(
                    (y * 256 + x) * 3 + 1,
                    color.g,
                ).update((y * 256 + x) * 3 + 2, color.b),
                ..old(self)@
            }),
    {
        let at: usize = (y * SCREEN_WIDTH + x) * 3;
        self.screen[at] = color.r;
        self.screen[at + 1] = color.g;
        self.screen[at + 2] = color.b;
    }

    /// Fetches the pattern colour of pixel (`x`, `y`) of a tile, before any
    /// palette lookup.
    pub fn get_pattern_pixel(&mut self, kind: PatternPixelKind, tile: u16, x: u8, y: u8) -> (color:
        u8)
        requires
            old(self).wf(),
            old(self)@.vram.dom().contains(
                plane_addr(pattern_table(old(self).regs.ctrl, kind), tile, y),
            ),
            old(self)@.vram.dom().contains(
                plane_addr(pattern_table(old(self).regs.ctrl, kind), tile, y).wrapping_add(8),
            ),
        ensures
            final(self).wf(),
            final(self)@ == old(self)@,
            color == old(self)@.scene().pattern_pixel(kind, tile, x, y),
            color < 4,
    {
        let mut pattern_offset: u16 = (tile << 4).wrapping_add(y as u16);
        match kind {
            PatternPixelKind::Background => {
                pattern_offset = pattern_offset.wrapping_add(
                    self.regs.ctrl.background_pattern_table_addr(),
                );
            },
            PatternPixelKind::Sprite => {
                pattern_offset = pattern_offset.wrapping_add(
                    self.regs.ctrl.sprite_pattern_table_addr(),
                );
            },
        }
        let plane0: u8 = self.vram.loadb(pattern_offset);
        let plane1: u8 = self.vram.loadb(pattern_offset.wrapping_add(8));
        let bit0: u8 = (plane0 >> (7 - (x % 8))) & 1;
        let bit1: u8 = (plane1 >> (7 - (x % 8))) & 1;
        proof {
            lemma_pattern_color_range(plane0, plane1, x);
        }
        (bit1 << 1) | bit0
    }

    /// Resolves the background at column `x` of the current scanline; none
    /// where it is transparent.
    pub fn get_background_pixel(&mut self, x: u8) -> (color: Option<Rgb>)
        requires
            old(self).wf(),
        ensures
            final(self).wf(),
            final(self)@ == old(self)@,
            color == old(self)@.scene().background_pixel(old(self).scanline, x),
    {
        let px: u32 = x as u32 + self.scroll_x as u32;
        let py: u32 = self.scanline as u32 + self.scroll_y as u32;
        let cell = self.nametable_addr((px / 8) as u16, (py / 8) as u16);
        let xsub: u8 = (px % 8) as u8;
        let ysub: u8 = (py % 8) as u8;
        let x_index: u8 = cell.x_index;
        let y_index: u8 = cell.y_index;
        assert(self@.vram.dom().contains((cell.base + 32 * y_index + x_index) as u16));
        let tile: u8 = self.vram.loadb(cell.base + 32 * (y_index as u16) + (x_index as u16));
        proof {
            lemma_tile_offset(tile, 0);
            let at = plane_addr(
                pattern_table(self.regs.ctrl, PatternPixelKind::Background),
                tile as u16,
                ysub,
            );
            assert(at < 0x1ff8);
            assert(self@.vram.dom().contains(at));
            assert(self@.vram.dom().contains(at.wrapping_add(8)));
        }
        let pattern_color: u8 = self.get_pattern_pixel(
            PatternPixelKind::Background,
            tile as u16,
            xsub,
            ysub,
        );
        if pattern_color == 0 {
            return None;
        }
        let group: u8 = y_index / 4 * 8 + x_index / 4;
        assert(self@.vram.dom().contains((cell.base + 0x3c0 + group) as u16));
        let attr_byte: u8 = self.vram.loadb(cell.base + 0x3c0 + (group as u16));
        let attr_table_color: u8 = match (x_index % 4 < 2, y_index % 4 < 2) {
            (true, true) => attr_byte & 0x3,
            (false, true) => (attr_byte >> 2) & 0x3,
            (true, false) => (attr_byte >> 4) & 0x3,
            (false, false) => (attr_byte >> 6) & 0x3,
        };
        let tile_color: u8 = (attr_table_color << 2) | pattern_color;
        proof {
            lemma_tile_color_range(attr_byte, pattern_color, 4);
            assert(self@.vram.dom().contains((0x3f00 + tile_color) as u16));
        }
        let entry: u8 = self.vram.loadb(0x3f00 + (tile_color as u16));
        let palette_index: u8 = entry & 0x3f;
        proof {
            lemma_color_index_range(entry);
        }
        Some(self.get_color(palette_index))
    }

    /// Resolves the sprites at column `x` of the current scanline: the
    /// first sprite of the list that is opaque there gives the colour. Where
    /// that sprite is sprite zero and the background is opaque, the status
    /// register's sprite-zero-hit flag is set.
    pub fn get_sprite_pixel(
        &mut self,
        visible_sprites: &[Option<u8>; 8],
        x: u8,
        background_opaque: bool,
    ) -> (color: Option<SpriteColor>)
        requires
            old(self).wf(),
            forall|k: int, index: u8|
                0 <= k < 8 && visible_sprites@[k] == Some(index) ==> index < 64,
            !old(self)@.scene().samples_tall_sprite(
                visible_sprites@,
                0,
                x,
                old(self).scanline as u8,
            ),
        ensures
            final(self).wf(),
            color == old(self)@.scene().sprite_pixel(
                visible_sprites@,
                x,
                old(self).scanline as u8,
            ),
            final(self)@ == (PpuView {
                regs: Regs {
                    status: PpuStatus(
                        if background_opaque && old(self)@.scene().sprite_hit(
                            visible_sprites@,
                            0,
                            x,
                            old(self).scanline as u8,
                        ) == Some(0u8) {
                            with_flag(old(self).regs.status.0, STATUS_SPRITE_ZERO_HIT, true)
                        } else {
                            old(self).regs.status.0
                        },
                    ),
                    ..old(self).regs
                },
                ..old(self)@
            }),
    {
        let ghost scene = self@.scene();
        let ghost slots = visible_sprites@;
        let line: u8 = #[verifier::truncate] (self.scanline as u8);
        let mut k: usize = 0;
        while k < 8
            invariant
                k <= 8,
                self.wf(),
                self@ == old(self)@,
                scene == old(self)@.scene(),
                slots == visible_sprites@,
                slots.len() == 8,
                line == old(self).scanline as u8,
                forall|k: int, index: u8|
                    0 <= k < 8 && visible_sprites@[k] == Some(index) ==> index < 64,
                scene.sprite_hit(slots, 0, x, line) == scene.sprite_hit(slots, k as int, x, line),
                !scene.samples_tall_sprite(slots, k as int, x, line),
            decreases 8 - k,
        {
            match visible_sprites[k] {
                None => {
                    return None;
                },
                Some(index) => {
                    let sprite = self.make_sprite_info(index as u16);
                    if sprite.in_bounding_box(self, x, line) {
                        let pattern_color: u8 = match sprite.tiles(self) {
                            SpriteTiles::SpriteTiles8x8(tile) => {
                                let mut column: u8 = x - sprite.x;
                                if sprite.flip_horizontal() {
                                    column = 7 - column;
                                }
                                let mut row: u8 = line - sprite.y;
                                if sprite.flip_vertical() {
                                    row = 7 - row;
                                }
                                proof {
                                    let base = self.regs.ctrl.sprite_pattern_table_addr();
                                    lemma_tile_offset(sprite.tile_index_byte, base);
                                    let at = plane_addr(base, tile, row);
                                    assert(at < 0x1ff8);
                                    assert(self@.vram.dom().contains(at));
                                    assert(self@.vram.dom().contains(at.wrapping_add(8)));
                                }
                                self.get_pattern_pixel(PatternPixelKind::Sprite, tile, column, row)
                            },
                            SpriteTiles::SpriteTiles8x16(_, _) => {
                                vstd::pervasive::unreached()
                            },
                        };
                        if pattern_color != 0 {
                            if index == 0 && background_opaque {
                                self.regs.status.set_sprite_zero_hit(true);
                            }
                            let tile_color: u8 = (sprite.palette() << 2) | pattern_color;
                            proof {
                                lemma_tile_color_range(0, pattern_color, sprite.palette());
                                assert(self@.vram.dom().contains((0x3f00 + tile_color) as u16));
                            }
                            let entry: u8 = self.vram.loadb(0x3f00 + (tile_color as u16));
                            let palette_index: u8 = entry & 0x3f;
                            proof {
                                lemma_color_index_range(entry);
                            }
                            let final_color = self.get_color(palette_index);
                            return Some(
                                SpriteColor { priority: sprite.priority(), color: final_color },
                            );
                        }
                    }
                },
            }
            k += 1;
        }
        None
    }

    /// Chooses the sprites of the current scanline: the first eight slots,
    /// in slot order, whose sprites have a row on it. A ninth such slot
    /// sets the status register's overflow flag and ends the search.
    pub fn compute_visible_sprites(&mut self) -> (visible: [Option<u8>; 8])
        requires
            old(self).wf(),
        ensures
            final(self).wf(),
            visible@ == old(self)@.scene().visible_slots(old(self).scanline as u8),
            final(self)@ == old(self)@.after_evaluation(),
    {
        let ghost scene = self@.scene();
        let line: u8 = #[verifier::truncate] (self.scanline as u8);
        let mut count: usize = 0;
        let mut result: [Option<u8>; 8] = [None;8];
        let mut i: u16 = 0;
        while i < 64
            invariant
                i <= 64,
                self.wf(),
                self@ == old(self)@,
                scene == old(self)@.scene(),
                line == old(self).scanline as u8,
                count == scene.matching(line, i as int).len(),
                count <= 8,
                forall|k: int|
                    0 <= k < 8 ==> result@[k] == if k < count {
                        Some(scene.matching(line, i as int)[k])
                    } else {
                        None::<u8>
                    },
            decreases 64 - i,
        {
            let sprite = self.make_sprite_info(i);
            if sprite.on_scanline(self, line) {
                if count < 8 {
                    result[count] = Some(i as u8);
                    count += 1;
                } else {
                    self.regs.status.set_sprite_overflow(true);
                    proof {
                        scene.lemma_matching_prefix(line, i as int, i as int + 1);
                        scene.lemma_matching_prefix(line, i as int + 1, 64);
                        assert(result@ =~= scene.visible_slots(line));
                    }
                    return result;
                }
            }
            i += 1;
        }
        proof {
            assert(result@ =~= scene.visible_slots(line));
        }
        result
    }

    /// Draws the current scanline into the frame buffer.
    pub fn render_scanline(&mut self)
        requires
            old(self).wf(),
            old(self).scanline < SCREEN_HEIGHT,
            !old(self)@.scene().draws_tall_sprite(old(self).scanline),
        ensures
            final(self).wf(),
            final(self)@ == old(self)@.after_render(),
    {
        let ghost scene = self@.scene();
        let ghost before = self@;
        let visible_sprites = self.compute_visible_sprites();
        let ghost status = self.regs.status.0;
        let ghost row = self.scanline * 768;
        let line: usize = self.scanline as usize;
        proof {
            scene.lemma_matching_in_range(self.scanline as u8, 64);
        }
        assert(self@.vram.dom().contains(0x3f00u16));
        let entry: u8 = self.vram.loadb(0x3f00);
        let backdrop_color_index: u8 = entry & 0x3f;
        proof {
            lemma_color_index_range(entry);
        }
        let backdrop_color = self.get_color(backdrop_color_index);
        let mut x: usize = 0;
        while x < SCREEN_WIDTH
            invariant
                x <= SCREEN_WIDTH,
                self.wf(),
                before.wf(),
                before.scanline < SCREEN_HEIGHT,
                line == before.scanline,
                row == before.scanline * 768,
                scene == before.scene(),
                self@.scene() == scene,
                status == before.status_after_evaluation(),
                visible_sprites@ == scene.visible_slots(before.scanline as u8),
                forall|k: int, index: u8|
                    0 <= k < 8 && visible_sprites@[k] == Some(index) ==> index < 64,
                !scene.draws_tall_sprite(before.scanline),
                backdrop_color == scene.backdrop(),
                self@ == (PpuView {
                    regs: Regs {
                        status: PpuStatus(
                            if before.zero_hit_before(x as int) {
                                with_flag(status, STATUS_SPRITE_ZERO_HIT, true)
                            } else {
                                status
                            },
                        ),
                        ..before.regs
                    },
                    screen: self@.screen,
                    ..before
                }),
                forall|i: int|
                    0 <= i < SCREEN_BYTES ==> #[trigger] self@.screen[i] == if i < row + 3 * x {
                        before.drawn_byte(i)
                    } else {
                        before.screen[i]
                    },
            decreases SCREEN_WIDTH - x,
        {
            let column: u8 = x as u8;
            let mut background_color: Option<Rgb> = None;
            if self.regs.mask.show_background() {
                background_color = self.get_background_pixel(column);
            }
            let mut sprite_color: Option<SpriteColor> = None;
            if self.regs.mask.show_sprites() {
                proof {
                    if scene.ctrl.sprite_size() == SpriteSize::SpriteSize8x8 {
                        scene.lemma_small_sprites_none_sampled(
                            visible_sprites@,
                            0,
                            column,
                            before.scanline as u8,
                        );
                    } else {
                        scene.lemma_no_sprites_none_sampled(before.scanline as u8, column);
                    }
                }
                sprite_color =
                self.get_sprite_pixel(&visible_sprites, column, background_color.is_some());
            }
            let color = match (background_color, sprite_color) {
                (None, None) => backdrop_color,
                (Some(color), None) => color,
                (Some(color), Some(SpriteColor { priority: SpritePriority::BelowBg, .. })) => color,
                (None, Some(SpriteColor { priority: SpritePriority::BelowBg, color })) => color,
                (_, Some(SpriteColor { priority: SpritePriority::AboveBg, color })) => color,
            };
            assert(color == scene.pixel(before.scanline, column));
            proof {
                lemma_flag_bits(status);
                let hit = scene.zero_hit_at(before.scanline, column);
                if before.zero_hit_before(x as int + 1) {
                    let w = choose|w: u8|
                        w < x as int + 1 && #[trigger] scene.zero_hit_at(before.scanline, w);
                    if w != column {
                        assert(w < x as int);
                        assert(before.zero_hit_before(x as int));
                    }
                }
                assert(before.zero_hit_before(x as int + 1) <==> (before.zero_hit_before(x as int)
                    || hit));
            }
            self.putpixel(x, line, color);
            proof {
                assert forall|i: int| 0 <= i < SCREEN_BYTES implies #[trigger] self@.screen[i]
                    == if i < row + 3 * (x + 1) {
                    before.drawn_byte(i)
                } else {
                    before.screen[i]
                } by {
                    if row + 3 * x <= i < row + 3 * (x + 1) {
                        assert((i - row) / 3 == x);
                    }
                }
            }
            x += 1;
        }
        proof {
            assert(self@.screen =~= before.after_render().screen);
        }
    }
}

} // verus!
