//! The register bank that the processor sees: control, mask and status
//! bytes, the sprite-memory cursor, and the two two-byte latches.

use vstd::prelude::*;

verus! {

/// The size of every sprite, as the control register selects it.
#[derive(Clone, Copy, PartialEq, Eq, Structural, Debug)]
pub enum SpriteSize {
    SpriteSize8x8,
    SpriteSize8x16,
}

/// The control register.
#[derive(Clone, Copy, PartialEq, Eq, Structural, Debug)]
pub struct PpuCtrl(pub u8);

impl PpuCtrl {
    pub open spec fn spec_x_scroll_offset(self) -> u16 {
        if self.0 & 0x01 == 0 {
            0
        } else {
            256
        }
    }

    /// Horizontal scroll base: 256 when bit 0 is set.
    #[verifier::when_used_as_spec(spec_x_scroll_offset)]
    pub fn x_scroll_offset(self) -> (offset: u16)
        ensures
            offset == self.spec_x_scroll_offset(),
    {
        if (self.0 & 0x01) == 0 {
            0
        } else {
            256
        }
    }

    pub open spec fn spec_y_scroll_offset(self) -> u16 {
        if self.0 & 0x02 == 0 {
            0
        } else {
            240
        }
    }

    /// Vertical scroll base: 240 when bit 1 is set.
    #[verifier::when_used_as_spec(spec_y_scroll_offset)]
    pub fn y_scroll_offset(self) -> (offset: u16)
        ensures
            offset == self.spec_y_scroll_offset(),
    {
        if (self.0 & 0x02) == 0 {
            0
        } else {
            240
        }
    }

    pub open spec fn spec_vram_addr_increment(self) -> u16 {
        if self.0 & 0x04 == 0 {
            1
        } else {
            32
        }
    }

    /// Step of the video address after a data access: 32 when bit 2 is set, else 1.
    #[verifier::when_used_as_spec(spec_vram_addr_increment)]
    pub fn vram_addr_increment(self) -> (step: u16)
        ensures
            step == self.spec_vram_addr_increment(),
    {
        if (self.0 & 0x04) == 0 {
            1
        } else {
            32
        }
    }

    pub open spec fn spec_sprite_pattern_table_addr(self) -> u16 {
        if self.0 & 0x08 == 0 {
            0
        } else {
            0x1000
        }
    }

    /// Pattern-table base for sprites: 0x1000 when bit 3 is set.
    #[verifier::when_used_as_spec(spec_sprite_pattern_table_addr)]
    pub fn sprite_pattern_table_addr(self) -> (base: u16)
        ensures
            base == self.spec_sprite_pattern_table_addr(),
    {
        if (self.0 & 0x08) == 0 {
            0
        } else {
            0x1000
        }
    }

    pub open spec fn spec_background_pattern_table_addr(self) -> u16 {
        if self.0 & 0x10 == 0 {
            0
        } else {
            0x1000
        }
    }

    /// Pattern-table base for the background: 0x1000 when bit 4 is set.
    #[verifier::when_used_as_spec(spec_background_pattern_table_addr)]
    pub fn background_pattern_table_addr(self) -> (base: u16)
        ensures
            base == self.spec_background_pattern_table_addr(),
    {
        if (self.0 & 0x10) == 0 {
            0
        } else {
            0x1000
        }
    }

    pub open spec fn spec_sprite_size(self) -> SpriteSize {
        if self.0 & 0x20 == 0 {
            SpriteSize::SpriteSize8x8
        } else {
            SpriteSize::SpriteSize8x16
        }
    }

    /// Sprite size: 8x16 when bit 5 is set.
    #[verifier::when_used_as_spec(spec_sprite_size)]
    pub fn sprite_size(self) -> (size: SpriteSize)
        ensures
            size == self.spec_sprite_size(),
    {
        if (self.0 & 0x20) == 0 {
            SpriteSize::SpriteSize8x8
        } else {
            SpriteSize::SpriteSize8x16
        }
    }

    pub open spec fn spec_vblank_nmi(self) -> bool {
        self.0 & 0x80 != 0
    }

    /// Whether entering vertical blank raises an interrupt: bit 7.
    #[verifier::when_used_as_spec(spec_vblank_nmi)]
    pub fn vblank_nmi(self) -> (on: bool)
        ensures
            on == self.spec_vblank_nmi(),
    {
        (self.0 & 0x80) != 0
    }
}

/// The mask register.
#[derive(Clone, Copy, PartialEq, Eq, Structural, Debug)]
pub struct PpuMask(pub u8);

impl PpuMask {
    pub open spec fn spec_grayscale(self) -> bool {
        self.0 & 0x01 != 0
    }

    /// Whether colours are shown in grey: bit 0.
    #[verifier::when_used_as_spec(spec_grayscale)]
    pub fn grayscale(self) -> (on: bool)
        ensures
            on == self.spec_grayscale(),
    {
        (self.0 & 0x01) != 0
    }

    pub open spec fn spec_show_background_on_left(self) -> bool {
        self.0 & 0x02 != 0
    }

    /// Whether the background shows in the leftmost eight columns: bit 1.
    #[verifier::when_used_as_spec(spec_show_background_on_left)]
    pub fn show_background_on_left(self) -> (on: bool)
        ensures
            on == self.spec_show_background_on_left(),
    {
        (self.0 & 0x02) != 0
    }

    pub open spec fn spec_show_sprites_on_left(self) -> bool {
        self.0 & 0x04 != 0
    }

    /// Whether sprites show in the leftmost eight columns: bit 2.
    #[verifier::when_used_as_spec(spec_show_sprites_on_left)]
    pub fn show_sprites_on_left(self) -> (on: bool)
        ensures
            on == self.spec_show_sprites_on_left(),
    {
        (self.0 & 0x04) != 0
    }

    pub open spec fn spec_show_background(self) -> bool {
        self.0 & 0x08 != 0
    }

    /// Whether the background layer is drawn: bit 3.
    #[verifier::when_used_as_spec(spec_show_background)]
    pub fn show_background(self) -> (on: bool)
        ensures
            on == self.spec_show_background(),
    {
        (self.0 & 0x08) != 0
    }

    pub open spec fn spec_show_sprites(self) -> bool {
        self.0 & 0x10 != 0
    }

    /// Whether the sprite layer is drawn: bit 4.
    #[verifier::when_used_as_spec(spec_show_sprites)]
    pub fn show_sprites(self) -> (on: bool)
        ensures
            on == self.spec_show_sprites(),
    {
        (self.0 & 0x10) != 0
    }

    pub open spec fn spec_intensify_reds(self) -> bool {
        self.0 & 0x20 != 0
    }

    /// Whether reds are emphasised: bit 5.
    #[verifier::when_used_as_spec(spec_intensify_reds)]
    pub fn intensify_reds(self) -> (on: bool)
        ensures
            on == self.spec_intensify_reds(),
    {
        (self.0 & 0x20) != 0
    }

    pub open spec fn spec_intensify_greens(self) -> bool {
        self.0 & 0x40 != 0
    }

    /// Whether greens are emphasised: bit 6.
    #[verifier::when_used_as_spec(spec_intensify_greens)]
    pub fn intensify_greens(self) -> (on: bool)
        ensures
            on == self.spec_intensify_greens(),
    {
        (self.0 & 0x40) != 0
    }

    pub open spec fn spec_intensity_blues(self) -> bool {
        self.0 & 0x80 != 0
    }

    /// Whether blues are emphasised: bit 7.
    #[verifier::when_used_as_spec(spec_intensity_blues)]
    pub fn intensity_blues(self) -> (on: bool)
        ensures
            on == self.spec_intensity_blues(),
    {
        (self.0 & 0x80) != 0
    }
}

/// Status bit 5: more than eight sprites met one scanline.
pub const STATUS_SPRITE_OVERFLOW: u8 = 0x20;

/// Status bit 6: sprite zero was drawn over an opaque background pixel.
pub const STATUS_SPRITE_ZERO_HIT: u8 = 0x40;

/// Status bit 7: the unit is in vertical blank.
pub const STATUS_IN_VBLANK: u8 = 0x80;

/// `status` with the bits of `flag` set or cleared.
pub open spec fn with_flag(status: u8, flag: u8, val: bool) -> u8 {
    if val {
        status | flag
    } else {
        status & !flag
    }
}

/// The status register. Only the unit itself writes it.
#[derive(Clone, Copy, PartialEq, Eq, Structural, Debug)]
pub struct PpuStatus(pub u8);

impl PpuStatus {
    /// Sets or clears the sprite-overflow flag.
    pub fn set_sprite_overflow(&mut self, val: bool)
        ensures
            final(self).0 == with_flag(old(self).0, STATUS_SPRITE_OVERFLOW, val),
    {
        if val {
            self.0 = self.0 | 0x20;
        } else {
            self.0 = self.0 & !0x20;
        }
    }

    /// Sets or clears the sprite-zero-hit flag.
    pub fn set_sprite_zero_hit(&mut self, val: bool)
        ensures
            final(self).0 == with_flag(old(self).0, STATUS_SPRITE_ZERO_HIT, val),
    {
        if val {
            self.0 = self.0 | 0x40;
        } else {
            self.0 = self.0 & !0x40;
        }
    }

    /// Sets or clears the vertical-blank flag.
    pub fn set_in_vblank(&mut self, val: bool)
        ensures
            final(self).0 == with_flag(old(self).0, STATUS_IN_VBLANK, val),
    {
        if val {
            self.0 = self.0 | 0x80;
        } else {
            self.0 = self.0 & !0x80;
        }
    }
}

/// Which half of the scroll latch the next write fills.
#[derive(Clone, Copy, PartialEq, Eq, Structural, Debug)]
pub enum PpuScrollDir {
    XDir,
    YDir,
}

/// The scroll register: the two bytes last written and the latch.
#[derive(Clone, Copy, PartialEq, Eq, Structural, Debug)]
pub struct PpuScroll {
    pub x: u8,
    pub y: u8,
    pub next: PpuScrollDir,
}

/// Which half of the video address the next write fills.
#[derive(Clone, Copy, PartialEq, Eq, Structural, Debug)]
pub enum PpuAddrByte {
    Hi,
    Lo,
}

/// The video-address register and its latch.
#[derive(Clone, Copy, PartialEq, Eq, Structural, Debug)]
pub struct PpuAddr {
    pub val: u16,
    pub next: PpuAddrByte,
}

/// The registers behind the eight-address window.
#[derive(Clone, Copy, PartialEq, Eq, Structural, Debug)]
pub struct Regs {
    pub ctrl: PpuCtrl,
    pub mask: PpuMask,
    pub status: PpuStatus,
    pub oam_addr: u8,
    pub scroll: PpuScroll,
    pub addr: PpuAddr,
}

} // verus!
