//! The picture unit: its state, the model that the contracts speak of, and
//! the register window through which the processor reaches it.

use vstd::prelude::*;
use crate::mem::Mem;
use crate::palette::{palette_color, Rgb, PALETTE};
use crate::regs::{
    PpuAddr, PpuAddrByte, PpuCtrl, PpuMask, PpuScroll, PpuScrollDir, PpuStatus, Regs,
};

verus! {

pub const SCREEN_WIDTH: usize = 256;

pub const SCREEN_HEIGHT: usize = 240;

/// Bytes of the frame buffer: three for each pixel.
pub const SCREEN_BYTES: usize = 184320;

pub const CYCLES_PER_SCANLINE: u64 = 114;

/// The scanline on whose start vertical blank begins.
pub const VBLANK_SCANLINE: usize = 241;

/// The scanline count at which a frame ends and the counter returns to 0.
pub const LAST_SCANLINE: usize = 261;

/// The picture unit, over a video store and a sprite store.
pub struct Ppu<VM, OM> {
    pub regs: Regs,
    pub vram: VM,
    pub oam: OM,
    /// The frame buffer: 240 rows of 256 pixels, three bytes each.
    pub screen: Vec<u8>,
    pub scanline: u16,
    pub ppudata_buffer: u8,
    /// The scroll position that rendering uses. Writes to the control,
    /// scroll and address registers each change it in their own way, so it
    /// is state of its own.
    pub scroll_x: u16,
    pub scroll_y: u16,
    pub cy: u64,
}

/// What a step reports to the processor.
#[derive(Clone, Copy, PartialEq, Eq, Structural, Debug)]
pub struct StepResult {
    /// The frame ended and the scanline counter returned to 0.
    pub new_frame: bool,
    /// Vertical blank began with interrupts enabled.
    pub vblank_nmi: bool,
}

/// The unit's state as the contracts see it: the stores by what their
/// loads give, the frame buffer as a sequence of bytes.
pub struct PpuView {
    pub regs: Regs,
    pub vram: Map<u16, u8>,
    pub oam: Map<u16, u8>,
    pub screen: Seq<u8>,
    pub scanline: u16,
    pub ppudata_buffer: u8,
    pub scroll_x: u16,
    pub scroll_y: u16,
    pub cy: u64,
}

impl PpuView {
    /// The video store answers every address below 0x4000, the sprite store
    /// every address below 0x100; the frame buffer has its size; the
    /// scanline counter is within the frame and the cycle counter on a
    /// scanline boundary.
    pub open spec fn wf(self) -> bool {
        &&& forall|a: u16| a < 0x4000 ==> self.vram.dom().contains(a)
        &&& forall|a: u16| a < 0x100 ==> self.oam.dom().contains(a)
        &&& self.screen.len() == SCREEN_BYTES
        &&& self.scanline < LAST_SCANLINE
        &&& self.cy % CYCLES_PER_SCANLINE == 0
    }

    /// The state after a write to the control register: the byte is kept,
    /// and bit 8 of each scroll coordinate is recomputed from its offset bits.
    pub open spec fn after_ctrl_write(self, val: u8) -> PpuView {
        PpuView {
            regs: Regs { ctrl: PpuCtrl(val), ..self.regs },
            scroll_x: (self.scroll_x & 0xff) | PpuCtrl(val).x_scroll_offset(),
            scroll_y: (self.scroll_y & 0xff) | PpuCtrl(val).y_scroll_offset(),
            ..self
        }
    }

    /// The state after a write to the scroll register: the half that the
    /// latch names takes the byte, in the register and in the low byte of
    /// the scroll coordinate, and the latch turns to the other half.
    pub open spec fn after_scroll_write(self, val: u8) -> PpuView {
        match self.regs.scroll.next {
            PpuScrollDir::XDir => PpuView {
                regs: Regs {
                    scroll: PpuScroll { x: val, next: PpuScrollDir::YDir, ..self.regs.scroll },
                    ..self.regs
                },
                scroll_x: (self.scroll_x & 0xff00) | (val as u16),
                ..self
            },
            PpuScrollDir::YDir => PpuView {
                regs: Regs {
                    scroll: PpuScroll { y: val, next: PpuScrollDir::XDir, ..self.regs.scroll },
                    ..self.regs
                },
                scroll_y: (self.scroll_y & 0xff00) | (val as u16),
                ..self
            },
        }
    }

    /// The state after a write to the address register. The high byte
    /// first, then the low byte; with the low byte, bit 8 of the horizontal
    /// scroll coordinate follows bit 10 of the address's low 11 bits.
    pub open spec fn after_addr_write(self, val: u8) -> PpuView {
        match self.regs.addr.next {
            PpuAddrByte::Hi => PpuView {
                regs: Regs {
                    addr: PpuAddr {
                        val: (self.regs.addr.val & 0x00ff) | ((val as u16) << 8),
                        next: PpuAddrByte::Lo,
                    },
                    ..self.regs
                },
                ..self
            },
            PpuAddrByte::Lo => {
                let addr = (self.regs.addr.val & 0xff00) | (val as u16);
                let base: u16 = if addr & 0x07ff < 0x400 {
                    0
                } else {
                    256
                };
                PpuView {
                    regs: Regs { addr: PpuAddr { val: addr, next: PpuAddrByte::Hi }, ..self.regs },
                    scroll_x: (self.scroll_x & 0xff) | base,
                    ..self
                }
            },
        }
    }

    /// The state after a read of the status register: both latches are
    /// back at their first half.
    pub open spec fn after_status_read(self) -> PpuView {
        PpuView {
            regs: Regs {
                scroll: PpuScroll { next: PpuScrollDir::XDir, ..self.regs.scroll },
                addr: PpuAddr { next: PpuAddrByte::Hi, ..self.regs.addr },
                ..self.regs
            },
            ..self
        }
    }

    /// The state after a write to the sprite-data register: the byte is
    /// stored at the cursor, and the cursor moves on by one, from 255 to 0.
    pub open spec fn after_oam_data_write<OM: Mem>(self, val: u8) -> PpuView {
        PpuView {
            regs: Regs { oam_addr: self.regs.oam_addr.wrapping_add(1), ..self.regs },
            oam: OM::stored(self.oam, self.regs.oam_addr as u16, val),
            ..self
        }
    }

    /// The video address after a data access: moved on by the control
    /// register's increment, within 16 bits.
    pub open spec fn next_data_addr(self) -> u16 {
        self.regs.addr.val.wrapping_add(self.regs.ctrl.vram_addr_increment())
    }

    /// The state after a write to the video-data register: the byte is
    /// stored at the video address, which then moves on.
    pub open spec fn after_data_write<VM: Mem>(self, val: u8) -> PpuView {
        PpuView {
            regs: Regs {
                addr: PpuAddr { val: self.next_data_addr(), ..self.regs.addr },
                ..self.regs
            },
            vram: VM::stored(self.vram, self.regs.addr.val, val),
            ..self
        }
    }

    /// What a read of the video-data register gives: below the palette the
    /// byte buffered by the read before, in the palette the byte at the
    /// video address.
    pub open spec fn data_read_value(self) -> u8 {
        if self.regs.addr.val < 0x3f00 {
            self.ppudata_buffer
        } else {
            self.vram[self.regs.addr.val]
        }
    }

    /// The state after a read of the video-data register: below the
    /// palette the buffer takes the byte at the video address; the address
    /// moves on in either case.
    pub open spec fn after_data_read(self) -> PpuView {
        PpuView {
            regs: Regs {
                addr: PpuAddr { val: self.next_data_addr(), ..self.regs.addr },
                ..self.regs
            },
            ppudata_buffer: if self.regs.addr.val < 0x3f00 {
                self.vram[self.regs.addr.val]
            } else {
                self.ppudata_buffer
            },
            ..self
        }
    }

    /// Whether a load through the register window at `addr` is answered:
    /// not on the sprite-data register, and on the video-data register only
    /// where the video store answers the video address.
    pub open spec fn can_load(self, addr: u16) -> bool {
        &&& addr & 7 != 4
        &&& addr & 7 == 7 ==> self.vram.dom().contains(self.regs.addr.val)
    }

    /// The byte that a load through the register window gives.
    pub open spec fn load_value(self, addr: u16) -> u8 {
        if addr & 7 == 0 {
            self.regs.ctrl.0
        } else if addr & 7 == 1 {
            self.regs.mask.0
        } else if addr & 7 == 2 {
            self.regs.status.0
        } else if addr & 7 == 7 {
            self.data_read_value()
        } else {
            0
        }
    }

    /// The state that a load through the register window leaves.
    pub open spec fn after_load(self, addr: u16) -> PpuView {
        if addr & 7 == 2 {
            self.after_status_read()
        } else if addr & 7 == 7 {
            self.after_data_read()
        } else {
            self
        }
    }

    /// Whether a store through the register window at `addr` is accepted:
    /// on the video-data register only where the video store answers the
    /// video address.
    pub open spec fn can_store(self, addr: u16) -> bool {
        addr & 7 == 7 ==> self.vram.dom().contains(self.regs.addr.val)
    }

    /// The state that a store through the register window leaves.
    pub open spec fn after_store<VM: Mem, OM: Mem>(self, addr: u16, val: u8) -> PpuView {
        if addr & 7 == 0 {
            self.after_ctrl_write(val)
        } else if addr & 7 == 1 {
            PpuView { regs: Regs { mask: PpuMask(val), ..self.regs }, ..self }
        } else if addr & 7 == 2 {
            self
        } else if addr & 7 == 3 {
            PpuView { regs: Regs { oam_addr: val, ..self.regs }, ..self }
        } else if addr & 7 == 4 {
            self.after_oam_data_write::<OM>(val)
        } else if addr & 7 == 5 {
            self.after_scroll_write(val)
        } else if addr & 7 == 6 {
            self.after_addr_write(val)
        } else {
            self.after_data_write::<VM>(val)
        }
    }
}

/// After a read of the status register the latches start over: of the next
/// two writes to the scroll register the first is the horizontal byte and
/// the second the vertical one, and of the next two writes to the address
/// register the first is the high byte and the second the low one.
pub proof fn law_status_read_resets_latches(v: PpuView, first: u8, second: u8)
    ensures
        ({
            let w = v.after_status_read().after_scroll_write(first).after_scroll_write(second);
            &&& w.regs.scroll.x == first
            &&& w.regs.scroll.y == second
            &&& w.regs.scroll.next == PpuScrollDir::XDir
        }),
        ({
            let w = v.after_status_read().after_addr_write(first).after_addr_write(second);
            &&& w.regs.addr.val == ((first as u16) << 8) | (second as u16)
            &&& w.regs.addr.next == PpuAddrByte::Hi
        }),
{
    let old_val = v.regs.addr.val;
    let hi = first as u16;
    let lo = second as u16;
    assert((((old_val & 0x00ff) | (hi << 8)) & 0xff00) | lo == (hi << 8) | lo) by (bit_vector)
        requires
            hi < 0x100,
    ;
}

impl<VM: Mem, OM: Mem> Ppu<VM, OM> {
    /// The unit's state as the contracts see it.
    pub open spec fn view(&self) -> PpuView {
        PpuView {
            regs: self.regs,
            vram: self.vram.cells(),
            oam: self.oam.cells(),
            screen: self.screen@,
            scanline: self.scanline,
            ppudata_buffer: self.ppudata_buffer,
            scroll_x: self.scroll_x,
            scroll_y: self.scroll_y,
            cy: self.cy,
        }
    }

    /// Both stores hold their invariants and the state is well formed.
    pub open spec fn wf(&self) -> bool {
        &&& self.vram.wf()
        &&& self.oam.wf()
        &&& self@.wf()
    }

    /// A unit at the start of its first frame, with cleared registers and
    /// a black frame buffer, over the two stores as they are.
    pub fn new(vram: VM, oam: OM) -> (ppu: Ppu<VM, OM>)
        requires
            vram.wf(),
            oam.wf(),
            forall|a: u16| a < 0x4000 ==> vram.cells().dom().contains(a),
            forall|a: u16| a < 0x100 ==> oam.cells().dom().contains(a),
        ensures
            ppu.wf(),
            ppu@ == (PpuView {
                regs: Regs {
                    ctrl: PpuCtrl(0),
                    mask: PpuMask(0),
                    status: PpuStatus(0),
                    oam_addr: 0,
                    scroll: PpuScroll { x: 0, y: 0, next: PpuScrollDir::XDir },
                    addr: PpuAddr { val: 0, next: PpuAddrByte::Hi },
                },
                vram: vram.cells(),
                oam: oam.cells(),
                screen: Seq::new(SCREEN_BYTES as nat, |i: int| 0u8),
                scanline: 0,
                ppudata_buffer: 0,
                scroll_x: 0,
                scroll_y: 0,
                cy: 0,
            }),
    {
        let ppu = Ppu {
            regs: Regs {
                ctrl: PpuCtrl(0),
                mask: PpuMask(0),
                status: PpuStatus(0),
                oam_addr: 0,
                scroll: PpuScroll { x: 0, y: 0, next: PpuScrollDir::XDir },
                addr: PpuAddr { val: 0, next: PpuAddrByte::Hi },
            },
            vram,
            oam,
            screen: vec![0u8; 184320],
            scanline: 0,
            ppudata_buffer: 0,
            scroll_x: 0,
            scroll_y: 0,
            cy: 0,
        };
        assert(ppu.screen@ =~= Seq::new(SCREEN_BYTES as nat, |i: int| 0u8));
        ppu
    }

    /// Looks a colour index up in the colour table.
    pub fn get_color(&self, palette_index: u8) -> (color: Rgb)
        requires
            palette_index < 64,
        ensures
            color == palette_color(palette_index),
    {
        let at: usize = palette_index as usize * 3;
        Rgb { r: PALETTE[at + 2], g: PALETTE[at + 1], b: PALETTE[at] }
    }

    /// Writes the control register.
    pub fn update_ppuctrl(&mut self, val: u8)
        requires
            old(self).wf(),
        ensures
            final(self).wf(),
            final(self)@ == old(self)@.after_ctrl_write(val),
    {
        self.regs.ctrl = PpuCtrl(val);
        self.scroll_x = (self.scroll_x & 0xff) | self.regs.ctrl.x_scroll_offset();
        self.scroll_y = (self.scroll_y & 0xff) | self.regs.ctrl.y_scroll_offset();
    }

    /// Writes the half of the scroll register that its latch names.
    pub fn update_ppuscroll(&mut self, val: u8)
        requires
            old(self).wf(),
        ensures
            final(self).wf(),
            final(self)@ == old(self)@.after_scroll_write(val),
    {
        match self.regs.scroll.next {
            PpuScrollDir::XDir => {
                self.scroll_x = (self.scroll_x & 0xff00) | (val as u16);
                self.regs.scroll.x = val;
                self.regs.scroll.next = PpuScrollDir::YDir;
            },
            PpuScrollDir::YDir => {
                self.scroll_y = (self.scroll_y & 0xff00) | (val as u16);
                self.regs.scroll.y = val;
                self.regs.scroll.next = PpuScrollDir::XDir;
            },
        }
    }

    /// Writes a byte to sprite memory at the cursor, and moves the cursor on.
    pub fn write_oamdata(&mut self, val: u8)
        requires
            old(self).wf(),
        ensures
            final(self).wf(),
            final(self)@ == old(self)@.after_oam_data_write::<OM>(val),
    {
        self.oam.storeb(self.regs.oam_addr as u16, val);
        self.regs.oam_addr = self.regs.oam_addr.wrapping_add(1);
    }

    /// Writes the half of the video address that its latch names.
    pub fn update_ppuaddr(&mut self, val: u8)
        requires
            old(self).wf(),
        ensures
            final(self).wf(),
            final(self)@ == old(self)@.after_addr_write(val),
    {
        match self.regs.addr.next {
            PpuAddrByte::Hi => {
                self.regs.addr.val = (self.regs.addr.val & 0x00ff) | ((val as u16) << 8);
                self.regs.addr.next = PpuAddrByte::Lo;
            },
            PpuAddrByte::Lo => {
                self.regs.addr.val = (self.regs.addr.val & 0xff00) | (val as u16);
                self.regs.addr.next = PpuAddrByte::Hi;
                let addr: u16 = self.regs.addr.val & 0x07ff;
                let xscroll_base: u16 = if addr < 0x400 {
                    0
                } else {
                    256
                };
                self.scroll_x = (self.scroll_x & 0xff) | xscroll_base;
            },
        }
    }

    /// Reads the status register, which turns both latches back to their
    /// first half.
    pub fn read_ppustatus(&mut self) -> (status: u8)
        requires
            old(self).wf(),
        ensures
            final(self).wf(),
            status == old(self).regs.status.0,
            final(self)@ == old(self)@.after_status_read(),
    {
        self.regs.scroll.next = PpuScrollDir::XDir;
        self.regs.addr.next = PpuAddrByte::Hi;
        self.regs.status.0
    }

    /// Writes a byte to video memory at the video address, and moves the
    /// address on.
    pub fn write_ppudata(&mut self, val: u8)
        requires
            old(self).wf(),
            old(self)@.vram.dom().contains(old(self).regs.addr.val),
        ensures
            final(self).wf(),
            final(self)@ == old(self)@.after_data_write::<VM>(val),
    {
        self.vram.storeb(self.regs.addr.val, val);
        self.regs.addr.val = self.regs.addr.val.wrapping_add(self.regs.ctrl.vram_addr_increment());
    }

    /// Reads the video-data register, one read behind below the palette.
    pub fn read_ppudata(&mut self) -> (val: u8)
        requires
            old(self).wf(),
            old(self)@.vram.dom().contains(old(self).regs.addr.val),
        ensures
            final(self).wf(),
            val == old(self)@.data_read_value(),
            final(self)@ == old(self)@.after_data_read(),
    {
        let addr: u16 = self.regs.addr.val;
        let val: u8 = self.vram.loadb(addr);
        self.regs.addr.val = addr.wrapping_add(self.regs.ctrl.vram_addr_increment());
        if addr < 0x3f00 {
            let buffered_val: u8 = self.ppudata_buffer;
            self.ppudata_buffer = val;
            buffered_val
        } else {
            val
        }
    }

    /// Loads the register that `addr` selects by its low three bits.
    pub fn loadb(&mut self, addr: u16) -> (val: u8)
        requires
            old(self).wf(),
            old(self)@.can_load(addr),
        ensures
            final(self).wf(),
            val == old(self)@.load_value(addr),
            final(self)@ == old(self)@.after_load(addr),
    {
        let index: u16 = addr & 7;
        assert(index < 8) by (bit_vector)
            requires
                index == addr & 7,
        ;
        if index == 0 {
            self.regs.ctrl.0
        } else if index == 1 {
            self.regs.mask.0
        } else if index == 2 {
            self.read_ppustatus()
        } else if index == 7 {
            self.read_ppudata()
        } else {
            0
        }
    }

    /// Stores to the register that `addr` selects by its low three bits.
    pub fn storeb(&mut self, addr: u16, val: u8)
        requires
            old(self).wf(),
            old(self)@.can_store(addr),
        ensures
            final(self).wf(),
            final(self)@ == old(self)@.after_store::<VM, OM>(addr, val),
    {
        let index: u16 = addr & 7;
        assert(index < 8) by (bit_vector)
            requires
                index == addr & 7,
        ;
        if index == 0 {
            self.update_ppuctrl(val)
        } else if index == 1 {
            self.regs.mask = PpuMask(val)
        } else if index == 2 {
        } else if index == 3 {
            self.regs.oam_addr = val
        } else if index == 4 {
            self.write_oamdata(val)
        } else if index == 5 {
            self.update_ppuscroll(val)
        } else if index == 6 {
            self.update_ppuaddr(val)
        } else {
            self.write_ppudata(val)
        }
    }
}

} // verus!
