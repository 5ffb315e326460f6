//! Byte-addressable stores: the capability that the picture unit asks of its
//! memories, and the two memories it is normally given.

use vstd::prelude::*;

verus! {

/// A byte store addressed by 16-bit addresses.
///
/// Its model is a map from the addresses it answers to the byte that a load
/// there gives. A load leaves the model as it was; a store changes it by
/// `stored`, which depends on the model, the address and the byte alone.
pub trait Mem {
    /// The store's internal invariant.
    spec fn wf(&self) -> bool;

    /// What a load gives, for each address the store answers.
    spec fn cells(&self) -> Map<u16, u8>;

    /// The model after `val` was stored at `addr`.
    spec fn stored(cells: Map<u16, u8>, addr: u16, val: u8) -> Map<u16, u8>;

    /// Loads the byte at `addr`. The store's model stays as it was.
    fn loadb(&mut self, addr: u16) -> (val: u8)
        requires
            old(self).wf(),
            old(self).cells().dom().contains(addr),
        ensures
            final(self).wf(),
            final(self).cells() == old(self).cells(),
            val == old(self).cells()[addr],
    ;

    /// Stores `val` at `addr`. The store answers the same addresses after.
    fn storeb(&mut self, addr: u16, val: u8)
        requires
            old(self).wf(),
            old(self).cells().dom().contains(addr),
        ensures
            final(self).wf(),
            final(self).cells() == Self::stored(old(self).cells(), addr, val),
            final(self).cells().dom() == old(self).cells().dom(),
    ;
}

/// Sprite memory: 256 bytes, addressed directly.
pub struct Oam {
    pub oam: [u8; 0x100],
}

impl Oam {
    /// A sprite memory of zeros.
    pub fn new() -> (oam: Oam)
        ensures
            oam.wf(),
            forall|a: u16| a < 0x100 ==> oam.cells()[a] == 0,
    {
        Oam { oam: [0u8; 0x100] }
    }
}

impl Mem for Oam {
    open spec fn wf(&self) -> bool {
        true
    }

    open spec fn cells(&self) -> Map<u16, u8> {
        Map::new(|a: u16| a < 0x100, |a: u16| self.oam@[a as int])
    }

    open spec fn stored(cells: Map<u16, u8>, addr: u16, val: u8) -> Map<u16, u8> {
        cells.insert(addr, val)
    }

    fn loadb(&mut self, addr: u16) -> (val: u8) {
        self.oam[addr as usize]
    }

    fn storeb(&mut self, addr: u16, val: u8) {
        self.oam[addr as usize] = val;
        assert(self.cells() =~= Self::stored(old(self).cells(), addr, val));
    }
}

/// Video memory: the cartridge's pattern bytes (read-only), two name tables
/// mirrored through 11 address bits, and 32 palette cells.
pub struct Vram<'a> {
    pub chr: &'a [u8],
    pub nametables: [u8; 0x800],
    pub palette: [u8; 0x20],
}

/// The palette cell that a store at `addr` writes: cell 0x10 gives way to cell 0.
pub open spec fn palette_store_cell(addr: u16) -> u16 {
    if addr & 0x1f == 0x10 {
        0
    } else {
        addr & 0x1f
    }
}

/// Whether a store at `addr` changes what a load at `at` gives.
pub open spec fn vram_store_reaches(addr: u16, at: u16) -> bool {
    if 0x2000 <= addr < 0x3f00 {
        0x2000 <= at < 0x3f00 && at & 0x7ff == addr & 0x7ff
    } else if 0x3f00 <= addr < 0x4000 {
        0x3f00 <= at < 0x4000 && at & 0x1f == palette_store_cell(addr)
    } else {
        false
    }
}

impl<'a> Vram<'a> {
    /// A video memory over the cartridge's pattern bytes, which must cover
    /// the pattern range, with name tables and palette cleared.
    pub fn new(chr: &'a [u8]) -> (vram: Vram<'a>)
        requires
            chr@.len() >= 0x2000,
        ensures
            vram.wf(),
            vram.chr@ == chr@,
            forall|a: u16| a < 0x2000 ==> vram.cells()[a] == chr@[a as int],
            forall|a: u16| 0x2000 <= a < 0x4000 ==> vram.cells()[a] == 0,
    {
        let vram = Vram { chr, nametables: [0u8; 0x800], palette: [0u8; 0x20] };
        assert forall|a: u16| 0x2000 <= a < 0x4000 implies vram.cells()[a] == 0 by {
            assert(a & 0x7ff < 0x800 && a & 0x1f < 0x20) by (bit_vector);
        }
        vram
    }
}

impl<'a> Mem for Vram<'a> {
    open spec fn wf(&self) -> bool {
        self.chr@.len() >= 0x2000
    }

    open spec fn cells(&self) -> Map<u16, u8> {
        Map::new(
            |a: u16| a < 0x4000,
            |a: u16|
                if a < 0x2000 {
                    self.chr@[a as int]
                } else if a < 0x3f00 {
                    self.nametables@[(a & 0x7ff) as int]
                } else {
                    self.palette@[(a & 0x1f) as int]
                },
        )
    }

    open spec fn stored(cells: Map<u16, u8>, addr: u16, val: u8) -> Map<u16, u8> {
        Map::new(
            |at: u16| cells.dom().contains(at),
            |at: u16|
                if vram_store_reaches(addr, at) {
                    val
                } else {
                    cells[at]
                },
        )
    }

    fn loadb(&mut self, addr: u16) -> (val: u8) {
        if addr < 0x2000 {
            self.chr[addr as usize]
        } else if addr < 0x3f00 {
            assert(addr & 0x07ff < 0x800) by (bit_vector);
            self.nametables[(addr & 0x07ff) as usize]
        } else {
            assert(addr & 0x1f < 0x20) by (bit_vector);
            self.palette[(addr & 0x1f) as usize]
        }
    }

    fn storeb(&mut self, addr: u16, val: u8) {
        if addr < 0x2000 {
            assert(self.cells() =~= Self::stored(old(self).cells(), addr, val));
            return ;
        }
        if addr < 0x3f00 {
            let cell: u16 = addr & 0x07ff;
            assert(cell < 0x800) by (bit_vector)
                requires
                    cell == addr & 0x07ff,
            ;
            self.nametables[cell as usize] = val;
            assert forall|at: u16| 0x2000 <= at < 0x3f00 implies #[trigger] self.cells()[at] == (
            if at & 0x7ff == cell {
                val
            } else {
                old(self).cells()[at]
            }) by {
                assert(at & 0x7ff < 0x800) by (bit_vector);
            }
            assert(self.cells() =~= Self::stored(old(self).cells(), addr, val));
        } else {
            let mut cell: u16 = addr & 0x1f;
            if cell == 0x10 {
                cell = 0x00;
            }
            assert(cell < 0x20) by (bit_vector)
                requires
                    cell == addr & 0x1f || cell == 0,
            ;
            self.palette[cell as usize] = val;
            assert forall|at: u16| 0x3f00 <= at < 0x4000 implies #[trigger] self.cells()[at] == (
            if at & 0x1f == cell {
                val
            } else {
                old(self).cells()[at]
            }) by {
                assert(at & 0x1f < 0x20) by (bit_vector);
            }
            assert(self.cells() =~= Self::stored(old(self).cells(), addr, val));
        }
    }
}

/// Name-table mirroring: a byte stored anywhere in the name-table range is
/// the byte then loaded at the address that differs in bit 11, where that
/// address lies in the range too.
pub proof fn law_nametable_mirror(vram: Vram, addr: u16, val: u8)
    requires
        vram.wf(),
        0x2000 <= addr < 0x3f00,
        0x2000 <= addr ^ 0x800 < 0x3f00,
    ensures
        Vram::stored(vram.cells(), addr, val)[addr ^ 0x800] == val,
        Vram::stored(vram.cells(), addr, val)[addr] == val,
{
    assert((addr ^ 0x800) & 0x7ff == addr & 0x7ff) by (bit_vector);
}

/// A byte below 0x40 stored at palette address 0x3F10 is the backdrop colour
/// index, its low six bits, that a load at 0x3F00 then gives.
pub proof fn law_palette_mirror_write(vram: Vram, val: u8)
    requires
        vram.wf(),
        val < 0x40,
    ensures
        Vram::stored(vram.cells(), 0x3f10, val)[0x3f00] == val & 0x3f,
{
    assert(0x3f10u16 & 0x1f == 0x10 && 0x3f00u16 & 0x1f == 0) by (bit_vector);
    assert(val & 0x3f == val) by (bit_vector)
        requires
            val < 0x40,
    ;
}

/// The palette alias runs one way. A store at 0x3F10 lands in the cell that
/// 0x3F00 reads, whatever the byte; the cell that 0x3F10 reads is changed
/// neither by that store nor by a store at 0x3F00.
pub proof fn law_palette_alias_one_way(vram: Vram, val: u8)
    requires
        vram.wf(),
    ensures
        Vram::stored(vram.cells(), 0x3f10, val)[0x3f00] == val,
        Vram::stored(vram.cells(), 0x3f10, val)[0x3f10] == vram.cells()[0x3f10],
        Vram::stored(vram.cells(), 0x3f00, val)[0x3f10] == vram.cells()[0x3f10],
        Vram::stored(vram.cells(), 0x3f00, val)[0x3f00] == val,
{
    assert(0x3f10u16 & 0x1f == 0x10 && 0x3f00u16 & 0x1f == 0) by (bit_vector);
}

} // verus!
