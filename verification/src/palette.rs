//! The fixed table of the 64 colours the picture unit can show.

use vstd::prelude::*;

verus! {

/// One colour of the table, as the three bytes that a pixel takes in the
/// frame buffer, in the order `r`, `g`, `b`.
#[derive(Clone, Copy, PartialEq, Eq, Structural, Debug)]
pub struct Rgb {
    pub r: u8,
    pub g: u8,
    pub b: u8,
}

/// The colour table: three bytes for each of the 64 colour indices.
pub const PALETTE: [u8; 192] = [
    0, 0, 0, 0, 0, 252, 0, 0, 188, 68, 40, 188,
    148, 0, 132, 168, 0, 32, 168, 16, 0, 136, 20, 0,
    80, 48, 0, 0, 120, 0, 0, 104, 0, 0, 88, 0,
    0, 64, 88, 0, 0, 0, 0, 0, 0, 0, 0, 0,
    188, 188, 188, 0, 120, 248, 0, 88, 248, 104, 68, 252,
    216, 0, 204, 228, 0, 88, 248, 56, 0, 228, 92, 16,
    172, 124, 0, 0, 184, 0, 0, 168, 0, 0, 168, 68,
    0, 136, 136, 0, 0, 0, 0, 0, 0, 0, 0, 0,
    248, 248, 248, 60, 188, 252, 104, 136, 252, 152, 120, 248,
    248, 120, 248, 248, 88, 152, 248, 120, 88, 252, 160, 68,
    248, 184, 0, 184, 248, 24, 88, 216, 84, 88, 248, 152,
    0, 232, 216, 120, 120, 120, 0, 0, 0, 0, 0, 0,
    252, 252, 252, 164, 228, 252, 184, 184, 248, 216, 184, 248,
    248, 184, 248, 248, 164, 192, 240, 208, 176, 252, 224, 168,
    248, 216, 120, 216, 248, 120, 184, 248, 184, 184, 248, 216,
    0, 252, 252, 248, 216, 248, 0, 0, 0, 0, 0, 0,
];

/// The colour of a table index below 64: `r` is the third byte of the
/// index's entry, `g` the second, `b` the first.
pub open spec fn palette_color(index: u8) -> Rgb {
    Rgb {
        r: PALETTE@[index * 3 + 2],
        g: PALETTE@[index * 3 + 1],
        b: PALETTE@[index * 3],
    }
}

} // verus!
