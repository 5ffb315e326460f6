//! The picture-processing core of a tile-based console: its registers, its
//! video and sprite memories, sprite selection, pixel compositing and the
//! scanline clock, each with a contract over a mathematical model.

pub mod mem;
pub mod palette;
pub mod ppu;
pub mod sprite;
pub mod regs;
pub mod render;
pub mod timing;
