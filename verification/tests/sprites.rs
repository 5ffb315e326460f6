use ppu_core::mem::{Mem, Oam, Vram};
use ppu_core::ppu::Ppu;
use ppu_core::regs::PpuCtrl;
use ppu_core::sprite::{Sprite, SpritePriority, SpriteTiles};

fn blank_chr() -> Vec<u8> {
    vec![0u8; 0x2000]
}

#[test]
fn sprite_rows_of_an_eight_line_sprite() {
    let chr = blank_chr();
    let mut ppu = Ppu::new(Vram::new(&chr), Oam::new());
    ppu.oam.storeb(0, 10);
    ppu.oam.storeb(1, 1);
    ppu.oam.storeb(2, 0);
    ppu.oam.storeb(3, 5);
    let sprite = ppu.make_sprite_info(0);
    assert_eq!(sprite, Sprite { x: 5, y: 11, tile_index_byte: 1, attribute_byte: 0 });
    assert!(!sprite.on_scanline(&ppu, 10));
    assert!(sprite.on_scanline(&ppu, 11));
    assert!(sprite.on_scanline(&ppu, 18));
    assert!(!sprite.on_scanline(&ppu, 19));
}

#[test]
fn sprite_rows_of_a_sixteen_line_sprite() {
    let chr = blank_chr();
    let mut ppu = Ppu::new(Vram::new(&chr), Oam::new());
    ppu.regs.ctrl = PpuCtrl(0x20);
    let sprite = Sprite { x: 5, y: 11, tile_index_byte: 1, attribute_byte: 0 };
    assert!(!sprite.on_scanline(&ppu, 10));
    assert!(sprite.on_scanline(&ppu, 11));
    assert!(sprite.on_scanline(&ppu, 26));
    assert!(!sprite.on_scanline(&ppu, 27));
}

#[test]
fn sprite_rows_near_the_bottom_do_not_wrap() {
    let chr = blank_chr();
    let ppu = Ppu::new(Vram::new(&chr), Oam::new());
    let sprite = Sprite { x: 0, y: 250, tile_index_byte: 0, attribute_byte: 0 };
    assert!(!sprite.on_scanline(&ppu, 249));
    assert!(sprite.on_scanline(&ppu, 250));
    assert!(sprite.on_scanline(&ppu, 255));
    assert!(!sprite.on_scanline(&ppu, 0));
    assert!(!sprite.on_scanline(&ppu, 1));
}

#[test]
fn bounding_box_is_eight_columns_wide() {
    let chr = blank_chr();
    let ppu = Ppu::new(Vram::new(&chr), Oam::new());
    let sprite = Sprite { x: 5, y: 11, tile_index_byte: 1, attribute_byte: 0 };
    assert!(!sprite.in_bounding_box(&ppu, 4, 11));
    assert!(sprite.in_bounding_box(&ppu, 5, 11));
    assert!(sprite.in_bounding_box(&ppu, 12, 18));
    assert!(!sprite.in_bounding_box(&ppu, 13, 11));
    assert!(!sprite.in_bounding_box(&ppu, 5, 10));
    assert!(!sprite.in_bounding_box(&ppu, 5, 19));
}

#[test]
fn bounding_box_at_the_right_edge() {
    let chr = blank_chr();
    let ppu = Ppu::new(Vram::new(&chr), Oam::new());
    let sprite = Sprite { x: 252, y: 20, tile_index_byte: 0, attribute_byte: 0 };
    assert!(!sprite.in_bounding_box(&ppu, 251, 20));
    assert!(sprite.in_bounding_box(&ppu, 252, 20));
    assert!(sprite.in_bounding_box(&ppu, 255, 20));
    assert!(!sprite.in_bounding_box(&ppu, 0, 20));
}

#[test]
fn tiles_of_an_eight_line_sprite_take_the_control_base() {
    let chr = blank_chr();
    let mut ppu = Ppu::new(Vram::new(&chr), Oam::new());
    let sprite = Sprite { x: 0, y: 0, tile_index_byte: 0x37, attribute_byte: 0 };
    assert_eq!(sprite.tiles(&ppu), SpriteTiles::SpriteTiles8x8(0x0037));
    ppu.regs.ctrl = PpuCtrl(0x08);
    assert_eq!(sprite.tiles(&ppu), SpriteTiles::SpriteTiles8x8(0x1037));
}

#[test]
fn tiles_of_a_sixteen_line_sprite_take_the_low_bit() {
    let chr = blank_chr();
    let mut ppu = Ppu::new(Vram::new(&chr), Oam::new());
    ppu.regs.ctrl = PpuCtrl(0x28);
    let even = Sprite { x: 0, y: 0, tile_index_byte: 0x36, attribute_byte: 0 };
    assert_eq!(even.tiles(&ppu), SpriteTiles::SpriteTiles8x16(0x0036, 0x0037));
    let odd = Sprite { x: 0, y: 0, tile_index_byte: 0x37, attribute_byte: 0 };
    assert_eq!(odd.tiles(&ppu), SpriteTiles::SpriteTiles8x16(0x1036, 0x1037));
    let last = Sprite { x: 0, y: 0, tile_index_byte: 0xff, attribute_byte: 0 };
    assert_eq!(last.tiles(&ppu), SpriteTiles::SpriteTiles8x16(0x10fe, 0x10ff));
    ppu.regs.ctrl = PpuCtrl(0x20);
    assert_eq!(odd.tiles(&ppu), SpriteTiles::SpriteTiles8x16(0x1036, 0x1037));
}

#[test]
fn attribute_bits_decode() {
    let plain = Sprite { x: 0, y: 0, tile_index_byte: 0, attribute_byte: 0x00 };
    assert_eq!(plain.palette(), 4);
    assert!(!plain.flip_horizontal());
    assert!(!plain.flip_vertical());
    assert_eq!(plain.priority(), SpritePriority::AboveBg);
    let all = Sprite { x: 0, y: 0, tile_index_byte: 0, attribute_byte: 0xff };
    assert_eq!(all.palette(), 7);
    assert!(all.flip_horizontal());
    assert!(all.flip_vertical());
    assert_eq!(all.priority(), SpritePriority::BelowBg);
    let two = Sprite { x: 0, y: 0, tile_index_byte: 0, attribute_byte: 0x42 };
    assert_eq!(two.palette(), 6);
    assert!(two.flip_horizontal());
    assert!(!two.flip_vertical());
    assert_eq!(two.priority(), SpritePriority::AboveBg);
    let under = Sprite { x: 0, y: 0, tile_index_byte: 0, attribute_byte: 0xa1 };
    assert_eq!(under.palette(), 5);
    assert!(under.flip_vertical());
    assert_eq!(under.priority(), SpritePriority::BelowBg);
}

#[test]
fn sprite_row_byte_255_wraps_to_row_zero() {
    let chr = blank_chr();
    let mut ppu = Ppu::new(Vram::new(&chr), Oam::new());
    ppu.oam.storeb(4 * 63, 255);
    ppu.oam.storeb(4 * 63 + 1, 0x12);
    ppu.oam.storeb(4 * 63 + 2, 0x34);
    ppu.oam.storeb(4 * 63 + 3, 0x56);
    let sprite = ppu.make_sprite_info(63);
    assert_eq!(sprite, Sprite { x: 0x56, y: 0, tile_index_byte: 0x12, attribute_byte: 0x34 });
}
