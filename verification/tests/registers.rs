use ppu_core::mem::{Mem, Oam, Vram};
use ppu_core::ppu::Ppu;
use ppu_core::regs::{
    PpuAddrByte, PpuCtrl, PpuMask, PpuScrollDir, PpuStatus, SpriteSize,
};

fn blank_chr() -> Vec<u8> {
    vec![0u8; 0x2000]
}

#[test]
fn control_bits_decode() {
    let none = PpuCtrl(0x00);
    assert_eq!(none.x_scroll_offset(), 0);
    assert_eq!(none.y_scroll_offset(), 0);
    assert_eq!(none.vram_addr_increment(), 1);
    assert_eq!(none.sprite_pattern_table_addr(), 0);
    assert_eq!(none.background_pattern_table_addr(), 0);
    assert_eq!(none.sprite_size(), SpriteSize::SpriteSize8x8);
    assert!(!none.vblank_nmi());
    let all = PpuCtrl(0xff);
    assert_eq!(all.x_scroll_offset(), 256);
    assert_eq!(all.y_scroll_offset(), 240);
    assert_eq!(all.vram_addr_increment(), 32);
    assert_eq!(all.sprite_pattern_table_addr(), 0x1000);
    assert_eq!(all.background_pattern_table_addr(), 0x1000);
    assert_eq!(all.sprite_size(), SpriteSize::SpriteSize8x16);
    assert!(all.vblank_nmi());
    assert_eq!(PpuCtrl(0x04).vram_addr_increment(), 32);
    assert_eq!(PpuCtrl(0x04).x_scroll_offset(), 0);
    assert_eq!(PpuCtrl(0x08).sprite_pattern_table_addr(), 0x1000);
    assert_eq!(PpuCtrl(0x08).background_pattern_table_addr(), 0);
    assert_eq!(PpuCtrl(0x10).background_pattern_table_addr(), 0x1000);
    assert_eq!(PpuCtrl(0x20).sprite_size(), SpriteSize::SpriteSize8x16);
    assert!(PpuCtrl(0x80).vblank_nmi());
    assert!(!PpuCtrl(0x7f).vblank_nmi());
}

#[test]
fn mask_bits_decode() {
    let none = PpuMask(0x00);
    assert!(!none.grayscale());
    assert!(!none.show_background_on_left());
    assert!(!none.show_sprites_on_left());
    assert!(!none.show_background());
    assert!(!none.show_sprites());
    assert!(!none.intensify_reds());
    assert!(!none.intensify_greens());
    assert!(!none.intensity_blues());
    assert!(PpuMask(0x01).grayscale());
    assert!(PpuMask(0x02).show_background_on_left());
    assert!(PpuMask(0x04).show_sprites_on_left());
    assert!(PpuMask(0x08).show_background());
    assert!(!PpuMask(0x08).show_sprites());
    assert!(PpuMask(0x10).show_sprites());
    assert!(PpuMask(0x20).intensify_reds());
    assert!(PpuMask(0x40).intensify_greens());
    assert!(PpuMask(0x80).intensity_blues());
}

#[test]
fn status_flags_set_and_clear() {
    let mut status = PpuStatus(0x01);
    status.set_sprite_overflow(true);
    assert_eq!(status.0, 0x21);
    status.set_sprite_zero_hit(true);
    assert_eq!(status.0, 0x61);
    status.set_in_vblank(true);
    assert_eq!(status.0, 0xe1);
    status.set_sprite_overflow(false);
    assert_eq!(status.0, 0xc1);
    status.set_sprite_zero_hit(false);
    assert_eq!(status.0, 0x81);
    status.set_in_vblank(false);
    assert_eq!(status.0, 0x01);
    status.set_in_vblank(false);
    assert_eq!(status.0, 0x01);
}

#[test]
fn new_unit_is_cleared() {
    let chr = blank_chr();
    let ppu = Ppu::new(Vram::new(&chr), Oam::new());
    assert_eq!(ppu.regs.ctrl.0, 0);
    assert_eq!(ppu.regs.mask.0, 0);
    assert_eq!(ppu.regs.status.0, 0);
    assert_eq!(ppu.regs.oam_addr, 0);
    assert_eq!(ppu.regs.scroll.next, PpuScrollDir::XDir);
    assert_eq!(ppu.regs.addr.next, PpuAddrByte::Hi);
    assert_eq!(ppu.regs.addr.val, 0);
    assert_eq!(ppu.screen.len(), 184320);
    assert!(ppu.screen.iter().all(|b| *b == 0));
    assert_eq!(ppu.scanline, 0);
    assert_eq!(ppu.cy, 0);
    assert_eq!(ppu.scroll_x, 0);
    assert_eq!(ppu.scroll_y, 0);
    assert_eq!(ppu.ppudata_buffer, 0);
}

#[test]
fn control_write_sets_scroll_high_bits() {
    let chr = blank_chr();
    let mut ppu = Ppu::new(Vram::new(&chr), Oam::new());
    ppu.storeb(0x2005, 0x12);
    ppu.storeb(0x2005, 0x05);
    ppu.storeb(0x2000, 0x01);
    assert_eq!(ppu.regs.ctrl.0, 0x01);
    assert_eq!(ppu.scroll_x, 0x112);
    assert_eq!(ppu.scroll_y, 0x05);
    ppu.storeb(0x2000, 0x02);
    assert_eq!(ppu.scroll_x, 0x12);
    assert_eq!(ppu.scroll_y, 0x05 | 240);
    assert_eq!(ppu.loadb(0x2000), 0x02);
}

#[test]
fn mask_write_and_read() {
    let chr = blank_chr();
    let mut ppu = Ppu::new(Vram::new(&chr), Oam::new());
    ppu.storeb(0x2001, 0x1e);
    assert_eq!(ppu.regs.mask.0, 0x1e);
    assert_eq!(ppu.loadb(0x2001), 0x1e);
}

#[test]
fn status_register_ignores_stores() {
    let chr = blank_chr();
    let mut ppu = Ppu::new(Vram::new(&chr), Oam::new());
    ppu.regs.status = PpuStatus(0xa0);
    ppu.storeb(0x2002, 0x00);
    assert_eq!(ppu.regs.status.0, 0xa0);
    assert_eq!(ppu.loadb(0x2002), 0xa0);
    assert_eq!(ppu.regs.status.0, 0xa0);
}

#[test]
fn write_only_registers_read_zero() {
    let chr = blank_chr();
    let mut ppu = Ppu::new(Vram::new(&chr), Oam::new());
    ppu.storeb(0x2003, 0x44);
    ppu.storeb(0x2005, 0x55);
    ppu.storeb(0x2006, 0x21);
    assert_eq!(ppu.loadb(0x2003), 0);
    assert_eq!(ppu.loadb(0x2005), 0);
    assert_eq!(ppu.loadb(0x2006), 0);
    assert_eq!(ppu.regs.oam_addr, 0x44);
}

#[test]
fn window_is_selected_by_the_low_three_bits() {
    let chr = blank_chr();
    let mut ppu = Ppu::new(Vram::new(&chr), Oam::new());
    ppu.storeb(0x2009, 0x18);
    assert_eq!(ppu.regs.mask.0, 0x18);
    ppu.storeb(0x3ff8, 0x80);
    assert_eq!(ppu.regs.ctrl.0, 0x80);
    assert_eq!(ppu.loadb(0x3ff9), 0x18);
}

#[test]
fn scroll_writes_after_status_read_go_x_then_y() {
    let chr = blank_chr();
    let mut ppu = Ppu::new(Vram::new(&chr), Oam::new());
    ppu.storeb(0x2005, 0x99);
    assert_eq!(ppu.regs.scroll.next, PpuScrollDir::YDir);
    ppu.loadb(0x2002);
    assert_eq!(ppu.regs.scroll.next, PpuScrollDir::XDir);
    ppu.storeb(0x2005, 0x11);
    ppu.storeb(0x2005, 0x22);
    assert_eq!(ppu.regs.scroll.x, 0x11);
    assert_eq!(ppu.regs.scroll.y, 0x22);
    assert_eq!(ppu.scroll_x, 0x11);
    assert_eq!(ppu.scroll_y, 0x22);
    assert_eq!(ppu.regs.scroll.next, PpuScrollDir::XDir);
}

#[test]
fn address_writes_after_status_read_go_hi_then_lo() {
    let chr = blank_chr();
    let mut ppu = Ppu::new(Vram::new(&chr), Oam::new());
    ppu.storeb(0x2006, 0x3f);
    assert_eq!(ppu.regs.addr.next, PpuAddrByte::Lo);
    assert_eq!(ppu.loadb(0x2002), 0);
    assert_eq!(ppu.regs.addr.next, PpuAddrByte::Hi);
    ppu.storeb(0x2006, 0x21);
    ppu.storeb(0x2006, 0x08);
    assert_eq!(ppu.regs.addr.val, 0x2108);
    assert_eq!(ppu.regs.addr.next, PpuAddrByte::Hi);
}

#[test]
fn address_low_write_moves_horizontal_scroll() {
    let chr = blank_chr();
    let mut ppu = Ppu::new(Vram::new(&chr), Oam::new());
    ppu.storeb(0x2005, 0x07);
    ppu.storeb(0x2005, 0x00);
    ppu.storeb(0x2006, 0x24);
    assert_eq!(ppu.scroll_x, 0x07);
    ppu.storeb(0x2006, 0x00);
    assert_eq!(ppu.regs.addr.val, 0x2400);
    assert_eq!(ppu.scroll_x, 0x107);
    ppu.storeb(0x2006, 0x20);
    ppu.storeb(0x2006, 0x10);
    assert_eq!(ppu.scroll_x, 0x07);
    ppu.storeb(0x2006, 0x2b);
    ppu.storeb(0x2006, 0xff);
    assert_eq!(ppu.scroll_x, 0x07);
    ppu.storeb(0x2006, 0x2c);
    ppu.storeb(0x2006, 0x00);
    assert_eq!(ppu.scroll_x, 0x107);
}

#[test]
fn oam_data_writes_at_the_cursor_and_wraps() {
    let chr = blank_chr();
    let mut ppu = Ppu::new(Vram::new(&chr), Oam::new());
    ppu.storeb(0x2003, 0xfe);
    ppu.storeb(0x2004, 0x0a);
    ppu.storeb(0x2004, 0x0b);
    ppu.storeb(0x2004, 0x0c);
    assert_eq!(ppu.regs.oam_addr, 0x01);
    assert_eq!(ppu.oam.loadb(0xfe), 0x0a);
    assert_eq!(ppu.oam.loadb(0xff), 0x0b);
    assert_eq!(ppu.oam.loadb(0x00), 0x0c);
    assert_eq!(ppu.oam.loadb(0x01), 0);
}

#[test]
fn data_write_stores_and_advances_by_one() {
    let chr = blank_chr();
    let mut ppu = Ppu::new(Vram::new(&chr), Oam::new());
    ppu.storeb(0x2006, 0x20);
    ppu.storeb(0x2006, 0x00);
    ppu.storeb(0x2007, 0xa1);
    ppu.storeb(0x2007, 0xa2);
    assert_eq!(ppu.regs.addr.val, 0x2002);
    assert_eq!(ppu.vram.loadb(0x2000), 0xa1);
    assert_eq!(ppu.vram.loadb(0x2001), 0xa2);
}

#[test]
fn data_write_advances_by_thirty_two() {
    let chr = blank_chr();
    let mut ppu = Ppu::new(Vram::new(&chr), Oam::new());
    ppu.storeb(0x2000, 0x04);
    ppu.storeb(0x2006, 0x20);
    ppu.storeb(0x2006, 0x00);
    ppu.storeb(0x2007, 0xb1);
    ppu.storeb(0x2007, 0xb2);
    assert_eq!(ppu.regs.addr.val, 0x2040);
    assert_eq!(ppu.vram.loadb(0x2000), 0xb1);
    assert_eq!(ppu.vram.loadb(0x2020), 0xb2);
    assert_eq!(ppu.vram.loadb(0x2001), 0);
}

#[test]
fn data_read_below_palette_is_one_read_behind() {
    let chr = blank_chr();
    let mut ppu = Ppu::new(Vram::new(&chr), Oam::new());
    ppu.vram.storeb(0x2100, 0x5a);
    ppu.vram.storeb(0x2101, 0x5b);
    ppu.storeb(0x2006, 0x21);
    ppu.storeb(0x2006, 0x00);
    assert_eq!(ppu.loadb(0x2007), 0x00);
    assert_eq!(ppu.ppudata_buffer, 0x5a);
    assert_eq!(ppu.loadb(0x2007), 0x5a);
    assert_eq!(ppu.loadb(0x2007), 0x5b);
    assert_eq!(ppu.regs.addr.val, 0x2103);
}

#[test]
fn data_read_in_palette_is_direct() {
    let chr = blank_chr();
    let mut ppu = Ppu::new(Vram::new(&chr), Oam::new());
    ppu.vram.storeb(0x3f01, 0x2d);
    ppu.ppudata_buffer = 0x77;
    ppu.storeb(0x2006, 0x3f);
    ppu.storeb(0x2006, 0x01);
    assert_eq!(ppu.loadb(0x2007), 0x2d);
    assert_eq!(ppu.ppudata_buffer, 0x77);
    assert_eq!(ppu.regs.addr.val, 0x3f02);
}

#[test]
fn data_read_of_pattern_bytes_through_the_buffer() {
    let mut chr = blank_chr();
    chr[0x0123] = 0xc3;
    let mut ppu = Ppu::new(Vram::new(&chr), Oam::new());
    ppu.storeb(0x2006, 0x01);
    ppu.storeb(0x2006, 0x23);
    assert_eq!(ppu.loadb(0x2007), 0x00);
    assert_eq!(ppu.loadb(0x2007), 0xc3);
}
