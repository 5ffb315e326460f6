use ppu_core::mem::{Mem, Oam, Vram};

fn pattern_bytes() -> Vec<u8> {
    let mut chr = vec![0u8; 0x2000];
    for i in 0..0x2000usize {
        chr[i] = (i % 251) as u8;
    }
    chr
}

#[test]
fn vram_starts_cleared_over_the_pattern_bytes() {
    let chr = pattern_bytes();
    let mut vram = Vram::new(&chr);
    assert_eq!(vram.loadb(0x0000), 0);
    assert_eq!(vram.loadb(0x0005), 5);
    assert_eq!(vram.loadb(0x1fff), (0x1fffusize % 251) as u8);
    assert_eq!(vram.loadb(0x2000), 0);
    assert_eq!(vram.loadb(0x3eff), 0);
    assert_eq!(vram.loadb(0x3f00), 0);
    assert_eq!(vram.loadb(0x3fff), 0);
}

#[test]
fn pattern_region_ignores_stores() {
    let chr = pattern_bytes();
    let mut vram = Vram::new(&chr);
    vram.storeb(0x0010, 0xaa);
    vram.storeb(0x1fff, 0xbb);
    assert_eq!(vram.loadb(0x0010), 0x10);
    assert_eq!(vram.loadb(0x1fff), (0x1fffusize % 251) as u8);
    assert_eq!(vram.loadb(0x2010), 0);
}

#[test]
fn nametable_store_is_seen_at_the_mirror() {
    let chr = pattern_bytes();
    let mut vram = Vram::new(&chr);
    vram.storeb(0x2005, 0x42);
    assert_eq!(vram.loadb(0x2005), 0x42);
    assert_eq!(vram.loadb(0x2005 ^ 0x800), 0x42);
    assert_eq!(vram.loadb(0x3005), 0x42);
    assert_eq!(vram.loadb(0x2006), 0);
    vram.storeb(0x2c10, 0x17);
    assert_eq!(vram.loadb(0x2410), 0x17);
    assert_eq!(vram.loadb(0x2c10), 0x17);
    assert_eq!(vram.loadb(0x2010), 0);
}

#[test]
fn nametable_mirror_holds_for_every_address() {
    let chr = pattern_bytes();
    let mut vram = Vram::new(&chr);
    let mut addr: u16 = 0x2000;
    while addr < 0x3f00 {
        let other = addr ^ 0x800;
        if other >= 0x2000 && other < 0x3f00 {
            let val = (addr % 253) as u8 + 1;
            vram.storeb(addr, val);
            assert_eq!(vram.loadb(other), val);
        }
        addr += 7;
    }
}

#[test]
fn palette_is_mirrored_every_32_bytes() {
    let chr = pattern_bytes();
    let mut vram = Vram::new(&chr);
    vram.storeb(0x3f05, 0x2a);
    assert_eq!(vram.loadb(0x3f05), 0x2a);
    assert_eq!(vram.loadb(0x3f25), 0x2a);
    assert_eq!(vram.loadb(0x3fe5), 0x2a);
    assert_eq!(vram.loadb(0x3f04), 0);
}

#[test]
fn palette_cell_sixteen_writes_cell_zero() {
    let chr = pattern_bytes();
    let mut vram = Vram::new(&chr);
    vram.storeb(0x3f10, 0x2c);
    assert_eq!(vram.loadb(0x3f00), 0x2c & 0x3f);
    assert_eq!(vram.loadb(0x3f00), 0x2c);
    assert_eq!(vram.loadb(0x3f10), 0);
}

#[test]
fn palette_cell_zero_does_not_write_cell_sixteen() {
    let chr = pattern_bytes();
    let mut vram = Vram::new(&chr);
    vram.storeb(0x3f00, 0x11);
    assert_eq!(vram.loadb(0x3f00), 0x11);
    assert_eq!(vram.loadb(0x3f10), 0);
    vram.storeb(0x3f10, 0x22);
    assert_eq!(vram.loadb(0x3f00), 0x22);
    assert_eq!(vram.loadb(0x3f10), 0);
}

#[test]
fn palette_keeps_the_whole_byte() {
    let chr = pattern_bytes();
    let mut vram = Vram::new(&chr);
    vram.storeb(0x3f10, 0xff);
    assert_eq!(vram.loadb(0x3f00), 0xff);
    assert_eq!(vram.loadb(0x3f00) & 0x3f, 0x3f);
}

#[test]
fn oam_is_a_flat_store() {
    let mut oam = Oam::new();
    assert_eq!(oam.loadb(0), 0);
    assert_eq!(oam.loadb(255), 0);
    oam.storeb(0, 7);
    oam.storeb(255, 9);
    oam.storeb(128, 0xee);
    assert_eq!(oam.loadb(0), 7);
    assert_eq!(oam.loadb(255), 9);
    assert_eq!(oam.loadb(128), 0xee);
    assert_eq!(oam.loadb(1), 0);
}
