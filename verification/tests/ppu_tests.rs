use nes::cartridge::{Cartridge, Mirror};
use nes::ppu::PPU;

fn new_ppu() -> PPU {
    let cart = Cartridge::new_dummy();
    PPU::new(&cart)
}

#[test]
fn test_write_vram() {
    let mut ppu = new_ppu();
    ppu.write_addr_reg(0x23);
    ppu.write_addr_reg(0x05);
    ppu.write_data_reg(0x66);

    assert_eq!(ppu.vram[ppu.get_mirrored_vram_addr(0x2305) as usize], 0x66);
}

#[test]
fn test_read_vram() {
    let mut ppu = new_ppu();
    ppu.write_ctrl_reg(0);
    let idx = ppu.get_mirrored_vram_addr(0x2305) as usize;
    ppu.vram[idx] = 0x66;

    ppu.write_addr_reg(0x23);
    ppu.write_addr_reg(0x05);

    ppu.read_data_reg(); // load into the buffer
    assert_eq!(ppu.addr_reg.get(), 0x2306);
    assert_eq!(ppu.read_data_reg(), 0x66);
}

#[test]
fn test_write_then_read_vram() {
    let mut ppu = new_ppu();
    ppu.write_addr_reg(0x20);
    ppu.write_addr_reg(0x00);
    // 0x2000 => 0x00
    ppu.write_data_reg(0x00);
    // 0x2001 => 0x01
    ppu.write_data_reg(0x01);
    // 0x2002 => 0x02
    ppu.write_data_reg(0x02);

    ppu.write_addr_reg(0x20);
    ppu.write_addr_reg(0x00);
    ppu.read_data_reg();
    assert_eq!(ppu.read_data_reg(), 0x00);
    assert_eq!(ppu.read_data_reg(), 0x01);
    assert_eq!(ppu.read_data_reg(), 0x02);
    assert_eq!(ppu.read_data_reg(), 0x00);
}

#[test]
fn test_read_vram_cross_page() {
    let mut ppu = new_ppu();
    ppu.write_ctrl_reg(0);
    ppu.vram[0x01ff] = 0x66;
    ppu.vram[0x0200] = 0x77;

    ppu.write_addr_reg(0x21);
    ppu.write_addr_reg(0xff);

    ppu.read_data_reg(); // load into the buffer
    assert_eq!(ppu.read_data_reg(), 0x66);
    assert_eq!(ppu.read_data_reg(), 0x77);
}

#[test]
fn test_read_vram_step_32() {
    let mut ppu = new_ppu();
    ppu.write_ctrl_reg(0b100);
    ppu.vram[0x01ff] = 0x66;
    ppu.vram[0x01ff + 32] = 0x77;
    ppu.vram[0x01ff + 64] = 0x88;

    ppu.write_addr_reg(0x21);
    ppu.write_addr_reg(0xff);

    ppu.read_data_reg(); // load into the buffer
    assert_eq!(ppu.read_data_reg(), 0x66);
    assert_eq!(ppu.read_data_reg(), 0x77);
    assert_eq!(ppu.read_data_reg(), 0x88);
}

#[test]
fn test_vram_horizontal_mirror() {
    let mut ppu = new_ppu();
    ppu.mirror = Mirror::Horizontal;

    ppu.write_addr_reg(0x24);
    ppu.write_addr_reg(0x05);

    ppu.write_data_reg(0x66); // write to a

    ppu.write_addr_reg(0x28);
    ppu.write_addr_reg(0x05);

    ppu.write_data_reg(0x77); // write to B

    ppu.write_addr_reg(0x20);
    ppu.write_addr_reg(0x05);

    ppu.read_data_reg(); // load into the buffer
    assert_eq!(ppu.read_data_reg(), 0x66); // read from A

    ppu.write_addr_reg(0x2C);
    ppu.write_addr_reg(0x05);

    ppu.read_data_reg(); // load into the buffer
    assert_eq!(ppu.read_data_reg(), 0x77); // read from b
}

#[test]
fn test_vram_vertical_mirror() {
    let mut ppu = new_ppu();
    ppu.mirror = Mirror::Vertical;

    ppu.write_addr_reg(0x20);
    ppu.write_addr_reg(0x05);

    ppu.write_data_reg(0x66); // write to A

    ppu.write_addr_reg(0x2C);
    ppu.write_addr_reg(0x05);

    ppu.write_data_reg(0x77); // write to b

    ppu.write_addr_reg(0x28);
    ppu.write_addr_reg(0x05);

    ppu.read_data_reg(); // load into the buffer
    assert_eq!(ppu.read_data_reg(), 0x66); // read from a

    ppu.write_addr_reg(0x24);
    ppu.write_addr_reg(0x05);

    ppu.read_data_reg(); // load into the buffer
    assert_eq!(ppu.read_data_reg(), 0x77); // read from B
}

#[test]
fn test_vram_mirroring() {
    let mut ppu = new_ppu();

    ppu.write_ctrl_reg(0);
    ppu.vram[0x0305] = 0x66;

    ppu.write_addr_reg(0x63); // 0x6305 -> 0x2305
    ppu.write_addr_reg(0x05);

    ppu.read_data_reg(); // load into the buffer
    assert_eq!(ppu.read_data_reg(), 0x66);
}

#[test]
fn test_read_status_resets_vblank() {
    let mut ppu = new_ppu();
    ppu.status_reg.set_vblank_started(true);

    let status = ppu.read_status_reg();

    assert_eq!(status >> 7, 1);
    assert_eq!(ppu.status_reg.read() >> 7, 0);
}

// Writing $1F through $2006/$2007 at $3F10 and reading it back at $3F00:
// the palette mirror pairs alias.
#[test]
fn test_palette_mirror_via_registers() {
    let mut ppu = new_ppu();
    ppu.write_addr_reg(0x3f);
    ppu.write_addr_reg(0x10);
    ppu.write_data_reg(0x1f);

    ppu.write_addr_reg(0x3f);
    ppu.write_addr_reg(0x00);
    assert_eq!(ppu.read_data_reg(), 0x1f);

    // and the other direction
    ppu.write_addr_reg(0x3f);
    ppu.write_addr_reg(0x04);
    ppu.write_data_reg(0x2a);
    ppu.write_addr_reg(0x3f);
    ppu.write_addr_reg(0x14);
    assert_eq!(ppu.read_data_reg(), 0x2a);
}

// The clock: vblank rises at scanline 241, NMI fires when enabled, and the
// pair (scanline, cycle) stays inside 262 x 341.
#[test]
fn test_tick_vblank_and_nmi() {
    let mut ppu = new_ppu();
    ppu.write_ctrl_reg(0b1000_0000); // enable NMI generation
    // run to the end of scanline 240 plus one cycle of 241
    for _ in 0..(241 * 341 + 1) {
        ppu.tick();
        assert!(ppu.scanlines <= 261);
        assert!(ppu.cycles <= 340);
    }
    assert_eq!(ppu.scanlines, 241);
    assert!(ppu.status_reg.read() >= 128);
    assert!(ppu.has_nmi());
    // the pre-render scanline clears everything
    for _ in 0..(21 * 341) {
        ppu.tick();
    }
    assert_eq!(ppu.scanlines, 0);
    assert!(ppu.status_reg.read() < 128);
    assert!(!ppu.has_nmi());
}

// OAM data writes advance the OAM address; reads do not.
#[test]
fn test_oam_read_write() {
    let mut ppu = new_ppu();
    ppu.write_oam_addr(0x10);
    ppu.write_oam_data(0x66);
    ppu.write_oam_data(0x77);
    ppu.write_oam_addr(0x10);
    assert_eq!(ppu.read_oam_data(), 0x66);
    ppu.write_oam_addr(0x11);
    assert_eq!(ppu.read_oam_data(), 0x77);
    assert_eq!(ppu.oam_addr, 0x11);
}

// On a CHR-RAM board (zero CHR banks) pattern-space writes through
// $2006/$2007 land and read back; on a ROM board they are discarded.
#[test]
fn test_chr_ram_write_read() {
    let mut raw = vec![0x4E, 0x45, 0x53, 0x1A, 1, 0, 0, 0]; // zero CHR banks
    raw.resize(16 + 16384, 0);
    let cart = Cartridge::new(&raw).unwrap();
    let mut ppu = PPU::new(&cart);
    assert!(ppu.chr_ram);
    assert_eq!(ppu.chr_rom.len(), 8192);

    ppu.write_addr_reg(0x00);
    ppu.write_addr_reg(0x10);
    ppu.write_data_reg(0x5A);
    assert_eq!(ppu.chr_rom[0x10], 0x5A);

    ppu.write_addr_reg(0x00);
    ppu.write_addr_reg(0x10);
    ppu.read_data_reg(); // prime the buffer
    assert_eq!(ppu.read_data_reg(), 0x5A);

    // a ROM board discards the same write
    let mut raw = vec![0x4E, 0x45, 0x53, 0x1A, 1, 1, 0, 0];
    raw.resize(16 + 16384 + 8192, 0);
    let cart = Cartridge::new(&raw).unwrap();
    let mut ppu = PPU::new(&cart);
    assert!(!ppu.chr_ram);
    ppu.write_addr_reg(0x00);
    ppu.write_addr_reg(0x10);
    ppu.write_data_reg(0x5A);
    assert_eq!(ppu.chr_rom[0x10], 0x00);
}
