use nes::ppu::PPU;
use nes::cartridge::Cartridge;
use nes::graphics::NesFrame;
use nes::render::{system_color, Tile};

// The tile decode: bytes 0-7 are the low bitplane, 8-15 the high; for row r,
// column c, the pixel is ((high[r] >> (7-c)) & 1) << 1 | ((low[r] >> (7-c)) & 1).
#[test]
fn test_tile_decode() {
    let low: [u8; 8] = [0b1000_0001, 0, 0, 0, 0, 0, 0, 0b1111_1111];
    let high: [u8; 8] = [0b1000_0000, 0, 0, 0, 0, 0, 0, 0b0000_1111];
    let tile = Tile::new(&low, &high).unwrap();
    assert_eq!(tile.get(0, 0), 3); // both planes set
    assert_eq!(tile.get(0, 7), 1); // low plane only
    assert_eq!(tile.get(0, 3), 0);
    assert_eq!(tile.get(7, 0), 1);
    assert_eq!(tile.get(7, 4), 3); // high plane joins for the right half
    assert_eq!(tile.get(3, 3), 0);
}

#[test]
fn test_tile_new_wrong_lengths() {
    assert!(Tile::new(&[0u8; 7], &[0u8; 8]).is_none());
    assert!(Tile::new(&[0u8; 8], &[0u8; 9]).is_none());
    assert!(Tile::new(&[0u8; 8], &[0u8; 8]).is_some());
}

// Horizontal flip exchanges columns c and 7-c; vertical flip rows r and 7-r.
#[test]
fn test_tile_flips() {
    let low: [u8; 8] = [0b1000_0000, 0, 0, 0, 0, 0, 0, 0];
    let high: [u8; 8] = [0, 0, 0, 0, 0, 0, 0, 0];
    let mut tile = Tile::new(&low, &high).unwrap();
    assert_eq!(tile.get(0, 0), 1);
    tile.flip_horizontal();
    assert_eq!(tile.get(0, 0), 0);
    assert_eq!(tile.get(0, 7), 1);
    tile.flip_vertical();
    assert_eq!(tile.get(0, 7), 0);
    assert_eq!(tile.get(7, 7), 1);
}

#[test]
fn test_system_color_lookup() {
    assert_eq!(system_color(0x00), (0x80, 0x80, 0x80));
    assert_eq!(system_color(0x0D), (0x00, 0x00, 0x00));
    assert_eq!(system_color(0x20), (0xFF, 0xFF, 0xFF));
    // the index folds into the 64-entry table
    assert_eq!(system_color(0x40), (0x80, 0x80, 0x80));
}

#[test]
fn test_frame_set_pixel() {
    let mut frame = NesFrame::new();
    frame.set_pixel(2, 1, 10, 20, 30);
    let base = (1 * 256 + 2) * 3;
    assert_eq!(frame.pixels[base], 10);
    assert_eq!(frame.pixels[base + 1], 20);
    assert_eq!(frame.pixels[base + 2], 30);
    // out-of-frame pixels are discarded
    frame.set_pixel(256, 0, 1, 1, 1);
    frame.set_pixel(0, 240, 1, 1, 1);
    assert_eq!(frame.pixels.len(), 240 * 256 * 3);
}

// A background tile painted through the renderer lands on the frame with
// the palette's colours.
#[test]
fn test_render_background_paints_tile() {

    // a cartridge whose CHR holds one solid tile as tile 1
    let mut raw = vec![0x4E, 0x45, 0x53, 0x1A, 1, 1, 0, 0];
    raw.resize(16 + 16384 + 8192, 0);
    let chr_base = 16 + 16384;
    for i in 0..8 {
        raw[chr_base + 16 + i] = 0xFF; // low plane of tile 1: colour 1 everywhere
    }
    let cart = Cartridge::new(&raw).unwrap();
    let mut ppu = PPU::new(&cart);

    // tile 1 at the top-left of the first nametable, palette colours set
    ppu.vram[0] = 1;
    ppu.palette_table[0] = 0x0D; // universal background: black
    ppu.palette_table[1] = 0x20; // colour 1: white
    let mut frame = NesFrame::new();
    ppu.render_background(&mut frame);
    assert_eq!(frame.pixels[0], 0xFF);
    assert_eq!(frame.pixels[1], 0xFF);
    assert_eq!(frame.pixels[2], 0xFF);
    // a tile position whose nametable byte is 0 paints tile 0: all colour 0
    let base = 64 * 3;
    assert_eq!(frame.pixels[base], 0x00);
}
