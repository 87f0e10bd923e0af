//! Rendering: tiles decoded from the two CHR bitplanes, the four-colour
//! palettes picked out of the attribute tables, the fixed 64-entry system
//! colour table, and the painters that compose a frame from the nametables
//! and the sprite memory.

use crate::graphics::NesFrame;
use crate::cartridge::Mirror;
use crate::ppu::{spec_mirrored_vram_index, PPU};
use vstd::prelude::*;

verus! {

// ----------------------------------------------------------------------------
// The system colour table: the NES's fixed 64-colour RGB lookup
// ----------------------------------------------------------------------------

/// The RGB triple for colour index `idx % 64`.
#[verifier::opaque]
pub open spec fn spec_system_color(idx: u8) -> (u8, u8, u8) {
    match idx % 64 {
        0 => (0x80, 0x80, 0x80),
        1 => (0x00, 0x3D, 0xA6),
        2 => (0x00, 0x12, 0xB0),
        3 => (0x44, 0x00, 0x96),
        4 => (0xA1, 0x00, 0x5E),
        5 => (0xC7, 0x00, 0x28),
        6 => (0xBA, 0x06, 0x00),
        7 => (0x8C, 0x17, 0x00),
        8 => (0x5C, 0x2F, 0x00),
        9 => (0x10, 0x45, 0x00),
        10 => (0x05, 0x4A, 0x00),
        11 => (0x00, 0x47, 0x2E),
        12 => (0x00, 0x41, 0x66),
        13 => (0x00, 0x00, 0x00),
        14 => (0x05, 0x05, 0x05),
        15 => (0x05, 0x05, 0x05),
        16 => (0xC7, 0xC7, 0xC7),
        17 => (0x00, 0x77, 0xFF),
        18 => (0x21, 0x55, 0xFF),
        19 => (0x82, 0x37, 0xFA),
        20 => (0xEB, 0x2F, 0xB5),
        21 => (0xFF, 0x29, 0x50),
        22 => (0xFF, 0x22, 0x00),
        23 => (0xD6, 0x32, 0x00),
        24 => (0xC4, 0x62, 0x00),
        25 => (0x35, 0x80, 0x00),
        26 => (0x05, 0x8F, 0x00),
        27 => (0x00, 0x8A, 0x55),
        28 => (0x00, 0x99, 0xCC),
        29 => (0x21, 0x21, 0x21),
        30 => (0x09, 0x09, 0x09),
        31 => (0x09, 0x09, 0x09),
        32 => (0xFF, 0xFF, 0xFF),
        33 => (0x0F, 0xD7, 0xFF),
        34 => (0x69, 0xA2, 0xFF),
        35 => (0xD4, 0x80, 0xFF),
        36 => (0xFF, 0x45, 0xF3),
        37 => (0xFF, 0x61, 0x8B),
        38 => (0xFF, 0x88, 0x33),
        39 => (0xFF, 0x9C, 0x12),
        40 => (0xFA, 0xBC, 0x20),
        41 => (0x9F, 0xE3, 0x0E),
        42 => (0x2B, 0xF0, 0x35),
        43 => (0x0C, 0xF0, 0xA4),
        44 => (0x05, 0xFB, 0xFF),
        45 => (0x5E, 0x5E, 0x5E),
        46 => (0x0D, 0x0D, 0x0D),
        47 => (0x0D, 0x0D, 0x0D),
        48 => (0xFF, 0xFF, 0xFF),
        49 => (0xA6, 0xFC, 0xFF),
        50 => (0xB3, 0xEC, 0xFF),
        51 => (0xDA, 0xAB, 0xEB),
        52 => (0xFF, 0xA8, 0xF9),
        53 => (0xFF, 0xAB, 0xB3),
        54 => (0xFF, 0xD2, 0xB0),
        55 => (0xFF, 0xEF, 0xA6),
        56 => (0xFF, 0xF7, 0x9C),
        57 => (0xD7, 0xE8, 0x95),
        58 => (0xA6, 0xED, 0xAF),
        59 => (0xA2, 0xF2, 0xDA),
        60 => (0x99, 0xFF, 0xFC),
        61 => (0xDD, 0xDD, 0xDD),
        62 => (0x11, 0x11, 0x11),
        _ => (0x11, 0x11, 0x11),
    }
}

/// Look up a colour in the fixed system palette; the index is folded into
/// the table's 64 entries, as the hardware's six colour bits are.
pub fn system_color(idx: u8) -> (r: (u8, u8, u8))
    ensures
        r == spec_system_color(idx),
{
    proof {
        reveal(spec_system_color);
    }
    match idx % 64 {
        0 => (0x80, 0x80, 0x80),
        1 => (0x00, 0x3D, 0xA6),
        2 => (0x00, 0x12, 0xB0),
        3 => (0x44, 0x00, 0x96),
        4 => (0xA1, 0x00, 0x5E),
        5 => (0xC7, 0x00, 0x28),
        6 => (0xBA, 0x06, 0x00),
        7 => (0x8C, 0x17, 0x00),
        8 => (0x5C, 0x2F, 0x00),
        9 => (0x10, 0x45, 0x00),
        10 => (0x05, 0x4A, 0x00),
        11 => (0x00, 0x47, 0x2E),
        12 => (0x00, 0x41, 0x66),
        13 => (0x00, 0x00, 0x00),
        14 => (0x05, 0x05, 0x05),
        15 => (0x05, 0x05, 0x05),
        16 => (0xC7, 0xC7, 0xC7),
        17 => (0x00, 0x77, 0xFF),
        18 => (0x21, 0x55, 0xFF),
        19 => (0x82, 0x37, 0xFA),
        20 => (0xEB, 0x2F, 0xB5),
        21 => (0xFF, 0x29, 0x50),
        22 => (0xFF, 0x22, 0x00),
        23 => (0xD6, 0x32, 0x00),
        24 => (0xC4, 0x62, 0x00),
        25 => (0x35, 0x80, 0x00),
        26 => (0x05, 0x8F, 0x00),
        27 => (0x00, 0x8A, 0x55),
        28 => (0x00, 0x99, 0xCC),
        29 => (0x21, 0x21, 0x21),
        30 => (0x09, 0x09, 0x09),
        31 => (0x09, 0x09, 0x09),
        32 => (0xFF, 0xFF, 0xFF),
        33 => (0x0F, 0xD7, 0xFF),
        34 => (0x69, 0xA2, 0xFF),
        35 => (0xD4, 0x80, 0xFF),
        36 => (0xFF, 0x45, 0xF3),
        37 => (0xFF, 0x61, 0x8B),
        38 => (0xFF, 0x88, 0x33),
        39 => (0xFF, 0x9C, 0x12),
        40 => (0xFA, 0xBC, 0x20),
        41 => (0x9F, 0xE3, 0x0E),
        42 => (0x2B, 0xF0, 0x35),
        43 => (0x0C, 0xF0, 0xA4),
        44 => (0x05, 0xFB, 0xFF),
        45 => (0x5E, 0x5E, 0x5E),
        46 => (0x0D, 0x0D, 0x0D),
        47 => (0x0D, 0x0D, 0x0D),
        48 => (0xFF, 0xFF, 0xFF),
        49 => (0xA6, 0xFC, 0xFF),
        50 => (0xB3, 0xEC, 0xFF),
        51 => (0xDA, 0xAB, 0xEB),
        52 => (0xFF, 0xA8, 0xF9),
        53 => (0xFF, 0xAB, 0xB3),
        54 => (0xFF, 0xD2, 0xB0),
        55 => (0xFF, 0xEF, 0xA6),
        56 => (0xFF, 0xF7, 0x9C),
        57 => (0xD7, 0xE8, 0x95),
        58 => (0xA6, 0xED, 0xAF),
        59 => (0xA2, 0xF2, 0xDA),
        60 => (0x99, 0xFF, 0xFC),
        61 => (0xDD, 0xDD, 0xDD),
        62 => (0x11, 0x11, 0x11),
        _ => (0x11, 0x11, 0x11),
    }
}

// ----------------------------------------------------------------------------
// Tiles: 8x8 grids of 2-bit colour indices, decoded from two bitplanes
// ----------------------------------------------------------------------------

/// Pixel `c` (0 = leftmost) of a tile row whose low and high bitplane bytes
/// are `lo` and `hi`: the high plane's bit doubles, the low plane's bit adds.
pub open spec fn spec_tile_pixel(lo: u8, hi: u8, c: int) -> u8 {
    (((hi >> (7 - c) as u8) & 1) * 2 + ((lo >> (7 - c) as u8) & 1)) as u8
}

/// An 8x8 tile of 2-bit colour indices, row-major: `pixels[row * 8 + col]`.
pub struct Tile {
    pub pixels: Vec<u8>,
}

impl Tile {
    pub open spec fn wf(self) -> bool {
        self.pixels@.len() == 64
    }

    /// Decode a tile from its 16 CHR bytes: `low_bytes` the low bitplane
    /// (one byte per row), `high_bytes` the high. `None` unless both slices
    /// hold exactly 8 bytes.
    pub fn new(low_bytes: &[u8], high_bytes: &[u8]) -> (r: Option<Tile>)
        ensures
            r is Some <==> low_bytes@.len() == 8 && high_bytes@.len() == 8,
            r matches Some(t) ==> t.wf() && forall|i: int|
                0 <= i < 64 ==> #[trigger] t.pixels@[i] == spec_tile_pixel(
                    low_bytes@[i / 8],
                    high_bytes@[i / 8],
                    i % 8,
                ),
    {
        if low_bytes.len() != 8 || high_bytes.len() != 8 {
            return None;
        }
        let mut pixels: Vec<u8> = Vec::new();
        let mut row: usize = 0;
        while row < 8
            invariant
                row <= 8,
                low_bytes@.len() == 8,
                high_bytes@.len() == 8,
                pixels@.len() == row * 8,
                forall|i: int|
                    0 <= i < row * 8 ==> #[trigger] pixels@[i] == spec_tile_pixel(
                        low_bytes@[i / 8],
                        high_bytes@[i / 8],
                        i % 8,
                    ),
            decreases 8 - row,
        {
            let lo = low_bytes[row];
            let hi = high_bytes[row];
            let mut col: usize = 0;
            while col < 8
                invariant
                    col <= 8,
                    row < 8,
                    low_bytes@.len() == 8,
                    high_bytes@.len() == 8,
                    lo == low_bytes@[row as int],
                    hi == high_bytes@[row as int],
                    pixels@.len() == row * 8 + col,
                    forall|i: int|
                        0 <= i < row * 8 + col ==> #[trigger] pixels@[i] == spec_tile_pixel(
                            low_bytes@[i / 8],
                            high_bytes@[i / 8],
                            i % 8,
                        ),
                decreases 8 - col,
            {
                let shift: u8 = (7 - col) as u8;
                proof {
                    assert((hi >> shift) & 1 <= 1 && (lo >> shift) & 1 <= 1) by (bit_vector);
                }
                let px: u8 = ((hi >> shift) & 1) * 2 + ((lo >> shift) & 1);
                pixels.push(px);
                col = col + 1;
            }
            row = row + 1;
        }
        Some(Tile { pixels })
    }

    /// Read pixel (row, col).
    pub fn get(&self, row: usize, col: usize) -> (r: u8)
        requires
            self.wf(),
            row < 8,
            col < 8,
        ensures
            r == self.pixels@[row * 8 + col],
    {
        self.pixels[row * 8 + col]
    }

    /// Mirror the tile top-to-bottom: row `r` takes what row `7 - r` held.
    pub fn flip_vertical(&mut self)
        requires
            old(self).wf(),
        ensures
            final(self).wf(),
            forall|i: int|
                0 <= i < 64 ==> #[trigger] final(self).pixels@[i] == old(self).pixels@[(7 - i / 8)
                    * 8 + i % 8],
    {
        let flipped = rearrange(&self.pixels, true);
        self.pixels = flipped;
    }

    /// Mirror the tile left-to-right: column `c` takes what column `7 - c` held.
    pub fn flip_horizontal(&mut self)
        requires
            old(self).wf(),
        ensures
            final(self).wf(),
            forall|i: int|
                0 <= i < 64 ==> #[trigger] final(self).pixels@[i] == old(self).pixels@[(i / 8) * 8
                    + (7 - i % 8)],
    {
        let flipped = rearrange(&self.pixels, false);
        self.pixels = flipped;
    }
}

/// A copy of an 8x8 grid with its rows (vertical) or columns reversed.
fn rearrange(pixels: &Vec<u8>, vertical: bool) -> (r: Vec<u8>)
    requires
        pixels@.len() == 64,
    ensures
        r@.len() == 64,
        forall|i: int|
            0 <= i < 64 ==> #[trigger] r@[i] == if vertical {
                pixels@[(7 - i / 8) * 8 + i % 8]
            } else {
                pixels@[(i / 8) * 8 + (7 - i % 8)]
            },
{
    let mut r: Vec<u8> = Vec::new();
    let mut i: usize = 0;
    while i < 64
        invariant
            i <= 64,
            pixels@.len() == 64,
            r@.len() == i,
            forall|k: int|
                0 <= k < i ==> #[trigger] r@[k] == if vertical {
                    pixels@[(7 - k / 8) * 8 + k % 8]
                } else {
                    pixels@[(k / 8) * 8 + (7 - k % 8)]
                },
        decreases 64 - i,
    {
        let row: usize = i / 8;
        let col: usize = i % 8;
        let v: u8 = if vertical {
            pixels[(7 - row) * 8 + col]
        } else {
            pixels[row * 8 + (7 - col)]
        };
        r.push(v);
        i = i + 1;
    }
    r
}

// ----------------------------------------------------------------------------
// Palettes and the painting viewport
// ----------------------------------------------------------------------------

/// Four RGB triples; slot 0 is the universal background colour.
pub struct Palette {
    pub colors: Vec<(u8, u8, u8)>,
}

impl Palette {
    pub open spec fn wf(self) -> bool {
        self.colors@.len() == 4
    }
}

/// The (inclusive) rectangle of tile origins a nametable pass paints.
pub struct Rect {
    pub x1: usize,
    pub y1: usize,
    pub x2: usize,
    pub y2: usize,
}

impl Rect {
    pub fn new(x1: usize, y1: usize, x2: usize, y2: usize) -> (r: Rect)
        ensures
            r.x1 == x1 && r.y1 == y1 && r.x2 == x2 && r.y2 == y2,
    {
        Rect { x1, y1, x2, y2 }
    }
}

// ----------------------------------------------------------------------------
// Painting: nametables and sprites onto the frame
// ----------------------------------------------------------------------------

/// Where the four-entry background palette for the tile at (`tile_x`,
/// `tile_y`) starts inside the 32-byte palette table: the attribute byte of
/// the tile's 4x4 block picks one of four palettes, two bits per quadrant.
pub open spec fn spec_bg_palette_start(p: PPU, nametable_addr: u16, tile_x: u8, tile_y: u8) -> int {
    let attr = p.vram@[spec_mirrored_vram_index(
        p.mirror,
        (nametable_addr + 960 + (tile_y / 4) * 8 + tile_x / 4) as u16,
    ) as int];
    let sel_x = (tile_x % 4) / 2;
    let sel_y = (tile_y % 4) / 2;
    let palette_idx: int = if sel_x == 0 && sel_y == 0 {
        (attr % 4) as int
    } else if sel_x == 1 && sel_y == 0 {
        ((attr / 4) % 4) as int
    } else if sel_x == 0 {
        ((attr / 16) % 4) as int
    } else {
        ((attr / 64) % 4) as int
    };
    1 + palette_idx * 4
}

/// Whether a tile origin (x, y) lies inside the (inclusive) viewport.
pub open spec fn spec_in_viewport(x: u32, y: u32, vp: Rect) -> bool {
    &&& vp.x1 <= x <= vp.x2
    &&& vp.y1 <= y <= vp.y2
}

/// Byte `i` of the frame after the first `k` pixels (row-major) of an 8x8
/// tile with origin (`ox`, `oy`) are painted over `pre`: inside the tile's
/// footprint the byte takes its channel of the palette colour the 2-bit
/// index selects — except that colour 0 of a sprite tile is transparent —
/// and every other byte keeps its old value.
pub open spec fn spec_tile_painted_byte_upto(
    pre: Seq<u8>,
    tile: Seq<u8>,
    colors: Seq<(u8, u8, u8)>,
    is_sprite: bool,
    ox: int,
    oy: int,
    k: int,
    i: int,
) -> u8 {
    let cell = i / 3;
    let px = cell % 256;
    let py = cell / 256;
    let row = py - oy;
    let col = px - ox;
    if 0 <= row < 8 && 0 <= col < 8 && row * 8 + col < k {
        let t = tile[row * 8 + col];
        if is_sprite && t == 0 {
            pre[i]
        } else {
            let color = colors[(t % 4) as int];
            if i % 3 == 0 {
                color.0
            } else if i % 3 == 1 {
                color.1
            } else {
                color.2
            }
        }
    } else {
        pre[i]
    }
}

/// Byte `i` of the frame after a whole 8x8 tile with origin (`ox`, `oy`) is
/// painted over `pre`; see `spec_tile_painted_byte_upto`.
pub open spec fn spec_tile_painted_byte(
    pre: Seq<u8>,
    tile: Seq<u8>,
    colors: Seq<(u8, u8, u8)>,
    is_sprite: bool,
    ox: int,
    oy: int,
    i: int,
) -> u8 {
    spec_tile_painted_byte_upto(pre, tile, colors, is_sprite, ox, oy, 64, i)
}

/// The 64 pixels of background tile `tile_idx` from pattern bank `bank`,
/// decoded from CHR memory.
pub open spec fn spec_bg_tile_seq(p: PPU, bank: u8, tile_idx: u8) -> Seq<u8> {
    Seq::new(
        64,
        |i: int|
            spec_tile_pixel(
                p.chr_rom@[4096 * bank + 16 * tile_idx + i / 8],
                p.chr_rom@[4096 * bank + 16 * tile_idx + 8 + i / 8],
                i % 8,
            ),
    )
}

/// The four colours the attribute table assigns to the background tile at
/// (`tx`, `ty`), looked up in the system colour table.
pub open spec fn spec_bg_colors(p: PPU, nt: u16, tx: u8, ty: u8) -> Seq<(u8, u8, u8)> {
    let start = spec_bg_palette_start(p, nt, tx, ty);
    seq![
        spec_system_color(p.palette_table@[0]),
        spec_system_color(p.palette_table@[start]),
        spec_system_color(p.palette_table@[start + 1]),
        spec_system_color(p.palette_table@[start + 2]),
    ]
}

/// What painting background tile position `k` (row-major, 32 to a row) of
/// nametable `nt` does to the frame bytes: nothing when CHR lacks the
/// pattern bank or the tile origin is outside the viewport; the exact
/// `spec_tile_painted_byte` image when the shifted origin is non-negative.
pub open spec fn spec_nametable_tile_rel(
    p: PPU,
    nt: u16,
    vp: Rect,
    sx: int,
    sy: int,
    k: int,
    pre: Seq<u8>,
    post: Seq<u8>,
) -> bool {
    let tx = k % 32;
    let ty = k / 32;
    let x = tx * 8;
    let y = ty * 8;
    let bank = p.ctrl_reg.spec_background_pattern_bank();
    if 4096 * (bank + 1) <= p.chr_rom@.len() {
        if !spec_in_viewport(x as u32, y as u32, vp) {
            post == pre
        } else if x + sx >= 0 && y + sy >= 0 {
            let tile_idx = p.vram@[spec_mirrored_vram_index(
                p.mirror,
                (nt + ty * 32 + tx) as u16,
            ) as int];
            &&& post.len() == pre.len()
            &&& forall|i: int|
                0 <= i < 240 * 256 * 3 ==> #[trigger] post[i] == spec_tile_painted_byte(
                    pre,
                    spec_bg_tile_seq(p, bank, tile_idx),
                    spec_bg_colors(p, nt, tx as u8, ty as u8),
                    false,
                    x + sx,
                    y + sy,
                    i,
                )
        } else {
            true
        }
    } else {
        post == pre
    }
}

/// The frames of a tile-by-tile painting pass: `steps[j + 1]` is
/// `steps[j]` with background tile position `j` painted, for every
/// consecutive pair in the sequence.
pub open spec fn spec_nametable_chain(
    p: PPU,
    nt: u16,
    vp: Rect,
    sx: int,
    sy: int,
    steps: Seq<Seq<u8>>,
) -> bool {
    forall|j: int|
        0 <= j && j + 1 < steps.len() ==> spec_nametable_tile_rel(
            p,
            nt,
            vp,
            sx,
            sy,
            j,
            #[trigger] steps[j],
            steps[j + 1],
        )
}

/// One whole nametable painting pass takes the frame bytes from `pre` to
/// `post`: some chain of 961 frames starts at `pre`, ends at `post`, and
/// paints one tile position per step.
pub open spec fn spec_nametable_pass(
    p: PPU,
    nt: u16,
    vp: Rect,
    sx: int,
    sy: int,
    pre: Seq<u8>,
    post: Seq<u8>,
) -> bool {
    exists|steps: Seq<Seq<u8>>|
        {
            &&& #[trigger] spec_nametable_chain(p, nt, vp, sx, sy, steps)
            &&& steps.len() == 961
            &&& steps[0] == pre
            &&& steps[960] == post
        }
}

/// Which physical nametable the background pass paints as the main screen
/// and which fills the strip the scroll exposes, from the control register's
/// base nametable and the cartridge mirroring. (A four-screen board is
/// folded like a horizontal one.)
pub open spec fn spec_main_second_nametable(p: PPU) -> (u16, u16) {
    let base = p.ctrl_reg.spec_base_nametable_addr();
    let vertical = p.mirror == Mirror::Vertical;
    if (vertical && (base == 0x2000 || base == 0x2800)) || (!vertical && (base == 0x2000 || base
        == 0x2400)) {
        (0x0000u16, 0x0400u16)
    } else {
        (0x0400u16, 0x0000u16)
    }
}

/// What one whole background paint does to the frame bytes: the main
/// nametable is painted shifted by the negated scroll through the viewport
/// the scroll leaves visible, and, when the scroll is nonzero, the second
/// nametable fills the strip it exposes.
pub open spec fn spec_background_rel(p: PPU, pre: Seq<u8>, post: Seq<u8>) -> bool {
    let scroll_x = p.scroll_reg.scroll_x as int;
    let scroll_y = p.scroll_reg.scroll_y as int;
    let main = spec_main_second_nametable(p).0;
    let second = spec_main_second_nametable(p).1;
    exists|mid: Seq<u8>|
        {
            &&& #[trigger] spec_nametable_pass(
                p,
                main,
                (Rect {
                    x1: p.scroll_reg.scroll_x as usize,
                    y1: p.scroll_reg.scroll_y as usize,
                    x2: 256,
                    y2: 240,
                }),
                0 - scroll_x,
                0 - scroll_y,
                pre,
                mid,
            )
            &&& if scroll_x > 0 {
                spec_nametable_pass(
                    p,
                    second,
                    (Rect { x1: 0, y1: 0, x2: p.scroll_reg.scroll_x as usize, y2: 240 }),
                    256 - scroll_x,
                    0,
                    mid,
                    post,
                )
            } else if scroll_y > 0 {
                spec_nametable_pass(
                    p,
                    second,
                    (Rect { x1: 0, y1: 0, x2: 256, y2: p.scroll_reg.scroll_y as usize }),
                    0,
                    240 - scroll_y,
                    mid,
                    post,
                )
            } else {
                post == mid
            }
        }
}

/// The 64 pixels of sprite tile `tile_idx` from pattern bank `bank`,
/// decoded from CHR memory with the requested flips applied: a flipped row
/// or column reads its mirror image.
pub open spec fn spec_sprite_tile_seq(
    p: PPU,
    bank: u8,
    tile_idx: u8,
    flip_v: bool,
    flip_h: bool,
) -> Seq<u8> {
    Seq::new(
        64,
        |i: int|
            {
                let row = if flip_v {
                    7 - i / 8
                } else {
                    i / 8
                };
                let col = if flip_h {
                    7 - i % 8
                } else {
                    i % 8
                };
                spec_tile_pixel(
                    p.chr_rom@[4096 * bank + 16 * tile_idx + row],
                    p.chr_rom@[4096 * bank + 16 * tile_idx + 8 + row],
                    col,
                )
            },
    )
}

/// The four colours of sprite palette `palette_idx`, looked up in the
/// system colour table.
pub open spec fn spec_sprite_colors(p: PPU, palette_idx: u8) -> Seq<(u8, u8, u8)> {
    seq![
        spec_system_color(p.palette_table@[0]),
        spec_system_color(p.palette_table@[17 + 4 * palette_idx]),
        spec_system_color(p.palette_table@[18 + 4 * palette_idx]),
        spec_system_color(p.palette_table@[19 + 4 * palette_idx]),
    ]
}

/// What painting OAM sprite `j` does to the frame bytes: its record gives
/// Y, tile index, attributes (palette, flips) and X; colour 0 is
/// transparent; nothing is painted when CHR lacks the sprite bank or the
/// sprite sits below the frame.
pub open spec fn spec_sprite_step_rel(p: PPU, j: int, pre: Seq<u8>, post: Seq<u8>) -> bool {
    let sprite_y = p.oam_data@[4 * j];
    let tile_idx = p.oam_data@[4 * j + 1];
    let attr = p.oam_data@[4 * j + 2];
    let sprite_x = p.oam_data@[4 * j + 3];
    let flip_v = attr / 128 == 1;
    let flip_h = (attr / 64) % 2 == 1;
    let palette_idx = (attr % 4) as u8;
    let bank = p.ctrl_reg.spec_sprite_pattern_bank();
    if 4096 * (bank + 1) <= p.chr_rom@.len() {
        if !spec_in_viewport(sprite_x as u32, sprite_y as u32, (Rect { x1: 0, y1: 0, x2: 256, y2: 240 })) {
            post == pre
        } else {
            &&& post.len() == pre.len()
            &&& forall|i: int|
                0 <= i < 240 * 256 * 3 ==> #[trigger] post[i] == spec_tile_painted_byte(
                    pre,
                    spec_sprite_tile_seq(p, bank, tile_idx, flip_v, flip_h),
                    spec_sprite_colors(p, palette_idx),
                    true,
                    sprite_x as int,
                    sprite_y as int,
                    i,
                )
        }
    } else {
        post == pre
    }
}

/// The frames of a sprite-by-sprite painting pass: `steps[j + 1]` is
/// `steps[j]` with OAM sprite `j` painted, for every consecutive pair.
pub open spec fn spec_sprites_chain(p: PPU, steps: Seq<Seq<u8>>) -> bool {
    forall|j: int|
        0 <= j && j + 1 < steps.len() ==> spec_sprite_step_rel(p, j, #[trigger] steps[j], steps[j + 1])
}

/// One whole sprite painting pass takes the frame bytes from `pre` to
/// `post`: some chain of 65 frames starts at `pre`, ends at `post`, and
/// paints one OAM sprite per step.
pub open spec fn spec_sprites_pass(p: PPU, pre: Seq<u8>, post: Seq<u8>) -> bool {
    exists|steps: Seq<Seq<u8>>|
        {
            &&& #[trigger] spec_sprites_chain(p, steps)
            &&& steps.len() == 65
            &&& steps[0] == pre
            &&& steps[64] == post
        }
}

impl PPU {
    /// Decode tile `tile_idx` from pattern-table bank 0 or 1 of CHR memory;
    /// `None` when the bank index is not 0 or 1 or CHR does not hold that
    /// whole bank.
    pub fn load_tile(&self, bank: u8, tile_idx: u8) -> (r: Option<Tile>)
        ensures
            r is Some <==> bank <= 1 && 4096 * (bank + 1) <= self.chr_rom@.len(),
            r matches Some(t) ==> t.wf() && forall|i: int|
                0 <= i < 64 ==> #[trigger] t.pixels@[i] == spec_tile_pixel(
                    self.chr_rom@[4096 * bank + 16 * tile_idx + i / 8],
                    self.chr_rom@[4096 * bank + 16 * tile_idx + 8 + i / 8],
                    i % 8,
                ),
    {
        if bank > 1 {
            return None;
        }
        // each pattern-table bank is 4 KiB; a tile is 16 bytes in it
        let start: usize = 4096 * (bank as usize);
        if self.chr_rom.len() < start + 4096 {
            return None;
        }
        let tile_start: usize = start + 16 * (tile_idx as usize);
        let low_bytes: Vec<u8> = crate::cartridge::copy_range(&self.chr_rom, tile_start, 8);
        let high_bytes: Vec<u8> = crate::cartridge::copy_range(&self.chr_rom, tile_start + 8, 8);
        Tile::new(low_bytes.as_slice(), high_bytes.as_slice())
    }

    /// The four-colour palette the attribute table assigns to a background
    /// tile: the universal background colour plus the three colours of the
    /// selected palette, already looked up in the system colour table.
    pub fn load_bg_palette(&self, nametable_addr: u16, tile_x: u8, tile_y: u8) -> (r: Palette)
        requires
            self.wf(),
            nametable_addr <= 0x0400,
            tile_x < 32,
            tile_y < 30,
        ensures
            r.wf(),
            ({
                let start = spec_bg_palette_start(*self, nametable_addr, tile_x, tile_y);
                &&& r.colors@[0] == spec_system_color(self.palette_table@[0])
                &&& r.colors@[1] == spec_system_color(self.palette_table@[start])
                &&& r.colors@[2] == spec_system_color(self.palette_table@[start + 1])
                &&& r.colors@[3] == spec_system_color(self.palette_table@[start + 2])
            }),
    {
        let attr_table_addr: u16 = nametable_addr + 960;
        let block_x: u16 = (tile_x / 4) as u16;
        let block_y: u16 = (tile_y / 4) as u16;
        let attr_idx = self.get_mirrored_vram_addr(attr_table_addr + block_y * 8 + block_x);
        let block_attr: u8 = self.vram[attr_idx as usize];
        let sel_x: u8 = (tile_x % 4) / 2;
        let sel_y: u8 = (tile_y % 4) / 2;
        let palette_idx: u8 = if sel_x == 0 && sel_y == 0 {
            block_attr % 4
        } else if sel_x == 1 && sel_y == 0 {
            (block_attr / 4) % 4
        } else if sel_x == 0 && sel_y == 1 {
            (block_attr / 16) % 4
        } else {
            (block_attr / 64) % 4
        };
        let start: usize = 1 + (palette_idx as usize) * 4;
        let mut colors: Vec<(u8, u8, u8)> = Vec::new();
        colors.push(system_color(self.palette_table[0]));
        colors.push(system_color(self.palette_table[start]));
        colors.push(system_color(self.palette_table[start + 1]));
        colors.push(system_color(self.palette_table[start + 2]));
        Palette { colors }
    }

    /// The four-colour palette for sprite palette `palette_idx` (0-3), from
    /// the sprite half of the palette table.
    pub fn load_sprite_palette(&self, palette_idx: u8) -> (r: Palette)
        requires
            self.wf(),
            palette_idx <= 3,
        ensures
            r.wf(),
            r.colors@[0] == spec_system_color(self.palette_table@[0]),
            r.colors@[1] == spec_system_color(self.palette_table@[17 + 4 * palette_idx]),
            r.colors@[2] == spec_system_color(self.palette_table@[18 + 4 * palette_idx]),
            r.colors@[3] == spec_system_color(self.palette_table@[19 + 4 * palette_idx]),
    {
        let start: usize = 16 + 1 + (palette_idx as usize) * 4;
        let mut colors: Vec<(u8, u8, u8)> = Vec::new();
        colors.push(system_color(self.palette_table[0]));
        colors.push(system_color(self.palette_table[start]));
        colors.push(system_color(self.palette_table[start + 1]));
        colors.push(system_color(self.palette_table[start + 2]));
        Palette { colors }
    }

    /// Paint one tile whose origin is (`x`, `y`), shifted by (`shift_x`,
    /// `shift_y`), provided the origin lies inside `viewport`. Colour index
    /// 0 is transparent for sprite tiles. Pixels that land off the frame are
    /// discarded by the frame itself. With a non-negative shifted origin —
    /// which every caller in this crate arranges — the painted frame is
    /// pinned byte for byte; a shifted origin partly left of or above the
    /// frame folds onto its edge and is not pinned here.
    #[verifier::rlimit(100)]
    #[verifier::spinoff_prover]
    pub fn render_tile(
        &self,
        frame: &mut NesFrame,
        is_sprite_tile: bool,
        x: u32,
        y: u32,
        tile: &Tile,
        palette: &Palette,
        viewport: &Rect,
        shift_x: i32,
        shift_y: i32,
    )
        requires
            old(frame).wf(),
            tile.wf(),
            palette.wf(),
            x <= 255,
            y <= 255,
            -256 <= shift_x <= 256,
            -256 <= shift_y <= 256,
        ensures
            final(frame).wf(),
            !spec_in_viewport(x, y, *viewport) ==> *final(frame) == *old(frame),
            spec_in_viewport(x, y, *viewport) && x + shift_x >= 0 && y + shift_y >= 0
                ==> forall|i: int|
                0 <= i < 240 * 256 * 3 ==> #[trigger] final(frame).pixels@[i]
                    == spec_tile_painted_byte(
                    old(frame).pixels@,
                    tile.pixels@,
                    palette.colors@,
                    is_sprite_tile,
                    x + shift_x,
                    y + shift_y,
                    i,
                ),
    {
        let in_viewport: bool = x as usize >= viewport.x1 && x as usize <= viewport.x2 && (y
            as usize) >= viewport.y1 && y as usize <= viewport.y2;
        if !in_viewport {
            return ;
        }
        let ghost ox: int = x + shift_x;
        let ghost oy: int = y + shift_y;
        let ghost nonneg: bool = ox >= 0 && oy >= 0;
        let mut row: usize = 0;
        while row < 8
            invariant
                frame.wf(),
                tile.wf(),
                palette.wf(),
                x <= 255,
                y <= 255,
                -256 <= shift_x <= 256,
                -256 <= shift_y <= 256,
                ox == x + shift_x,
                oy == y + shift_y,
                nonneg == (ox >= 0 && oy >= 0),
                row <= 8,
                nonneg ==> forall|i: int|
                    0 <= i < 240 * 256 * 3 ==> #[trigger] frame.pixels@[i]
                        == spec_tile_painted_byte_upto(
                        old(frame).pixels@,
                        tile.pixels@,
                        palette.colors@,
                        is_sprite_tile,
                        ox,
                        oy,
                        row * 8,
                        i,
                    ),
            decreases 8 - row,
        {
            let mut col: usize = 0;
            while col < 8
                invariant
                    frame.wf(),
                    tile.wf(),
                    palette.wf(),
                    x <= 255,
                    y <= 255,
                    -256 <= shift_x <= 256,
                    -256 <= shift_y <= 256,
                    ox == x + shift_x,
                    oy == y + shift_y,
                    nonneg == (ox >= 0 && oy >= 0),
                    row < 8,
                    col <= 8,
                    nonneg ==> forall|i: int|
                        0 <= i < 240 * 256 * 3 ==> #[trigger] frame.pixels@[i]
                            == spec_tile_painted_byte_upto(
                            old(frame).pixels@,
                            tile.pixels@,
                            palette.colors@,
                            is_sprite_tile,
                            ox,
                            oy,
                            row * 8 + col,
                            i,
                        ),
                decreases 8 - col,
            {
                let color_idx: u8 = tile.get(row, col);
                let color: (u8, u8, u8) = palette.colors[(color_idx % 4) as usize];
                // colour 0 is the shared background: transparent on sprites
                if !(is_sprite_tile && color_idx == 0) {
                    let px: i32 = x as i32 + col as i32 + shift_x;
                    let py: i32 = y as i32 + row as i32 + shift_y;
                    let pixel_x: u32 = if px < 0 {
                        0
                    } else {
                        px as u32
                    };
                    let pixel_y: u32 = if py < 0 {
                        0
                    } else {
                        py as u32
                    };
                    frame.set_pixel(pixel_x, pixel_y, color.0, color.1, color.2);
                }
                col = col + 1;
            }
            row = row + 1;
        }
    }


    /// Paint the 32x30 tiles of one nametable through `viewport`, shifted by
    /// (`shift_x`, `shift_y`): tile indices come from the nametable, the
    /// patterns from the configured background bank, the colours from the
    /// attribute table. A tile whose pattern bank is missing from CHR is
    /// skipped. The result is the old frame with the 960 tile positions
    /// painted in order: a chain of frames links them, one
    /// `spec_nametable_tile_rel` step per tile.
    #[verifier::rlimit(100)]
    #[verifier::spinoff_prover]
    pub fn render_nametable(
        &self,
        frame: &mut NesFrame,
        nametable_addr: u16,
        viewport: &Rect,
        shift_x: i32,
        shift_y: i32,
    )
        requires
            self.wf(),
            old(frame).wf(),
            nametable_addr <= 0x0400,
            -256 <= shift_x <= 256,
            -256 <= shift_y <= 256,
        ensures
            final(frame).wf(),
            spec_nametable_pass(
                *self,
                nametable_addr,
                *viewport,
                shift_x as int,
                shift_y as int,
                old(frame).pixels@,
                final(frame).pixels@,
            ),
    {
        let bank: u8 = self.ctrl_reg.get_background_pattern_table_bank();
        let ghost mut steps: Seq<Seq<u8>> = seq![old(frame).pixels@];
        let mut tile_y: u16 = 0;
        while tile_y < 30
            invariant
                self.wf(),
                frame.wf(),
                nametable_addr <= 0x0400,
                -256 <= shift_x <= 256,
                -256 <= shift_y <= 256,
                bank == self.ctrl_reg.spec_background_pattern_bank(),
                bank <= 1,
                tile_y <= 30,
                steps.len() == tile_y * 32 + 1,
                steps[0] == old(frame).pixels@,
                steps[steps.len() - 1] == frame.pixels@,
                spec_nametable_chain(
                    *self,
                    nametable_addr,
                    *viewport,
                    shift_x as int,
                    shift_y as int,
                    steps,
                ),
            decreases 30 - tile_y,
        {
            let mut tile_x: u16 = 0;
            while tile_x < 32
                invariant
                    self.wf(),
                    frame.wf(),
                    nametable_addr <= 0x0400,
                    -256 <= shift_x <= 256,
                    -256 <= shift_y <= 256,
                    bank == self.ctrl_reg.spec_background_pattern_bank(),
                    bank <= 1,
                    tile_y < 30,
                    tile_x <= 32,
                    steps.len() == tile_y * 32 + tile_x + 1,
                    steps[0] == old(frame).pixels@,
                    steps[steps.len() - 1] == frame.pixels@,
                    spec_nametable_chain(
                        *self,
                        nametable_addr,
                        *viewport,
                        shift_x as int,
                        shift_y as int,
                        steps,
                    ),
                decreases 32 - tile_x,
            {
                let ghost k: int = tile_y * 32 + tile_x;
                let ghost pre_tile: Seq<u8> = frame.pixels@;
                let idx = self.get_mirrored_vram_addr(nametable_addr + tile_y * 32 + tile_x);
                let tile_idx: u8 = self.vram[idx as usize];
                if let Some(tile) = self.load_tile(bank, tile_idx) {
                    let palette = self.load_bg_palette(nametable_addr, tile_x as u8, tile_y as u8);
                    self.render_tile(
                        frame,
                        false,
                        (tile_x as u32) * 8,
                        (tile_y as u32) * 8,
                        &tile,
                        &palette,
                        viewport,
                        shift_x,
                        shift_y,
                    );
                    proof {
                        assert(k % 32 == tile_x && k / 32 == tile_y);
                        assert(tile.pixels@ =~= spec_bg_tile_seq(*self, bank, tile_idx));
                        assert(palette.colors@ =~= spec_bg_colors(
                            *self,
                            nametable_addr,
                            tile_x as u8,
                            tile_y as u8,
                        ));
                    }
                }
                proof {
                    assert(spec_nametable_tile_rel(
                        *self,
                        nametable_addr,
                        *viewport,
                        shift_x as int,
                        shift_y as int,
                        k,
                        pre_tile,
                        frame.pixels@,
                    ));
                    steps = steps.push(frame.pixels@);
                }
                tile_x = tile_x + 1;
            }
            tile_y = tile_y + 1;
        }
        proof {
            assert(steps.len() == 961);
            assert(spec_nametable_chain(
                *self,
                nametable_addr,
                *viewport,
                shift_x as int,
                shift_y as int,
                steps,
            ));
        }
    }


    /// Paint the background: the main nametable shifted by the scroll, and,
    /// when the scroll is nonzero, the second nametable filling the strip
    /// the shift exposes; see `spec_background_rel`.
    pub fn render_background(&self, frame: &mut NesFrame)
        requires
            self.wf(),
            old(frame).wf(),
        ensures
            final(frame).wf(),
            spec_background_rel(*self, old(frame).pixels@, final(frame).pixels@),
    {
        let scroll_x: u16 = self.scroll_reg.scroll_x as u16;
        let scroll_y: u16 = self.scroll_reg.scroll_y as u16;

        let base = self.ctrl_reg.get_base_nametable_addr();
        let vertical = match self.mirror {
            Mirror::Vertical => true,
            _ => false,
        };
        // which physical nametable is the main one, which fills the strip;
        // a four-screen board is folded like a horizontal one
        let (main_nametable_addr, second_nametable_addr): (u16, u16) = if (vertical && (base
            == 0x2000 || base == 0x2800)) || (!vertical && (base == 0x2000 || base == 0x2400)) {
            (0x0000, 0x0400)
        } else {
            (0x0400, 0x0000)
        };

        self.render_nametable(
            frame,
            main_nametable_addr,
            &Rect::new(scroll_x as usize, scroll_y as usize, 256, 240),
            -(scroll_x as i32),
            -(scroll_y as i32),
        );
        let ghost mid: Seq<u8> = frame.pixels@;
        if scroll_x > 0 {
            self.render_nametable(
                frame,
                second_nametable_addr,
                &Rect::new(0, 0, scroll_x as usize, 240),
                256 - scroll_x as i32,
                0,
            );
        } else if scroll_y > 0 {
            self.render_nametable(
                frame,
                second_nametable_addr,
                &Rect::new(0, 0, 256, scroll_y as usize),
                0,
                240 - scroll_y as i32,
            );
        }
        proof {
            assert(spec_nametable_pass(
                *self,
                spec_main_second_nametable(*self).0,
                (Rect {
                    x1: self.scroll_reg.scroll_x as usize,
                    y1: self.scroll_reg.scroll_y as usize,
                    x2: 256,
                    y2: 240,
                }),
                0 - self.scroll_reg.scroll_x as int,
                0 - self.scroll_reg.scroll_y as int,
                old(frame).pixels@,
                mid,
            ));
        }
    }


    /// Paint the 64 OAM sprites: each record holds Y, tile index,
    /// attributes (palette, flips) and X; colour 0 is transparent. The
    /// result is the old frame with the sprites painted in OAM order: a
    /// chain of frames links them, one `spec_sprite_step_rel` per sprite.
    #[verifier::rlimit(100)]
    #[verifier::spinoff_prover]
    pub fn render_sprites(&self, frame: &mut NesFrame)
        requires
            self.wf(),
            old(frame).wf(),
        ensures
            final(frame).wf(),
            spec_sprites_pass(*self, old(frame).pixels@, final(frame).pixels@),
    {
        let bank: u8 = self.ctrl_reg.get_sprite_pattern_table_bank();
        let ghost mut steps: Seq<Seq<u8>> = seq![old(frame).pixels@];
        let mut sprite: usize = 0;
        while sprite < 64
            invariant
                self.wf(),
                frame.wf(),
                bank == self.ctrl_reg.spec_sprite_pattern_bank(),
                bank <= 1,
                sprite <= 64,
                steps.len() == sprite + 1,
                steps[0] == old(frame).pixels@,
                steps[steps.len() - 1] == frame.pixels@,
                spec_sprites_chain(*self, steps),
            decreases 64 - sprite,
        {
            let ghost pre_sprite: Seq<u8> = frame.pixels@;
            let sid: usize = sprite * 4;
            let sprite_y: u8 = self.oam_data[sid];
            let tile_idx: u8 = self.oam_data[sid + 1];
            let attr: u8 = self.oam_data[sid + 2];
            let sprite_x: u8 = self.oam_data[sid + 3];

            let flip_vertical: bool = attr / 128 == 1;
            let flip_horizontal: bool = (attr / 64) % 2 == 1;
            let palette_idx: u8 = attr % 4;

            let palette = self.load_sprite_palette(palette_idx);
            if let Some(mut tile) = self.load_tile(bank, tile_idx) {
                if flip_vertical {
                    tile.flip_vertical();
                }
                if flip_horizontal {
                    tile.flip_horizontal();
                }
                proof {
                    assert(tile.pixels@ =~= spec_sprite_tile_seq(
                        *self,
                        bank,
                        tile_idx,
                        flip_vertical,
                        flip_horizontal,
                    ));
                    assert(palette.colors@ =~= spec_sprite_colors(*self, palette_idx));
                }
                self.render_tile(
                    frame,
                    true,
                    sprite_x as u32,
                    sprite_y as u32,
                    &tile,
                    &palette,
                    &Rect::new(0, 0, 256, 240),
                    0,
                    0,
                );
            }
            proof {
                assert(spec_sprite_step_rel(*self, sprite as int, pre_sprite, frame.pixels@));
                steps = steps.push(frame.pixels@);
            }
            sprite = sprite + 1;
        }
        proof {
            assert(steps.len() == 65);
            assert(spec_sprites_chain(*self, steps));
        }
    }

    /// Paint a whole frame: the background, then the sprites over it — some
    /// middle frame is the painted background, and the sprite pass takes it
    /// to the result.
    pub fn render_ppu(&self, frame: &mut NesFrame)
        requires
            self.wf(),
            old(frame).wf(),
        ensures
            final(frame).wf(),
            exists|mid: Seq<u8>|
                #[trigger] spec_background_rel(*self, old(frame).pixels@, mid)
                    && spec_sprites_pass(*self, mid, final(frame).pixels@),
    {
        self.render_background(frame);
        let ghost mid: Seq<u8> = frame.pixels@;
        self.render_sprites(frame);
        proof {
            assert(spec_background_rel(*self, old(frame).pixels@, mid));
        }
    }
}

} // verus!
