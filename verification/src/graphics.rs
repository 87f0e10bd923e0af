//! The frame buffer the PPU paints into: 256x240 pixels, three bytes (red,
//! green, blue) per pixel, row-major.

use vstd::prelude::*;

verus! {

pub struct NesFrame {
    /// `(y * 256 + x) * 3` indexes the red byte of pixel (x, y).
    pub pixels: Vec<u8>,
}

impl NesFrame {
    /// The buffer always holds exactly 240 rows of 256 pixels.
    pub open spec fn wf(self) -> bool {
        self.pixels@.len() == 240 * 256 * 3
    }

    /// A black frame.
    pub fn new() -> (r: NesFrame)
        ensures
            r.wf(),
            r.pixels@ == Seq::new((240 * 256 * 3) as nat, |i: int| 0u8),
    {
        NesFrame { pixels: crate::ppu::new_filled(240 * 256 * 3) }
    }

    /// Paint one pixel; coordinates beyond the frame are discarded.
    pub fn set_pixel(&mut self, x: u32, y: u32, r: u8, g: u8, b: u8)
        requires
            old(self).wf(),
        ensures
            final(self).wf(),
            x < 256 && y < 240 ==> final(self).pixels@ == old(self).pixels@.update(
                (y * 256 + x) * 3,
                r,
            ).update((y * 256 + x) * 3 + 1, g).update((y * 256 + x) * 3 + 2, b),
            x >= 256 || y >= 240 ==> *final(self) == *old(self),
    {
        if x >= 256 || y >= 240 {
            return ;
        }
        let base: usize = (y as usize * 256 + x as usize) * 3;
        self.pixels[base] = r;
        self.pixels[base + 1] = g;
        self.pixels[base + 2] = b;
    }
}

} // verus!
