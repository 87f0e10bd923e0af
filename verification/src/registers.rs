//! The five CPU-visible PPU registers: address latch, control, mask, status
//! and scroll. Each is a plain byte (or byte pair) with the bit meanings the
//! hardware fixes; the accessors below state those meanings exactly.

use vstd::prelude::*;

verus! {

// ----------------------------------------------------------------------------
// AddrRegister ($2006): two writes compose a 16-bit VRAM address, high first
// ----------------------------------------------------------------------------

pub struct AddrRegister {
    pub hi: u8,
    pub lo: u8,
    pub write_to_hi: bool,
}

impl AddrRegister {
    /// The 16-bit address the two halves compose.
    pub open spec fn spec_get(self) -> u16 {
        (self.hi * 256 + self.lo) as u16
    }

    /// The register after one byte is written through the latch.
    pub open spec fn spec_write(self, value: u8) -> AddrRegister {
        if self.write_to_hi {
            AddrRegister { hi: value, lo: self.lo, write_to_hi: false }
        } else {
            AddrRegister { hi: self.hi, lo: value, write_to_hi: true }
        }
    }

    /// The register after the address advances by `delta`, wrapping at $10000.
    pub open spec fn spec_inc(self, delta: u8) -> AddrRegister {
        let sum = (self.spec_get() + delta) % 0x10000;
        AddrRegister { hi: (sum / 256) as u8, lo: (sum % 256) as u8, write_to_hi: self.write_to_hi }
    }

    pub fn new() -> (r: AddrRegister)
        ensures
            r.hi == 0 && r.lo == 0 && r.write_to_hi,
    {
        AddrRegister { hi: 0, lo: 0, write_to_hi: true }
    }

    /// One write through the latch: the first byte lands in the high half,
    /// the second in the low half, and the latch toggles.
    pub fn write(&mut self, value: u8)
        ensures
            *final(self) == old(self).spec_write(value),
    {
        if self.write_to_hi {
            self.hi = value;
        } else {
            self.lo = value;
        }
        self.write_to_hi = !self.write_to_hi;
    }

    /// Advance the address by `delta` (1 or 32 in practice), wrapping at $10000.
    pub fn inc(&mut self, delta: u8)
        ensures
            *final(self) == old(self).spec_inc(delta),
    {
        let curr: u16 = self.get();
        let next: u16 = curr.wrapping_add(delta as u16);
        assert(next == (curr + delta) % 0x10000);
        self.set(next);
    }

    fn set(&mut self, value: u16)
        ensures
            final(self).hi == value / 256,
            final(self).lo == value % 256,
            final(self).write_to_hi == old(self).write_to_hi,
    {
        self.hi = (value / 256) as u8;
        self.lo = (value % 256) as u8;
    }

    pub fn get(&self) -> (r: u16)
        ensures
            r == self.spec_get(),
    {
        (self.hi as u16) * 256 + (self.lo as u16)
    }

    /// Reading the PPU status register resets the latch to "next write is high".
    pub fn reset_latch(&mut self)
        ensures
            *final(self) == (AddrRegister { write_to_hi: true, ..*old(self) }),
    {
        self.write_to_hi = true;
    }
}

// ----------------------------------------------------------------------------
// CtrlRegister ($2000, write-only)
//
// 7  bit  0
// ---- ----
// VPHB SINN
// |||| ||++- base nametable (0 = $2000; 1 = $2400; 2 = $2800; 3 = $2C00)
// |||| |+--- VRAM address increment per data-register access (0: 1; 1: 32)
// |||| +---- sprite pattern table bank for 8x8 sprites (0 or 1)
// |||+------ background pattern table bank (0 or 1)
// ||+------- sprite size (0: 8x8; 1: 8x16)
// |+-------- PPU master/slave select
// +--------- generate an NMI at the start of vertical blank
// ----------------------------------------------------------------------------

pub struct CtrlRegister {
    pub bits: u8,
}

impl CtrlRegister {
    pub open spec fn spec_base_nametable_addr(self) -> u16 {
        match self.bits % 4 {
            0 => 0x2000,
            1 => 0x2400,
            2 => 0x2800,
            _ => 0x2C00,
        }
    }

    pub open spec fn spec_vram_addr_inc(self) -> u8 {
        if (self.bits / 4) % 2 == 1 {
            32
        } else {
            1
        }
    }

    pub open spec fn spec_sprite_pattern_bank(self) -> u8 {
        ((self.bits / 8) % 2) as u8
    }

    pub open spec fn spec_background_pattern_bank(self) -> u8 {
        ((self.bits / 16) % 2) as u8
    }

    pub open spec fn spec_generate_nmi(self) -> bool {
        self.bits >= 128
    }

    pub fn new() -> (r: CtrlRegister)
        ensures
            r.bits == 0,
    {
        CtrlRegister { bits: 0 }
    }

    pub fn write(&mut self, value: u8)
        ensures
            final(self).bits == value,
    {
        self.bits = value;
    }

    /// Base nametable address selected by the low two bits.
    pub fn get_base_nametable_addr(&self) -> (r: u16)
        ensures
            r == self.spec_base_nametable_addr(),
    {
        match self.bits % 4 {
            0 => 0x2000,
            1 => 0x2400,
            2 => 0x2800,
            _ => 0x2C00,
        }
    }

    /// How far the VRAM address advances on each data-register access.
    pub fn get_vram_addr_inc(&self) -> (r: u8)
        ensures
            r == self.spec_vram_addr_inc(),
    {
        if (self.bits / 4) % 2 == 1 {
            32
        } else {
            1
        }
    }

    /// Pattern table bank (0 or 1) used for 8x8 sprites.
    pub fn get_sprite_pattern_table_bank(&self) -> (r: u8)
        ensures
            r == self.spec_sprite_pattern_bank(),
            r <= 1,
    {
        (self.bits / 8) % 2
    }

    /// Pattern table bank (0 or 1) used for the background.
    pub fn get_background_pattern_table_bank(&self) -> (r: u8)
        ensures
            r == self.spec_background_pattern_bank(),
            r <= 1,
    {
        (self.bits / 16) % 2
    }

    /// Whether an NMI is generated at the start of vertical blank.
    pub fn is_generate_nmi(&self) -> (r: bool)
        ensures
            r == self.spec_generate_nmi(),
    {
        self.bits >= 128
    }
}

// ----------------------------------------------------------------------------
// MaskRegister ($2001, write-only): rendering toggles
//
// 7  bit  0
// ---- ----
// BGRs bMmG
// |||| |||+- greyscale
// |||| ||+-- show background in the leftmost 8 pixels
// |||| |+--- show sprites in the leftmost 8 pixels
// |||| +---- show background
// |||+------ show sprites
// +++------- colour emphasis
// ----------------------------------------------------------------------------

pub struct MaskRegister {
    pub bits: u8,
}

impl MaskRegister {
    pub open spec fn spec_grayscale(self) -> bool {
        self.bits % 2 == 1
    }

    pub open spec fn spec_show_background(self) -> bool {
        (self.bits / 8) % 2 == 1
    }

    pub open spec fn spec_show_sprites(self) -> bool {
        (self.bits / 16) % 2 == 1
    }

    pub fn new() -> (r: MaskRegister)
        ensures
            r.bits == 0,
    {
        MaskRegister { bits: 0 }
    }

    pub fn write(&mut self, value: u8)
        ensures
            final(self).bits == value,
    {
        self.bits = value;
    }

    pub fn grayscale(&self) -> (r: bool)
        ensures
            r == self.spec_grayscale(),
    {
        self.bits % 2 == 1
    }

    pub fn show_background(&self) -> (r: bool)
        ensures
            r == self.spec_show_background(),
    {
        (self.bits / 8) % 2 == 1
    }

    pub fn show_sprites(&self) -> (r: bool)
        ensures
            r == self.spec_show_sprites(),
    {
        (self.bits / 16) % 2 == 1
    }
}

// ----------------------------------------------------------------------------
// StatusRegister ($2002, read-only)
//
// 7  bit  0
// ---- ----
// VSO. ....
// ||+------- sprite overflow
// |+-------- sprite zero hit
// +--------- vertical blank in progress
//
// The low five bits are stale bus noise on hardware; here they stay 0.
// ----------------------------------------------------------------------------

pub struct StatusRegister {
    pub bits: u8,
}

impl StatusRegister {
    pub open spec fn spec_vblank(self) -> bool {
        self.bits >= 128
    }

    pub open spec fn spec_sprite_zero_hit(self) -> bool {
        (self.bits / 64) % 2 == 1
    }

    pub open spec fn spec_sprite_overflow(self) -> bool {
        (self.bits / 32) % 2 == 1
    }

    /// The register with the vertical-blank bit forced to `v`.
    pub open spec fn spec_with_vblank(self, v: bool) -> StatusRegister {
        StatusRegister { bits: ((self.bits % 128) + if v { 128int } else { 0int }) as u8 }
    }

    /// The register with the sprite-zero-hit bit forced to `v`.
    pub open spec fn spec_with_sprite_zero_hit(self, v: bool) -> StatusRegister {
        StatusRegister {
            bits: ((self.bits / 128) * 128 + (if v { 64int } else { 0int }) + (self.bits % 64)) as u8,
        }
    }

    pub fn new() -> (r: StatusRegister)
        ensures
            r.bits == 0,
    {
        StatusRegister { bits: 0 }
    }

    /// The byte the CPU sees at $2002: the three flags, low five bits zero.
    pub fn read(&self) -> (r: u8)
        ensures
            r == (self.bits / 32) * 32,
            (r >= 128) == self.spec_vblank(),
    {
        (self.bits / 32) * 32
    }

    pub fn set_vblank_started(&mut self, v: bool)
        ensures
            *final(self) == old(self).spec_with_vblank(v),
            final(self).spec_vblank() == v,
            final(self).spec_sprite_zero_hit() == old(self).spec_sprite_zero_hit(),
            final(self).spec_sprite_overflow() == old(self).spec_sprite_overflow(),
    {
        let rest: u8 = self.bits % 128;
        self.bits = rest + if v { 128 } else { 0 };
        assert(final(self).spec_sprite_zero_hit() == old(self).spec_sprite_zero_hit());
    }

    pub fn set_sprite_zero_hit(&mut self, v: bool)
        ensures
            *final(self) == old(self).spec_with_sprite_zero_hit(v),
            final(self).spec_sprite_zero_hit() == v,
            final(self).spec_vblank() == old(self).spec_vblank(),
            final(self).spec_sprite_overflow() == old(self).spec_sprite_overflow(),
    {
        let top: u8 = (self.bits / 128) * 128;
        let rest: u8 = self.bits % 64;
        self.bits = top + if v { 64 } else { 0 } + rest;
    }

    pub fn set_sprite_overflow(&mut self, v: bool)
        ensures
            final(self).spec_sprite_overflow() == v,
            final(self).spec_vblank() == old(self).spec_vblank(),
            final(self).spec_sprite_zero_hit() == old(self).spec_sprite_zero_hit(),
            final(self).bits % 32 == old(self).bits % 32,
    {
        let top: u8 = (self.bits / 64) * 64;
        let rest: u8 = self.bits % 32;
        self.bits = top + if v { 32 } else { 0 } + rest;
    }
}

// ----------------------------------------------------------------------------
// ScrollRegister ($2005, write-only): two writes deliver scroll-X then scroll-Y
// ----------------------------------------------------------------------------

pub struct ScrollRegister {
    pub scroll_x: u8,
    pub scroll_y: u8,
    pub write_to_x: bool,
}

impl ScrollRegister {
    /// The register after one byte is written through the latch.
    pub open spec fn spec_write(self, value: u8) -> ScrollRegister {
        if self.write_to_x {
            ScrollRegister { scroll_x: value, scroll_y: self.scroll_y, write_to_x: false }
        } else {
            ScrollRegister { scroll_x: self.scroll_x, scroll_y: value, write_to_x: true }
        }
    }

    pub fn new() -> (r: ScrollRegister)
        ensures
            r.scroll_x == 0 && r.scroll_y == 0 && r.write_to_x,
    {
        ScrollRegister { scroll_x: 0, scroll_y: 0, write_to_x: true }
    }

    /// One write through the latch: first X, then Y, and the latch toggles.
    pub fn write(&mut self, value: u8)
        ensures
            *final(self) == old(self).spec_write(value),
    {
        if self.write_to_x {
            self.scroll_x = value;
        } else {
            self.scroll_y = value;
        }
        self.write_to_x = !self.write_to_x;
    }

    /// Reading the PPU status register resets the latch to "next write is X".
    pub fn reset_latch(&mut self)
        ensures
            *final(self) == (ScrollRegister { write_to_x: true, ..*old(self) }),
    {
        self.write_to_x = true;
    }
}

} // verus!
