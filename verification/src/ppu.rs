//! The picture processing unit: 2 KiB of VRAM behind the cartridge's
//! mirroring rule, the 32-byte palette table with its own mirroring, 256
//! bytes of sprite memory (OAM), the CPU-visible registers at $2000-$2007,
//! and the scanline/cycle clock that raises NMI at vertical blank.

use crate::cartridge::{Cartridge, Mirror};
use crate::registers::{AddrRegister, CtrlRegister, MaskRegister, ScrollRegister, StatusRegister};
use vstd::prelude::*;

verus! {

/// Where a nametable address lands inside the 2 KiB of physical VRAM.
///
/// The address is first folded into the 4 KiB of logical nametable space
/// (four tables of 1 KiB); the mirroring mode then picks one of the two
/// physical tables:
///
/// ```text
/// Horizontal:   [ A ] [ A ]        Vertical:   [ A ] [ B ]
///               [ B ] [ B ]                    [ A ] [ B ]
/// ```
///
/// A four-screen board would need 4 KiB of its own; with the 2 KiB here its
/// upper two tables fold onto the lower two.
pub open spec fn spec_mirrored_vram_index(mirror: Mirror, addr: u16) -> u16 {
    let logical = addr % 0x1000;
    let nametable_idx = logical / 0x400;
    let idx_a = logical % 0x400;
    let idx_b = (logical % 0x400 + 0x400) as u16;
    match mirror {
        Mirror::Horizontal => if nametable_idx <= 1 {
            idx_a
        } else {
            idx_b
        },
        Mirror::Vertical => if nametable_idx == 0 || nametable_idx == 2 {
            idx_a
        } else {
            idx_b
        },
        Mirror::FourScreen => (logical % 0x800) as u16,
    }
}

/// Where a $3F00-$3FFF address lands in the 32-byte palette table:
/// the low five bits, except that $10/$14/$18/$1C fold onto $00/$04/$08/$0C.
pub open spec fn spec_palette_index(addr: u16) -> u16 {
    let m = addr % 32;
    if m == 0x10 {
        0
    } else if m == 0x14 {
        4
    } else if m == 0x18 {
        8
    } else if m == 0x1C {
        12
    } else {
        m
    }
}

pub struct PPU {
    /// The cartridge's pattern memory, copied in at construction; on a
    /// CHR-RAM board this is the 8 KiB of RAM the game fills itself.
    pub chr_rom: Vec<u8>,
    /// Whether the board carries CHR-RAM (zero CHR banks in the header):
    /// only then do pattern-space writes land.
    pub chr_ram: bool,
    /// 2 KiB of physical nametable memory.
    pub vram: Vec<u8>,
    /// The 32-byte palette table.
    pub palette_table: Vec<u8>,
    /// The cartridge's nametable mirroring mode.
    pub mirror: Mirror,
    pub addr_reg: AddrRegister,
    pub ctrl_reg: CtrlRegister,
    pub status_reg: StatusRegister,
    pub scroll_reg: ScrollRegister,
    pub mask_reg: MaskRegister,
    /// 256 bytes of sprite attribute memory: 64 records of Y, tile, attributes, X.
    pub oam_data: Vec<u8>,
    pub oam_addr: u8,
    /// The buffered-read register behind $2007.
    pub data_buf: u8,
    /// Whether an NMI raised at vertical blank is waiting to be serviced.
    pub nmi: bool,
    /// Current scanline, 0-261.
    pub scanlines: u32,
    /// Current cycle within the scanline, 0-340.
    pub cycles: u32,
}

// ----------------------------------------------------------------------------
// The register file as relations: what each CPU-visible operation does
// ----------------------------------------------------------------------------

/// The four memories are the same in both states.
pub open spec fn spec_ppu_mem_eq(a: PPU, b: PPU) -> bool {
    &&& a.chr_rom@ == b.chr_rom@
    &&& a.vram@ == b.vram@
    &&& a.palette_table@ == b.palette_table@
    &&& a.oam_data@ == b.oam_data@
}

/// The clock and the NMI line are the same in both states.
pub open spec fn spec_ppu_clock_eq(a: PPU, b: PPU) -> bool {
    &&& a.nmi == b.nmi
    &&& a.scanlines == b.scanlines
    &&& a.cycles == b.cycles
}

/// The address the next $2007 access works on: the address register folded
/// into the PPU's 16 KiB address space.
pub open spec fn spec_data_addr(p: PPU) -> u16 {
    (p.addr_reg.spec_get() % 0x4000) as u16
}

/// What one read of the data register ($2007) does: the address register
/// advances by the configured step; below $3F00 the read returns the old
/// buffer and the buffer refills from CHR or mirrored VRAM; in palette space
/// the read returns the palette byte directly (masked to six bits, or to the
/// greyscale bits when the mask register asks) while the buffer still refills
/// from the nametable byte beneath.
pub open spec fn spec_read_data_rel(pre: PPU, post: PPU, r: u8) -> bool {
    let a = spec_data_addr(pre);
    &&& spec_ppu_mem_eq(pre, post)
    &&& spec_ppu_clock_eq(pre, post)
    &&& post.mirror == pre.mirror
    &&& post.chr_ram == pre.chr_ram
    &&& post.addr_reg == pre.addr_reg.spec_inc(pre.ctrl_reg.spec_vram_addr_inc())
    &&& post.ctrl_reg == pre.ctrl_reg
    &&& post.status_reg == pre.status_reg
    &&& post.scroll_reg == pre.scroll_reg
    &&& post.mask_reg == pre.mask_reg
    &&& post.oam_addr == pre.oam_addr
    &&& if a < 0x2000 {
        &&& r == pre.data_buf
        &&& post.data_buf == if a < pre.chr_rom@.len() {
            pre.chr_rom@[a as int]
        } else {
            0u8
        }
    } else if a <= 0x3EFF {
        &&& r == pre.data_buf
        &&& post.data_buf == pre.vram@[spec_mirrored_vram_index(pre.mirror, (a % 0x1000) as u16) as int]
    } else {
        let palette_byte = pre.palette_table@[spec_palette_index(a) as int];
        &&& r == if pre.mask_reg.spec_grayscale() {
            (((palette_byte / 16) % 4) * 16) as u8
        } else {
            (palette_byte % 64) as u8
        }
        &&& post.data_buf == pre.vram@[spec_mirrored_vram_index(pre.mirror, (a % 0x1000) as u16) as int]
    }
}

/// What one write of the data register ($2007) does: the address register
/// advances; a nametable write lands at the mirrored VRAM index, a palette
/// write at the mirrored palette index, and a pattern-space write lands in
/// CHR on a CHR-RAM board and is discarded on a ROM board.
pub open spec fn spec_write_data_rel(pre: PPU, post: PPU, value: u8) -> bool {
    let a = spec_data_addr(pre);
    &&& post.oam_data@ == pre.oam_data@
    &&& spec_ppu_clock_eq(pre, post)
    &&& post.mirror == pre.mirror
    &&& post.chr_ram == pre.chr_ram
    &&& post.addr_reg == pre.addr_reg.spec_inc(pre.ctrl_reg.spec_vram_addr_inc())
    &&& post.ctrl_reg == pre.ctrl_reg
    &&& post.status_reg == pre.status_reg
    &&& post.scroll_reg == pre.scroll_reg
    &&& post.mask_reg == pre.mask_reg
    &&& post.oam_addr == pre.oam_addr
    &&& post.data_buf == pre.data_buf
    &&& if a < 0x2000 {
        &&& post.chr_rom@ == if pre.chr_ram && a < pre.chr_rom@.len() {
            pre.chr_rom@.update(a as int, value)
        } else {
            pre.chr_rom@
        }
        &&& post.vram@ == pre.vram@
        &&& post.palette_table@ == pre.palette_table@
    } else if a <= 0x3EFF {
        &&& post.chr_rom@ == pre.chr_rom@
        &&& post.vram@ == pre.vram@.update(
            spec_mirrored_vram_index(pre.mirror, (a % 0x1000) as u16) as int,
            value,
        )
        &&& post.palette_table@ == pre.palette_table@
    } else {
        &&& post.chr_rom@ == pre.chr_rom@
        &&& post.vram@ == pre.vram@
        &&& post.palette_table@ == pre.palette_table@.update(spec_palette_index(a) as int, value)
    }
}

/// What one write of the address register ($2006) does.
pub open spec fn spec_write_addr_rel(pre: PPU, post: PPU, value: u8) -> bool {
    &&& spec_ppu_mem_eq(pre, post)
    &&& spec_ppu_clock_eq(pre, post)
    &&& post.mirror == pre.mirror
    &&& post.chr_ram == pre.chr_ram
    &&& post.addr_reg == pre.addr_reg.spec_write(value)
    &&& post.ctrl_reg == pre.ctrl_reg
    &&& post.status_reg == pre.status_reg
    &&& post.scroll_reg == pre.scroll_reg
    &&& post.mask_reg == pre.mask_reg
    &&& post.oam_addr == pre.oam_addr
    &&& post.data_buf == pre.data_buf
}

/// What one read of the status register ($2002) does: the three flag bits
/// come back (low five bits zero), the vblank flag clears, and both write
/// latches reset.
pub open spec fn spec_read_status_rel(pre: PPU, post: PPU, r: u8) -> bool {
    &&& spec_ppu_mem_eq(pre, post)
    &&& spec_ppu_clock_eq(pre, post)
    &&& post.mirror == pre.mirror
    &&& post.chr_ram == pre.chr_ram
    &&& r == (pre.status_reg.bits / 32) * 32
    &&& (r >= 128) == pre.status_reg.spec_vblank()
    &&& post.status_reg == pre.status_reg.spec_with_vblank(false)
    &&& post.addr_reg == (AddrRegister { write_to_hi: true, ..pre.addr_reg })
    &&& post.scroll_reg == (ScrollRegister { write_to_x: true, ..pre.scroll_reg })
    &&& post.ctrl_reg == pre.ctrl_reg
    &&& post.mask_reg == pre.mask_reg
    &&& post.oam_addr == pre.oam_addr
    &&& post.data_buf == pre.data_buf
}

/// What one PPU clock tick does. 262 scanlines of 341 cycles each: at the
/// end of a scanline the per-scanline sprite-zero test may raise its flag;
/// entering scanline 241 raises vblank (and NMI when enabled); wrapping past
/// scanline 261 clears vblank, sprite-zero-hit and the NMI line.
pub open spec fn spec_tick_rel(pre: PPU, post: PPU) -> bool {
    &&& spec_ppu_mem_eq(pre, post)
    &&& spec_tick_clock_rel(pre, post)
}

/// The clock-and-flags part of one PPU tick: how the cycle, scanline, status
/// flags and NMI line move, with the registers untouched. (The sprite-zero
/// test reads the OAM and mask of the pre-state.)
pub open spec fn spec_tick_clock_rel(pre: PPU, post: PPU) -> bool {
    &&& post.mirror == pre.mirror
    &&& post.chr_ram == pre.chr_ram
    &&& post.addr_reg == pre.addr_reg
    &&& post.ctrl_reg == pre.ctrl_reg
    &&& post.scroll_reg == pre.scroll_reg
    &&& post.mask_reg == pre.mask_reg
    &&& post.oam_addr == pre.oam_addr
    &&& post.data_buf == pre.data_buf
    &&& if pre.cycles + 1 < 341 {
        &&& post.cycles == pre.cycles + 1
        &&& post.scanlines == pre.scanlines
        &&& post.status_reg == pre.status_reg
        &&& post.nmi == pre.nmi
    } else {
        let hit = spec_sprite_zero_hit(pre);
        let s1 = if hit {
            pre.status_reg.spec_with_sprite_zero_hit(true)
        } else {
            pre.status_reg
        };
        let sl = pre.scanlines + 1;
        &&& post.cycles == 0
        &&& if sl == 241 {
            &&& post.scanlines == 241
            &&& post.status_reg == s1.spec_with_vblank(true).spec_with_sprite_zero_hit(false)
            &&& post.nmi == (pre.nmi || pre.ctrl_reg.spec_generate_nmi())
        } else if sl == 262 {
            &&& post.scanlines == 0
            &&& post.status_reg == s1.spec_with_vblank(false).spec_with_sprite_zero_hit(false)
            &&& post.nmi == false
        } else {
            &&& post.scanlines == sl
            &&& post.status_reg == s1
            &&& post.nmi == pre.nmi
        }
    }
}

/// Whether the NMI line is high right after one PPU tick of `p`: it rises
/// on entering scanline 241 with NMI generation enabled, drops on wrapping
/// past the pre-render scanline, and otherwise holds.
pub open spec fn spec_nmi_after_tick(p: PPU) -> bool {
    if p.cycles + 1 < 341 {
        p.nmi
    } else if p.scanlines + 1 == 241 {
        p.nmi || p.ctrl_reg.spec_generate_nmi()
    } else if p.scanlines + 1 == 262 {
        false
    } else {
        p.nmi
    }
}

/// The per-scanline sprite-zero approximation, tested at the end of a
/// scanline: sprite 0's Y equals the scanline, its X has been passed, and
/// both background and sprite rendering are on.
pub open spec fn spec_sprite_zero_hit(p: PPU) -> bool {
    &&& p.oam_data@[0] == p.scanlines
    &&& p.oam_data@[3] <= p.cycles + 1
    &&& p.mask_reg.spec_show_background()
    &&& p.mask_reg.spec_show_sprites()
}


/// What a CPU read of a mirrored PPU register ($2000-$3FFF) does, by the
/// register the address selects. The write-only registers read back 0.
#[verifier::opaque]
pub open spec fn spec_ppu_cpu_read_rel(pre: PPU, post: PPU, cpu_addr: u16, r: u8) -> bool {
    match cpu_addr % 8 {
        2 => spec_read_status_rel(pre, post, r),
        4 => post == pre && r == pre.oam_data@[pre.oam_addr as int],
        7 => spec_read_data_rel(pre, post, r),
        _ => post == pre && r == 0,
    }
}

/// What a CPU write of a mirrored PPU register ($2000-$3FFF) does, by the
/// register the address selects. Writes to the read-only status register
/// are discarded.
#[verifier::opaque]
pub open spec fn spec_ppu_cpu_write_rel(pre: PPU, post: PPU, cpu_addr: u16, value: u8) -> bool {
    match cpu_addr % 8 {
        0 => post == (PPU { ctrl_reg: (CtrlRegister { bits: value }), ..pre }),
        1 => post == (PPU { mask_reg: (MaskRegister { bits: value }), ..pre }),
        3 => post == (PPU { oam_addr: value, ..pre }),
        4 => post.oam_data@ == pre.oam_data@.update(pre.oam_addr as int, value) && post == (PPU {
            oam_data: post.oam_data,
            oam_addr: post.oam_addr,
            ..pre
        }) && post.oam_addr == (pre.oam_addr + 1) % 256,
        5 => post == (PPU { scroll_reg: pre.scroll_reg.spec_write(value), ..pre }),
        6 => spec_write_addr_rel(pre, post, value),
        7 => spec_write_data_rel(pre, post, value),
        _ => post == pre,
    }
}

impl PPU {
    /// The sizes and clock ranges every reachable PPU state keeps.
    pub open spec fn wf(self) -> bool {
        &&& self.vram@.len() == 2048
        &&& self.palette_table@.len() == 32
        &&& self.oam_data@.len() == 256
        &&& self.scanlines <= 261
        &&& self.cycles <= 340
    }

    /// A fresh PPU over a cartridge's pattern memory and mirroring mode.
    /// A CHR-RAM board (zero CHR banks) gets 8 KiB of cleared pattern RAM.
    pub fn new(cart: &Cartridge) -> (r: PPU)
        ensures
            r.wf(),
            r.chr_ram == (cart.num_chr_banks == 0),
            cart.num_chr_banks != 0 ==> r.chr_rom@ == cart.chr_rom@,
            cart.num_chr_banks == 0 ==> r.chr_rom@ == Seq::new(8192, |i: int| 0u8),
            r.mirror == cart.mirror,
            r.vram@ == Seq::new(2048, |i: int| 0u8),
            r.palette_table@ == Seq::new(32, |i: int| 0u8),
            r.oam_data@ == Seq::new(256, |i: int| 0u8),
            r.oam_addr == 0 && r.data_buf == 0 && !r.nmi,
            r.scanlines == 0 && r.cycles == 0,
            r.addr_reg.spec_get() == 0 && r.addr_reg.write_to_hi,
            r.ctrl_reg.bits == 0 && r.mask_reg.bits == 0 && r.status_reg.bits == 0,
            r.scroll_reg.scroll_x == 0 && r.scroll_reg.scroll_y == 0 && r.scroll_reg.write_to_x,
    {
        let chr_ram = cart.num_chr_banks == 0;
        PPU {
            chr_rom: if chr_ram {
                new_filled(8192)
            } else {
                crate::cartridge::copy_range(&cart.chr_rom, 0, cart.chr_rom.len())
            },
            chr_ram,
            vram: new_filled(2048),
            palette_table: new_filled(32),
            mirror: cart.mirror,
            addr_reg: AddrRegister::new(),
            ctrl_reg: CtrlRegister::new(),
            status_reg: StatusRegister::new(),
            scroll_reg: ScrollRegister::new(),
            mask_reg: MaskRegister::new(),
            oam_data: new_filled(256),
            oam_addr: 0,
            data_buf: 0,
            nmi: false,
            scanlines: 0,
            cycles: 0,
        }
    }

    /// One PPU clock cycle. The scanline/cycle pair stays well-formed: this
    /// is the timing invariant, scanline in 0-261 and cycle in 0-340.
    pub fn tick(&mut self)
        requires
            old(self).wf(),
        ensures
            final(self).wf(),
            spec_tick_rel(*old(self), *final(self)),
    {
        if self.cycles + 1 < 341 {
            self.cycles = self.cycles + 1;
        } else {
            if self.is_sprite_zero_hit() {
                self.status_reg.set_sprite_zero_hit(true);
            }
            self.cycles = 0;
            self.scanlines = self.scanlines + 1;

            if self.scanlines == 241 {
                self.status_reg.set_vblank_started(true);
                // the sprite-zero-hit flag is erased on entering vblank
                self.status_reg.set_sprite_zero_hit(false);
                if self.ctrl_reg.is_generate_nmi() {
                    self.nmi = true;
                }
            }
            if self.scanlines == 262 {
                self.scanlines = 0;
                self.status_reg.set_vblank_started(false);
                self.status_reg.set_sprite_zero_hit(false);
                self.nmi = false;
            }
        }
    }

    /// The per-scanline sprite-zero test, evaluated at the cycle that closes
    /// a scanline.
    pub fn is_sprite_zero_hit(&self) -> (r: bool)
        requires
            self.wf(),
        ensures
            r == spec_sprite_zero_hit(*self),
    {
        let y = self.oam_data[0];
        let x = self.oam_data[3];
        (y as u32 == self.scanlines) && (x as u32 <= self.cycles + 1)
            && self.mask_reg.show_background() && self.mask_reg.show_sprites()
    }

    /// A CPU read of $2000-$3FFF: the eight registers repeat every eight
    /// bytes; only status, OAM data and VRAM data are readable, the
    /// write-only registers read back 0.
    pub fn cpu_read(&mut self, cpu_addr: u16) -> (r: u8)
        requires
            old(self).wf(),
            0x2000 <= cpu_addr <= 0x3FFF,
        ensures
            final(self).wf(),
            spec_ppu_cpu_read_rel(*old(self), *final(self), cpu_addr, r),
    {
        proof {
            reveal(spec_ppu_cpu_read_rel);
        }
        match cpu_addr % 8 {
            2 => self.read_status_reg(),
            4 => self.read_oam_data(),
            7 => self.read_data_reg(),
            _ => 0,
        }
    }

    /// A CPU write of $2000-$3FFF. Writes to the read-only status register
    /// are discarded, as the hardware does.
    pub fn cpu_write(&mut self, cpu_addr: u16, value: u8)
        requires
            old(self).wf(),
            0x2000 <= cpu_addr <= 0x3FFF,
        ensures
            final(self).wf(),
            spec_ppu_cpu_write_rel(*old(self), *final(self), cpu_addr, value),
    {
        proof {
            reveal(spec_ppu_cpu_write_rel);
        }
        match cpu_addr % 8 {
            0 => self.write_ctrl_reg(value),
            1 => self.write_mask_reg(value),
            3 => self.write_oam_addr(value),
            4 => self.write_oam_data(value),
            5 => self.write_scroll_reg(value),
            6 => self.write_addr_reg(value),
            7 => self.write_data_reg(value),
            _ => {},
        }
    }

    /// One write of the VRAM address register ($2006): high byte first, then
    /// low, through the shared latch.
    pub fn write_addr_reg(&mut self, value: u8)
        requires
            old(self).wf(),
        ensures
            final(self).wf(),
            spec_write_addr_rel(*old(self), *final(self), value),
    {
        self.addr_reg.write(value);
    }

    /// A write of the control register ($2000).
    pub fn write_ctrl_reg(&mut self, value: u8)
        requires
            old(self).wf(),
        ensures
            final(self).wf(),
            *final(self) == (PPU { ctrl_reg: (CtrlRegister { bits: value }), ..*old(self) }),
    {
        self.ctrl_reg.write(value);
    }

    /// One read of the VRAM data register ($2007); see `spec_read_data_rel`.
    pub fn read_data_reg(&mut self) -> (r: u8)
        requires
            old(self).wf(),
        ensures
            final(self).wf(),
            spec_read_data_rel(*old(self), *final(self), r),
    {
        let addr: u16 = self.addr_reg.get() % 0x4000;
        let buf: u8 = self.data_buf;

        // reading the data register advances the address
        let step: u8 = self.ctrl_reg.get_vram_addr_inc();
        self.addr_reg.inc(step);

        if addr < 0x2000 {
            // pattern memory, through the read buffer
            self.data_buf = if (addr as usize) < self.chr_rom.len() {
                self.chr_rom[addr as usize]
            } else {
                0
            };
            buf
        } else if addr <= 0x3EFF {
            // nametable memory, through the read buffer
            let idx = self.get_mirrored_vram_addr(addr % 0x1000);
            self.data_buf = self.vram[idx as usize];
            buf
        } else {
            // palette memory reads bypass the buffer, which still refills
            // from the nametable byte beneath
            let idx = self.get_mirrored_vram_addr(addr % 0x1000);
            self.data_buf = self.vram[idx as usize];
            let palette_byte = self.palette_table[palette_index(addr) as usize];
            if self.mask_reg.grayscale() {
                ((palette_byte / 16) % 4) * 16
            } else {
                palette_byte % 64
            }
        }
    }

    /// One write of the VRAM data register ($2007); see `spec_write_data_rel`.
    pub fn write_data_reg(&mut self, value: u8)
        requires
            old(self).wf(),
        ensures
            final(self).wf(),
            spec_write_data_rel(*old(self), *final(self), value),
    {
        let addr: u16 = self.addr_reg.get() % 0x4000;

        // writing the data register advances the address
        let step: u8 = self.ctrl_reg.get_vram_addr_inc();
        self.addr_reg.inc(step);

        if addr < 0x2000 {
            // pattern memory: writable only on a CHR-RAM board
            if self.chr_ram && (addr as usize) < self.chr_rom.len() {
                self.chr_rom[addr as usize] = value;
            }
        } else if addr <= 0x3EFF {
            let idx = self.get_mirrored_vram_addr(addr % 0x1000);
            self.vram[idx as usize] = value;
        } else {
            let idx = palette_index(addr);
            self.palette_table[idx as usize] = value;
        }
    }

    /// Where a nametable address lands in physical VRAM; the result indexes
    /// the 2 KiB `vram`.
    pub fn get_mirrored_vram_addr(&self, addr: u16) -> (r: u16)
        ensures
            r == spec_mirrored_vram_index(self.mirror, addr),
            r < 2048,
    {
        let logical: u16 = addr % 0x1000;
        let nametable_idx: u16 = logical / 0x400;
        let idx_a: u16 = logical % 0x400;
        let idx_b: u16 = idx_a + 0x400;
        match self.mirror {
            Mirror::Horizontal => if nametable_idx <= 1 {
                idx_a
            } else {
                idx_b
            },
            Mirror::Vertical => if nametable_idx == 0 || nametable_idx == 2 {
                idx_a
            } else {
                idx_b
            },
            Mirror::FourScreen => logical % 0x800,
        }
    }

    /// One read of the status register ($2002); see `spec_read_status_rel`.
    /// Reading clears the vblank flag and resets both write latches.
    pub fn read_status_reg(&mut self) -> (r: u8)
        requires
            old(self).wf(),
        ensures
            final(self).wf(),
            spec_read_status_rel(*old(self), *final(self), r),
    {
        let value = self.status_reg.read();
        self.status_reg.set_vblank_started(false);
        self.addr_reg.reset_latch();
        self.scroll_reg.reset_latch();
        value
    }

    /// A write of the mask register ($2001).
    pub fn write_mask_reg(&mut self, value: u8)
        requires
            old(self).wf(),
        ensures
            final(self).wf(),
            *final(self) == (PPU { mask_reg: (MaskRegister { bits: value }), ..*old(self) }),
    {
        self.mask_reg.write(value);
    }

    /// One write of the scroll register ($2005): X first, then Y, through
    /// the shared latch.
    pub fn write_scroll_reg(&mut self, value: u8)
        requires
            old(self).wf(),
        ensures
            final(self).wf(),
            *final(self) == (PPU { scroll_reg: old(self).scroll_reg.spec_write(value), ..*old(self) }),
    {
        self.scroll_reg.write(value);
    }

    /// A write of the OAM address register ($2003).
    pub fn write_oam_addr(&mut self, value: u8)
        requires
            old(self).wf(),
        ensures
            final(self).wf(),
            *final(self) == (PPU { oam_addr: value, ..*old(self) }),
    {
        self.oam_addr = value;
    }

    /// A read of the OAM data register ($2004): the byte at the current OAM
    /// address, without advancing it.
    pub fn read_oam_data(&self) -> (r: u8)
        requires
            self.wf(),
        ensures
            r == self.oam_data@[self.oam_addr as int],
    {
        self.oam_data[self.oam_addr as usize]
    }

    /// A write of the OAM data register ($2004): store at the current OAM
    /// address, then advance it (wrapping).
    pub fn write_oam_data(&mut self, value: u8)
        requires
            old(self).wf(),
        ensures
            final(self).wf(),
            final(self).oam_data@ == old(self).oam_data@.update(old(self).oam_addr as int, value),
            final(self).oam_addr == (old(self).oam_addr + 1) % 256,
            *final(self) == (PPU {
                oam_data: final(self).oam_data,
                oam_addr: final(self).oam_addr,
                ..*old(self)
            }),
    {
        self.oam_data[self.oam_addr as usize] = value;
        self.oam_addr = self.oam_addr.wrapping_add(1);
    }

    /// Whether an NMI is waiting to be serviced.
    pub fn has_nmi(&self) -> (r: bool)
        ensures
            r == self.nmi,
    {
        self.nmi
    }

    /// Acknowledge the NMI: the line drops until the next vblank edge.
    pub fn reset_nmi(&mut self)
        ensures
            *final(self) == (PPU { nmi: false, ..*old(self) }),
    {
        self.nmi = false;
    }
}

/// The palette index for a $3F00-$3FFF address, as executable code.
fn palette_index(addr: u16) -> (r: u16)
    ensures
        r == spec_palette_index(addr),
        r < 32,
{
    let m: u16 = addr % 32;
    if m == 0x10 {
        0
    } else if m == 0x14 {
        4
    } else if m == 0x18 {
        8
    } else if m == 0x1C {
        12
    } else {
        m
    }
}

/// A vector of `len` zero bytes.
pub(crate) fn new_filled(len: usize) -> (r: Vec<u8>)
    ensures
        r@ == Seq::new(len as nat, |i: int| 0u8),
{
    let mut r: Vec<u8> = Vec::new();
    let mut i: usize = 0;
    while i < len
        invariant
            i <= len,
            r@.len() == i,
            forall|k: int| 0 <= k < i ==> r@[k] == 0,
        decreases len - i,
    {
        r.push(0);
        i = i + 1;
    }
    proof {
        assert(r@ =~= Seq::new(len as nat, |i: int| 0u8));
    }
    r
}

// ----------------------------------------------------------------------------
// Laws of the register file
// ----------------------------------------------------------------------------

/// Two writes of the address register compose the 16-bit address, high byte
/// first, and touch nothing else that a later data access reads.
proof fn lemma_two_addr_writes(p0: PPU, p1: PPU, p2: PPU, hi: u8, lo: u8)
    requires
        p0.addr_reg.write_to_hi,
        spec_write_addr_rel(p0, p1, hi),
        spec_write_addr_rel(p1, p2, lo),
    ensures
        p2.addr_reg.spec_get() == (hi as int) * 256 + lo,
        p2.addr_reg.write_to_hi,
        p2.vram@ == p0.vram@,
        p2.palette_table@ == p0.palette_table@,
        p2.chr_rom@ == p0.chr_rom@,
        p2.oam_data@ == p0.oam_data@,
        p2.mirror == p0.mirror,
        p2.ctrl_reg == p0.ctrl_reg,
        p2.mask_reg == p0.mask_reg,
        p2.data_buf == p0.data_buf,
{
}

/// VRAM mirroring preserves writes: write a byte through $2006/$2007 at one
/// nametable address, point $2006 at any address that mirrors it, and the
/// second $2007 read (the first primes the buffer) returns that byte —
/// whatever the address increment in force.
#[verifier::rlimit(100)]
#[verifier::spinoff_prover]
pub proof fn lemma_vram_mirror_round_trip(
    p0: PPU,
    p1: PPU,
    p2: PPU,
    p3: PPU,
    p4: PPU,
    p5: PPU,
    p6: PPU,
    p7: PPU,
    hi1: u8,
    lo1: u8,
    hi2: u8,
    lo2: u8,
    value: u8,
    r1: u8,
    r2: u8,
)
    requires
        p0.wf(),
        p0.addr_reg.write_to_hi,
        // the write address and the read address both lie in nametable space
        0x20 <= hi1 < 0x3F,
        0x20 <= hi2 < 0x3F,
        (hi1 as int) * 256 + lo1 <= 0x3EFF,
        (hi2 as int) * 256 + lo2 <= 0x3EFF,
        // the two addresses fall on the same physical VRAM cell
        spec_mirrored_vram_index(p0.mirror, ((hi1 as int) * 256 + lo1) as u16 % 0x1000)
            == spec_mirrored_vram_index(p0.mirror, ((hi2 as int) * 256 + lo2) as u16 % 0x1000),
        // the address the second read works on has not advanced into palette space
        (hi2 as int) * 256 + lo2 + p0.ctrl_reg.spec_vram_addr_inc() <= 0x3EFF,
        // set the address, write the byte
        spec_write_addr_rel(p0, p1, hi1),
        spec_write_addr_rel(p1, p2, lo1),
        spec_write_data_rel(p2, p3, value),
        // set the mirrored address, prime the buffer, read
        spec_write_addr_rel(p3, p4, hi2),
        spec_write_addr_rel(p4, p5, lo2),
        spec_read_data_rel(p5, p6, r1),
        spec_read_data_rel(p6, p7, r2),
    ensures
        r2 == value,
{
    let a1 = ((hi1 as int) * 256 + lo1) as u16;
    let a2 = ((hi2 as int) * 256 + lo2) as u16;
    let idx1 = spec_mirrored_vram_index(p0.mirror, (a1 % 0x1000) as u16);
    let idx2 = spec_mirrored_vram_index(p0.mirror, (a2 % 0x1000) as u16);
    let inc = p0.ctrl_reg.spec_vram_addr_inc();
    lemma_two_addr_writes(p0, p1, p2, hi1, lo1);
    assert(idx1 < 2048 && idx2 < 2048);
    assert(p2.vram@.len() == 2048);
    assert(spec_data_addr(p2) == a1);
    assert(p3.vram@ == p2.vram@.update(idx1 as int, value));
    assert(p3.addr_reg.write_to_hi);
    lemma_two_addr_writes(p3, p4, p5, hi2, lo2);
    assert(spec_data_addr(p5) == a2);
    assert(p5.vram@ == p3.vram@);
    assert(p5.ctrl_reg == p0.ctrl_reg);
    assert(p6.data_buf == p5.vram@[idx2 as int]);
    assert(p6.data_buf == value);
    assert(p6.addr_reg == p5.addr_reg.spec_inc(inc));
    assert(p6.addr_reg.spec_get() == a2 + inc);
    assert(spec_data_addr(p6) == a2 + inc);
    assert(0x2000 <= spec_data_addr(p6) <= 0x3EFF);
    assert(r2 == p6.data_buf);
}

/// Writing the address register twice then reading $2007 twice returns, on
/// the second read, exactly the VRAM byte at the mirrored address that the
/// two writes composed (the first read only primes the buffer).
#[verifier::rlimit(100)]
pub proof fn lemma_addr_then_buffered_read(
    p0: PPU,
    p1: PPU,
    p2: PPU,
    p3: PPU,
    p4: PPU,
    hi: u8,
    lo: u8,
    r1: u8,
    r2: u8,
)
    requires
        p0.wf(),
        p0.addr_reg.write_to_hi,
        0x20 <= hi < 0x3F,
        (hi as int) * 256 + lo + p0.ctrl_reg.spec_vram_addr_inc() <= 0x3EFF,
        spec_write_addr_rel(p0, p1, hi),
        spec_write_addr_rel(p1, p2, lo),
        spec_read_data_rel(p2, p3, r1),
        spec_read_data_rel(p3, p4, r2),
    ensures
        r2 == p0.vram@[spec_mirrored_vram_index(
            p0.mirror,
            (((hi as int) * 256 + lo) % 0x1000) as u16,
        ) as int],
{
    let a = ((hi as int) * 256 + lo) as u16;
    assert(spec_data_addr(p2) == a);
}

/// The palette mirror pairs: $3F10/$3F14/$3F18/$3F1C fold onto
/// $3F00/$3F04/$3F08/$3F0C, in both directions — a write through either
/// address of a pair is read back through the other.
pub proof fn lemma_palette_mirror_pairs()
    ensures
        spec_palette_index(0x3F10) == spec_palette_index(0x3F00),
        spec_palette_index(0x3F14) == spec_palette_index(0x3F04),
        spec_palette_index(0x3F18) == spec_palette_index(0x3F08),
        spec_palette_index(0x3F1C) == spec_palette_index(0x3F0C),
{
}

/// A palette write at address `a_w` is observable at `a_r` whenever the two
/// addresses mirror to the same palette slot — in particular across each
/// $3F1x/$3F0x pair — up to the six-bit mask a read applies.
pub proof fn lemma_palette_mirror_write_read(
    p0: PPU,
    p1: PPU,
    p2: PPU,
    value: u8,
    r: u8,
    a_w: u16,
    a_r: u16,
)
    requires
        p0.wf(),
        0x3F00 <= spec_data_addr(p0) && spec_data_addr(p0) == a_w,
        0x3F00 <= spec_data_addr(p1) && spec_data_addr(p1) == a_r,
        spec_palette_index(a_w) == spec_palette_index(a_r),
        !p1.mask_reg.spec_grayscale(),
        spec_write_data_rel(p0, p1, value),
        spec_read_data_rel(p1, p2, r),
    ensures
        r == value % 64,
{
}

/// Reading the status register clears the vblank flag: a second immediate
/// read reports vblank = 0, whatever the first read reported.
pub proof fn lemma_status_read_clears_vblank(p0: PPU, p1: PPU, p2: PPU, r1: u8, r2: u8)
    requires
        p0.wf(),
        spec_read_status_rel(p0, p1, r1),
        spec_read_status_rel(p1, p2, r2),
    ensures
        (r1 >= 128) == p0.status_reg.spec_vblank(),
        r2 < 128,
        !p1.status_reg.spec_vblank(),
{
}

} // verus!
