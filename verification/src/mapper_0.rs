//! Mapper 0 (NROM): CPU addresses $8000-$FFFF map into PRG-ROM, masked to one
//! bank (16 KiB) or two (32 KiB); PPU addresses $0000-$1FFF map straight into
//! CHR memory, writable only when the board carries CHR-RAM (zero CHR banks).

use vstd::prelude::*;

verus! {

#[derive(Clone, Copy)]
pub struct Mapper0 {
    pub num_prg_banks: u8,
    pub num_chr_banks: u8,
}

impl Mapper0 {
    pub open spec fn spec_new(num_prg_banks: u8, num_chr_banks: u8) -> Mapper0 {
        Mapper0 { num_prg_banks, num_chr_banks }
    }

    /// The PRG offset a CPU access of `addr` reaches: the address modulo the
    /// PRG window (16 KiB with one bank, so the upper half mirrors the lower;
    /// 32 KiB with two).
    pub open spec fn spec_prg_offset(self, addr: u16) -> u16 {
        if self.num_prg_banks > 1 {
            (addr % 0x8000) as u16
        } else {
            (addr % 0x4000) as u16
        }
    }

    pub open spec fn spec_cpu_read_mapping(self, addr: u16) -> Option<u16> {
        if addr < 0x8000 {
            None
        } else {
            Some(self.spec_prg_offset(addr))
        }
    }

    pub open spec fn spec_cpu_write_mapping(self, addr: u16) -> Option<u16> {
        self.spec_cpu_read_mapping(addr)
    }

    pub open spec fn spec_ppu_read_mapping(self, addr: u16) -> Option<u16> {
        if addr <= 0x1FFF {
            Some(addr)
        } else {
            None
        }
    }

    pub open spec fn spec_ppu_write_mapping(self, addr: u16) -> Option<u16> {
        if addr <= 0x1FFF && self.num_chr_banks == 0 {
            Some(addr)
        } else {
            None
        }
    }

    pub fn new(num_prg_banks: u8, num_chr_banks: u8) -> (r: Mapper0)
        ensures
            r == Mapper0::spec_new(num_prg_banks, num_chr_banks),
    {
        Mapper0 { num_prg_banks, num_chr_banks }
    }

    pub fn cpu_read_mapping(&self, addr: u16) -> (r: Option<u16>)
        ensures
            r == self.spec_cpu_read_mapping(addr),
    {
        if addr < 0x8000 {
            return None;
        }
        let mapped_addr: u16 = if self.num_prg_banks > 1 {
            addr % 0x8000
        } else {
            addr % 0x4000
        };
        Some(mapped_addr)
    }

    pub fn cpu_write_mapping(&self, addr: u16) -> (r: Option<u16>)
        ensures
            r == self.spec_cpu_write_mapping(addr),
    {
        self.cpu_read_mapping(addr)
    }

    pub fn ppu_read_mapping(&self, addr: u16) -> (r: Option<u16>)
        ensures
            r == self.spec_ppu_read_mapping(addr),
    {
        if addr <= 0x1FFF {
            Some(addr)
        } else {
            None
        }
    }

    pub fn ppu_write_mapping(&self, addr: u16) -> (r: Option<u16>)
        ensures
            r == self.spec_ppu_write_mapping(addr),
    {
        if addr <= 0x1FFF && self.num_chr_banks == 0 {
            Some(addr)
        } else {
            None
        }
    }
}

} // verus!
