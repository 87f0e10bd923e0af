//! Cartridge mappers: circuits that translate CPU and PPU bus addresses into
//! offsets inside the cartridge's PRG and CHR memory. Only mapper 0 (NROM)
//! exists here; `new` refuses every other id.

use crate::mapper_0::Mapper0;
use vstd::prelude::*;

verus! {

/// The mapper wired onto a cartridge. `None` from a mapping method means the
/// address is not the cartridge's to answer and the bus routes it elsewhere.
#[derive(Clone, Copy)]
pub enum Mapper {
    Nrom(Mapper0),
}

/// Build the mapper for `mapper_id`, or `None` when the id is unsupported.
pub fn new(mapper_id: u8, num_prg_banks: u8, num_chr_banks: u8) -> (r: Option<Mapper>)
    ensures
        mapper_id == 0 ==> r == Some(Mapper::Nrom(Mapper0::spec_new(num_prg_banks, num_chr_banks))),
        mapper_id != 0 ==> r is None,
{
    match mapper_id {
        0 => Some(Mapper::Nrom(Mapper0::new(num_prg_banks, num_chr_banks))),
        _ => None,
    }
}

impl Mapper {
    pub open spec fn spec_cpu_read_mapping(self, addr: u16) -> Option<u16> {
        match self {
            Mapper::Nrom(m) => m.spec_cpu_read_mapping(addr),
        }
    }

    pub open spec fn spec_cpu_write_mapping(self, addr: u16) -> Option<u16> {
        match self {
            Mapper::Nrom(m) => m.spec_cpu_write_mapping(addr),
        }
    }

    pub open spec fn spec_ppu_read_mapping(self, addr: u16) -> Option<u16> {
        match self {
            Mapper::Nrom(m) => m.spec_ppu_read_mapping(addr),
        }
    }

    pub open spec fn spec_ppu_write_mapping(self, addr: u16) -> Option<u16> {
        match self {
            Mapper::Nrom(m) => m.spec_ppu_write_mapping(addr),
        }
    }

    /// Where a CPU read of `addr` lands inside PRG memory, if anywhere.
    pub fn cpu_read_mapping(&self, addr: u16) -> (r: Option<u16>)
        ensures
            r == self.spec_cpu_read_mapping(addr),
    {
        match self {
            Mapper::Nrom(m) => m.cpu_read_mapping(addr),
        }
    }

    /// Where a CPU write of `addr` lands inside PRG memory, if anywhere.
    pub fn cpu_write_mapping(&self, addr: u16) -> (r: Option<u16>)
        ensures
            r == self.spec_cpu_write_mapping(addr),
    {
        match self {
            Mapper::Nrom(m) => m.cpu_write_mapping(addr),
        }
    }

    /// Where a PPU read of `addr` lands inside CHR memory, if anywhere.
    pub fn ppu_read_mapping(&self, addr: u16) -> (r: Option<u16>)
        ensures
            r == self.spec_ppu_read_mapping(addr),
    {
        match self {
            Mapper::Nrom(m) => m.ppu_read_mapping(addr),
        }
    }

    /// Where a PPU write of `addr` lands inside CHR memory, if anywhere.
    pub fn ppu_write_mapping(&self, addr: u16) -> (r: Option<u16>)
        ensures
            r == self.spec_ppu_write_mapping(addr),
    {
        match self {
            Mapper::Nrom(m) => m.ppu_write_mapping(addr),
        }
    }
}

} // verus!
