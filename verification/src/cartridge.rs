//! The cartridge: the iNES header parse, the PRG/CHR memory it carries, and
//! the mapper that translates bus addresses into offsets inside that memory.
//!
//! iNES layout (bit-exact): bytes 0-3 the magic `4E 45 53 1A`; byte 4 the
//! count of 16 KiB PRG banks; byte 5 the count of 8 KiB CHR banks; byte 6
//! flags (bit 0 mirroring, bit 2 trainer, bit 3 four-screen, bits 4-7 the low
//! nibble of the mapper id); byte 7 flags (bits 0-3 must be zero for iNES 1.0,
//! bits 4-7 the high nibble of the mapper id); bytes 8-15 ignored. A 512-byte
//! trainer, when flagged, sits between the header and the PRG bytes.

use crate::mapper::Mapper;
use crate::mapper_0::Mapper0;
use vstd::prelude::*;

verus! {

/// How the two physical nametables are laid over the four logical ones.
#[derive(Clone, Copy, PartialEq, Eq, Structural, Debug)]
pub enum Mirror {
    Vertical,
    Horizontal,
    FourScreen,
}

/// Why a ROM image was refused. These are configuration errors: the loader
/// reports them and the host decides.
#[derive(Clone, Copy, PartialEq, Eq, Structural, Debug)]
pub enum CartridgeError {
    /// The magic `4E 45 53 1A` is missing (or the image is shorter than a header).
    FormatInvalid,
    /// Bits 0-3 of header byte 7 are not zero, so this is not an iNES 1.0 image.
    Ines2NotSupported,
    /// The mapper id (its value is carried along) has no implementation here.
    MapperUnsupported(u8),
    /// The image is too short for the PRG and CHR sizes its header declares.
    SizeInvalid,
}

pub struct Cartridge {
    pub mapper_id: u8,
    pub mapper: Mapper,
    pub mirror: Mirror,
    pub num_prg_banks: u8,
    pub num_chr_banks: u8,
    pub prg_rom: Vec<u8>,
    pub chr_rom: Vec<u8>,
}

/// The header is present and starts with the iNES magic bytes.
pub open spec fn spec_magic_ok(raw: Seq<u8>) -> bool {
    &&& raw.len() >= 16
    &&& raw[0] == 0x4E
    &&& raw[1] == 0x45
    &&& raw[2] == 0x53
    &&& raw[3] == 0x1A
}

/// The mapper id: high nibble from byte 7, low nibble from byte 6.
pub open spec fn spec_mapper_id(raw: Seq<u8>) -> u8 {
    ((raw[7] / 16) * 16 + raw[6] / 16) as u8
}

/// The mirroring mode byte 6 declares: four-screen wins over bit 0.
pub open spec fn spec_mirror(raw: Seq<u8>) -> Mirror {
    if (raw[6] / 8) % 2 == 1 {
        Mirror::FourScreen
    } else if raw[6] % 2 == 1 {
        Mirror::Vertical
    } else {
        Mirror::Horizontal
    }
}

/// Bits 0-3 of byte 7 are zero: an iNES 1.0 image.
pub open spec fn spec_ines1(raw: Seq<u8>) -> bool {
    raw[7] % 16 == 0
}

/// Whether a 512-byte trainer sits before the PRG bytes.
pub open spec fn spec_has_trainer(raw: Seq<u8>) -> bool {
    (raw[6] / 4) % 2 == 1
}

/// Where the PRG bytes start.
pub open spec fn spec_prg_start(raw: Seq<u8>) -> int {
    16 + if spec_has_trainer(raw) {
        512int
    } else {
        0int
    }
}

pub open spec fn spec_prg_size(raw: Seq<u8>) -> int {
    raw[4] * 16384
}

pub open spec fn spec_chr_size(raw: Seq<u8>) -> int {
    raw[5] * 8192
}

/// The image holds as many PRG and CHR bytes as its header declares.
pub open spec fn spec_len_ok(raw: Seq<u8>) -> bool {
    raw.len() >= spec_prg_start(raw) + spec_prg_size(raw) + spec_chr_size(raw)
}

/// Everything `Cartridge::new` demands of an image.
pub open spec fn spec_ines_ok(raw: Seq<u8>) -> bool {
    &&& spec_magic_ok(raw)
    &&& spec_mapper_id(raw) == 0
    &&& spec_ines1(raw)
    &&& spec_len_ok(raw)
}

impl Cartridge {
    /// The byte a CPU read of `addr` returns from the cartridge, if the
    /// mapper claims the address and the PRG bytes reach that far.
    pub open spec fn spec_cpu_read(self, addr: u16) -> Option<u8> {
        match self.mapper.spec_cpu_read_mapping(addr) {
            Some(mapped) if mapped < self.prg_rom@.len() => Some(self.prg_rom@[mapped as int]),
            _ => None,
        }
    }

    /// Parse an iNES image. Returns the cartridge exactly when the magic is
    /// present, the image is iNES 1.0, the mapper is supported and the
    /// declared sizes fit; the error says which of those failed first.
    pub fn new(raw: &Vec<u8>) -> (r: Result<Cartridge, CartridgeError>)
        ensures
            r is Ok <==> spec_ines_ok(raw@),
            !spec_magic_ok(raw@) ==> r == Err::<Cartridge, _>(CartridgeError::FormatInvalid),
            spec_magic_ok(raw@) && spec_mapper_id(raw@) != 0 ==> r == Err::<Cartridge, _>(
                CartridgeError::MapperUnsupported(spec_mapper_id(raw@)),
            ),
            spec_magic_ok(raw@) && spec_mapper_id(raw@) == 0 && !spec_ines1(raw@) ==> r == Err::<
                Cartridge,
                _,
            >(CartridgeError::Ines2NotSupported),
            spec_magic_ok(raw@) && spec_mapper_id(raw@) == 0 && spec_ines1(raw@) && !spec_len_ok(
                raw@,
            ) ==> r == Err::<Cartridge, _>(CartridgeError::SizeInvalid),
            r matches Ok(c) ==> {
                &&& c.mapper_id == 0
                &&& c.mapper == Mapper::Nrom(Mapper0::spec_new(raw@[4], raw@[5]))
                &&& c.mirror == spec_mirror(raw@)
                &&& c.num_prg_banks == raw@[4]
                &&& c.num_chr_banks == raw@[5]
                &&& c.prg_rom@ == raw@.subrange(
                    spec_prg_start(raw@),
                    spec_prg_start(raw@) + spec_prg_size(raw@),
                )
                &&& c.chr_rom@ == raw@.subrange(
                    spec_prg_start(raw@) + spec_prg_size(raw@),
                    spec_prg_start(raw@) + spec_prg_size(raw@) + spec_chr_size(raw@),
                )
            },
    {
        if raw.len() < 16 {
            return Err(CartridgeError::FormatInvalid);
        }
        if raw[0] != 0x4E || raw[1] != 0x45 || raw[2] != 0x53 || raw[3] != 0x1A {
            return Err(CartridgeError::FormatInvalid);
        }
        let num_prg_banks: u8 = raw[4];
        let num_chr_banks: u8 = raw[5];
        let ctrl_byte_1: u8 = raw[6];
        let ctrl_byte_2: u8 = raw[7];

        let mapper_id: u8 = (ctrl_byte_2 / 16) * 16 + ctrl_byte_1 / 16;
        let mapper: Mapper = match crate::mapper::new(mapper_id, num_prg_banks, num_chr_banks) {
            Some(mapper) => mapper,
            None => {
                return Err(CartridgeError::MapperUnsupported(mapper_id));
            },
        };
        let mirror: Mirror = if (ctrl_byte_1 / 8) % 2 == 1 {
            Mirror::FourScreen
        } else if ctrl_byte_1 % 2 == 1 {
            Mirror::Vertical
        } else {
            Mirror::Horizontal
        };

        if ctrl_byte_2 % 16 != 0 {
            return Err(CartridgeError::Ines2NotSupported);
        }
        let prg_rom_size: usize = (num_prg_banks as usize) * 16384;
        let chr_rom_size: usize = (num_chr_banks as usize) * 8192;
        let has_trainer: bool = (ctrl_byte_1 / 4) % 2 == 1;
        let prg_rom_start: usize = 16 + (if has_trainer {
            512
        } else {
            0
        });
        let chr_rom_start: usize = prg_rom_start + prg_rom_size;
        if raw.len() < chr_rom_start + chr_rom_size {
            return Err(CartridgeError::SizeInvalid);
        }
        let prg_rom: Vec<u8> = copy_range(raw, prg_rom_start, prg_rom_size);
        let chr_rom: Vec<u8> = copy_range(raw, chr_rom_start, chr_rom_size);

        Ok(
            Cartridge {
                mapper_id,
                mapper,
                mirror,
                num_prg_banks,
                num_chr_banks,
                prg_rom,
                chr_rom,
            },
        )
    }

    /// A cartridge that carries a bare program in PRG-ROM (padded to one
    /// 16 KiB bank), for test programs that skip the iNES header.
    pub fn new_from_program(program: Vec<u8>) -> (r: Cartridge)
        ensures
            r.mapper_id == 0,
            r.mapper == Mapper::Nrom(Mapper0::spec_new(1, 1)),
            r.mirror == Mirror::Horizontal,
            r.num_prg_banks == 1,
            r.num_chr_banks == 1,
            r.prg_rom@.len() >= 16384,
            r.prg_rom@.len() == if program@.len() < 16384 {
                16384int
            } else {
                program@.len() as int
            },
            r.prg_rom@.subrange(0, program@.len() as int) == program@,
            forall|i: int| program@.len() <= i < r.prg_rom@.len() ==> r.prg_rom@[i] == 0,
            r.chr_rom@.len() == 0,
    {
        let mut program = program;
        let ghost orig = program@;
        while program.len() < 16384
            invariant
                program@.len() >= orig.len(),
                program@.len() == orig.len() || program@.len() <= 16384,
                program@.subrange(0, orig.len() as int) == orig,
                forall|i: int| orig.len() <= i < program@.len() ==> program@[i] == 0,
            decreases 16384 - program.len(),
        {
            program.push(0);
            proof {
                assert(program@.subrange(0, orig.len() as int) =~= orig);
            }
        }
        Cartridge {
            mapper_id: 0,
            mapper: Mapper::Nrom(Mapper0::new(1, 1)),
            mirror: Mirror::Horizontal,
            num_prg_banks: 1,
            num_chr_banks: 1,
            prg_rom: program,
            chr_rom: Vec::new(),
        }
    }

    /// An empty mapper-0 cartridge, enough to wire a bus together in tests.
    pub fn new_dummy() -> (r: Cartridge)
        ensures
            r.mapper_id == 0,
            r.mapper == Mapper::Nrom(Mapper0::spec_new(1, 1)),
            r.mirror == Mirror::Horizontal,
            r.num_prg_banks == 1,
            r.num_chr_banks == 1,
            r.prg_rom@.len() == 0,
            r.chr_rom@.len() == 0,
    {
        Cartridge {
            mapper_id: 0,
            mapper: Mapper::Nrom(Mapper0::new(1, 1)),
            mirror: Mirror::Horizontal,
            num_prg_banks: 1,
            num_chr_banks: 1,
            prg_rom: Vec::new(),
            chr_rom: Vec::new(),
        }
    }

    /// The PRG byte a CPU read of `addr` reaches, or `None` when the address
    /// is not the cartridge's (or lies past the PRG bytes it actually holds).
    pub fn cpu_read(&self, addr: u16) -> (r: Option<u8>)
        ensures
            r == self.spec_cpu_read(addr),
    {
        match self.mapper.cpu_read_mapping(addr) {
            Some(mapped) => {
                if (mapped as usize) < self.prg_rom.len() {
                    Some(self.prg_rom[mapped as usize])
                } else {
                    None
                }
            },
            None => None,
        }
    }

    /// A CPU write: the mapper claims addresses $8000 and up, but PRG is ROM,
    /// so the byte is discarded. Returns whether the cartridge claimed it.
    pub fn cpu_write(&mut self, addr: u16, value: u8) -> (r: bool)
        ensures
            *final(self) == *old(self),
            r == old(self).mapper.spec_cpu_write_mapping(addr) is Some,
    {
        match self.mapper.cpu_write_mapping(addr) {
            Some(_) => true,
            None => false,
        }
    }

    /// The CHR byte a PPU read of `addr` reaches, or `None` when the address
    /// is not the cartridge's (or lies past the CHR bytes it actually holds).
    pub fn ppu_read(&self, addr: u16) -> (r: Option<u8>)
        ensures
            r == (match self.mapper.spec_ppu_read_mapping(addr) {
                Some(mapped) if mapped < self.chr_rom@.len() => Some(self.chr_rom@[mapped as int]),
                _ => None::<u8>,
            }),
    {
        match self.mapper.ppu_read_mapping(addr) {
            Some(mapped) => {
                if (mapped as usize) < self.chr_rom.len() {
                    Some(self.chr_rom[mapped as usize])
                } else {
                    None
                }
            },
            None => None,
        }
    }

    /// A PPU write: lands in CHR only on a CHR-RAM board (zero CHR banks in
    /// the header) and within the bytes held; ROM boards discard it.
    /// Returns whether the cartridge claimed the address.
    pub fn ppu_write(&mut self, addr: u16, value: u8) -> (r: bool)
        ensures
            r == old(self).mapper.spec_ppu_write_mapping(addr) is Some,
            final(self).chr_rom@ == (match old(self).mapper.spec_ppu_write_mapping(addr) {
                Some(mapped) if mapped < old(self).chr_rom@.len() => old(self).chr_rom@.update(
                    mapped as int,
                    value,
                ),
                _ => old(self).chr_rom@,
            }),
            final(self).mapper_id == old(self).mapper_id,
            final(self).mapper == old(self).mapper,
            final(self).mirror == old(self).mirror,
            final(self).num_prg_banks == old(self).num_prg_banks,
            final(self).num_chr_banks == old(self).num_chr_banks,
            final(self).prg_rom@ == old(self).prg_rom@,
    {
        match self.mapper.ppu_write_mapping(addr) {
            Some(mapped) => {
                if (mapped as usize) < self.chr_rom.len() {
                    self.chr_rom[mapped as usize] = value;
                }
                true
            },
            None => false,
        }
    }
}

/// A copy of `src[start .. start + len]`.
pub(crate) fn copy_range(src: &Vec<u8>, start: usize, len: usize) -> (r: Vec<u8>)
    requires
        start + len <= src@.len(),
    ensures
        r@ == src@.subrange(start as int, start + len),
{
    let mut r: Vec<u8> = Vec::new();
    let n: usize = src.len();
    let mut i: usize = 0;
    while i < len
        invariant
            i <= len,
            n == src@.len(),
            start + len <= n,
            r@.len() == i,
            forall|k: int| 0 <= k < i ==> r@[k] == src@[start + k],
        decreases len - i,
    {
        r.push(src[start + i]);
        i = i + 1;
    }
    proof {
        assert(r@ =~= src@.subrange(start as int, start + len));
    }
    r
}

} // verus!
