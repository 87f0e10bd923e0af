//! The bus: 2 KiB of CPU RAM, the cartridge, the PPU and the two joypads,
//! with the address map that routes every CPU memory access:
//!
//! | range           | routes to                                        |
//! |-----------------|--------------------------------------------------|
//! | $0000-$1FFF     | CPU RAM, mirrored every $0800                    |
//! | $2000-$3FFF     | PPU registers, eight addresses mirrored          |
//! | $4000-$4013,$4015 | APU (stubbed: reads 0, writes discarded)       |
//! | $4014           | OAM DMA trigger (write)                          |
//! | $4016 / $4017   | joypad 1 / joypad 2                              |
//! | $4020-$FFFF     | cartridge (the mapper decides)                   |
//!
//! The bus also owns the system clock: one CPU cycle is three PPU cycles,
//! and the OAM DMA engine steals whole CPU cycles while it copies.

use crate::cartridge::Cartridge;
use crate::joypad::Joypad;
use crate::ppu::{
    spec_ppu_cpu_read_rel, spec_ppu_cpu_write_rel, spec_tick_clock_rel, PPU,
};
use vstd::prelude::*;

verus! {

pub struct Bus {
    /// 2 KiB of CPU RAM, mirrored four times over $0000-$1FFF.
    pub cpu_ram: Vec<u8>,
    pub cart: Cartridge,
    pub ppu: PPU,
    pub joypad1: Joypad,
    pub joypad2: Joypad,
    /// PPU-rate cycles since power-on (three per CPU cycle), wrapping.
    pub total_system_cycles: u32,
    /// High byte of the DMA source page.
    pub dma_page: u8,
    /// Low byte of the DMA source address; also the OAM index written.
    pub dma_addr: u8,
    /// The byte read on the even cycle, written on the odd one.
    pub dma_data: u8,
    /// DMA waits for an even CPU cycle before its first read.
    pub dma_dummy: bool,
    /// A DMA transfer is in progress: the CPU is suspended.
    pub dma_transfer: bool,
}

/// The byte the DMA engine reads at `addr`: PRG through the mapper, RAM
/// through its mirror, 0 elsewhere. (The engine's read has no side effect;
/// registers with read side effects are not sensible DMA sources.)
pub open spec fn spec_dma_read(b: Bus, addr: u16) -> u8 {
    match b.cart.spec_cpu_read(addr) {
        Some(v) => v,
        None => if addr < 0x2000 {
            b.cpu_ram@[(addr % 0x800) as int]
        } else {
            0u8
        },
    }
}

/// What a CPU read of `addr` does to the bus and returns: the cartridge is
/// consulted first, then RAM, the PPU registers and the joypads; unmapped
/// addresses (the APU stub among them) read 0.
#[verifier::opaque]
pub open spec fn spec_cpu_read_rel(pre: Bus, post: Bus, addr: u16, r: u8) -> bool {
    if pre.cart.spec_cpu_read(addr) is Some {
        &&& post == pre
        &&& Some(r) == pre.cart.spec_cpu_read(addr)
    } else if addr < 0x2000 {
        &&& post == pre
        &&& r == pre.cpu_ram@[(addr % 0x800) as int]
    } else if addr < 0x4000 {
        &&& post == (Bus { ppu: post.ppu, ..pre })
        &&& spec_ppu_cpu_read_rel(pre.ppu, post.ppu, addr, r)
    } else if addr == 0x4016 {
        &&& post == (Bus { joypad1: post.joypad1, ..pre })
        &&& (post.joypad1, r) == pre.joypad1.spec_read()
    } else if addr == 0x4017 {
        &&& post == (Bus { joypad2: post.joypad2, ..pre })
        &&& (post.joypad2, r) == pre.joypad2.spec_read()
    } else {
        &&& post == pre
        &&& r == 0
    }
}

/// What a CPU write of `addr` does to the bus: PRG-ROM writes are claimed by
/// the cartridge and discarded; RAM, the PPU registers and the joypads take
/// the byte; $4014 arms the OAM DMA engine; the rest discard it.
#[verifier::opaque]
pub open spec fn spec_cpu_write_rel(pre: Bus, post: Bus, addr: u16, value: u8) -> bool {
    if pre.cart.mapper.spec_cpu_write_mapping(addr) is Some {
        post == pre
    } else if addr < 0x2000 {
        &&& post == (Bus { cpu_ram: post.cpu_ram, ..pre })
        &&& post.cpu_ram@ == pre.cpu_ram@.update((addr % 0x800) as int, value)
    } else if addr < 0x4000 {
        &&& post == (Bus { ppu: post.ppu, ..pre })
        &&& spec_ppu_cpu_write_rel(pre.ppu, post.ppu, addr, value)
    } else if addr == 0x4014 {
        post == (Bus { dma_page: value, dma_addr: 0, dma_transfer: true, ..pre })
    } else if addr == 0x4016 {
        post == (Bus { joypad1: pre.joypad1.spec_write(value), ..pre })
    } else if addr == 0x4017 {
        post == (Bus { joypad2: pre.joypad2.spec_write(value), ..pre })
    } else {
        post == pre
    }
}

/// Whether the CPU gets the cycle this system tick: every third tick,
/// unless a DMA transfer is in progress.
pub open spec fn spec_cpu_granted(b: Bus) -> bool {
    b.total_system_cycles % 3 == 0 && !b.dma_transfer
}

/// What one system (PPU-rate) tick does: the PPU clock advances one cycle,
/// the system counter steps, and on a CPU-rate tick the DMA engine — if a
/// transfer is in progress — waits for an even cycle, then alternates reads
/// of CPU memory with writes into the PPU's OAM until the low address byte
/// wraps.
pub open spec fn spec_system_tick_rel(pre: Bus, post: Bus) -> bool {
    let t = pre.total_system_cycles;
    &&& post.total_system_cycles == (t + 1) % 0x100000000
    &&& spec_tick_clock_rel(pre.ppu, post.ppu)
    &&& post.ppu.chr_rom@ == pre.ppu.chr_rom@
    &&& post.ppu.vram@ == pre.ppu.vram@
    &&& post.ppu.palette_table@ == pre.ppu.palette_table@
    &&& post == (Bus {
        ppu: post.ppu,
        total_system_cycles: post.total_system_cycles,
        dma_data: post.dma_data,
        dma_addr: post.dma_addr,
        dma_dummy: post.dma_dummy,
        dma_transfer: post.dma_transfer,
        ..pre
    })
    &&& if t % 3 == 0 && pre.dma_transfer {
        if pre.dma_dummy {
            &&& post.ppu.oam_data@ == pre.ppu.oam_data@
            &&& post.dma_dummy == (t % 2 != 1)
            &&& post.dma_addr == pre.dma_addr
            &&& post.dma_data == pre.dma_data
            &&& post.dma_transfer
        } else if t % 2 == 0 {
            &&& post.ppu.oam_data@ == pre.ppu.oam_data@
            &&& post.dma_data == spec_dma_read(pre, (pre.dma_page * 256 + pre.dma_addr) as u16)
            &&& post.dma_addr == pre.dma_addr
            &&& !post.dma_dummy
            &&& post.dma_transfer
        } else {
            &&& post.ppu.oam_data@ == pre.ppu.oam_data@.update(pre.dma_addr as int, pre.dma_data)
            &&& post.dma_addr == (pre.dma_addr + 1) % 256
            &&& post.dma_data == pre.dma_data
            &&& post.dma_transfer == (post.dma_addr != 0)
            &&& post.dma_dummy == (post.dma_addr == 0)
        }
    } else {
        &&& post.ppu.oam_data@ == pre.ppu.oam_data@
        &&& post.dma_addr == pre.dma_addr
        &&& post.dma_data == pre.dma_data
        &&& post.dma_dummy == pre.dma_dummy
        &&& post.dma_transfer == pre.dma_transfer
    }
}

impl Bus {
    /// What every reachable bus state keeps: the RAM size and the PPU's
    /// own well-formedness.
    pub open spec fn wf(self) -> bool {
        &&& self.cpu_ram@.len() == 2048
        &&& self.ppu.wf()
    }

    /// A bus over a cartridge, with cleared RAM, idle DMA and a fresh PPU.
    pub fn new(cart: Cartridge) -> (r: Bus)
        ensures
            r.wf(),
            r.cpu_ram@ == Seq::new(2048, |i: int| 0u8),
            r.cart.prg_rom@ == cart.prg_rom@,
            r.cart.chr_rom@ == cart.chr_rom@,
            r.cart.mapper == cart.mapper,
            r.cart.mirror == cart.mirror,
            r.ppu.chr_ram == (cart.num_chr_banks == 0),
            cart.num_chr_banks != 0 ==> r.ppu.chr_rom@ == cart.chr_rom@,
            cart.num_chr_banks == 0 ==> r.ppu.chr_rom@ == Seq::new(8192, |i: int| 0u8),
            r.ppu.mirror == cart.mirror,
            !r.ppu.nmi && r.ppu.scanlines == 0 && r.ppu.cycles == 0,
            r.ppu.vram@ == Seq::new(2048, |i: int| 0u8),
            r.ppu.oam_data@ == Seq::new(256, |i: int| 0u8),
            r.ppu.addr_reg.spec_get() == 0 && r.ppu.addr_reg.write_to_hi,
            r.ppu.ctrl_reg.bits == 0 && r.ppu.status_reg.bits == 0,
            !r.joypad1.strobe && r.joypad1.next_btn_idx == 0 && r.joypad1.status == 0,
            !r.joypad2.strobe && r.joypad2.next_btn_idx == 0 && r.joypad2.status == 0,
            r.total_system_cycles == 0,
            !r.dma_transfer && r.dma_dummy && r.dma_page == 0 && r.dma_addr == 0,
    {
        let ppu = PPU::new(&cart);
        Bus {
            cpu_ram: crate::ppu::new_filled(2048),
            cart,
            ppu,
            joypad1: Joypad::new(),
            joypad2: Joypad::new(),
            total_system_cycles: 0,
            dma_page: 0,
            dma_addr: 0,
            dma_data: 0,
            dma_dummy: true,
            dma_transfer: false,
        }
    }

    /// One system (PPU-rate) tick. The PPU always advances one cycle; on
    /// every third tick the CPU either gets its cycle (the result is true)
    /// or the DMA engine uses it: a possible idle cycle until the CPU clock
    /// is even, then alternating reads (even) and OAM writes (odd) until the
    /// low address byte wraps, which ends the transfer. The CPU never
    /// executes while a transfer is in progress.
    pub fn system_tick(&mut self) -> (cpu_may_tick: bool)
        requires
            old(self).wf(),
        ensures
            final(self).wf(),
            cpu_may_tick == spec_cpu_granted(*old(self)),
            spec_system_tick_rel(*old(self), *final(self)),
    {
        // the PPU runs first, three of its cycles to one CPU cycle
        self.ppu.tick();

        let t: u32 = self.total_system_cycles;
        self.total_system_cycles = self.total_system_cycles.wrapping_add(1);

        if t % 3 == 0 {
            if self.dma_transfer {
                if self.dma_dummy {
                    // wait here until the CPU clock is on an even cycle
                    if t % 2 == 1 {
                        self.dma_dummy = false;
                    }
                } else {
                    if t % 2 == 0 {
                        // even cycle: read from CPU memory
                        let src: u16 = (self.dma_page as u16) * 256 + (self.dma_addr as u16);
                        self.dma_data = self.dma_read(src);
                    } else {
                        // odd cycle: write to the PPU's OAM
                        self.ppu.oam_data[self.dma_addr as usize] = self.dma_data;
                        self.dma_addr = self.dma_addr.wrapping_add(1);
                        // the low byte wrapping to 0 means 256 bytes went over
                        if self.dma_addr == 0 {
                            self.dma_transfer = false;
                            self.dma_dummy = true;
                        }
                    }
                }
                false
            } else {
                // no DMA in progress: the CPU gets this cycle
                true
            }
        } else {
            false
        }
    }

    /// The DMA engine's side-effect-free read: PRG through the mapper, RAM
    /// through its mirror, 0 elsewhere.
    fn dma_read(&self, addr: u16) -> (r: u8)
        requires
            self.wf(),
        ensures
            r == spec_dma_read(*self, addr),
    {
        match self.cart.cpu_read(addr) {
            Some(v) => v,
            None => if addr < 0x2000 {
                self.cpu_ram[(addr % 0x800) as usize]
            } else {
                0
            },
        }
    }

    /// A CPU read, routed by the address map; see `spec_cpu_read_rel`.
    pub fn cpu_read(&mut self, addr: u16) -> (r: u8)
        requires
            old(self).wf(),
        ensures
            final(self).wf(),
            spec_cpu_read_rel(*old(self), *final(self), addr, r),
    {
        proof {
            reveal(spec_cpu_read_rel);
        }
        let v = self.cart.cpu_read(addr);
        if let Some(value) = v {
            return value;
        }
        if addr < 0x2000 {
            self.cpu_ram[(addr % 0x800) as usize]
        } else if addr < 0x4000 {
            self.ppu.cpu_read(addr)
        } else if addr == 0x4016 {
            self.joypad1.read()
        } else if addr == 0x4017 {
            self.joypad2.read()
        } else {
            0
        }
    }

    /// A CPU write, routed by the address map; see `spec_cpu_write_rel`.
    pub fn cpu_write(&mut self, addr: u16, value: u8)
        requires
            old(self).wf(),
        ensures
            final(self).wf(),
            spec_cpu_write_rel(*old(self), *final(self), addr, value),
    {
        proof {
            reveal(spec_cpu_write_rel);
        }
        let claimed = self.cart.cpu_write(addr, value);
        if claimed {
            return ;
        }
        if addr < 0x2000 {
            self.cpu_ram[(addr % 0x800) as usize] = value;
        } else if addr < 0x4000 {
            self.ppu.cpu_write(addr, value);
        } else if addr == 0x4014 {
            // a write here arms a 256-byte DMA into the PPU's OAM
            self.dma_page = value;
            self.dma_addr = 0x00;
            self.dma_transfer = true;
        } else if addr == 0x4016 {
            self.joypad1.write(value);
        } else if addr == 0x4017 {
            self.joypad2.write(value);
        }
    }

    /// Whether the PPU holds an NMI waiting to be serviced.
    pub fn has_nmi(&self) -> (r: bool)
        ensures
            r == self.ppu.nmi,
    {
        self.ppu.has_nmi()
    }

    /// Acknowledge the PPU's NMI.
    pub fn reset_nmi(&mut self)
        ensures
            *final(self) == (Bus { ppu: final(self).ppu, ..*old(self) }),
            final(self).ppu == (PPU { nmi: false, ..old(self).ppu }),
    {
        self.ppu.reset_nmi();
    }
}

} // verus!
