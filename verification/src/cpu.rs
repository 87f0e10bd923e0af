//! The 6502 interpreter: registers, the packed status byte, the stack in
//! page $01, addressing-mode resolution, and the instruction loop that
//! drives the bus (and through it the PPU) three ticks per CPU cycle.

use crate::addr::{spec_as_i8, AddrMode};
use crate::bus::{spec_cpu_read_rel, spec_cpu_write_rel, spec_dma_read, Bus};
use crate::opcodes::{spec_opcode_to_spec, Opcode, Spec};
use vstd::prelude::*;

verus! {

// ----------------------------------------------------------------------------
// The status byte: C Z I D B U V N, bit 0 to bit 7
// ----------------------------------------------------------------------------

/// One of the eight status flags, named as on the 6502.
#[derive(Clone, Copy, PartialEq, Eq, Structural, Debug)]
pub enum CPUStatusBit {
    C,
    Z,
    I,
    D,
    B,
    U,
    V,
    N,
}

impl CPUStatusBit {
    /// The flag's bit position, fixed by the hardware: C is bit 0, N bit 7.
    pub open spec fn spec_offset(self) -> u8 {
        match self {
            CPUStatusBit::C => 0,
            CPUStatusBit::Z => 1,
            CPUStatusBit::I => 2,
            CPUStatusBit::D => 3,
            CPUStatusBit::B => 4,
            CPUStatusBit::U => 5,
            CPUStatusBit::V => 6,
            CPUStatusBit::N => 7,
        }
    }

    pub fn bit_offset(self) -> (r: u8)
        ensures
            r == self.spec_offset(),
            r < 8,
    {
        match self {
            CPUStatusBit::C => 0,
            CPUStatusBit::Z => 1,
            CPUStatusBit::I => 2,
            CPUStatusBit::D => 3,
            CPUStatusBit::B => 4,
            CPUStatusBit::U => 5,
            CPUStatusBit::V => 6,
            CPUStatusBit::N => 7,
        }
    }
}

/// Whether the flag `bit` is set in the packed byte `bits`.
pub open spec fn spec_flag(bits: u8, bit: CPUStatusBit) -> bool {
    bits & (1u8 << bit.spec_offset()) != 0
}

/// Setting or clearing one bit leaves every other bit alone, and lands the
/// chosen bit exactly.
proof fn lemma_bit_update(b: u8, i: u8, j: u8)
    by (bit_vector)
    requires
        i < 8,
        j < 8,
    ensures
        ((b | (1u8 << i)) & (1u8 << j) != 0) == (i == j || b & (1u8 << j) != 0),
        ((b & !(1u8 << i)) & (1u8 << j) != 0) == (i != j && b & (1u8 << j) != 0),
{
}

/// Forcing one flag touches that flag alone.
pub broadcast proof fn lemma_flag_after_with(s: CPUStatus, bit: CPUStatusBit, v: bool, b2: CPUStatusBit)
    ensures
        #[trigger] spec_flag(s.spec_with(bit, v).bits, b2) == if b2 == bit {
            v
        } else {
            spec_flag(s.bits, b2)
        },
{
    lemma_bit_update(s.bits, bit.spec_offset(), b2.spec_offset());
}

/// The processor status as the single byte the hardware packs it into;
/// pushes and pulls move it as a unit.
#[derive(Clone, Copy, PartialEq, Eq, Structural, Debug)]
pub struct CPUStatus {
    pub bits: u8,
}

impl CPUStatus {
    /// The byte with the flag `bit` forced to `v`.
    pub open spec fn spec_with(self, bit: CPUStatusBit, v: bool) -> CPUStatus {
        if v {
            CPUStatus { bits: self.bits | (1u8 << bit.spec_offset()) }
        } else {
            CPUStatus { bits: self.bits & !(1u8 << bit.spec_offset()) }
        }
    }

    pub fn new() -> (r: CPUStatus)
        ensures
            r.bits == 0,
    {
        CPUStatus { bits: 0 }
    }

    pub fn reset(&mut self)
        ensures
            final(self).bits == 0,
    {
        self.bits = 0;
    }

    /// Replace the whole byte, as PLP and RTI do.
    pub fn set_from_bits(&mut self, bits: u8)
        ensures
            final(self).bits == bits,
    {
        self.bits = bits;
    }

    pub fn get(&self, bit: CPUStatusBit) -> (r: bool)
        ensures
            r == spec_flag(self.bits, bit),
    {
        let off = bit.bit_offset();
        self.bits & (1u8 << off) != 0
    }

    pub fn set(&mut self, bit: CPUStatusBit, set: bool)
        ensures
            *final(self) == old(self).spec_with(bit, set),
    {
        if set {
            self.turn_on(bit);
        } else {
            self.turn_off(bit);
        }
    }

    pub fn turn_on(&mut self, bit: CPUStatusBit)
        ensures
            *final(self) == old(self).spec_with(bit, true),
    {
        let off = bit.bit_offset();
        self.bits = self.bits | (1u8 << off);
    }

    pub fn turn_off(&mut self, bit: CPUStatusBit)
        ensures
            *final(self) == old(self).spec_with(bit, false),
    {
        let off = bit.bit_offset();
        self.bits = self.bits & !(1u8 << off);
    }
}

// ----------------------------------------------------------------------------
// Reads without side effects
// ----------------------------------------------------------------------------

/// Whether a CPU read of `a` is free of side effects: everything except the
/// PPU register window and the two joypad ports. (A cartridge hit is always
/// side-effect free.)
pub open spec fn spec_addr_pure(b: Bus, a: u16) -> bool {
    ||| b.cart.spec_cpu_read(a) is Some
    ||| a < 0x2000
    ||| (a >= 0x4000 && a != 0x4016 && a != 0x4017)
}

/// Both bytes of a 16-bit read at `a` are side-effect free.
pub open spec fn spec_addr_pure2(b: Bus, a: u16) -> bool {
    &&& spec_addr_pure(b, a)
    &&& spec_addr_pure(b, ((a + 1) % 0x10000) as u16)
}

/// The 16-bit little-endian value a side-effect-free read at `a` returns
/// (the high byte wraps around the top of the address space).
pub open spec fn spec_read16(b: Bus, a: u16) -> u16 {
    (spec_dma_read(b, a) + spec_dma_read(b, ((a + 1) % 0x10000) as u16) * 256) as u16
}

/// The 16-bit value read from the zero page at `zp`, the high byte wrapping
/// inside the zero page.
pub open spec fn spec_zp_read16(b: Bus, zp: u8) -> u16 {
    (spec_dma_read(b, zp as u16) + spec_dma_read(b, ((zp + 1) % 256) as u16) * 256) as u16
}

/// A side-effect-free read leaves the bus as it was and returns the byte
/// `spec_dma_read` names.
pub proof fn lemma_pure_read(pre: Bus, post: Bus, a: u16, r: u8)
    requires
        spec_cpu_read_rel(pre, post, a, r),
        spec_addr_pure(pre, a),
    ensures
        post == pre,
        r == spec_dma_read(pre, a),
{
    reveal(spec_cpu_read_rel);
}

// ----------------------------------------------------------------------------
// The CPU proper
// ----------------------------------------------------------------------------

/// A decoded instruction: its byte, its resolved operand address, its table
/// row, and the cycles it will cost (base plus penalties already counted).
#[derive(Clone, Copy)]
pub struct Instruction {
    pub opcode_byte: u8,
    pub oprand_addr: u16,
    pub op_spec: Spec,
    pub cycles: u32,
}

pub struct CPU {
    /// Program counter.
    pub pc: u16,
    /// Stack pointer: the low byte of an address in page $01.
    pub sp: u8,
    /// Accumulator.
    pub acc: u8,
    /// Index register X.
    pub reg_x: u8,
    /// Index register Y.
    pub reg_y: u8,
    /// Processor status.
    pub status: CPUStatus,
    /// Cycles remaining before the current instruction is done.
    pub cycles: u32,
    /// Total cycles executed, wrapping.
    pub total_cycles: u32,
    pub bus: Bus,
}

impl CPU {
    pub open spec fn wf(self) -> bool {
        self.bus.wf()
    }

    pub fn new(bus: Bus) -> (r: CPU)
        requires
            bus.wf(),
        ensures
            r.wf(),
            r.pc == 0x8000 && r.sp == 0 && r.acc == 0 && r.reg_x == 0 && r.reg_y == 0,
            r.status.bits == 0 && r.cycles == 0 && r.total_cycles == 0,
            r.bus == bus,
    {
        CPU {
            pc: 0x8000,
            sp: 0,
            acc: 0,
            reg_x: 0,
            reg_y: 0,
            status: CPUStatus::new(),
            cycles: 0,
            total_cycles: 0,
            bus,
        }
    }

    /// Power-on reset: load the program counter from the vector at $FFFC,
    /// park the stack at $FD, clear the registers, set I and U, and charge
    /// the seven start-up cycles.
    pub fn reset(&mut self)
        requires
            old(self).wf(),
        ensures
            final(self).wf(),
            final(self).bus == old(self).bus,
            final(self).pc == spec_read16(old(self).bus, 0xFFFC),
            final(self).sp == 0xFD,
            final(self).acc == 0 && final(self).reg_x == 0 && final(self).reg_y == 0,
            final(self).status.bits == 0x24,
            final(self).cycles == 7,
            final(self).total_cycles == old(self).total_cycles,
    {
        self.pc = self.read_u16(0xFFFC);
        self.sp = 0xFD;
        self.acc = 0;
        self.reg_x = 0;
        self.reg_y = 0;
        self.status.reset();
        self.status.set(CPUStatusBit::I, true);
        self.status.set(CPUStatusBit::U, true);
        proof {
            assert((0u8 | (1u8 << 2)) | (1u8 << 5) == 0x24u8) by (bit_vector);
        }
        // reset takes time
        self.cycles = 7;
    }

    /// One bus read, with the CPU's registers untouched.
    pub fn read(&mut self, addr: u16) -> (r: u8)
        requires
            old(self).wf(),
        ensures
            final(self).wf(),
            *final(self) == (CPU { bus: final(self).bus, ..*old(self) }),
            spec_cpu_read_rel(old(self).bus, final(self).bus, addr, r),
            spec_addr_pure(old(self).bus, addr) ==> final(self).bus == old(self).bus && r
                == spec_dma_read(old(self).bus, addr),
    {
        let r = self.bus.cpu_read(addr);
        proof {
            if spec_addr_pure(old(self).bus, addr) {
                lemma_pure_read(old(self).bus, final(self).bus, addr, r);
            }
        }
        r
    }

    /// One bus write, with the CPU's registers untouched.
    pub fn write(&mut self, addr: u16, value: u8)
        requires
            old(self).wf(),
        ensures
            final(self).wf(),
            *final(self) == (CPU { bus: final(self).bus, ..*old(self) }),
            spec_cpu_write_rel(old(self).bus, final(self).bus, addr, value),
    {
        self.bus.cpu_write(addr, value);
    }

    /// A 16-bit little-endian read; the second byte comes from the next
    /// address, wrapping at the top of the address space.
    pub fn read_u16(&mut self, addr: u16) -> (r: u16)
        requires
            old(self).wf(),
        ensures
            final(self).wf(),
            *final(self) == (CPU { bus: final(self).bus, ..*old(self) }),
            spec_addr_pure2(old(self).bus, addr) ==> final(self).bus == old(self).bus && r
                == spec_read16(old(self).bus, addr),
    {
        let a = self.read(addr);
        let b = self.read(addr.wrapping_add(1));
        (a as u16) + (b as u16) * 256
    }

    pub fn set_status(&mut self, bit: CPUStatusBit, set: bool)
        ensures
            *final(self) == (CPU { status: old(self).status.spec_with(bit, set), ..*old(self) }),
    {
        self.status.set(bit, set);
    }

    pub fn get_status(&self, bit: CPUStatusBit) -> (r: bool)
        ensures
            r == spec_flag(self.status.bits, bit),
    {
        self.status.get(bit)
    }

    pub fn turn_on_status(&mut self, bit: CPUStatusBit)
        ensures
            *final(self) == (CPU { status: old(self).status.spec_with(bit, true), ..*old(self) }),
    {
        self.status.turn_on(bit);
    }

    pub fn turn_off_status(&mut self, bit: CPUStatusBit)
        ensures
            *final(self) == (CPU { status: old(self).status.spec_with(bit, false), ..*old(self) }),
    {
        self.status.turn_off(bit);
    }

    /// Fold a result into the Z and N flags: Z when it is zero, N from its
    /// top bit.
    pub fn update_status_Z_N(&mut self, result: u8)
        ensures
            *final(self) == (CPU {
                status: spec_with_zn(old(self).status, result),
                ..*old(self)
            }),
    {
        self.set_status(CPUStatusBit::Z, result == 0);
        self.set_status(CPUStatusBit::N, result >= 128);
    }

    // ------------------------------------------------------------------
    // The stack: page $01, descending, the pointer wrapping modulo 256
    // ------------------------------------------------------------------

    /// Push one byte: it lands at $0100 + SP (inside page $01, so inside
    /// CPU RAM), and SP steps down, wrapping.
    pub fn stack_push(&mut self, data: u8)
        requires
            old(self).wf(),
        ensures
            final(self).wf(),
            *final(self) == (CPU { sp: final(self).sp, bus: final(self).bus, ..*old(self) }),
            final(self).sp == if old(self).sp == 0 {
                255int
            } else {
                old(self).sp - 1
            },
            final(self).bus == (Bus { cpu_ram: final(self).bus.cpu_ram, ..old(self).bus }),
            final(self).bus.cpu_ram@ == old(self).bus.cpu_ram@.update(
                0x100 + old(self).sp as int,
                data,
            ),
    {
        proof {
            reveal(crate::bus::spec_cpu_read_rel);
            reveal(crate::bus::spec_cpu_write_rel);
        }
        self.write(0x0100 + self.sp as u16, data);
        self.sp = self.sp.wrapping_sub(1);
    }

    /// Pop one byte: SP steps up (wrapping) and the byte at $0100 + SP
    /// comes back.
    pub fn stack_pop(&mut self) -> (r: u8)
        requires
            old(self).wf(),
        ensures
            final(self).wf(),
            *final(self) == (CPU { sp: final(self).sp, ..*old(self) }),
            final(self).sp == (old(self).sp + 1) % 256,
            r == old(self).bus.cpu_ram@[0x100 + ((old(self).sp + 1) % 256)],
    {
        self.sp = self.sp.wrapping_add(1);
        let r = self.read(0x0100 + self.sp as u16);
        r
    }

    /// Push a 16-bit value, high byte first.
    pub fn stack_push_u16(&mut self, data: u16)
        requires
            old(self).wf(),
        ensures
            final(self).wf(),
            *final(self) == (CPU { sp: final(self).sp, bus: final(self).bus, ..*old(self) }),
            final(self).sp == (old(self).sp + 254) % 256,
            final(self).bus == (Bus { cpu_ram: final(self).bus.cpu_ram, ..old(self).bus }),
            final(self).bus.cpu_ram@ == old(self).bus.cpu_ram@.update(
                0x100 + old(self).sp as int,
                (data / 256) as u8,
            ).update(0x100 + ((old(self).sp + 255) % 256), (data % 256) as u8),
    {
        let hi: u8 = (data / 256) as u8;
        let lo: u8 = (data % 256) as u8;
        self.stack_push(hi);
        self.stack_push(lo);
    }

    /// Pop a 16-bit value, low byte first.
    pub fn stack_pop_u16(&mut self) -> (r: u16)
        requires
            old(self).wf(),
        ensures
            final(self).wf(),
            *final(self) == (CPU { sp: final(self).sp, ..*old(self) }),
            final(self).sp == (old(self).sp + 2) % 256,
            r == old(self).bus.cpu_ram@[0x100 + ((old(self).sp + 1) % 256)] + 256 * old(
                self,
            ).bus.cpu_ram@[0x100 + ((old(self).sp + 2) % 256)],
    {
        let lo = self.stack_pop() as u16;
        let hi = self.stack_pop() as u16;
        hi * 256 + lo
    }
}

// ------------------------------------------------------------------
// Arithmetic and shift units, as pure functions with exact contracts
// ------------------------------------------------------------------

/// Signed (two's-complement) overflow of an 8-bit addition: the inputs
/// share a sign and the result's sign differs.
pub open spec fn spec_signed_overflow(acc: u8, m: u8, result: u8) -> bool {
    (acc < 128) == (m < 128) && ((result >= 128) != (acc >= 128))
}

/// The adder behind ADC (and, with the operand inverted, SBC):
/// result = A + M + C modulo 256; carry out when the true sum tops 255;
/// Z and N from the result; V on signed overflow.
pub fn alu_adc(acc: u8, m: u8, carry_in: bool) -> (r: (u8, bool, bool, bool, bool))
    ensures
        r.0 == (acc + m + (if carry_in { 1int } else { 0int })) % 256,
        r.1 == (acc + m + (if carry_in { 1int } else { 0int }) > 255),
        r.2 == (r.0 == 0),
        r.3 == spec_signed_overflow(acc, m, r.0),
        r.4 == (r.0 >= 128),
{
    let ci: u16 = if carry_in {
        1
    } else {
        0
    };
    let tmp: u16 = acc as u16 + m as u16 + ci;
    let result: u8 = (tmp % 256) as u8;
    let c: bool = tmp > 255;
    let z: bool = result == 0;
    let v: bool = ((acc < 128) == (m < 128)) && ((result >= 128) != (acc >= 128));
    let n: bool = result >= 128;
    (result, c, z, v, n)
}

/// Arithmetic shift left: the top bit falls into carry.
pub fn alu_asl(v: u8) -> (r: (u8, bool))
    ensures
        r.0 == (v * 2) % 256,
        r.1 == (v >= 128),
{
    (((v as u16 * 2) % 256) as u8, v >= 128)
}

/// Logical shift right: the bottom bit falls into carry.
pub fn alu_lsr(v: u8) -> (r: (u8, bool))
    ensures
        r.0 == v / 2,
        r.1 == (v % 2 == 1),
{
    (v / 2, v % 2 == 1)
}

/// Rotate left through carry: carry-in fills bit 0, bit 7 falls into carry.
pub fn alu_rol(v: u8, carry_in: bool) -> (r: (u8, bool))
    ensures
        r.0 == (v * 2 + (if carry_in { 1int } else { 0int })) % 256,
        r.1 == (v >= 128),
{
    let ci: u16 = if carry_in {
        1
    } else {
        0
    };
    (((v as u16 * 2 + ci) % 256) as u8, v >= 128)
}

/// Rotate right through carry: carry-in fills bit 7, bit 0 falls into carry.
pub fn alu_ror(v: u8, carry_in: bool) -> (r: (u8, bool))
    ensures
        r.0 == v / 2 + (if carry_in { 128int } else { 0int }),
        r.1 == (v % 2 == 1),
{
    let ci: u8 = if carry_in {
        128
    } else {
        0
    };
    (v / 2 + ci, v % 2 == 1)
}

// ------------------------------------------------------------------
// Effective-address arithmetic, as pure functions with exact contracts
// ------------------------------------------------------------------

/// An absolute base plus an index register, wrapping at $10000, and whether
/// the sum left the base's 256-byte page (the page-cross penalty condition).
pub fn abs_indexed(base: u16, idx: u8) -> (r: (u16, bool))
    ensures
        r.0 == (base + idx) % 0x10000,
        r.1 == (r.0 / 256 != base / 256),
{
    let a: u16 = base.wrapping_add(idx as u16);
    (a, a / 256 != base / 256)
}

/// A branch target: the program counter after the one-byte operand, plus
/// the operand taken as a signed offset, wrapping around the 16-bit
/// address space.
pub fn relative_target(pc: u16, offset: u8) -> (r: u16)
    ensures
        r == (pc + 1 + spec_as_i8(offset) + 0x10000) % 0x10000,
{
    // sign-extend the offset to 16 bits
    let ext: u16 = if offset >= 128 {
        (offset as u16) + 0xFF00
    } else {
        offset as u16
    };
    pc.wrapping_add(1).wrapping_add(ext)
}

/// The pair of zero-page addresses holding a 16-bit pointer: the low byte
/// at the operand, the high byte at the next zero-page byte — wrapping
/// inside the zero page, so operand $FF reads its high byte from $00.
pub fn zp_pointer_addrs(operand: u8) -> (r: (u16, u16))
    ensures
        r.0 == operand,
        r.1 == (operand + 1) % 256,
        r.1 < 256,
{
    if operand == 0xFF {
        (0x00FF, 0x0000)
    } else {
        (operand as u16, operand as u16 + 1)
    }
}

/// The pair of addresses an indirect JMP reads its target from: the low
/// byte at the pointer, and the high byte from the next address — unless
/// the pointer sits at the end of a page, in which case the high byte comes
/// from the start of that same page (the hardware's page-wrap quirk).
pub fn jmp_indirect_addrs(ptr: u16) -> (r: (u16, u16))
    ensures
        r.0 == ptr,
        r.1 == if ptr % 256 == 255 {
            ptr - 255
        } else {
            ptr + 1
        },
{
    if ptr % 256 == 255 {
        (ptr, (ptr / 256) * 256)
    } else {
        (ptr, ptr + 1)
    }
}

/// The operand address an addressing mode resolves to, together with the
/// page-cross cycle penalty, over side-effect-free memory. `pc` is the
/// position of the operand bytes (just past the opcode byte).
#[verifier::opaque]
pub open spec fn spec_operand_addr(
    b: Bus,
    pc: u16,
    x: u8,
    y: u8,
    mode: AddrMode,
    page_sensitive: bool,
) -> (u16, u8) {
    let op8 = spec_dma_read(b, pc);
    let op16 = spec_read16(b, pc);
    match mode {
        AddrMode::Absolute => (op16, 0u8),
        AddrMode::AbsoluteX => {
            let a = ((op16 + x) % 0x10000) as u16;
            (a, if a / 256 != op16 / 256 && page_sensitive { 1u8 } else { 0u8 })
        },
        AddrMode::AbsoluteY => {
            let a = ((op16 + y) % 0x10000) as u16;
            (a, if a / 256 != op16 / 256 && page_sensitive { 1u8 } else { 0u8 })
        },
        AddrMode::ZeroPage => (op8 as u16, 0u8),
        AddrMode::ZeroPageX => (((op8 + x) % 256) as u16, 0u8),
        AddrMode::ZeroPageY => (((op8 + y) % 256) as u16, 0u8),
        AddrMode::Immediate => (pc, 0u8),
        AddrMode::Relative => (((pc + 1 + spec_as_i8(op8) + 0x10000) % 0x10000) as u16, 0u8),
        AddrMode::Implicit => (0u16, 0u8),
        AddrMode::Indirect => (spec_read16(b, op16), 0u8),
        AddrMode::IndexedIndirect => (spec_zp_read16(b, ((op8 + x) % 256) as u8), 0u8),
        AddrMode::IndirectIndexed => {
            let a = ((spec_zp_read16(b, op8) + y) % 0x10000) as u16;
            (a, if a / 256 != spec_read16(b, op8 as u16) / 256 && page_sensitive {
                1u8
            } else {
                0u8
            })
        },
    }
}

impl CPU {
    /// Resolve the operand address for `addr_mode`, reading the operand
    /// bytes at the program counter, and report the page-cross penalty.
    /// Where the bytes involved lie in side-effect-free memory the result
    /// is exactly `spec_operand_addr` and the machine is untouched.
    #[verifier::rlimit(100)]
    #[verifier::spinoff_prover]
    pub fn peak_oprand_addr_and_cycles(&mut self, addr_mode: AddrMode, inc_cycle_on_page_crossed: bool) -> (r: (u16, u8))
        requires
            old(self).wf(),
        ensures
            final(self).wf(),
            *final(self) == (CPU { bus: final(self).bus, ..*old(self) }),
            r.1 <= 1,
            spec_addr_pure2(old(self).bus, old(self).pc) && addr_mode != AddrMode::Indirect
                ==> final(self).bus == old(self).bus && r == spec_operand_addr(
                old(self).bus,
                old(self).pc,
                old(self).reg_x,
                old(self).reg_y,
                addr_mode,
                inc_cycle_on_page_crossed,
            ),
            spec_addr_pure2(old(self).bus, old(self).pc) && addr_mode == AddrMode::Indirect
                && spec_addr_pure2(old(self).bus, spec_read16(old(self).bus, old(self).pc))
                ==> final(self).bus == old(self).bus && r == spec_operand_addr(
                old(self).bus,
                old(self).pc,
                old(self).reg_x,
                old(self).reg_y,
                addr_mode,
                inc_cycle_on_page_crossed,
            ),
    {
        proof {
            reveal(spec_operand_addr);
        }
        let pc = self.pc;
        let next_u8: u8 = self.read(pc);
        let next_u16: u16 = self.read_u16(pc);
        match addr_mode {
            AddrMode::Absolute => (next_u16, 0u8),
            AddrMode::AbsoluteX => {
                let (addr, crossed) = abs_indexed(next_u16, self.reg_x);
                (addr, if crossed && inc_cycle_on_page_crossed { 1u8 } else { 0u8 })
            },
            AddrMode::AbsoluteY => {
                let (addr, crossed) = abs_indexed(next_u16, self.reg_y);
                (addr, if crossed && inc_cycle_on_page_crossed { 1u8 } else { 0u8 })
            },
            AddrMode::ZeroPage => (next_u8 as u16, 0u8),
            AddrMode::ZeroPageX => ((next_u8.wrapping_add(self.reg_x)) as u16, 0u8),
            AddrMode::ZeroPageY => ((next_u8.wrapping_add(self.reg_y)) as u16, 0u8),
            AddrMode::Immediate => (pc, 0u8),
            // the branch instructions account for their own taken/page cycles
            AddrMode::Relative => (relative_target(pc, next_u8), 0u8),
            AddrMode::Implicit => (0u16, 0u8),
            AddrMode::Indirect => (self.read_u16(next_u16), 0u8),
            AddrMode::IndexedIndirect => {
                let indexed: u8 = next_u8.wrapping_add(self.reg_x);
                let (lo_addr, hi_addr) = zp_pointer_addrs(indexed);
                let a = self.read(lo_addr);
                let b = self.read(hi_addr);
                ((a as u16) + (b as u16) * 256, 0u8)
            },
            AddrMode::IndirectIndexed => {
                let (lo_addr, hi_addr) = zp_pointer_addrs(next_u8);
                let a = self.read(lo_addr);
                let b = self.read(hi_addr);
                let base: u16 = (a as u16) + (b as u16) * 256;
                let (addr, _) = abs_indexed(base, self.reg_y);
                let straight: u16 = self.read_u16(next_u8 as u16);
                let crossed: bool = addr / 256 != straight / 256;
                (addr, if crossed && inc_cycle_on_page_crossed { 1u8 } else { 0u8 })
            },
        }
    }
}

// ------------------------------------------------------------------
// What each instruction does
// ------------------------------------------------------------------

/// A taken branch moves the program counter to the target and pays one extra
/// cycle, plus a second when the target sits on a different 256-byte page
/// than the instruction's end; an untaken branch changes nothing.
pub open spec fn spec_branch_rel(pre: CPU, post: CPU, taken: bool, target: u16) -> bool {
    if taken {
        &&& post == (CPU { pc: target, cycles: post.cycles, ..pre })
        &&& post.cycles == pre.cycles + 1 + if target / 256 != pre.pc / 256 {
            1int
        } else {
            0int
        }
    } else {
        post == pre
    }
}

/// Flag shorthand inside the instruction relation.
pub open spec fn spec_cpu_flag(pre: CPU, bit: CPUStatusBit) -> bool {
    spec_flag(pre.status.bits, bit)
}

/// What executing the decoded instruction `inst` does to the machine,
/// grouped by instruction family.
///
/// Every arm that reads memory is stated under `spec_addr_pure` of its
/// operand address (reads of RAM, ROM and open bus); an instruction whose
/// operand sits on a register with read side effects is not pinned here.
/// Stores never read and are stated unconditionally, through the bus write
/// relation.
pub open spec fn spec_execute_rel(pre: CPU, post: CPU, inst: Instruction) -> bool {
    match inst.op_spec.opcode {
        Opcode::ADC | Opcode::SBC => spec_rel_adder(pre, post, inst),
        Opcode::AND | Opcode::ORA | Opcode::EOR | Opcode::BIT | Opcode::CMP | Opcode::CPX | Opcode::CPY => spec_rel_logic(pre, post, inst),
        Opcode::LDA | Opcode::LDX | Opcode::LDY | Opcode::LAX => spec_rel_load(pre, post, inst),
        Opcode::ASL | Opcode::LSR | Opcode::ROL | Opcode::ROR => spec_rel_shift(pre, post, inst),
        Opcode::BCC | Opcode::BCS | Opcode::BEQ | Opcode::BNE | Opcode::BMI | Opcode::BPL | Opcode::BVS | Opcode::BVC => spec_rel_branch(pre, post, inst),
        Opcode::CLC | Opcode::CLD | Opcode::CLI | Opcode::CLV | Opcode::SEC | Opcode::SED | Opcode::SEI => spec_rel_flag(pre, post, inst),
        Opcode::TAX | Opcode::TAY | Opcode::TSX | Opcode::TXA | Opcode::TXS | Opcode::TYA | Opcode::DEX | Opcode::DEY | Opcode::INX | Opcode::INY | Opcode::NOP => spec_rel_transfer(pre, post, inst),
        Opcode::STA | Opcode::STX | Opcode::STY | Opcode::SAX => spec_rel_store(pre, post, inst),
        Opcode::PHA | Opcode::PHP | Opcode::PLA | Opcode::PLP => spec_rel_stack(pre, post, inst),
        Opcode::JMP | Opcode::JSR | Opcode::RTS | Opcode::RTI => spec_rel_control(pre, post, inst),
        Opcode::DEC | Opcode::INC => spec_rel_memory_rmw(pre, post, inst),
        Opcode::BRK => spec_rel_brk(pre, post, inst),
        Opcode::DCP => spec_rel_dcp(pre, post, inst),
        Opcode::ISB => spec_rel_isb(pre, post, inst),
        Opcode::SLO => spec_rel_slo(pre, post, inst),
        Opcode::RLA => spec_rel_rla(pre, post, inst),
        Opcode::SRE => spec_rel_sre(pre, post, inst),
        Opcode::RRA => spec_rel_rra(pre, post, inst),
    }
}

/// What the add-with-carry family (SBC adds the inverted operand) do; one piece of `spec_execute_rel`.
pub open spec fn spec_rel_adder(pre: CPU, post: CPU, inst: Instruction) -> bool {
    let addr = inst.oprand_addr;
    let m = spec_dma_read(pre.bus, addr);
    let pure_src = spec_addr_pure(pre.bus, addr);
    let ci: int = if spec_cpu_flag(pre, CPUStatusBit::C) {
        1int
    } else {
        0int
    };
    match inst.op_spec.opcode {
        Opcode::ADC => pure_src ==> {
            let r = ((pre.acc + m + ci) % 256) as u8;
            post == (CPU {
                acc: r,
                status: pre.status.spec_with(CPUStatusBit::C, pre.acc + m + ci > 255).spec_with(
                    CPUStatusBit::Z,
                    r == 0,
                ).spec_with(CPUStatusBit::V, spec_signed_overflow(pre.acc, m, r)).spec_with(
                    CPUStatusBit::N,
                    r >= 128,
                ),
                ..pre
            })
        },
        Opcode::SBC => pure_src ==> {
            let inverted = (255 - m) as u8;
            let r = ((pre.acc + inverted + ci) % 256) as u8;
            post == (CPU {
                acc: r,
                status: pre.status.spec_with(
                    CPUStatusBit::C,
                    pre.acc + inverted + ci > 255,
                ).spec_with(CPUStatusBit::Z, r == 0).spec_with(
                    CPUStatusBit::V,
                    spec_signed_overflow(pre.acc, inverted, r),
                ).spec_with(CPUStatusBit::N, r >= 128),
                ..pre
            })
        },
        _ => true,
    }
}

/// What the bitwise and compare instructions do; one piece of `spec_execute_rel`.
pub open spec fn spec_rel_logic(pre: CPU, post: CPU, inst: Instruction) -> bool {
    let addr = inst.oprand_addr;
    let m = spec_dma_read(pre.bus, addr);
    let pure_src = spec_addr_pure(pre.bus, addr);
    match inst.op_spec.opcode {
        Opcode::AND => pure_src ==> {
            let r = pre.acc & m;
            post == (CPU { acc: r, status: spec_with_zn(pre.status, r), ..pre })
        },
        Opcode::ORA => pure_src ==> {
            let r = pre.acc | m;
            post == (CPU { acc: r, status: spec_with_zn(pre.status, r), ..pre })
        },
        Opcode::EOR => pure_src ==> {
            let r = pre.acc ^ m;
            post == (CPU { acc: r, status: spec_with_zn(pre.status, r), ..pre })
        },
        Opcode::BIT => pure_src ==> post == (CPU {
            status: pre.status.spec_with(CPUStatusBit::Z, pre.acc & m == 0).spec_with(
                CPUStatusBit::N,
                m >= 128,
            ).spec_with(CPUStatusBit::V, (m / 64) % 2 == 1),
            ..pre
        }),
        Opcode::CMP => pure_src ==> {
            let diff = ((pre.acc - m + 256) % 256) as u8;
            post == (CPU {
                status: spec_with_zn(pre.status.spec_with(CPUStatusBit::C, pre.acc >= m), diff),
                ..pre
            })
        },
        Opcode::CPX => pure_src ==> {
            let diff = ((pre.reg_x - m + 256) % 256) as u8;
            post == (CPU {
                status: spec_with_zn(pre.status.spec_with(CPUStatusBit::C, pre.reg_x >= m), diff),
                ..pre
            })
        },
        Opcode::CPY => pure_src ==> {
            let diff = ((pre.reg_y - m + 256) % 256) as u8;
            post == (CPU {
                status: spec_with_zn(pre.status.spec_with(CPUStatusBit::C, pre.reg_y >= m), diff),
                ..pre
            })
        },
        _ => true,
    }
}

/// What the register loads do; one piece of `spec_execute_rel`.
pub open spec fn spec_rel_load(pre: CPU, post: CPU, inst: Instruction) -> bool {
    let addr = inst.oprand_addr;
    let m = spec_dma_read(pre.bus, addr);
    let pure_src = spec_addr_pure(pre.bus, addr);
    match inst.op_spec.opcode {
        Opcode::LDA => pure_src ==> post == (CPU {
            acc: m,
            status: spec_with_zn(pre.status, m),
            ..pre
        }),
        Opcode::LDX => pure_src ==> post == (CPU {
            reg_x: m,
            status: spec_with_zn(pre.status, m),
            ..pre
        }),
        Opcode::LDY => pure_src ==> post == (CPU {
            reg_y: m,
            status: spec_with_zn(pre.status, m),
            ..pre
        }),
        Opcode::LAX => pure_src ==> post == (CPU {
            acc: m,
            reg_x: m,
            status: spec_with_zn(pre.status, m),
            ..pre
        }),
        _ => true,
    }
}

/// What the shifts and rotates do; one piece of `spec_execute_rel`.
pub open spec fn spec_rel_shift(pre: CPU, post: CPU, inst: Instruction) -> bool {
    let addr = inst.oprand_addr;
    let mode = inst.op_spec.addr_mode;
    let m = spec_dma_read(pre.bus, addr);
    let pure_src = spec_addr_pure(pre.bus, addr);
    let ci: int = if spec_cpu_flag(pre, CPUStatusBit::C) {
        1int
    } else {
        0int
    };
    match inst.op_spec.opcode {
        Opcode::ASL => if mode == AddrMode::Implicit {
            let r = ((pre.acc * 2) % 256) as u8;
            post == (CPU {
                acc: r,
                status: spec_with_zn(pre.status.spec_with(CPUStatusBit::C, pre.acc >= 128), r),
                ..pre
            })
        } else {
            pure_src ==> {
                let r = ((m * 2) % 256) as u8;
                &&& post == (CPU {
                    status: spec_with_zn(pre.status.spec_with(CPUStatusBit::C, m >= 128), r),
                    bus: post.bus,
                    ..pre
                })
                &&& spec_cpu_write_rel(pre.bus, post.bus, addr, r)
            }
        },
        Opcode::LSR => if mode == AddrMode::Implicit {
            let r = (pre.acc / 2) as u8;
            post == (CPU {
                acc: r,
                status: spec_with_zn(pre.status.spec_with(CPUStatusBit::C, pre.acc % 2 == 1), r),
                ..pre
            })
        } else {
            pure_src ==> {
                let r = (m / 2) as u8;
                &&& post == (CPU {
                    status: spec_with_zn(pre.status.spec_with(CPUStatusBit::C, m % 2 == 1), r),
                    bus: post.bus,
                    ..pre
                })
                &&& spec_cpu_write_rel(pre.bus, post.bus, addr, r)
            }
        },
        Opcode::ROL => if mode == AddrMode::Implicit {
            let r = ((pre.acc * 2 + ci) % 256) as u8;
            post == (CPU {
                acc: r,
                status: spec_with_zn(pre.status.spec_with(CPUStatusBit::C, pre.acc >= 128), r),
                ..pre
            })
        } else {
            pure_src ==> {
                let r = ((m * 2 + ci) % 256) as u8;
                &&& post == (CPU {
                    status: spec_with_zn(pre.status.spec_with(CPUStatusBit::C, m >= 128), r),
                    bus: post.bus,
                    ..pre
                })
                &&& spec_cpu_write_rel(pre.bus, post.bus, addr, r)
            }
        },
        Opcode::ROR => if mode == AddrMode::Implicit {
            let r = (pre.acc / 2 + ci * 128) as u8;
            post == (CPU {
                acc: r,
                status: spec_with_zn(pre.status.spec_with(CPUStatusBit::C, pre.acc % 2 == 1), r),
                ..pre
            })
        } else {
            pure_src ==> {
                let r = (m / 2 + ci * 128) as u8;
                &&& post == (CPU {
                    status: spec_with_zn(pre.status.spec_with(CPUStatusBit::C, m % 2 == 1), r),
                    bus: post.bus,
                    ..pre
                })
                &&& spec_cpu_write_rel(pre.bus, post.bus, addr, r)
            }
        },
        _ => true,
    }
}

/// What the conditional branches do; one piece of `spec_execute_rel`.
pub open spec fn spec_rel_branch(pre: CPU, post: CPU, inst: Instruction) -> bool {
    let addr = inst.oprand_addr;
    match inst.op_spec.opcode {
        Opcode::BCC => spec_branch_rel(pre, post, !spec_cpu_flag(pre, CPUStatusBit::C), addr),
        Opcode::BCS => spec_branch_rel(pre, post, spec_cpu_flag(pre, CPUStatusBit::C), addr),
        Opcode::BEQ => spec_branch_rel(pre, post, spec_cpu_flag(pre, CPUStatusBit::Z), addr),
        Opcode::BNE => spec_branch_rel(pre, post, !spec_cpu_flag(pre, CPUStatusBit::Z), addr),
        Opcode::BMI => spec_branch_rel(pre, post, spec_cpu_flag(pre, CPUStatusBit::N), addr),
        Opcode::BPL => spec_branch_rel(pre, post, !spec_cpu_flag(pre, CPUStatusBit::N), addr),
        Opcode::BVS => spec_branch_rel(pre, post, spec_cpu_flag(pre, CPUStatusBit::V), addr),
        Opcode::BVC => spec_branch_rel(pre, post, !spec_cpu_flag(pre, CPUStatusBit::V), addr),
        _ => true,
    }
}

/// What the flag set and clear instructions do; one piece of `spec_execute_rel`.
pub open spec fn spec_rel_flag(pre: CPU, post: CPU, inst: Instruction) -> bool {
    match inst.op_spec.opcode {
        Opcode::CLC => post == (CPU {
            status: pre.status.spec_with(CPUStatusBit::C, false),
            ..pre
        }),
        Opcode::CLD => post == (CPU {
            status: pre.status.spec_with(CPUStatusBit::D, false),
            ..pre
        }),
        Opcode::CLI => post == (CPU {
            status: pre.status.spec_with(CPUStatusBit::I, false),
            ..pre
        }),
        Opcode::CLV => post == (CPU {
            status: pre.status.spec_with(CPUStatusBit::V, false),
            ..pre
        }),
        Opcode::SEC => post == (CPU { status: pre.status.spec_with(CPUStatusBit::C, true), ..pre }),
        Opcode::SED => post == (CPU { status: pre.status.spec_with(CPUStatusBit::D, true), ..pre }),
        Opcode::SEI => post == (CPU { status: pre.status.spec_with(CPUStatusBit::I, true), ..pre }),
        _ => true,
    }
}

/// What the register transfers, steps and NOP do; one piece of `spec_execute_rel`.
pub open spec fn spec_rel_transfer(pre: CPU, post: CPU, inst: Instruction) -> bool {
    match inst.op_spec.opcode {
        Opcode::TAX => post == (CPU {
            reg_x: pre.acc,
            status: spec_with_zn(pre.status, pre.acc),
            ..pre
        }),
        Opcode::TAY => post == (CPU {
            reg_y: pre.acc,
            status: spec_with_zn(pre.status, pre.acc),
            ..pre
        }),
        Opcode::TSX => post == (CPU {
            reg_x: pre.sp,
            status: spec_with_zn(pre.status, pre.sp),
            ..pre
        }),
        Opcode::TXA => post == (CPU {
            acc: pre.reg_x,
            status: spec_with_zn(pre.status, pre.reg_x),
            ..pre
        }),
        Opcode::TXS => post == (CPU { sp: pre.reg_x, ..pre }),
        Opcode::TYA => post == (CPU {
            acc: pre.reg_y,
            status: spec_with_zn(pre.status, pre.reg_y),
            ..pre
        }),
        Opcode::DEX => {
            let r = ((pre.reg_x + 255) % 256) as u8;
            post == (CPU { reg_x: r, status: spec_with_zn(pre.status, r), ..pre })
        },
        Opcode::DEY => {
            let r = ((pre.reg_y + 255) % 256) as u8;
            post == (CPU { reg_y: r, status: spec_with_zn(pre.status, r), ..pre })
        },
        Opcode::INX => {
            let r = ((pre.reg_x + 1) % 256) as u8;
            post == (CPU { reg_x: r, status: spec_with_zn(pre.status, r), ..pre })
        },
        Opcode::INY => {
            let r = ((pre.reg_y + 1) % 256) as u8;
            post == (CPU { reg_y: r, status: spec_with_zn(pre.status, r), ..pre })
        },
        Opcode::NOP => post == pre,
        _ => true,
    }
}

/// What the stores do; one piece of `spec_execute_rel`.
pub open spec fn spec_rel_store(pre: CPU, post: CPU, inst: Instruction) -> bool {
    let addr = inst.oprand_addr;
    match inst.op_spec.opcode {
        Opcode::STA => {
            &&& post == (CPU { bus: post.bus, ..pre })
            &&& spec_cpu_write_rel(pre.bus, post.bus, addr, pre.acc)
        },
        Opcode::STX => {
            &&& post == (CPU { bus: post.bus, ..pre })
            &&& spec_cpu_write_rel(pre.bus, post.bus, addr, pre.reg_x)
        },
        Opcode::STY => {
            &&& post == (CPU { bus: post.bus, ..pre })
            &&& spec_cpu_write_rel(pre.bus, post.bus, addr, pre.reg_y)
        },
        Opcode::SAX => {
            &&& post == (CPU { bus: post.bus, ..pre })
            &&& spec_cpu_write_rel(pre.bus, post.bus, addr, pre.acc & pre.reg_x)
        },
        _ => true,
    }
}

/// What the stack pushes and pulls do; one piece of `spec_execute_rel`.
pub open spec fn spec_rel_stack(pre: CPU, post: CPU, inst: Instruction) -> bool {
    match inst.op_spec.opcode {
        Opcode::PHA => {
            &&& post == (CPU { sp: post.sp, bus: post.bus, ..pre })
            &&& post.sp == (pre.sp + 255) % 256
            &&& post.bus == (Bus { cpu_ram: post.bus.cpu_ram, ..pre.bus })
            &&& post.bus.cpu_ram@ == pre.bus.cpu_ram@.update(0x100 + pre.sp as int, pre.acc)
        },
        Opcode::PHP => {
            let pushed = (pre.status.bits | (1u8 << 4)) | (1u8 << 5);
            &&& post == (CPU { sp: post.sp, status: post.status, bus: post.bus, ..pre })
            &&& post.status == pre.status.spec_with(CPUStatusBit::B, false).spec_with(
                CPUStatusBit::U,
                false,
            )
            &&& post.sp == (pre.sp + 255) % 256
            &&& post.bus == (Bus { cpu_ram: post.bus.cpu_ram, ..pre.bus })
            &&& post.bus.cpu_ram@ == pre.bus.cpu_ram@.update(0x100 + pre.sp as int, pushed)
        },
        Opcode::PLA => {
            let v = pre.bus.cpu_ram@[0x100 + ((pre.sp + 1) % 256)];
            &&& post == (CPU {
                acc: v,
                sp: ((pre.sp + 1) % 256) as u8,
                status: spec_with_zn(pre.status, v),
                ..pre
            })
        },
        Opcode::PLP => {
            let v = pre.bus.cpu_ram@[0x100 + ((pre.sp + 1) % 256)];
            post == (CPU {
                sp: ((pre.sp + 1) % 256) as u8,
                status: (CPUStatus { bits: v }).spec_with(CPUStatusBit::B, false).spec_with(
                    CPUStatusBit::U,
                    true,
                ),
                ..pre
            })
        },
        _ => true,
    }
}

/// What the jumps and returns do; one piece of `spec_execute_rel`.
pub open spec fn spec_rel_control(pre: CPU, post: CPU, inst: Instruction) -> bool {
    let addr = inst.oprand_addr;
    let mode = inst.op_spec.addr_mode;
    match inst.op_spec.opcode {
        Opcode::JMP => if mode == AddrMode::Indirect {
            spec_addr_pure2(pre.bus, ((pre.pc + 0x10000 - 2) % 0x10000) as u16) ==> {
                let ptr = spec_read16(pre.bus, ((pre.pc + 0x10000 - 2) % 0x10000) as u16);
                let hi_addr = if ptr % 256 == 255 {
                    (ptr - 255) as u16
                } else {
                    (ptr + 1) as u16
                };
                spec_addr_pure(pre.bus, ptr) && spec_addr_pure(pre.bus, hi_addr) ==> post == (CPU {
                    pc: ((spec_dma_read(pre.bus, ptr) + spec_dma_read(pre.bus, hi_addr) * 256) as u16),
                    bus: post.bus,
                    ..pre
                })
            }
        } else {
            spec_addr_pure2(pre.bus, ((pre.pc + 0x10000 - 2) % 0x10000) as u16) ==> post == (CPU {
                pc: addr,
                ..pre
            })
        },
        Opcode::JSR => {
            let ret = ((pre.pc + 0xFFFF) % 0x10000) as u16;
            &&& post == (CPU { pc: addr, sp: post.sp, bus: post.bus, ..pre })
            &&& post.sp == (pre.sp + 254) % 256
            &&& post.bus == (Bus { cpu_ram: post.bus.cpu_ram, ..pre.bus })
            &&& post.bus.cpu_ram@ == pre.bus.cpu_ram@.update(
                0x100 + pre.sp as int,
                (ret / 256) as u8,
            ).update(0x100 + ((pre.sp + 255) % 256), (ret % 256) as u8)
        },
        Opcode::RTS => {
            &&& post == (CPU { pc: post.pc, sp: post.sp, ..pre })
            &&& post.sp == (pre.sp + 2) % 256
            &&& post.pc == (pre.bus.cpu_ram@[0x100 + ((pre.sp + 1) % 256)] + 256 * pre.bus.cpu_ram@[
                0x100 + ((pre.sp + 2) % 256)
            ] + 1) % 0x10000
        },
        Opcode::RTI => {
            let v = pre.bus.cpu_ram@[0x100 + ((pre.sp + 1) % 256)];
            let lo = pre.bus.cpu_ram@[0x100 + ((pre.sp + 2) % 256)];
            let hi = pre.bus.cpu_ram@[0x100 + ((pre.sp + 3) % 256)];
            post == (CPU {
                sp: ((pre.sp + 3) % 256) as u8,
                status: (CPUStatus { bits: v }).spec_with(CPUStatusBit::B, false).spec_with(
                    CPUStatusBit::U,
                    true,
                ),
                pc: ((lo + 256 * hi) as u16),
                ..pre
            })
        },
        _ => true,
    }
}

/// What the memory increment and decrement do; one piece of `spec_execute_rel`.
pub open spec fn spec_rel_memory_rmw(pre: CPU, post: CPU, inst: Instruction) -> bool {
    let addr = inst.oprand_addr;
    let m = spec_dma_read(pre.bus, addr);
    let pure_src = spec_addr_pure(pre.bus, addr);
    match inst.op_spec.opcode {
        Opcode::DEC => pure_src ==> {
            let r = ((m + 255) % 256) as u8;
            &&& post == (CPU { status: spec_with_zn(pre.status, r), bus: post.bus, ..pre })
            &&& spec_cpu_write_rel(pre.bus, post.bus, addr, r)
        },
        Opcode::INC => pure_src ==> {
            let r = ((m + 1) % 256) as u8;
            &&& post == (CPU { status: spec_with_zn(pre.status, r), bus: post.bus, ..pre })
            &&& spec_cpu_write_rel(pre.bus, post.bus, addr, r)
        },
        _ => true,
    }
}

/// BRK, the software interrupt: push the address past the break and the
/// status byte with B set, set I, and jump through the vector at $FFFE.
/// One piece of `spec_execute_rel`.
pub open spec fn spec_rel_brk(pre: CPU, post: CPU, inst: Instruction) -> bool {
    let pc1 = (pre.pc + 1) % 0x10000;
    &&& post == (CPU {
        pc: post.pc,
        sp: post.sp,
        status: post.status,
        bus: post.bus,
        ..pre
    })
    &&& post.status == pre.status.spec_with(CPUStatusBit::B, true).spec_with(
        CPUStatusBit::B,
        false,
    ).spec_with(CPUStatusBit::I, true)
    &&& post.sp == (pre.sp + 253) % 256
    &&& post.pc == spec_read16(pre.bus, 0xFFFE)
    &&& post.bus == (Bus { cpu_ram: post.bus.cpu_ram, ..pre.bus })
    &&& post.bus.cpu_ram@ == pre.bus.cpu_ram@.update(
        0x100 + pre.sp as int,
        (pc1 / 256) as u8,
    ).update(0x100 + ((pre.sp + 255) % 256), (pc1 % 256) as u8).update(
        0x100 + ((pre.sp + 254) % 256),
        pre.status.spec_with(CPUStatusBit::B, true).bits,
    )
}

/// The undocumented DCP (decrement memory, then compare the accumulator
/// against the result); one piece of `spec_execute_rel`.
pub open spec fn spec_rel_dcp(pre: CPU, post: CPU, inst: Instruction) -> bool {
    let addr = inst.oprand_addr;
    let m = spec_dma_read(pre.bus, addr);
    let pure_src = spec_addr_pure(pre.bus, addr);
    pure_src ==> {
        let r = ((m + 255) % 256) as u8;
        let diff = ((pre.acc - r + 256) % 256) as u8;
        &&& post == (CPU {
            status: spec_with_zn(pre.status.spec_with(CPUStatusBit::C, pre.acc >= r), diff),
            bus: post.bus,
            ..pre
        })
        &&& spec_cpu_write_rel(pre.bus, post.bus, addr, r)
    }
}

/// The undocumented ISB (increment memory, then subtract the result from
/// the accumulator); one piece of `spec_execute_rel`.
pub open spec fn spec_rel_isb(pre: CPU, post: CPU, inst: Instruction) -> bool {
    let addr = inst.oprand_addr;
    let m = spec_dma_read(pre.bus, addr);
    let pure_src = spec_addr_pure(pre.bus, addr);
    let ci: int = if spec_cpu_flag(pre, CPUStatusBit::C) {
        1int
    } else {
        0int
    };
    pure_src ==> {
        let r = ((m + 1) % 256) as u8;
        let inverted = (255 - r) as u8;
        let res = ((pre.acc + inverted + ci) % 256) as u8;
        &&& post == (CPU {
            acc: res,
            status: spec_with_zn(pre.status, r).spec_with(
                CPUStatusBit::C,
                pre.acc + inverted + ci > 255,
            ).spec_with(CPUStatusBit::Z, res == 0).spec_with(
                CPUStatusBit::V,
                spec_signed_overflow(pre.acc, inverted, res),
            ).spec_with(CPUStatusBit::N, res >= 128),
            bus: post.bus,
            ..pre
        })
        &&& spec_cpu_write_rel(pre.bus, post.bus, addr, r)
    }
}

/// The undocumented SLO (shift memory left, then OR it into the
/// accumulator); one piece of `spec_execute_rel`.
pub open spec fn spec_rel_slo(pre: CPU, post: CPU, inst: Instruction) -> bool {
    let addr = inst.oprand_addr;
    let mode = inst.op_spec.addr_mode;
    let m = spec_dma_read(pre.bus, addr);
    let pure_src = spec_addr_pure(pre.bus, addr);
    if mode == AddrMode::Implicit {
        let r = ((pre.acc * 2) % 256) as u8;
        post == (CPU {
            acc: r,
            status: spec_with_zn(
                spec_with_zn(pre.status.spec_with(CPUStatusBit::C, pre.acc >= 128), r),
                r,
            ),
            ..pre
        })
    } else {
        pure_src ==> {
            let r = ((m * 2) % 256) as u8;
            let a = pre.acc | r;
            &&& post == (CPU {
                acc: a,
                status: spec_with_zn(
                    spec_with_zn(pre.status.spec_with(CPUStatusBit::C, m >= 128), r),
                    a,
                ),
                bus: post.bus,
                ..pre
            })
            &&& spec_cpu_write_rel(pre.bus, post.bus, addr, r)
        }
    }
}

/// The undocumented RLA (rotate memory left, then AND it into the
/// accumulator); one piece of `spec_execute_rel`.
pub open spec fn spec_rel_rla(pre: CPU, post: CPU, inst: Instruction) -> bool {
    let addr = inst.oprand_addr;
    let mode = inst.op_spec.addr_mode;
    let m = spec_dma_read(pre.bus, addr);
    let pure_src = spec_addr_pure(pre.bus, addr);
    let ci: int = if spec_cpu_flag(pre, CPUStatusBit::C) {
        1int
    } else {
        0int
    };
    if mode == AddrMode::Implicit {
        let r = ((pre.acc * 2 + ci) % 256) as u8;
        post == (CPU {
            acc: r,
            status: spec_with_zn(
                spec_with_zn(pre.status.spec_with(CPUStatusBit::C, pre.acc >= 128), r),
                r,
            ),
            ..pre
        })
    } else {
        pure_src ==> {
            let r = ((m * 2 + ci) % 256) as u8;
            let a = pre.acc & r;
            &&& post == (CPU {
                acc: a,
                status: spec_with_zn(
                    spec_with_zn(pre.status.spec_with(CPUStatusBit::C, m >= 128), r),
                    a,
                ),
                bus: post.bus,
                ..pre
            })
            &&& spec_cpu_write_rel(pre.bus, post.bus, addr, r)
        }
    }
}

/// The undocumented SRE (shift memory right, then EOR it into the
/// accumulator); one piece of `spec_execute_rel`.
pub open spec fn spec_rel_sre(pre: CPU, post: CPU, inst: Instruction) -> bool {
    let addr = inst.oprand_addr;
    let mode = inst.op_spec.addr_mode;
    let m = spec_dma_read(pre.bus, addr);
    let pure_src = spec_addr_pure(pre.bus, addr);
    if mode == AddrMode::Implicit {
        let r = (pre.acc / 2) as u8;
        let a = (r ^ r) as u8;
        post == (CPU {
            acc: a,
            status: spec_with_zn(
                spec_with_zn(pre.status.spec_with(CPUStatusBit::C, pre.acc % 2 == 1), r),
                a,
            ),
            ..pre
        })
    } else {
        pure_src ==> {
            let r = (m / 2) as u8;
            let a = pre.acc ^ r;
            &&& post == (CPU {
                acc: a,
                status: spec_with_zn(
                    spec_with_zn(pre.status.spec_with(CPUStatusBit::C, m % 2 == 1), r),
                    a,
                ),
                bus: post.bus,
                ..pre
            })
            &&& spec_cpu_write_rel(pre.bus, post.bus, addr, r)
        }
    }
}

/// The undocumented RRA (rotate memory right, then add it to the
/// accumulator); one piece of `spec_execute_rel`.
pub open spec fn spec_rel_rra(pre: CPU, post: CPU, inst: Instruction) -> bool {
    let addr = inst.oprand_addr;
    let mode = inst.op_spec.addr_mode;
    let m = spec_dma_read(pre.bus, addr);
    let pure_src = spec_addr_pure(pre.bus, addr);
    let ci: int = if spec_cpu_flag(pre, CPUStatusBit::C) {
        1int
    } else {
        0int
    };
    if mode == AddrMode::Implicit {
        let r = (pre.acc / 2 + ci * 128) as u8;
        let c2 = pre.acc % 2 == 1;
        let c2i: int = if c2 {
            1int
        } else {
            0int
        };
        let res = ((r + r + c2i) % 256) as u8;
        post == (CPU {
            acc: res,
            status: spec_with_zn(pre.status.spec_with(CPUStatusBit::C, pre.acc % 2 == 1), r)
                .spec_with(CPUStatusBit::C, r + r + c2i > 255).spec_with(
                CPUStatusBit::Z,
                res == 0,
            ).spec_with(CPUStatusBit::V, spec_signed_overflow(r, r, res)).spec_with(
                CPUStatusBit::N,
                res >= 128,
            ),
            ..pre
        })
    } else {
        pure_src ==> {
            let r = (m / 2 + ci * 128) as u8;
            let c2 = m % 2 == 1;
            let c2i: int = if c2 {
                1int
            } else {
                0int
            };
            let res = ((pre.acc + r + c2i) % 256) as u8;
            &&& post == (CPU {
                acc: res,
                status: spec_with_zn(pre.status.spec_with(CPUStatusBit::C, m % 2 == 1), r)
                    .spec_with(CPUStatusBit::C, pre.acc + r + c2i > 255).spec_with(
                    CPUStatusBit::Z,
                    res == 0,
                ).spec_with(CPUStatusBit::V, spec_signed_overflow(pre.acc, r, res)).spec_with(
                    CPUStatusBit::N,
                    res >= 128,
                ),
                bus: post.bus,
                ..pre
            })
            &&& spec_cpu_write_rel(pre.bus, post.bus, addr, r)
        }
    }
}


/// Z from whether the value is zero, N from its top bit; the order matches
/// `update_status_Z_N`.
pub open spec fn spec_with_zn(s: CPUStatus, value: u8) -> CPUStatus {
    s.spec_with(CPUStatusBit::Z, value == 0).spec_with(CPUStatusBit::N, value >= 128)
}

impl CPU {
    /// Take a branch: one extra cycle, two when the target is on another
    /// page than the instruction's end; the program counter moves there.
    fn branch_to(&mut self, target: u16)
        requires
            old(self).wf(),
            old(self).cycles <= 1000,
        ensures
            final(self).wf(),
            spec_branch_rel(*old(self), *final(self), true, target),
    {
        self.cycles = self.cycles + 1;
        if target / 256 != self.pc / 256 {
            self.cycles = self.cycles + 1;
        }
        self.pc = target;
    }

    /// Execute one decoded instruction; its effect on registers, flags and
    /// the bus is `spec_execute_rel`. Branch penalties land on the cycle
    /// countdown; nothing else touches it.
    pub fn execute_inst(&mut self, inst: Instruction)
        requires
            old(self).wf(),
            old(self).cycles <= 1000,
        ensures
            final(self).wf(),
            spec_execute_rel(*old(self), *final(self), inst),
            final(self).cycles >= old(self).cycles,
            final(self).cycles <= old(self).cycles + 2,
            final(self).total_cycles == old(self).total_cycles,
    {
        match inst.op_spec.opcode {
            Opcode::ADC | Opcode::SBC => self.ex_adder(inst),
            Opcode::AND | Opcode::ORA | Opcode::EOR | Opcode::BIT | Opcode::CMP | Opcode::CPX | Opcode::CPY => self.ex_logic(inst),
            Opcode::LDA | Opcode::LDX | Opcode::LDY | Opcode::LAX => self.ex_load(inst),
            Opcode::ASL | Opcode::LSR | Opcode::ROL | Opcode::ROR => self.ex_shift(inst),
            Opcode::BCC | Opcode::BCS | Opcode::BEQ | Opcode::BNE | Opcode::BMI | Opcode::BPL | Opcode::BVS | Opcode::BVC => self.ex_branch(inst),
            Opcode::CLC | Opcode::CLD | Opcode::CLI | Opcode::CLV | Opcode::SEC | Opcode::SED | Opcode::SEI => self.ex_flag(inst),
            Opcode::TAX | Opcode::TAY | Opcode::TSX | Opcode::TXA | Opcode::TXS | Opcode::TYA | Opcode::DEX | Opcode::DEY | Opcode::INX | Opcode::INY | Opcode::NOP => self.ex_transfer(inst),
            Opcode::STA | Opcode::STX | Opcode::STY | Opcode::SAX => self.ex_store(inst),
            Opcode::PHA | Opcode::PHP | Opcode::PLA | Opcode::PLP => self.ex_stack(inst),
            Opcode::JMP => self.ex_jmp(inst),
            Opcode::JSR => self.ex_jsr(inst),
            Opcode::RTS | Opcode::RTI => self.ex_return(inst),
            Opcode::DEC => self.ex_dec(inst),
            Opcode::INC => self.ex_inc(inst),
            Opcode::BRK => self.ex_brk(inst),
            Opcode::DCP => self.ex_dcp(inst),
            Opcode::ISB => self.ex_isb(inst),
            Opcode::SLO => self.ex_slo(inst),
            Opcode::RLA => self.ex_rla(inst),
            Opcode::SRE => self.ex_sre(inst),
            Opcode::RRA => self.ex_rra(inst),
        }
    }

    /// Execute the add-with-carry family; part of `spec_execute_rel`.
    #[verifier::rlimit(100)]
    #[verifier::spinoff_prover]
    fn ex_adder(&mut self, inst: Instruction)
        requires
            old(self).wf(),
            old(self).cycles <= 1000,
            inst.op_spec.opcode == Opcode::ADC || inst.op_spec.opcode == Opcode::SBC,
        ensures
            final(self).wf(),
            spec_rel_adder(*old(self), *final(self), inst),
            final(self).cycles >= old(self).cycles,
            final(self).cycles <= old(self).cycles + 2,
            final(self).total_cycles == old(self).total_cycles,
    {
        let addr = inst.oprand_addr;
        match inst.op_spec.opcode {
            Opcode::ADC => {
                let m = self.read(addr);
                let (r, c, z, v, n) = alu_adc(self.acc, m, self.get_status(CPUStatusBit::C));
                self.set_status(CPUStatusBit::C, c);
                self.set_status(CPUStatusBit::Z, z);
                self.set_status(CPUStatusBit::V, v);
                self.set_status(CPUStatusBit::N, n);
                self.acc = r;
            },
            Opcode::SBC => {
                let m = self.read(addr);
                // subtraction is addition with the operand inverted
                let (r, c, z, v, n) = alu_adc(self.acc, 255 - m, self.get_status(CPUStatusBit::C));
                self.set_status(CPUStatusBit::C, c);
                self.set_status(CPUStatusBit::Z, z);
                self.set_status(CPUStatusBit::V, v);
                self.set_status(CPUStatusBit::N, n);
                self.acc = r;
            },
            _ => {},
        }
    }

    /// Execute the bitwise and compare instructions; part of `spec_execute_rel`.
    #[verifier::rlimit(100)]
    #[verifier::spinoff_prover]
    fn ex_logic(&mut self, inst: Instruction)
        requires
            old(self).wf(),
            old(self).cycles <= 1000,
            inst.op_spec.opcode == Opcode::AND || inst.op_spec.opcode == Opcode::ORA || inst.op_spec.opcode == Opcode::EOR || inst.op_spec.opcode == Opcode::BIT || inst.op_spec.opcode == Opcode::CMP || inst.op_spec.opcode == Opcode::CPX || inst.op_spec.opcode == Opcode::CPY,
        ensures
            final(self).wf(),
            spec_rel_logic(*old(self), *final(self), inst),
            final(self).cycles >= old(self).cycles,
            final(self).cycles <= old(self).cycles + 2,
            final(self).total_cycles == old(self).total_cycles,
    {
        let addr = inst.oprand_addr;
        match inst.op_spec.opcode {
            Opcode::AND => {
                let m = self.read(addr);
                self.acc = self.acc & m;
                let r = self.acc;
                self.update_status_Z_N(r);
            },
            Opcode::ORA => {
                let m = self.read(addr);
                self.acc = self.acc | m;
                let r = self.acc;
                self.update_status_Z_N(r);
            },
            Opcode::EOR => {
                let m = self.read(addr);
                self.acc = self.acc ^ m;
                let r = self.acc;
                self.update_status_Z_N(r);
            },
            Opcode::BIT => {
                let m = self.read(addr);
                let masked = self.acc & m;
                self.set_status(CPUStatusBit::Z, masked == 0);
                self.set_status(CPUStatusBit::N, m >= 128);
                self.set_status(CPUStatusBit::V, (m / 64) % 2 == 1);
            },
            Opcode::CMP => {
                let m = self.read(addr);
                self.set_status(CPUStatusBit::C, self.acc >= m);
                let diff = self.acc.wrapping_sub(m);
                self.update_status_Z_N(diff);
            },
            Opcode::CPX => {
                let m = self.read(addr);
                self.set_status(CPUStatusBit::C, self.reg_x >= m);
                let diff = self.reg_x.wrapping_sub(m);
                self.update_status_Z_N(diff);
            },
            Opcode::CPY => {
                let m = self.read(addr);
                self.set_status(CPUStatusBit::C, self.reg_y >= m);
                let diff = self.reg_y.wrapping_sub(m);
                self.update_status_Z_N(diff);
            },
            _ => {},
        }
    }

    /// Execute the register loads; part of `spec_execute_rel`.
    #[verifier::rlimit(100)]
    #[verifier::spinoff_prover]
    fn ex_load(&mut self, inst: Instruction)
        requires
            old(self).wf(),
            old(self).cycles <= 1000,
            inst.op_spec.opcode == Opcode::LDA || inst.op_spec.opcode == Opcode::LDX || inst.op_spec.opcode == Opcode::LDY || inst.op_spec.opcode == Opcode::LAX,
        ensures
            final(self).wf(),
            spec_rel_load(*old(self), *final(self), inst),
            final(self).cycles >= old(self).cycles,
            final(self).cycles <= old(self).cycles + 2,
            final(self).total_cycles == old(self).total_cycles,
    {
        let addr = inst.oprand_addr;
        match inst.op_spec.opcode {
            Opcode::LDA => {
                let m = self.read(addr);
                self.acc = m;
                self.update_status_Z_N(m);
            },
            Opcode::LDX => {
                let m = self.read(addr);
                self.reg_x = m;
                self.update_status_Z_N(m);
            },
            Opcode::LDY => {
                let m = self.read(addr);
                self.reg_y = m;
                self.update_status_Z_N(m);
            },
            Opcode::LAX => {
                // LDA then TAX
                let m = self.read(addr);
                self.acc = m;
                self.reg_x = m;
                self.update_status_Z_N(m);
            },
            _ => {},
        }
    }

    /// Execute the shifts and rotates; part of `spec_execute_rel`.
    #[verifier::rlimit(100)]
    #[verifier::spinoff_prover]
    fn ex_shift(&mut self, inst: Instruction)
        requires
            old(self).wf(),
            old(self).cycles <= 1000,
            inst.op_spec.opcode == Opcode::ASL || inst.op_spec.opcode == Opcode::LSR || inst.op_spec.opcode == Opcode::ROL || inst.op_spec.opcode == Opcode::ROR,
        ensures
            final(self).wf(),
            spec_rel_shift(*old(self), *final(self), inst),
            final(self).cycles >= old(self).cycles,
            final(self).cycles <= old(self).cycles + 2,
            final(self).total_cycles == old(self).total_cycles,
    {
        let addr = inst.oprand_addr;
        let addr_mode = inst.op_spec.addr_mode;
        match inst.op_spec.opcode {
            Opcode::ASL => {
                let v = if let AddrMode::Implicit = addr_mode {
                    self.acc
                } else {
                    self.read(addr)
                };
                let (r, c) = alu_asl(v);
                self.set_status(CPUStatusBit::C, c);
                self.update_status_Z_N(r);
                if let AddrMode::Implicit = addr_mode {
                    self.acc = r;
                } else {
                    self.write(addr, r);
                }
            },
            Opcode::LSR => {
                let v = if let AddrMode::Implicit = addr_mode {
                    self.acc
                } else {
                    self.read(addr)
                };
                let (r, c) = alu_lsr(v);
                self.set_status(CPUStatusBit::C, c);
                self.update_status_Z_N(r);
                if let AddrMode::Implicit = addr_mode {
                    self.acc = r;
                } else {
                    self.write(addr, r);
                }
            },
            Opcode::ROL => {
                let v = if let AddrMode::Implicit = addr_mode {
                    self.acc
                } else {
                    self.read(addr)
                };
                let (r, c) = alu_rol(v, self.get_status(CPUStatusBit::C));
                self.set_status(CPUStatusBit::C, c);
                self.update_status_Z_N(r);
                if let AddrMode::Implicit = addr_mode {
                    self.acc = r;
                } else {
                    self.write(addr, r);
                }
            },
            Opcode::ROR => {
                let v = if let AddrMode::Implicit = addr_mode {
                    self.acc
                } else {
                    self.read(addr)
                };
                let (r, c) = alu_ror(v, self.get_status(CPUStatusBit::C));
                self.set_status(CPUStatusBit::C, c);
                self.update_status_Z_N(r);
                if let AddrMode::Implicit = addr_mode {
                    self.acc = r;
                } else {
                    self.write(addr, r);
                }
            },
            _ => {},
        }
    }

    /// Execute the conditional branches; part of `spec_execute_rel`.
    #[verifier::rlimit(100)]
    #[verifier::spinoff_prover]
    fn ex_branch(&mut self, inst: Instruction)
        requires
            old(self).wf(),
            old(self).cycles <= 1000,
            inst.op_spec.opcode == Opcode::BCC || inst.op_spec.opcode == Opcode::BCS || inst.op_spec.opcode == Opcode::BEQ || inst.op_spec.opcode == Opcode::BNE || inst.op_spec.opcode == Opcode::BMI || inst.op_spec.opcode == Opcode::BPL || inst.op_spec.opcode == Opcode::BVS || inst.op_spec.opcode == Opcode::BVC,
        ensures
            final(self).wf(),
            spec_rel_branch(*old(self), *final(self), inst),
            final(self).cycles >= old(self).cycles,
            final(self).cycles <= old(self).cycles + 2,
            final(self).total_cycles == old(self).total_cycles,
    {
        let addr = inst.oprand_addr;
        match inst.op_spec.opcode {
            Opcode::BCC => {
                if !self.get_status(CPUStatusBit::C) {
                    self.branch_to(addr);
                }
            },
            Opcode::BCS => {
                if self.get_status(CPUStatusBit::C) {
                    self.branch_to(addr);
                }
            },
            Opcode::BEQ => {
                if self.get_status(CPUStatusBit::Z) {
                    self.branch_to(addr);
                }
            },
            Opcode::BNE => {
                if !self.get_status(CPUStatusBit::Z) {
                    self.branch_to(addr);
                }
            },
            Opcode::BMI => {
                if self.get_status(CPUStatusBit::N) {
                    self.branch_to(addr);
                }
            },
            Opcode::BPL => {
                if !self.get_status(CPUStatusBit::N) {
                    self.branch_to(addr);
                }
            },
            Opcode::BVS => {
                if self.get_status(CPUStatusBit::V) {
                    self.branch_to(addr);
                }
            },
            Opcode::BVC => {
                if !self.get_status(CPUStatusBit::V) {
                    self.branch_to(addr);
                }
            },
            _ => {},
        }
    }

    /// Execute the flag set/clear instructions; part of `spec_execute_rel`.
    #[verifier::rlimit(100)]
    #[verifier::spinoff_prover]
    fn ex_flag(&mut self, inst: Instruction)
        requires
            old(self).wf(),
            old(self).cycles <= 1000,
            inst.op_spec.opcode == Opcode::CLC || inst.op_spec.opcode == Opcode::CLD || inst.op_spec.opcode == Opcode::CLI || inst.op_spec.opcode == Opcode::CLV || inst.op_spec.opcode == Opcode::SEC || inst.op_spec.opcode == Opcode::SED || inst.op_spec.opcode == Opcode::SEI,
        ensures
            final(self).wf(),
            spec_rel_flag(*old(self), *final(self), inst),
            final(self).cycles >= old(self).cycles,
            final(self).cycles <= old(self).cycles + 2,
            final(self).total_cycles == old(self).total_cycles,
    {
        match inst.op_spec.opcode {
            Opcode::CLC => {
                self.set_status(CPUStatusBit::C, false);
            },
            Opcode::CLD => {
                self.set_status(CPUStatusBit::D, false);
            },
            Opcode::CLI => {
                self.set_status(CPUStatusBit::I, false);
            },
            Opcode::CLV => {
                self.set_status(CPUStatusBit::V, false);
            },
            Opcode::SEC => {
                self.set_status(CPUStatusBit::C, true);
            },
            Opcode::SED => {
                self.set_status(CPUStatusBit::D, true);
            },
            Opcode::SEI => {
                self.set_status(CPUStatusBit::I, true);
            },
            _ => {},
        }
    }

    /// Execute the register transfers, steps and NOP; part of `spec_execute_rel`.
    #[verifier::rlimit(100)]
    #[verifier::spinoff_prover]
    fn ex_transfer(&mut self, inst: Instruction)
        requires
            old(self).wf(),
            old(self).cycles <= 1000,
            inst.op_spec.opcode == Opcode::TAX || inst.op_spec.opcode == Opcode::TAY || inst.op_spec.opcode == Opcode::TSX || inst.op_spec.opcode == Opcode::TXA || inst.op_spec.opcode == Opcode::TXS || inst.op_spec.opcode == Opcode::TYA || inst.op_spec.opcode == Opcode::DEX || inst.op_spec.opcode == Opcode::DEY || inst.op_spec.opcode == Opcode::INX || inst.op_spec.opcode == Opcode::INY || inst.op_spec.opcode == Opcode::NOP,
        ensures
            final(self).wf(),
            spec_rel_transfer(*old(self), *final(self), inst),
            final(self).cycles >= old(self).cycles,
            final(self).cycles <= old(self).cycles + 2,
            final(self).total_cycles == old(self).total_cycles,
    {
        match inst.op_spec.opcode {
            Opcode::TAX => {
                self.reg_x = self.acc;
                let r = self.reg_x;
                self.update_status_Z_N(r);
            },
            Opcode::TAY => {
                self.reg_y = self.acc;
                let r = self.reg_y;
                self.update_status_Z_N(r);
            },
            Opcode::TSX => {
                self.reg_x = self.sp;
                let r = self.reg_x;
                self.update_status_Z_N(r);
            },
            Opcode::TXA => {
                self.acc = self.reg_x;
                let r = self.acc;
                self.update_status_Z_N(r);
            },
            Opcode::TXS => {
                self.sp = self.reg_x;
            },
            Opcode::TYA => {
                self.acc = self.reg_y;
                let r = self.acc;
                self.update_status_Z_N(r);
            },
            Opcode::DEX => {
                self.reg_x = self.reg_x.wrapping_sub(1);
                let r = self.reg_x;
                self.update_status_Z_N(r);
            },
            Opcode::DEY => {
                self.reg_y = self.reg_y.wrapping_sub(1);
                let r = self.reg_y;
                self.update_status_Z_N(r);
            },
            Opcode::INX => {
                self.reg_x = self.reg_x.wrapping_add(1);
                let r = self.reg_x;
                self.update_status_Z_N(r);
            },
            Opcode::INY => {
                self.reg_y = self.reg_y.wrapping_add(1);
                let r = self.reg_y;
                self.update_status_Z_N(r);
            },
            Opcode::NOP => {},
            _ => {},
        }
    }

    /// Execute the stores; part of `spec_execute_rel`.
    #[verifier::rlimit(100)]
    #[verifier::spinoff_prover]
    fn ex_store(&mut self, inst: Instruction)
        requires
            old(self).wf(),
            old(self).cycles <= 1000,
            inst.op_spec.opcode == Opcode::STA || inst.op_spec.opcode == Opcode::STX || inst.op_spec.opcode == Opcode::STY || inst.op_spec.opcode == Opcode::SAX,
        ensures
            final(self).wf(),
            spec_rel_store(*old(self), *final(self), inst),
            final(self).cycles >= old(self).cycles,
            final(self).cycles <= old(self).cycles + 2,
            final(self).total_cycles == old(self).total_cycles,
    {
        let addr = inst.oprand_addr;
        match inst.op_spec.opcode {
            Opcode::STA => {
                let v = self.acc;
                self.write(addr, v);
            },
            Opcode::STX => {
                let v = self.reg_x;
                self.write(addr, v);
            },
            Opcode::STY => {
                let v = self.reg_y;
                self.write(addr, v);
            },
            Opcode::SAX => {
                // store A AND X; no flags are touched
                let v = self.acc & self.reg_x;
                self.write(addr, v);
            },
            _ => {},
        }
    }

    /// Execute the stack pushes and pulls; part of `spec_execute_rel`.
    #[verifier::rlimit(100)]
    #[verifier::spinoff_prover]
    fn ex_stack(&mut self, inst: Instruction)
        requires
            old(self).wf(),
            old(self).cycles <= 1000,
            inst.op_spec.opcode == Opcode::PHA || inst.op_spec.opcode == Opcode::PHP || inst.op_spec.opcode == Opcode::PLA || inst.op_spec.opcode == Opcode::PLP,
        ensures
            final(self).wf(),
            spec_rel_stack(*old(self), *final(self), inst),
            final(self).cycles >= old(self).cycles,
            final(self).cycles <= old(self).cycles + 2,
            final(self).total_cycles == old(self).total_cycles,
    {
        match inst.op_spec.opcode {
            Opcode::PHA => {
                let v = self.acc;
                self.stack_push(v);
            },
            Opcode::PHP => {
                // the pushed copy carries B and U high; the live flags drop both
                let mut cloned_status = self.status;
                cloned_status.turn_on(CPUStatusBit::B);
                cloned_status.turn_on(CPUStatusBit::U);
                let pushed = cloned_status.bits;
                self.stack_push(pushed);
                self.set_status(CPUStatusBit::B, false);
                self.set_status(CPUStatusBit::U, false);
            },
            Opcode::PLA => {
                let v = self.stack_pop();
                self.acc = v;
                self.update_status_Z_N(v);
            },
            Opcode::PLP => {
                let bits = self.stack_pop();
                self.status.set_from_bits(bits);
                self.set_status(CPUStatusBit::B, false);
                self.set_status(CPUStatusBit::U, true);
            },
            _ => {},
        }
    }

    /// Execute the jumps; part of `spec_execute_rel`.
    #[verifier::rlimit(100)]
    #[verifier::spinoff_prover]
    fn ex_jmp(&mut self, inst: Instruction)
        requires
            old(self).wf(),
            old(self).cycles <= 1000,
            inst.op_spec.opcode == Opcode::JMP,
        ensures
            final(self).wf(),
            spec_rel_control(*old(self), *final(self), inst),
            final(self).cycles >= old(self).cycles,
            final(self).cycles <= old(self).cycles + 2,
            final(self).total_cycles == old(self).total_cycles,
    {
        let addr = inst.oprand_addr;
        let addr_mode = inst.op_spec.addr_mode;
        match inst.op_spec.opcode {
            Opcode::JMP => {
                // an indirect jump re-reads its target so that a pointer at
                // the end of a page takes the high byte from that same page
                let ptr_pos = self.pc.wrapping_sub(2);
                let ptr = self.read_u16(ptr_pos);
                if let AddrMode::Indirect = addr_mode {
                    let (lo_addr, hi_addr) = jmp_indirect_addrs(ptr);
                    let lo = self.read(lo_addr);
                    let hi = self.read(hi_addr);
                    self.pc = (lo as u16) + (hi as u16) * 256;
                } else {
                    self.pc = addr;
                }
            },
            _ => {},
        }
    }

    /// Execute the subroutine call; part of `spec_execute_rel`.
    #[verifier::rlimit(100)]
    #[verifier::spinoff_prover]
    fn ex_jsr(&mut self, inst: Instruction)
        requires
            old(self).wf(),
            old(self).cycles <= 1000,
            inst.op_spec.opcode == Opcode::JSR,
        ensures
            final(self).wf(),
            spec_rel_control(*old(self), *final(self), inst),
            final(self).cycles >= old(self).cycles,
            final(self).cycles <= old(self).cycles + 2,
            final(self).total_cycles == old(self).total_cycles,
    {
        let addr = inst.oprand_addr;
        match inst.op_spec.opcode {
            Opcode::JSR => {
                let ret = self.pc.wrapping_sub(1);
                self.stack_push_u16(ret);
                self.pc = addr;
            },
            _ => {},
        }
    }

    /// Execute the returns; part of `spec_execute_rel`.
    #[verifier::rlimit(100)]
    #[verifier::spinoff_prover]
    fn ex_return(&mut self, inst: Instruction)
        requires
            old(self).wf(),
            old(self).cycles <= 1000,
            inst.op_spec.opcode == Opcode::RTS || inst.op_spec.opcode == Opcode::RTI,
        ensures
            final(self).wf(),
            spec_rel_control(*old(self), *final(self), inst),
            final(self).cycles >= old(self).cycles,
            final(self).cycles <= old(self).cycles + 2,
            final(self).total_cycles == old(self).total_cycles,
    {
        match inst.op_spec.opcode {
            Opcode::RTS => {
                self.pc = self.stack_pop_u16().wrapping_add(1);
            },
            Opcode::RTI => {
                let bits = self.stack_pop();
                self.status.set_from_bits(bits);
                self.turn_off_status(CPUStatusBit::B);
                self.turn_on_status(CPUStatusBit::U);
                self.pc = self.stack_pop_u16();
            },
            _ => {},
        }
    }



    /// Execute the memory decrement; part of `spec_execute_rel`.
    #[verifier::rlimit(100)]
    #[verifier::spinoff_prover]
    fn ex_dec(&mut self, inst: Instruction)
        requires
            old(self).wf(),
            old(self).cycles <= 1000,
            inst.op_spec.opcode == Opcode::DEC,
        ensures
            final(self).wf(),
            spec_rel_memory_rmw(*old(self), *final(self), inst),
            final(self).cycles >= old(self).cycles,
            final(self).cycles <= old(self).cycles + 2,
            final(self).total_cycles == old(self).total_cycles,
    {
        let addr = inst.oprand_addr;
        let m = self.read(addr);
        let r = m.wrapping_sub(1);
        self.write(addr, r);
        self.update_status_Z_N(r);
    }

    /// Execute the memory increment; part of `spec_execute_rel`.
    #[verifier::rlimit(100)]
    #[verifier::spinoff_prover]
    fn ex_inc(&mut self, inst: Instruction)
        requires
            old(self).wf(),
            old(self).cycles <= 1000,
            inst.op_spec.opcode == Opcode::INC,
        ensures
            final(self).wf(),
            spec_rel_memory_rmw(*old(self), *final(self), inst),
            final(self).cycles >= old(self).cycles,
            final(self).cycles <= old(self).cycles + 2,
            final(self).total_cycles == old(self).total_cycles,
    {
        let addr = inst.oprand_addr;
        let m = self.read(addr);
        let r = m.wrapping_add(1);
        self.write(addr, r);
        self.update_status_Z_N(r);
    }

    /// Execute the software interrupt; part of `spec_execute_rel`.
    #[verifier::rlimit(100)]
    #[verifier::spinoff_prover]
    fn ex_brk(&mut self, inst: Instruction)
        requires
            old(self).wf(),
            old(self).cycles <= 1000,
            inst.op_spec.opcode == Opcode::BRK,
        ensures
            final(self).wf(),
            spec_rel_brk(*old(self), *final(self), inst),
            final(self).cycles >= old(self).cycles,
            final(self).cycles <= old(self).cycles + 2,
            final(self).total_cycles == old(self).total_cycles,
    {
        proof {
            broadcast use lemma_flag_after_with;
        }
        match inst.op_spec.opcode {
            Opcode::BRK => {
                self.pc = self.pc.wrapping_add(1);
                let pc = self.pc;
                self.stack_push_u16(pc);
                // the pushed copy carries B high; I is pushed as it was
                self.set_status(CPUStatusBit::B, true);
                let bits = self.status.bits;
                self.stack_push(bits);
                self.set_status(CPUStatusBit::B, false);
                self.set_status(CPUStatusBit::I, true);
                self.pc = self.read_u16(0xFFFE);
            },
            _ => {},
        }
    }

    /// Execute the combined decrement-and-compare; part of `spec_execute_rel`.
    #[verifier::rlimit(100)]
    #[verifier::spinoff_prover]
    fn ex_dcp(&mut self, inst: Instruction)
        requires
            old(self).wf(),
            old(self).cycles <= 1000,
            inst.op_spec.opcode == Opcode::DCP,
        ensures
            final(self).wf(),
            spec_rel_dcp(*old(self), *final(self), inst),
            final(self).cycles >= old(self).cycles,
            final(self).cycles <= old(self).cycles + 2,
            final(self).total_cycles == old(self).total_cycles,
    {
        proof {
            broadcast use lemma_flag_after_with;
        }
        let addr = inst.oprand_addr;
        match inst.op_spec.opcode {
            Opcode::DCP => {
                // DEC then CMP
                let m = self.read(addr);
                let r = m.wrapping_sub(1);
                self.write(addr, r);
                self.set_status(CPUStatusBit::C, self.acc >= r);
                let diff = self.acc.wrapping_sub(r);
                self.update_status_Z_N(diff);
            },
            _ => {},
        }
    }

    /// Execute the combined increment-and-subtract; part of `spec_execute_rel`.
    #[verifier::rlimit(100)]
    #[verifier::spinoff_prover]
    fn ex_isb(&mut self, inst: Instruction)
        requires
            old(self).wf(),
            old(self).cycles <= 1000,
            inst.op_spec.opcode == Opcode::ISB,
        ensures
            final(self).wf(),
            spec_rel_isb(*old(self), *final(self), inst),
            final(self).cycles >= old(self).cycles,
            final(self).cycles <= old(self).cycles + 2,
            final(self).total_cycles == old(self).total_cycles,
    {
        proof {
            broadcast use lemma_flag_after_with;
        }
        let addr = inst.oprand_addr;
        match inst.op_spec.opcode {
            Opcode::ISB => {
                // INC then SBC
                let m = self.read(addr);
                let r = m.wrapping_add(1);
                self.write(addr, r);
                self.update_status_Z_N(r);
                let (res, c, z, v, n) = alu_adc(self.acc, 255 - r, self.get_status(CPUStatusBit::C));
                self.set_status(CPUStatusBit::C, c);
                self.set_status(CPUStatusBit::Z, z);
                self.set_status(CPUStatusBit::V, v);
                self.set_status(CPUStatusBit::N, n);
                self.acc = res;
            },
            _ => {},
        }
    }

    /// Execute the combined shift-left-and-OR; part of `spec_execute_rel`.
    #[verifier::rlimit(100)]
    #[verifier::spinoff_prover]
    fn ex_slo(&mut self, inst: Instruction)
        requires
            old(self).wf(),
            old(self).cycles <= 1000,
            inst.op_spec.opcode == Opcode::SLO,
        ensures
            final(self).wf(),
            spec_rel_slo(*old(self), *final(self), inst),
            final(self).cycles >= old(self).cycles,
            final(self).cycles <= old(self).cycles + 2,
            final(self).total_cycles == old(self).total_cycles,
    {
        proof {
            broadcast use lemma_flag_after_with;
            assert(forall|x: u8| #[trigger] (x | x) == x) by (bit_vector);
            assert(forall|x: u8| #[trigger] (x & x) == x) by (bit_vector);
            assert(forall|x: u8| #[trigger] (x ^ x) == 0) by (bit_vector);
        }
        let addr = inst.oprand_addr;
        let addr_mode = inst.op_spec.addr_mode;
        match inst.op_spec.opcode {
            Opcode::SLO => {
                // ASL then ORA
                let v = if let AddrMode::Implicit = addr_mode {
                    self.acc
                } else {
                    self.read(addr)
                };
                let (r, c) = alu_asl(v);
                self.set_status(CPUStatusBit::C, c);
                self.update_status_Z_N(r);
                if let AddrMode::Implicit = addr_mode {
                    self.acc = r;
                } else {
                    self.write(addr, r);
                }
                self.acc = self.acc | r;
                let a = self.acc;
                self.update_status_Z_N(a);
            },
            _ => {},
        }
    }

    /// Execute the combined rotate-left-and-AND; part of `spec_execute_rel`.
    #[verifier::rlimit(100)]
    #[verifier::spinoff_prover]
    fn ex_rla(&mut self, inst: Instruction)
        requires
            old(self).wf(),
            old(self).cycles <= 1000,
            inst.op_spec.opcode == Opcode::RLA,
        ensures
            final(self).wf(),
            spec_rel_rla(*old(self), *final(self), inst),
            final(self).cycles >= old(self).cycles,
            final(self).cycles <= old(self).cycles + 2,
            final(self).total_cycles == old(self).total_cycles,
    {
        proof {
            broadcast use lemma_flag_after_with;
            assert(forall|x: u8| #[trigger] (x | x) == x) by (bit_vector);
            assert(forall|x: u8| #[trigger] (x & x) == x) by (bit_vector);
            assert(forall|x: u8| #[trigger] (x ^ x) == 0) by (bit_vector);
        }
        let addr = inst.oprand_addr;
        let addr_mode = inst.op_spec.addr_mode;
        match inst.op_spec.opcode {
            Opcode::RLA => {
                // ROL then AND
                let v = if let AddrMode::Implicit = addr_mode {
                    self.acc
                } else {
                    self.read(addr)
                };
                let (r, c) = alu_rol(v, self.get_status(CPUStatusBit::C));
                self.set_status(CPUStatusBit::C, c);
                self.update_status_Z_N(r);
                if let AddrMode::Implicit = addr_mode {
                    self.acc = r;
                } else {
                    self.write(addr, r);
                }
                self.acc = self.acc & r;
                let a = self.acc;
                self.update_status_Z_N(a);
            },
            _ => {},
        }
    }

    /// Execute the combined shift-right-and-EOR; part of `spec_execute_rel`.
    #[verifier::rlimit(100)]
    #[verifier::spinoff_prover]
    fn ex_sre(&mut self, inst: Instruction)
        requires
            old(self).wf(),
            old(self).cycles <= 1000,
            inst.op_spec.opcode == Opcode::SRE,
        ensures
            final(self).wf(),
            spec_rel_sre(*old(self), *final(self), inst),
            final(self).cycles >= old(self).cycles,
            final(self).cycles <= old(self).cycles + 2,
            final(self).total_cycles == old(self).total_cycles,
    {
        proof {
            broadcast use lemma_flag_after_with;
            assert(forall|x: u8| #[trigger] (x | x) == x) by (bit_vector);
            assert(forall|x: u8| #[trigger] (x & x) == x) by (bit_vector);
            assert(forall|x: u8| #[trigger] (x ^ x) == 0) by (bit_vector);
        }
        let addr = inst.oprand_addr;
        let addr_mode = inst.op_spec.addr_mode;
        match inst.op_spec.opcode {
            Opcode::SRE => {
                // LSR then EOR
                let v = if let AddrMode::Implicit = addr_mode {
                    self.acc
                } else {
                    self.read(addr)
                };
                let (r, c) = alu_lsr(v);
                self.set_status(CPUStatusBit::C, c);
                self.update_status_Z_N(r);
                if let AddrMode::Implicit = addr_mode {
                    self.acc = r;
                } else {
                    self.write(addr, r);
                }
                self.acc = self.acc ^ r;
                let a = self.acc;
                self.update_status_Z_N(a);
            },
            _ => {},
        }
    }

    /// Execute the combined rotate-right-and-add; part of `spec_execute_rel`.
    #[verifier::rlimit(100)]
    #[verifier::spinoff_prover]
    fn ex_rra(&mut self, inst: Instruction)
        requires
            old(self).wf(),
            old(self).cycles <= 1000,
            inst.op_spec.opcode == Opcode::RRA,
        ensures
            final(self).wf(),
            spec_rel_rra(*old(self), *final(self), inst),
            final(self).cycles >= old(self).cycles,
            final(self).cycles <= old(self).cycles + 2,
            final(self).total_cycles == old(self).total_cycles,
    {
        proof {
            broadcast use lemma_flag_after_with;
        }
        let addr = inst.oprand_addr;
        let addr_mode = inst.op_spec.addr_mode;
        match inst.op_spec.opcode {
            Opcode::RRA => {
                // ROR then ADC
                let v = if let AddrMode::Implicit = addr_mode {
                    self.acc
                } else {
                    self.read(addr)
                };
                let (r, c) = alu_ror(v, self.get_status(CPUStatusBit::C));
                self.set_status(CPUStatusBit::C, c);
                self.update_status_Z_N(r);
                if let AddrMode::Implicit = addr_mode {
                    self.acc = r;
                } else {
                    self.write(addr, r);
                }
                let (res, c2, z2, v2, n2) = alu_adc(self.acc, r, self.get_status(CPUStatusBit::C));
                self.set_status(CPUStatusBit::C, c2);
                self.set_status(CPUStatusBit::Z, z2);
                self.set_status(CPUStatusBit::V, v2);
                self.set_status(CPUStatusBit::N, n2);
                self.acc = res;
            },
            _ => {},
        }
    }



    /// What one instruction fetch does: the opcode byte is read at the
    /// program counter, looked up, its operand resolved, and the counter
    /// moved past the whole instruction (or past the single unknown byte).
    /// Wherever the bytes involved are side-effect free, the decoded row,
    /// operand address and cycle count are pinned exactly.
    pub open spec fn spec_fetch_rel(pre: CPU, post: CPU, r: Option<Instruction>) -> bool {
        &&& post == (CPU { pc: post.pc, bus: post.bus, ..pre })
        &&& (r is None ==> post.pc == (pre.pc + 1) % 0x10000)
        &&& (r matches Some(inst) ==> {
            &&& 2 <= inst.cycles <= inst.op_spec.base_cycles + 1
            &&& inst.cycles >= inst.op_spec.base_cycles
            &&& inst.cycles <= 9
            &&& post.pc == (pre.pc + 1 + inst.op_spec.addr_mode.spec_size()) % 0x10000
        })
        &&& (spec_addr_pure(pre.bus, pre.pc) ==> {
            let b = spec_dma_read(pre.bus, pre.pc);
            &&& (r is Some) == (spec_opcode_to_spec(b) is Some)
            &&& (spec_opcode_to_spec(b) is None ==> post.bus == pre.bus)
            &&& (r matches Some(inst) ==> Some(inst.op_spec) == spec_opcode_to_spec(b)
                && inst.opcode_byte == b)
        })
        &&& (spec_addr_pure(pre.bus, pre.pc) && spec_addr_pure2(
            pre.bus,
            ((pre.pc + 1) % 0x10000) as u16,
        ) ==> (r matches Some(inst) ==> (inst.op_spec.addr_mode != AddrMode::Indirect ==> post.bus
            == pre.bus && inst.oprand_addr == spec_operand_addr(
            pre.bus,
            ((pre.pc + 1) % 0x10000) as u16,
            pre.reg_x,
            pre.reg_y,
            inst.op_spec.addr_mode,
            inst.op_spec.inc_cycle_on_page_crossed,
        ).0 && inst.cycles == inst.op_spec.base_cycles + spec_operand_addr(
            pre.bus,
            ((pre.pc + 1) % 0x10000) as u16,
            pre.reg_x,
            pre.reg_y,
            inst.op_spec.addr_mode,
            inst.op_spec.inc_cycle_on_page_crossed,
        ).1)))
    }

    /// Read the opcode byte at the program counter, look it up, resolve its
    /// operand, and advance the program counter past the whole instruction;
    /// `None` (with the counter past the byte) for a byte outside the table.
    pub fn fetch_next_instruction(&mut self) -> (r: Option<Instruction>)
        requires
            old(self).wf(),
        ensures
            final(self).wf(),
            CPU::spec_fetch_rel(*old(self), *final(self), r),
    {
        let pc = self.pc;
        let opcode_byte = self.read(pc);
        self.pc = self.pc.wrapping_add(1);
        match crate::opcodes::opcode_to_spec(opcode_byte) {
            None => None,
            Some(op_spec) => {
                let (oprand_addr, additional_cycles) = self.peak_oprand_addr_and_cycles(
                    op_spec.addr_mode,
                    op_spec.inc_cycle_on_page_crossed,
                );
                self.pc = self.pc.wrapping_add(op_spec.addr_mode.size() as u16);
                Some(
                    Instruction {
                        opcode_byte,
                        oprand_addr,
                        op_spec,
                        cycles: op_spec.base_cycles as u32 + additional_cycles as u32,
                    },
                )
            },
        }
    }

    /// Decode the next instruction without moving the program counter.
    /// (The reads involved still happen, as on the real bus.)
    pub fn peak_next_instruction(&mut self) -> (r: Option<Instruction>)
        requires
            old(self).wf(),
        ensures
            final(self).wf(),
            *final(self) == (CPU { bus: final(self).bus, ..*old(self) }),
            exists|mid: CPU|
                #[trigger] CPU::spec_fetch_rel(*old(self), mid, r) && *final(self) == (CPU {
                    pc: old(self).pc,
                    ..mid
                }),
    {
        let pc = self.pc;
        let inst = self.fetch_next_instruction();
        let ghost mid = *self;
        self.pc = pc;
        proof {
            assert(CPU::spec_fetch_rel(*old(self), mid, inst));
        }
        inst
    }

    /// Service the non-maskable interrupt: push the program counter and then
    /// the status byte (B low, U high, I as it was), set I, and jump through
    /// the vector at $FFFA. Returns the 8 cycles the sequence costs.
    pub fn nmi(&mut self) -> (r: u32)
        requires
            old(self).wf(),
        ensures
            final(self).wf(),
            r == 8,
            *final(self) == (CPU {
                pc: final(self).pc,
                sp: final(self).sp,
                status: final(self).status,
                bus: final(self).bus,
                ..*old(self)
            }),
            final(self).status == old(self).status.spec_with(CPUStatusBit::B, false).spec_with(
                CPUStatusBit::U,
                true,
            ).spec_with(CPUStatusBit::I, true),
            spec_flag(final(self).status.bits, CPUStatusBit::U),
            final(self).sp == (old(self).sp + 253) % 256,
            final(self).pc == spec_read16(old(self).bus, 0xFFFA),
            final(self).bus == (Bus { cpu_ram: final(self).bus.cpu_ram, ..old(self).bus }),
            final(self).bus.cpu_ram@ == old(self).bus.cpu_ram@.update(
                0x100 + old(self).sp as int,
                (old(self).pc / 256) as u8,
            ).update(0x100 + ((old(self).sp + 255) % 256), (old(self).pc % 256) as u8).update(
                0x100 + ((old(self).sp + 254) % 256),
                old(self).status.spec_with(CPUStatusBit::B, false).spec_with(
                    CPUStatusBit::U,
                    true,
                ).bits,
            ),
    {
        let pc = self.pc;
        self.stack_push_u16(pc);
        // the pushed copy carries B low and U high; I is pushed as it was
        self.set_status(CPUStatusBit::B, false);
        self.set_status(CPUStatusBit::U, true);
        let bits = self.status.bits;
        self.stack_push(bits);
        self.set_status(CPUStatusBit::I, true);
        self.pc = self.read_u16(0xFFFA);
        proof {
            let s1 = old(self).status.spec_with(CPUStatusBit::B, false);
            lemma_flag_after_with(s1, CPUStatusBit::U, true, CPUStatusBit::U);
            lemma_flag_after_with(
                s1.spec_with(CPUStatusBit::U, true),
                CPUStatusBit::I,
                true,
                CPUStatusBit::U,
            );
        }
        8
    }

    /// What one whole instruction step does: the unused flag is raised, an
    /// instruction is fetched (`spec_fetch_rel`) and executed
    /// (`spec_execute_rel`) with the countdown set to its cycle cost — or a
    /// byte outside the table is stepped over at a cost of two cycles — and
    /// the unused flag is raised again on the way out.
    pub open spec fn spec_instruction_step_rel(pre: CPU, post: CPU) -> bool {
        let armed = CPU { status: pre.status.spec_with(CPUStatusBit::U, true), ..pre };
        exists|mid: CPU, fetched: Option<Instruction>|
            {
                &&& #[trigger] CPU::spec_fetch_rel(armed, mid, fetched)
                &&& match fetched {
                    Some(inst) => exists|done: CPU|
                        {
                            &&& #[trigger] spec_execute_rel(
                                (CPU { cycles: inst.cycles, ..mid }),
                                done,
                                inst,
                            )
                            &&& post == (CPU {
                                status: done.status.spec_with(CPUStatusBit::U, true),
                                ..done
                            })
                        },
                    None => post == (CPU {
                        status: mid.status.spec_with(CPUStatusBit::U, true),
                        cycles: 2,
                        ..mid
                    }),
                }
            }
    }

    /// Fetch and execute one whole instruction, charging its cycles to the
    /// countdown. The unused status bit is raised on the way in and on the
    /// way out: it is high after every instruction. A byte outside the
    /// instruction table is stepped over as a one-byte, two-cycle no-op.
    pub fn execute_next_instruction(&mut self)
        requires
            old(self).wf(),
        ensures
            final(self).wf(),
            CPU::spec_instruction_step_rel(*old(self), *final(self)),
            spec_flag(final(self).status.bits, CPUStatusBit::U),
            1 <= final(self).cycles <= 11,
            final(self).total_cycles == old(self).total_cycles,
    {
        // the unused status bit is always held high
        self.set_status(CPUStatusBit::U, true);
        let fetched = self.fetch_next_instruction();
        let ghost mid = *self;
        match fetched {
            Some(inst) => {
                self.cycles = inst.cycles;
                self.execute_inst(inst);
            },
            None => {
                self.cycles = 2;
            },
        }
        let ghost done = *self;
        let st = self.status;
        self.set_status(CPUStatusBit::U, true);
        proof {
            lemma_flag_after_with(st, CPUStatusBit::U, true, CPUStatusBit::U);
            assert(CPU::spec_fetch_rel(
                (CPU { status: old(self).status.spec_with(CPUStatusBit::U, true), ..*old(self) }),
                mid,
                fetched,
            ));
            if let Some(inst) = fetched {
                assert(spec_execute_rel((CPU { cycles: inst.cycles, ..mid }), done, inst));
            }
        }
    }

    /// What one CPU clock cycle does. At an instruction boundary (countdown
    /// zero) a pending NMI is serviced — the program counter and the status
    /// byte (B low, U high) are pushed, I is set, the counter loads from the
    /// vector at $FFFA, the edge is acknowledged, and 8 cycles are charged —
    /// otherwise the next instruction executes; then the countdown steps
    /// down and the total advances. Mid-instruction, only the counters move.
    pub open spec fn spec_cpu_tick_rel(pre: CPU, post: CPU) -> bool {
        if pre.cycles > 0 {
            post == (CPU {
                cycles: (pre.cycles - 1) as u32,
                total_cycles: ((pre.total_cycles + 1) % 0x100000000) as u32,
                ..pre
            })
        } else if pre.bus.ppu.nmi {
            &&& post == (CPU {
                pc: post.pc,
                sp: post.sp,
                status: post.status,
                cycles: post.cycles,
                total_cycles: post.total_cycles,
                bus: post.bus,
                ..pre
            })
            &&& post.pc == spec_read16(pre.bus, 0xFFFA)
            &&& post.sp == (pre.sp + 253) % 256
            &&& post.status == pre.status.spec_with(CPUStatusBit::B, false).spec_with(
                CPUStatusBit::U,
                true,
            ).spec_with(CPUStatusBit::I, true)
            &&& post.cycles == 7
            &&& post.total_cycles == (pre.total_cycles + 1) % 0x100000000
            &&& post.bus == (Bus { cpu_ram: post.bus.cpu_ram, ppu: post.bus.ppu, ..pre.bus })
            &&& post.bus.ppu == (crate::ppu::PPU { nmi: false, ..pre.bus.ppu })
            &&& post.bus.cpu_ram@ == pre.bus.cpu_ram@.update(
                0x100 + pre.sp as int,
                (pre.pc / 256) as u8,
            ).update(0x100 + ((pre.sp + 255) % 256), (pre.pc % 256) as u8).update(
                0x100 + ((pre.sp + 254) % 256),
                pre.status.spec_with(CPUStatusBit::B, false).spec_with(CPUStatusBit::U, true).bits,
            )
        } else {
            exists|mid: CPU|
                {
                    &&& #[trigger] CPU::spec_instruction_step_rel(pre, mid)
                    &&& 1 <= mid.cycles <= 11
                    &&& post == (CPU {
                        cycles: (mid.cycles - 1) as u32,
                        total_cycles: ((pre.total_cycles + 1) % 0x100000000) as u32,
                        ..mid
                    })
                }
        }
    }

    /// One CPU clock cycle: at an instruction boundary (countdown zero) a
    /// pending NMI is serviced, else the next instruction executes; then the
    /// countdown ticks down.
    pub fn tick(&mut self)
        requires
            old(self).wf(),
        ensures
            final(self).wf(),
            CPU::spec_cpu_tick_rel(*old(self), *final(self)),
            old(self).cycles == 0 ==> spec_flag(final(self).status.bits, CPUStatusBit::U),
            final(self).total_cycles == (old(self).total_cycles + 1) % 0x100000000,
    {
        if self.cycles == 0 {
            if self.bus.has_nmi() {
                // NMIs are taken between instructions only
                self.bus.reset_nmi();
                let ghost acked = *self;
                let c = self.nmi();
                self.cycles = c;
                proof {
                    assert(spec_read16(acked.bus, 0xFFFA) == spec_read16(old(self).bus, 0xFFFA));
                }
            } else {
                self.execute_next_instruction();
                let ghost mid = *self;
                proof {
                    assert(CPU::spec_instruction_step_rel(*old(self), mid));
                }
            }
        }
        self.cycles = self.cycles - 1;
        self.total_cycles = self.total_cycles.wrapping_add(1);
    }

    /// One system step at PPU pace: the bus ticks (three of these make one
    /// CPU cycle; DMA may steal the CPU's share), and the result reports a
    /// vertical-blank NMI edge — the moment for a host to render the frame
    /// and feed the joypads.
    pub fn step(&mut self) -> (vblank_edge: bool)
        requires
            old(self).wf(),
        ensures
            final(self).wf(),
            vblank_edge == (!old(self).bus.ppu.nmi && crate::ppu::spec_nmi_after_tick(
                old(self).bus.ppu,
            )),
            exists|mid: Bus|
                {
                    &&& #[trigger] crate::bus::spec_system_tick_rel(old(self).bus, mid)
                    &&& if crate::bus::spec_cpu_granted(old(self).bus) {
                        CPU::spec_cpu_tick_rel((CPU { bus: mid, ..*old(self) }), *final(self))
                    } else {
                        *final(self) == (CPU { bus: mid, ..*old(self) })
                    }
                },
    {
        let before = self.bus.has_nmi();
        let cpu_may_tick = self.bus.system_tick();
        let ghost mid = self.bus;
        let after = self.bus.has_nmi();
        if cpu_may_tick {
            self.tick();
        }
        proof {
            assert(crate::bus::spec_system_tick_rel(old(self).bus, mid));
        }
        after && !before
    }

    /// Run forever, one system step at a time. A host that needs the frames
    /// and the joypads drives `step` itself instead.
    pub fn run(&mut self)
        requires
            old(self).wf(),
        ensures
            final(self).wf(),
    {
        let mut steps: u64 = 0;
        while steps < 0xFFFF_FFFF_FFFF_FFFF
            invariant
                self.wf(),
            decreases 0xFFFF_FFFF_FFFF_FFFF - steps,
        {
            self.step();
            steps = steps + 1;
        }
    }
}

/// The stack lives entirely in page $01: whatever the stack pointer holds,
/// the address a push or pop touches is $0100 + SP, between $0100 and $01FF.
pub proof fn lemma_stack_stays_in_page_one(sp: u8)
    ensures
        0x100 <= 0x100 + sp as int <= 0x1FF,
{
}

} // verus!
