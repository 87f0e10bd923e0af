//! The 6502 addressing modes: how many operand bytes each consumes and how a
//! raw operand is pulled out of a byte stream.

use vstd::prelude::*;

verus! {

/// An operand, decoded with the value its mode carries.
#[derive(Clone, Copy, PartialEq, Eq, Structural, Debug)]
pub enum Address {
    Absolute(u16),
    AbsoluteX(u16),
    AbsoluteY(u16),
    ZeroPage(u8),
    ZeroPageX(u8),
    ZeroPageY(u8),
    Immediate(u8),
    Relative(i8),
    Implicit,
    Indirect(u16),
    IndexedIndirect(u8),
    IndirectIndexed(u8),
}

/// An addressing mode, before its operand bytes are known.
#[derive(Clone, Copy, PartialEq, Eq, Structural, Debug)]
pub enum AddrMode {
    Absolute,
    AbsoluteX,
    AbsoluteY,
    ZeroPage,
    ZeroPageX,
    ZeroPageY,
    Immediate,
    Relative,
    Implicit,
    Indirect,
    IndexedIndirect,
    IndirectIndexed,
}

impl AddrMode {
    /// How many operand bytes the mode consumes.
    pub open spec fn spec_size(self) -> u8 {
        match self {
            AddrMode::Absolute => 2,
            AddrMode::AbsoluteX => 2,
            AddrMode::AbsoluteY => 2,
            AddrMode::ZeroPage => 1,
            AddrMode::ZeroPageX => 1,
            AddrMode::ZeroPageY => 1,
            AddrMode::Immediate => 1,
            AddrMode::Relative => 1,
            AddrMode::Implicit => 0,
            AddrMode::Indirect => 2,
            AddrMode::IndexedIndirect => 1,
            AddrMode::IndirectIndexed => 1,
        }
    }

    pub fn size(&self) -> (r: u8)
        ensures
            r == self.spec_size(),
            r <= 2,
    {
        match self {
            AddrMode::Absolute => 2,
            AddrMode::AbsoluteX => 2,
            AddrMode::AbsoluteY => 2,
            AddrMode::ZeroPage => 1,
            AddrMode::ZeroPageX => 1,
            AddrMode::ZeroPageY => 1,
            AddrMode::Immediate => 1,
            AddrMode::Relative => 1,
            AddrMode::Implicit => 0,
            AddrMode::Indirect => 2,
            AddrMode::IndexedIndirect => 1,
            AddrMode::IndirectIndexed => 1,
        }
    }

    /// Decode this mode's operand from `bytes` at `pos`, little-endian, and
    /// return it with the position just past it.
    pub fn fetch(&self, bytes: &[u8], pos: usize) -> (r: (Address, usize))
        requires
            pos + self.spec_size() <= bytes@.len(),
        ensures
            r.1 == pos + self.spec_size(),
            r.0 == (match *self {
                AddrMode::Absolute => Address::Absolute(spec_le16(bytes@, pos as int)),
                AddrMode::AbsoluteX => Address::AbsoluteX(spec_le16(bytes@, pos as int)),
                AddrMode::AbsoluteY => Address::AbsoluteY(spec_le16(bytes@, pos as int)),
                AddrMode::ZeroPage => Address::ZeroPage(bytes@[pos as int]),
                AddrMode::ZeroPageX => Address::ZeroPageX(bytes@[pos as int]),
                AddrMode::ZeroPageY => Address::ZeroPageY(bytes@[pos as int]),
                AddrMode::Immediate => Address::Immediate(bytes@[pos as int]),
                AddrMode::Relative => Address::Relative(spec_as_i8(bytes@[pos as int])),
                AddrMode::Implicit => Address::Implicit,
                AddrMode::Indirect => Address::Indirect(spec_le16(bytes@, pos as int)),
                AddrMode::IndexedIndirect => Address::IndexedIndirect(bytes@[pos as int]),
                AddrMode::IndirectIndexed => Address::IndirectIndexed(bytes@[pos as int]),
            }),
    {
        // bind the slice length so the cursor arithmetic below stays in bounds
        let n: usize = bytes.len();
        let size = self.size();
        proof {
            assert(pos + size <= n);
        }
        let value: u16 = read_bytes(bytes, pos, size);
        let addr = match self {
            AddrMode::Absolute => Address::Absolute(value),
            AddrMode::AbsoluteX => Address::AbsoluteX(value),
            AddrMode::AbsoluteY => Address::AbsoluteY(value),
            AddrMode::ZeroPage => Address::ZeroPage(value as u8),
            AddrMode::ZeroPageX => Address::ZeroPageX(value as u8),
            AddrMode::ZeroPageY => Address::ZeroPageY(value as u8),
            AddrMode::Immediate => Address::Immediate(value as u8),
            AddrMode::Relative => Address::Relative(as_i8(value as u8)),
            AddrMode::Implicit => Address::Implicit,
            AddrMode::Indirect => Address::Indirect(value),
            AddrMode::IndexedIndirect => Address::IndexedIndirect(value as u8),
            AddrMode::IndirectIndexed => Address::IndirectIndexed(value as u8),
        };
        (addr, pos + size as usize)
    }
}

/// The 16-bit value at `pos`, little-endian.
pub open spec fn spec_le16(bytes: Seq<u8>, pos: int) -> u16 {
    (bytes[pos] + bytes[pos + 1] * 256) as u16
}

/// The byte reinterpreted as a signed offset (two's complement).
pub open spec fn spec_as_i8(b: u8) -> i8 {
    if b < 128 {
        b as i8
    } else {
        (b - 256) as i8
    }
}

/// Reinterpret a byte as the signed offset it encodes.
pub fn as_i8(b: u8) -> (r: i8)
    ensures
        r == spec_as_i8(b),
{
    proof {
        assert(b >= 128 ==> (b as i8) as int == b - 256) by (bit_vector);
        assert(b < 128 ==> (b as i8) as int == b) by (bit_vector);
    }
    b as i8
}

/// Read `num_bytes` (0, 1 or 2) bytes at `pos`, little-endian.
pub fn read_bytes(bytes: &[u8], pos: usize, num_bytes: u8) -> (r: u16)
    requires
        num_bytes <= 2,
        pos + num_bytes <= bytes@.len(),
    ensures
        num_bytes == 0 ==> r == 0,
        num_bytes == 1 ==> r == bytes@[pos as int],
        num_bytes == 2 ==> r == spec_le16(bytes@, pos as int),
{
    if num_bytes == 0 {
        0
    } else if num_bytes == 1 {
        bytes[pos] as u16
    } else {
        (bytes[pos] as u16) + (bytes[pos + 1] as u16) * 256
    }
}

} // verus!
