//! The static instruction table: every opcode byte the interpreter knows,
//! mapped to its mnemonic, addressing mode, base cycle count, whether a page
//! crossing costs one more cycle, and whether the opcode is documented.
//! The table holds the 151 documented opcodes and the undocumented subset
//! games rely on: the NOP variants (one to three bytes long) and LAX, SAX,
//! DCP, ISB, SLO, RLA, SRE, RRA.

use crate::addr::AddrMode;
use vstd::prelude::*;

verus! {

/// An instruction mnemonic.
#[derive(Clone, Copy, PartialEq, Eq, Structural, Debug)]
pub enum Opcode {
    ADC,
    AND,
    ASL,
    BCC,
    BCS,
    BEQ,
    BIT,
    BMI,
    BNE,
    BPL,
    BRK,
    BVC,
    BVS,
    CLC,
    CLD,
    CLI,
    CLV,
    CMP,
    CPX,
    CPY,
    DEC,
    DEX,
    DEY,
    EOR,
    INC,
    INX,
    INY,
    JMP,
    JSR,
    LDA,
    LDX,
    LDY,
    LSR,
    NOP,
    ORA,
    PHA,
    PHP,
    PLA,
    PLP,
    ROL,
    ROR,
    RTI,
    RTS,
    SBC,
    SEC,
    SED,
    SEI,
    STA,
    STX,
    STY,
    TAX,
    TAY,
    TSX,
    TXA,
    TXS,
    TYA,
    LAX,
    SAX,
    DCP,
    ISB,
    SLO,
    RLA,
    SRE,
    RRA,
}

/// One row of the instruction table.
#[derive(Clone, Copy, PartialEq, Eq, Structural, Debug)]
pub struct Spec {
    pub opcode_byte: u8,
    pub opcode: Opcode,
    pub addr_mode: AddrMode,
    pub base_cycles: u8,
    pub inc_cycle_on_page_crossed: bool,
    pub is_official: bool,
}

/// The table row for `opcode_byte`, or `None` for a byte no instruction
/// (documented or emulated-undocumented) uses.
#[verifier::opaque]
pub open spec fn spec_opcode_to_spec(opcode_byte: u8) -> Option<Spec> {
    match opcode_byte {
        0x00 => Some(
            Spec {
                opcode_byte: 0x00,
                opcode: Opcode::BRK,
                addr_mode: AddrMode::Implicit,
                base_cycles: 7,
                inc_cycle_on_page_crossed: false,
                is_official: true,
            },
        ),
        0x01 => Some(
            Spec {
                opcode_byte: 0x01,
                opcode: Opcode::ORA,
                addr_mode: AddrMode::IndexedIndirect,
                base_cycles: 6,
                inc_cycle_on_page_crossed: false,
                is_official: true,
            },
        ),
        0x03 => Some(
            Spec {
                opcode_byte: 0x03,
                opcode: Opcode::SLO,
                addr_mode: AddrMode::IndexedIndirect,
                base_cycles: 8,
                inc_cycle_on_page_crossed: false,
                is_official: false,
            },
        ),
        0x04 => Some(
            Spec {
                opcode_byte: 0x04,
                opcode: Opcode::NOP,
                addr_mode: AddrMode::ZeroPage,
                base_cycles: 3,
                inc_cycle_on_page_crossed: false,
                is_official: false,
            },
        ),
        0x05 => Some(
            Spec {
                opcode_byte: 0x05,
                opcode: Opcode::ORA,
                addr_mode: AddrMode::ZeroPage,
                base_cycles: 3,
                inc_cycle_on_page_crossed: false,
                is_official: true,
            },
        ),
        0x06 => Some(
            Spec {
                opcode_byte: 0x06,
                opcode: Opcode::ASL,
                addr_mode: AddrMode::ZeroPage,
                base_cycles: 5,
                inc_cycle_on_page_crossed: false,
                is_official: true,
            },
        ),
        0x07 => Some(
            Spec {
                opcode_byte: 0x07,
                opcode: Opcode::SLO,
                addr_mode: AddrMode::ZeroPage,
                base_cycles: 5,
                inc_cycle_on_page_crossed: false,
                is_official: false,
            },
        ),
        0x08 => Some(
            Spec {
                opcode_byte: 0x08,
                opcode: Opcode::PHP,
                addr_mode: AddrMode::Implicit,
                base_cycles: 3,
                inc_cycle_on_page_crossed: false,
                is_official: true,
            },
        ),
        0x09 => Some(
            Spec {
                opcode_byte: 0x09,
                opcode: Opcode::ORA,
                addr_mode: AddrMode::Immediate,
                base_cycles: 2,
                inc_cycle_on_page_crossed: false,
                is_official: true,
            },
        ),
        0x0A => Some(
            Spec {
                opcode_byte: 0x0A,
                opcode: Opcode::ASL,
                addr_mode: AddrMode::Implicit,
                base_cycles: 2,
                inc_cycle_on_page_crossed: false,
                is_official: true,
            },
        ),
        0x0C => Some(
            Spec {
                opcode_byte: 0x0C,
                opcode: Opcode::NOP,
                addr_mode: AddrMode::Absolute,
                base_cycles: 4,
                inc_cycle_on_page_crossed: false,
                is_official: false,
            },
        ),
        0x0D => Some(
            Spec {
                opcode_byte: 0x0D,
                opcode: Opcode::ORA,
                addr_mode: AddrMode::Absolute,
                base_cycles: 4,
                inc_cycle_on_page_crossed: false,
                is_official: true,
            },
        ),
        0x0E => Some(
            Spec {
                opcode_byte: 0x0E,
                opcode: Opcode::ASL,
                addr_mode: AddrMode::Absolute,
                base_cycles: 6,
                inc_cycle_on_page_crossed: false,
                is_official: true,
            },
        ),
        0x0F => Some(
            Spec {
                opcode_byte: 0x0F,
                opcode: Opcode::SLO,
                addr_mode: AddrMode::Absolute,
                base_cycles: 6,
                inc_cycle_on_page_crossed: false,
                is_official: false,
            },
        ),
        0x10 => Some(
            Spec {
                opcode_byte: 0x10,
                opcode: Opcode::BPL,
                addr_mode: AddrMode::Relative,
                base_cycles: 2,
                inc_cycle_on_page_crossed: true,
                is_official: true,
            },
        ),
        0x11 => Some(
            Spec {
                opcode_byte: 0x11,
                opcode: Opcode::ORA,
                addr_mode: AddrMode::IndirectIndexed,
                base_cycles: 5,
                inc_cycle_on_page_crossed: true,
                is_official: true,
            },
        ),
        0x13 => Some(
            Spec {
                opcode_byte: 0x13,
                opcode: Opcode::SLO,
                addr_mode: AddrMode::IndirectIndexed,
                base_cycles: 8,
                inc_cycle_on_page_crossed: false,
                is_official: false,
            },
        ),
        0x14 => Some(
            Spec {
                opcode_byte: 0x14,
                opcode: Opcode::NOP,
                addr_mode: AddrMode::ZeroPageX,
                base_cycles: 4,
                inc_cycle_on_page_crossed: false,
                is_official: false,
            },
        ),
        0x15 => Some(
            Spec {
                opcode_byte: 0x15,
                opcode: Opcode::ORA,
                addr_mode: AddrMode::ZeroPageX,
                base_cycles: 4,
                inc_cycle_on_page_crossed: false,
                is_official: true,
            },
        ),
        0x16 => Some(
            Spec {
                opcode_byte: 0x16,
                opcode: Opcode::ASL,
                addr_mode: AddrMode::ZeroPageX,
                base_cycles: 6,
                inc_cycle_on_page_crossed: false,
                is_official: true,
            },
        ),
        0x17 => Some(
            Spec {
                opcode_byte: 0x17,
                opcode: Opcode::SLO,
                addr_mode: AddrMode::ZeroPageX,
                base_cycles: 6,
                inc_cycle_on_page_crossed: false,
                is_official: false,
            },
        ),
        0x18 => Some(
            Spec {
                opcode_byte: 0x18,
                opcode: Opcode::CLC,
                addr_mode: AddrMode::Implicit,
                base_cycles: 2,
                inc_cycle_on_page_crossed: false,
                is_official: true,
            },
        ),
        0x19 => Some(
            Spec {
                opcode_byte: 0x19,
                opcode: Opcode::ORA,
                addr_mode: AddrMode::AbsoluteY,
                base_cycles: 4,
                inc_cycle_on_page_crossed: true,
                is_official: true,
            },
        ),
        0x1A => Some(
            Spec {
                opcode_byte: 0x1A,
                opcode: Opcode::NOP,
                addr_mode: AddrMode::Implicit,
                base_cycles: 2,
                inc_cycle_on_page_crossed: false,
                is_official: false,
            },
        ),
        0x1B => Some(
            Spec {
                opcode_byte: 0x1B,
                opcode: Opcode::SLO,
                addr_mode: AddrMode::AbsoluteY,
                base_cycles: 7,
                inc_cycle_on_page_crossed: false,
                is_official: false,
            },
        ),
        0x1C => Some(
            Spec {
                opcode_byte: 0x1C,
                opcode: Opcode::NOP,
                addr_mode: AddrMode::AbsoluteX,
                base_cycles: 4,
                inc_cycle_on_page_crossed: true,
                is_official: false,
            },
        ),
        0x1D => Some(
            Spec {
                opcode_byte: 0x1D,
                opcode: Opcode::ORA,
                addr_mode: AddrMode::AbsoluteX,
                base_cycles: 4,
                inc_cycle_on_page_crossed: true,
                is_official: true,
            },
        ),
        0x1E => Some(
            Spec {
                opcode_byte: 0x1E,
                opcode: Opcode::ASL,
                addr_mode: AddrMode::AbsoluteX,
                base_cycles: 7,
                inc_cycle_on_page_crossed: false,
                is_official: true,
            },
        ),
        0x1F => Some(
            Spec {
                opcode_byte: 0x1F,
                opcode: Opcode::SLO,
                addr_mode: AddrMode::AbsoluteX,
                base_cycles: 7,
                inc_cycle_on_page_crossed: false,
                is_official: false,
            },
        ),
        0x20 => Some(
            Spec {
                opcode_byte: 0x20,
                opcode: Opcode::JSR,
                addr_mode: AddrMode::Absolute,
                base_cycles: 6,
                inc_cycle_on_page_crossed: false,
                is_official: true,
            },
        ),
        0x21 => Some(
            Spec {
                opcode_byte: 0x21,
                opcode: Opcode::AND,
                addr_mode: AddrMode::IndexedIndirect,
                base_cycles: 6,
                inc_cycle_on_page_crossed: false,
                is_official: true,
            },
        ),
        0x23 => Some(
            Spec {
                opcode_byte: 0x23,
                opcode: Opcode::RLA,
                addr_mode: AddrMode::IndexedIndirect,
                base_cycles: 8,
                inc_cycle_on_page_crossed: false,
                is_official: false,
            },
        ),
        0x24 => Some(
            Spec {
                opcode_byte: 0x24,
                opcode: Opcode::BIT,
                addr_mode: AddrMode::ZeroPage,
                base_cycles: 3,
                inc_cycle_on_page_crossed: false,
                is_official: true,
            },
        ),
        0x25 => Some(
            Spec {
                opcode_byte: 0x25,
                opcode: Opcode::AND,
                addr_mode: AddrMode::ZeroPage,
                base_cycles: 3,
                inc_cycle_on_page_crossed: false,
                is_official: true,
            },
        ),
        0x26 => Some(
            Spec {
                opcode_byte: 0x26,
                opcode: Opcode::ROL,
                addr_mode: AddrMode::ZeroPage,
                base_cycles: 5,
                inc_cycle_on_page_crossed: false,
                is_official: true,
            },
        ),
        0x27 => Some(
            Spec {
                opcode_byte: 0x27,
                opcode: Opcode::RLA,
                addr_mode: AddrMode::ZeroPage,
                base_cycles: 5,
                inc_cycle_on_page_crossed: false,
                is_official: false,
            },
        ),
        0x28 => Some(
            Spec {
                opcode_byte: 0x28,
                opcode: Opcode::PLP,
                addr_mode: AddrMode::Implicit,
                base_cycles: 4,
                inc_cycle_on_page_crossed: false,
                is_official: true,
            },
        ),
        0x29 => Some(
            Spec {
                opcode_byte: 0x29,
                opcode: Opcode::AND,
                addr_mode: AddrMode::Immediate,
                base_cycles: 2,
                inc_cycle_on_page_crossed: false,
                is_official: true,
            },
        ),
        0x2A => Some(
            Spec {
                opcode_byte: 0x2A,
                opcode: Opcode::ROL,
                addr_mode: AddrMode::Implicit,
                base_cycles: 2,
                inc_cycle_on_page_crossed: false,
                is_official: true,
            },
        ),
        0x2C => Some(
            Spec {
                opcode_byte: 0x2C,
                opcode: Opcode::BIT,
                addr_mode: AddrMode::Absolute,
                base_cycles: 4,
                inc_cycle_on_page_crossed: false,
                is_official: true,
            },
        ),
        0x2D => Some(
            Spec {
                opcode_byte: 0x2D,
                opcode: Opcode::AND,
                addr_mode: AddrMode::Absolute,
                base_cycles: 4,
                inc_cycle_on_page_crossed: false,
                is_official: true,
            },
        ),
        0x2E => Some(
            Spec {
                opcode_byte: 0x2E,
                opcode: Opcode::ROL,
                addr_mode: AddrMode::Absolute,
                base_cycles: 6,
                inc_cycle_on_page_crossed: false,
                is_official: true,
            },
        ),
        0x2F => Some(
            Spec {
                opcode_byte: 0x2F,
                opcode: Opcode::RLA,
                addr_mode: AddrMode::Absolute,
                base_cycles: 6,
                inc_cycle_on_page_crossed: false,
                is_official: false,
            },
        ),
        0x30 => Some(
            Spec {
                opcode_byte: 0x30,
                opcode: Opcode::BMI,
                addr_mode: AddrMode::Relative,
                base_cycles: 2,
                inc_cycle_on_page_crossed: true,
                is_official: true,
            },
        ),
        0x31 => Some(
            Spec {
                opcode_byte: 0x31,
                opcode: Opcode::AND,
                addr_mode: AddrMode::IndirectIndexed,
                base_cycles: 5,
                inc_cycle_on_page_crossed: true,
                is_official: true,
            },
        ),
        0x33 => Some(
            Spec {
                opcode_byte: 0x33,
                opcode: Opcode::RLA,
                addr_mode: AddrMode::IndirectIndexed,
                base_cycles: 8,
                inc_cycle_on_page_crossed: false,
                is_official: false,
            },
        ),
        0x34 => Some(
            Spec {
                opcode_byte: 0x34,
                opcode: Opcode::NOP,
                addr_mode: AddrMode::ZeroPageX,
                base_cycles: 4,
                inc_cycle_on_page_crossed: false,
                is_official: false,
            },
        ),
        0x35 => Some(
            Spec {
                opcode_byte: 0x35,
                opcode: Opcode::AND,
                addr_mode: AddrMode::ZeroPageX,
                base_cycles: 4,
                inc_cycle_on_page_crossed: false,
                is_official: true,
            },
        ),
        0x36 => Some(
            Spec {
                opcode_byte: 0x36,
                opcode: Opcode::ROL,
                addr_mode: AddrMode::ZeroPageX,
                base_cycles: 6,
                inc_cycle_on_page_crossed: false,
                is_official: true,
            },
        ),
        0x37 => Some(
            Spec {
                opcode_byte: 0x37,
                opcode: Opcode::RLA,
                addr_mode: AddrMode::ZeroPageX,
                base_cycles: 6,
                inc_cycle_on_page_crossed: false,
                is_official: false,
            },
        ),
        0x38 => Some(
            Spec {
                opcode_byte: 0x38,
                opcode: Opcode::SEC,
                addr_mode: AddrMode::Implicit,
                base_cycles: 2,
                inc_cycle_on_page_crossed: false,
                is_official: true,
            },
        ),
        0x39 => Some(
            Spec {
                opcode_byte: 0x39,
                opcode: Opcode::AND,
                addr_mode: AddrMode::AbsoluteY,
                base_cycles: 4,
                inc_cycle_on_page_crossed: true,
                is_official: true,
            },
        ),
        0x3A => Some(
            Spec {
                opcode_byte: 0x3A,
                opcode: Opcode::NOP,
                addr_mode: AddrMode::Implicit,
                base_cycles: 2,
                inc_cycle_on_page_crossed: false,
                is_official: false,
            },
        ),
        0x3B => Some(
            Spec {
                opcode_byte: 0x3B,
                opcode: Opcode::RLA,
                addr_mode: AddrMode::AbsoluteY,
                base_cycles: 7,
                inc_cycle_on_page_crossed: false,
                is_official: false,
            },
        ),
        0x3C => Some(
            Spec {
                opcode_byte: 0x3C,
                opcode: Opcode::NOP,
                addr_mode: AddrMode::AbsoluteX,
                base_cycles: 4,
                inc_cycle_on_page_crossed: true,
                is_official: false,
            },
        ),
        0x3D => Some(
            Spec {
                opcode_byte: 0x3D,
                opcode: Opcode::AND,
                addr_mode: AddrMode::AbsoluteX,
                base_cycles: 4,
                inc_cycle_on_page_crossed: true,
                is_official: true,
            },
        ),
        0x3E => Some(
            Spec {
                opcode_byte: 0x3E,
                opcode: Opcode::ROL,
                addr_mode: AddrMode::AbsoluteX,
                base_cycles: 7,
                inc_cycle_on_page_crossed: false,
                is_official: true,
            },
        ),
        0x3F => Some(
            Spec {
                opcode_byte: 0x3F,
                opcode: Opcode::RLA,
                addr_mode: AddrMode::AbsoluteX,
                base_cycles: 7,
                inc_cycle_on_page_crossed: false,
                is_official: false,
            },
        ),
        0x40 => Some(
            Spec {
                opcode_byte: 0x40,
                opcode: Opcode::RTI,
                addr_mode: AddrMode::Implicit,
                base_cycles: 6,
                inc_cycle_on_page_crossed: false,
                is_official: true,
            },
        ),
        0x41 => Some(
            Spec {
                opcode_byte: 0x41,
                opcode: Opcode::EOR,
                addr_mode: AddrMode::IndexedIndirect,
                base_cycles: 6,
                inc_cycle_on_page_crossed: false,
                is_official: true,
            },
        ),
        0x43 => Some(
            Spec {
                opcode_byte: 0x43,
                opcode: Opcode::SRE,
                addr_mode: AddrMode::IndexedIndirect,
                base_cycles: 8,
                inc_cycle_on_page_crossed: false,
                is_official: false,
            },
        ),
        0x44 => Some(
            Spec {
                opcode_byte: 0x44,
                opcode: Opcode::NOP,
                addr_mode: AddrMode::ZeroPage,
                base_cycles: 3,
                inc_cycle_on_page_crossed: false,
                is_official: false,
            },
        ),
        0x45 => Some(
            Spec {
                opcode_byte: 0x45,
                opcode: Opcode::EOR,
                addr_mode: AddrMode::ZeroPage,
                base_cycles: 3,
                inc_cycle_on_page_crossed: false,
                is_official: true,
            },
        ),
        0x46 => Some(
            Spec {
                opcode_byte: 0x46,
                opcode: Opcode::LSR,
                addr_mode: AddrMode::ZeroPage,
                base_cycles: 5,
                inc_cycle_on_page_crossed: false,
                is_official: true,
            },
        ),
        0x47 => Some(
            Spec {
                opcode_byte: 0x47,
                opcode: Opcode::SRE,
                addr_mode: AddrMode::ZeroPage,
                base_cycles: 5,
                inc_cycle_on_page_crossed: false,
                is_official: false,
            },
        ),
        0x48 => Some(
            Spec {
                opcode_byte: 0x48,
                opcode: Opcode::PHA,
                addr_mode: AddrMode::Implicit,
                base_cycles: 3,
                inc_cycle_on_page_crossed: false,
                is_official: true,
            },
        ),
        0x49 => Some(
            Spec {
                opcode_byte: 0x49,
                opcode: Opcode::EOR,
                addr_mode: AddrMode::Immediate,
                base_cycles: 2,
                inc_cycle_on_page_crossed: false,
                is_official: true,
            },
        ),
        0x4A => Some(
            Spec {
                opcode_byte: 0x4A,
                opcode: Opcode::LSR,
                addr_mode: AddrMode::Implicit,
                base_cycles: 2,
                inc_cycle_on_page_crossed: false,
                is_official: true,
            },
        ),
        0x4C => Some(
            Spec {
                opcode_byte: 0x4C,
                opcode: Opcode::JMP,
                addr_mode: AddrMode::Absolute,
                base_cycles: 3,
                inc_cycle_on_page_crossed: false,
                is_official: true,
            },
        ),
        0x4D => Some(
            Spec {
                opcode_byte: 0x4D,
                opcode: Opcode::EOR,
                addr_mode: AddrMode::Absolute,
                base_cycles: 4,
                inc_cycle_on_page_crossed: false,
                is_official: true,
            },
        ),
        0x4E => Some(
            Spec {
                opcode_byte: 0x4E,
                opcode: Opcode::LSR,
                addr_mode: AddrMode::Absolute,
                base_cycles: 6,
                inc_cycle_on_page_crossed: false,
                is_official: true,
            },
        ),
        0x4F => Some(
            Spec {
                opcode_byte: 0x4F,
                opcode: Opcode::SRE,
                addr_mode: AddrMode::Absolute,
                base_cycles: 6,
                inc_cycle_on_page_crossed: false,
                is_official: false,
            },
        ),
        0x50 => Some(
            Spec {
                opcode_byte: 0x50,
                opcode: Opcode::BVC,
                addr_mode: AddrMode::Relative,
                base_cycles: 2,
                inc_cycle_on_page_crossed: true,
                is_official: true,
            },
        ),
        0x51 => Some(
            Spec {
                opcode_byte: 0x51,
                opcode: Opcode::EOR,
                addr_mode: AddrMode::IndirectIndexed,
                base_cycles: 5,
                inc_cycle_on_page_crossed: true,
                is_official: true,
            },
        ),
        0x53 => Some(
            Spec {
                opcode_byte: 0x53,
                opcode: Opcode::SRE,
                addr_mode: AddrMode::IndirectIndexed,
                base_cycles: 8,
                inc_cycle_on_page_crossed: false,
                is_official: false,
            },
        ),
        0x54 => Some(
            Spec {
                opcode_byte: 0x54,
                opcode: Opcode::NOP,
                addr_mode: AddrMode::ZeroPageX,
                base_cycles: 4,
                inc_cycle_on_page_crossed: false,
                is_official: false,
            },
        ),
        0x55 => Some(
            Spec {
                opcode_byte: 0x55,
                opcode: Opcode::EOR,
                addr_mode: AddrMode::ZeroPageX,
                base_cycles: 4,
                inc_cycle_on_page_crossed: false,
                is_official: true,
            },
        ),
        0x56 => Some(
            Spec {
                opcode_byte: 0x56,
                opcode: Opcode::LSR,
                addr_mode: AddrMode::ZeroPageX,
                base_cycles: 6,
                inc_cycle_on_page_crossed: false,
                is_official: true,
            },
        ),
        0x57 => Some(
            Spec {
                opcode_byte: 0x57,
                opcode: Opcode::SRE,
                addr_mode: AddrMode::ZeroPageX,
                base_cycles: 6,
                inc_cycle_on_page_crossed: false,
                is_official: false,
            },
        ),
        0x58 => Some(
            Spec {
                opcode_byte: 0x58,
                opcode: Opcode::CLI,
                addr_mode: AddrMode::Implicit,
                base_cycles: 2,
                inc_cycle_on_page_crossed: false,
                is_official: true,
            },
        ),
        0x59 => Some(
            Spec {
                opcode_byte: 0x59,
                opcode: Opcode::EOR,
                addr_mode: AddrMode::AbsoluteY,
                base_cycles: 4,
                inc_cycle_on_page_crossed: true,
                is_official: true,
            },
        ),
        0x5A => Some(
            Spec {
                opcode_byte: 0x5A,
                opcode: Opcode::NOP,
                addr_mode: AddrMode::Implicit,
                base_cycles: 2,
                inc_cycle_on_page_crossed: false,
                is_official: false,
            },
        ),
        0x5B => Some(
            Spec {
                opcode_byte: 0x5B,
                opcode: Opcode::SRE,
                addr_mode: AddrMode::AbsoluteY,
                base_cycles: 7,
                inc_cycle_on_page_crossed: false,
                is_official: false,
            },
        ),
        0x5C => Some(
            Spec {
                opcode_byte: 0x5C,
                opcode: Opcode::NOP,
                addr_mode: AddrMode::AbsoluteX,
                base_cycles: 4,
                inc_cycle_on_page_crossed: true,
                is_official: false,
            },
        ),
        0x5D => Some(
            Spec {
                opcode_byte: 0x5D,
                opcode: Opcode::EOR,
                addr_mode: AddrMode::AbsoluteX,
                base_cycles: 4,
                inc_cycle_on_page_crossed: true,
                is_official: true,
            },
        ),
        0x5E => Some(
            Spec {
                opcode_byte: 0x5E,
                opcode: Opcode::LSR,
                addr_mode: AddrMode::AbsoluteX,
                base_cycles: 7,
                inc_cycle_on_page_crossed: false,
                is_official: true,
            },
        ),
        0x5F => Some(
            Spec {
                opcode_byte: 0x5F,
                opcode: Opcode::SRE,
                addr_mode: AddrMode::AbsoluteX,
                base_cycles: 7,
                inc_cycle_on_page_crossed: false,
                is_official: false,
            },
        ),
        0x60 => Some(
            Spec {
                opcode_byte: 0x60,
                opcode: Opcode::RTS,
                addr_mode: AddrMode::Implicit,
                base_cycles: 6,
                inc_cycle_on_page_crossed: false,
                is_official: true,
            },
        ),
        0x61 => Some(
            Spec {
                opcode_byte: 0x61,
                opcode: Opcode::ADC,
                addr_mode: AddrMode::IndexedIndirect,
                base_cycles: 6,
                inc_cycle_on_page_crossed: false,
                is_official: true,
            },
        ),
        0x63 => Some(
            Spec {
                opcode_byte: 0x63,
                opcode: Opcode::RRA,
                addr_mode: AddrMode::IndexedIndirect,
                base_cycles: 8,
                inc_cycle_on_page_crossed: false,
                is_official: false,
            },
        ),
        0x64 => Some(
            Spec {
                opcode_byte: 0x64,
                opcode: Opcode::NOP,
                addr_mode: AddrMode::ZeroPage,
                base_cycles: 3,
                inc_cycle_on_page_crossed: false,
                is_official: false,
            },
        ),
        0x65 => Some(
            Spec {
                opcode_byte: 0x65,
                opcode: Opcode::ADC,
                addr_mode: AddrMode::ZeroPage,
                base_cycles: 3,
                inc_cycle_on_page_crossed: false,
                is_official: true,
            },
        ),
        0x66 => Some(
            Spec {
                opcode_byte: 0x66,
                opcode: Opcode::ROR,
                addr_mode: AddrMode::ZeroPage,
                base_cycles: 5,
                inc_cycle_on_page_crossed: false,
                is_official: true,
            },
        ),
        0x67 => Some(
            Spec {
                opcode_byte: 0x67,
                opcode: Opcode::RRA,
                addr_mode: AddrMode::ZeroPage,
                base_cycles: 5,
                inc_cycle_on_page_crossed: false,
                is_official: false,
            },
        ),
        0x68 => Some(
            Spec {
                opcode_byte: 0x68,
                opcode: Opcode::PLA,
                addr_mode: AddrMode::Implicit,
                base_cycles: 4,
                inc_cycle_on_page_crossed: false,
                is_official: true,
            },
        ),
        0x69 => Some(
            Spec {
                opcode_byte: 0x69,
                opcode: Opcode::ADC,
                addr_mode: AddrMode::Immediate,
                base_cycles: 2,
                inc_cycle_on_page_crossed: false,
                is_official: true,
            },
        ),
        0x6A => Some(
            Spec {
                opcode_byte: 0x6A,
                opcode: Opcode::ROR,
                addr_mode: AddrMode::Implicit,
                base_cycles: 2,
                inc_cycle_on_page_crossed: false,
                is_official: true,
            },
        ),
        0x6C => Some(
            Spec {
                opcode_byte: 0x6C,
                opcode: Opcode::JMP,
                addr_mode: AddrMode::Indirect,
                base_cycles: 5,
                inc_cycle_on_page_crossed: false,
                is_official: true,
            },
        ),
        0x6D => Some(
            Spec {
                opcode_byte: 0x6D,
                opcode: Opcode::ADC,
                addr_mode: AddrMode::Absolute,
                base_cycles: 4,
                inc_cycle_on_page_crossed: false,
                is_official: true,
            },
        ),
        0x6E => Some(
            Spec {
                opcode_byte: 0x6E,
                opcode: Opcode::ROR,
                addr_mode: AddrMode::Absolute,
                base_cycles: 6,
                inc_cycle_on_page_crossed: false,
                is_official: true,
            },
        ),
        0x6F => Some(
            Spec {
                opcode_byte: 0x6F,
                opcode: Opcode::RRA,
                addr_mode: AddrMode::Absolute,
                base_cycles: 6,
                inc_cycle_on_page_crossed: false,
                is_official: false,
            },
        ),
        0x70 => Some(
            Spec {
                opcode_byte: 0x70,
                opcode: Opcode::BVS,
                addr_mode: AddrMode::Relative,
                base_cycles: 2,
                inc_cycle_on_page_crossed: true,
                is_official: true,
            },
        ),
        0x71 => Some(
            Spec {
                opcode_byte: 0x71,
                opcode: Opcode::ADC,
                addr_mode: AddrMode::IndirectIndexed,
                base_cycles: 5,
                inc_cycle_on_page_crossed: true,
                is_official: true,
            },
        ),
        0x73 => Some(
            Spec {
                opcode_byte: 0x73,
                opcode: Opcode::RRA,
                addr_mode: AddrMode::IndirectIndexed,
                base_cycles: 8,
                inc_cycle_on_page_crossed: false,
                is_official: false,
            },
        ),
        0x74 => Some(
            Spec {
                opcode_byte: 0x74,
                opcode: Opcode::NOP,
                addr_mode: AddrMode::ZeroPageX,
                base_cycles: 4,
                inc_cycle_on_page_crossed: false,
                is_official: false,
            },
        ),
        0x75 => Some(
            Spec {
                opcode_byte: 0x75,
                opcode: Opcode::ADC,
                addr_mode: AddrMode::ZeroPageX,
                base_cycles: 4,
                inc_cycle_on_page_crossed: false,
                is_official: true,
            },
        ),
        0x76 => Some(
            Spec {
                opcode_byte: 0x76,
                opcode: Opcode::ROR,
                addr_mode: AddrMode::ZeroPageX,
                base_cycles: 6,
                inc_cycle_on_page_crossed: false,
                is_official: true,
            },
        ),
        0x77 => Some(
            Spec {
                opcode_byte: 0x77,
                opcode: Opcode::RRA,
                addr_mode: AddrMode::ZeroPageX,
                base_cycles: 6,
                inc_cycle_on_page_crossed: false,
                is_official: false,
            },
        ),
        0x78 => Some(
            Spec {
                opcode_byte: 0x78,
                opcode: Opcode::SEI,
                addr_mode: AddrMode::Implicit,
                base_cycles: 2,
                inc_cycle_on_page_crossed: false,
                is_official: true,
            },
        ),
        0x79 => Some(
            Spec {
                opcode_byte: 0x79,
                opcode: Opcode::ADC,
                addr_mode: AddrMode::AbsoluteY,
                base_cycles: 4,
                inc_cycle_on_page_crossed: true,
                is_official: true,
            },
        ),
        0x7A => Some(
            Spec {
                opcode_byte: 0x7A,
                opcode: Opcode::NOP,
                addr_mode: AddrMode::Implicit,
                base_cycles: 2,
                inc_cycle_on_page_crossed: false,
                is_official: false,
            },
        ),
        0x7B => Some(
            Spec {
                opcode_byte: 0x7B,
                opcode: Opcode::RRA,
                addr_mode: AddrMode::AbsoluteY,
                base_cycles: 7,
                inc_cycle_on_page_crossed: false,
                is_official: false,
            },
        ),
        0x7C => Some(
            Spec {
                opcode_byte: 0x7C,
                opcode: Opcode::NOP,
                addr_mode: AddrMode::AbsoluteX,
                base_cycles: 4,
                inc_cycle_on_page_crossed: true,
                is_official: false,
            },
        ),
        0x7D => Some(
            Spec {
                opcode_byte: 0x7D,
                opcode: Opcode::ADC,
                addr_mode: AddrMode::AbsoluteX,
                base_cycles: 4,
                inc_cycle_on_page_crossed: true,
                is_official: true,
            },
        ),
        0x7E => Some(
            Spec {
                opcode_byte: 0x7E,
                opcode: Opcode::ROR,
                addr_mode: AddrMode::AbsoluteX,
                base_cycles: 7,
                inc_cycle_on_page_crossed: false,
                is_official: true,
            },
        ),
        0x7F => Some(
            Spec {
                opcode_byte: 0x7F,
                opcode: Opcode::RRA,
                addr_mode: AddrMode::AbsoluteX,
                base_cycles: 7,
                inc_cycle_on_page_crossed: false,
                is_official: false,
            },
        ),
        0x80 => Some(
            Spec {
                opcode_byte: 0x80,
                opcode: Opcode::NOP,
                addr_mode: AddrMode::Immediate,
                base_cycles: 2,
                inc_cycle_on_page_crossed: false,
                is_official: false,
            },
        ),
        0x81 => Some(
            Spec {
                opcode_byte: 0x81,
                opcode: Opcode::STA,
                addr_mode: AddrMode::IndexedIndirect,
                base_cycles: 6,
                inc_cycle_on_page_crossed: false,
                is_official: true,
            },
        ),
        0x82 => Some(
            Spec {
                opcode_byte: 0x82,
                opcode: Opcode::NOP,
                addr_mode: AddrMode::Immediate,
                base_cycles: 2,
                inc_cycle_on_page_crossed: false,
                is_official: false,
            },
        ),
        0x83 => Some(
            Spec {
                opcode_byte: 0x83,
                opcode: Opcode::SAX,
                addr_mode: AddrMode::IndexedIndirect,
                base_cycles: 6,
                inc_cycle_on_page_crossed: false,
                is_official: false,
            },
        ),
        0x84 => Some(
            Spec {
                opcode_byte: 0x84,
                opcode: Opcode::STY,
                addr_mode: AddrMode::ZeroPage,
                base_cycles: 3,
                inc_cycle_on_page_crossed: false,
                is_official: true,
            },
        ),
        0x85 => Some(
            Spec {
                opcode_byte: 0x85,
                opcode: Opcode::STA,
                addr_mode: AddrMode::ZeroPage,
                base_cycles: 3,
                inc_cycle_on_page_crossed: false,
                is_official: true,
            },
        ),
        0x86 => Some(
            Spec {
                opcode_byte: 0x86,
                opcode: Opcode::STX,
                addr_mode: AddrMode::ZeroPage,
                base_cycles: 3,
                inc_cycle_on_page_crossed: false,
                is_official: true,
            },
        ),
        0x87 => Some(
            Spec {
                opcode_byte: 0x87,
                opcode: Opcode::SAX,
                addr_mode: AddrMode::ZeroPage,
                base_cycles: 3,
                inc_cycle_on_page_crossed: false,
                is_official: false,
            },
        ),
        0x88 => Some(
            Spec {
                opcode_byte: 0x88,
                opcode: Opcode::DEY,
                addr_mode: AddrMode::Implicit,
                base_cycles: 2,
                inc_cycle_on_page_crossed: false,
                is_official: true,
            },
        ),
        0x89 => Some(
            Spec {
                opcode_byte: 0x89,
                opcode: Opcode::NOP,
                addr_mode: AddrMode::Immediate,
                base_cycles: 2,
                inc_cycle_on_page_crossed: false,
                is_official: false,
            },
        ),
        0x8A => Some(
            Spec {
                opcode_byte: 0x8A,
                opcode: Opcode::TXA,
                addr_mode: AddrMode::Implicit,
                base_cycles: 2,
                inc_cycle_on_page_crossed: false,
                is_official: true,
            },
        ),
        0x8C => Some(
            Spec {
                opcode_byte: 0x8C,
                opcode: Opcode::STY,
                addr_mode: AddrMode::Absolute,
                base_cycles: 4,
                inc_cycle_on_page_crossed: false,
                is_official: true,
            },
        ),
        0x8D => Some(
            Spec {
                opcode_byte: 0x8D,
                opcode: Opcode::STA,
                addr_mode: AddrMode::Absolute,
                base_cycles: 4,
                inc_cycle_on_page_crossed: false,
                is_official: true,
            },
        ),
        0x8E => Some(
            Spec {
                opcode_byte: 0x8E,
                opcode: Opcode::STX,
                addr_mode: AddrMode::Absolute,
                base_cycles: 4,
                inc_cycle_on_page_crossed: false,
                is_official: true,
            },
        ),
        0x8F => Some(
            Spec {
                opcode_byte: 0x8F,
                opcode: Opcode::SAX,
                addr_mode: AddrMode::Absolute,
                base_cycles: 4,
                inc_cycle_on_page_crossed: false,
                is_official: false,
            },
        ),
        0x90 => Some(
            Spec {
                opcode_byte: 0x90,
                opcode: Opcode::BCC,
                addr_mode: AddrMode::Relative,
                base_cycles: 2,
                inc_cycle_on_page_crossed: true,
                is_official: true,
            },
        ),
        0x91 => Some(
            Spec {
                opcode_byte: 0x91,
                opcode: Opcode::STA,
                addr_mode: AddrMode::IndirectIndexed,
                base_cycles: 6,
                inc_cycle_on_page_crossed: false,
                is_official: true,
            },
        ),
        0x94 => Some(
            Spec {
                opcode_byte: 0x94,
                opcode: Opcode::STY,
                addr_mode: AddrMode::ZeroPageX,
                base_cycles: 4,
                inc_cycle_on_page_crossed: false,
                is_official: true,
            },
        ),
        0x95 => Some(
            Spec {
                opcode_byte: 0x95,
                opcode: Opcode::STA,
                addr_mode: AddrMode::ZeroPageX,
                base_cycles: 4,
                inc_cycle_on_page_crossed: false,
                is_official: true,
            },
        ),
        0x96 => Some(
            Spec {
                opcode_byte: 0x96,
                opcode: Opcode::STX,
                addr_mode: AddrMode::ZeroPageY,
                base_cycles: 4,
                inc_cycle_on_page_crossed: false,
                is_official: true,
            },
        ),
        0x97 => Some(
            Spec {
                opcode_byte: 0x97,
                opcode: Opcode::SAX,
                addr_mode: AddrMode::ZeroPageY,
                base_cycles: 4,
                inc_cycle_on_page_crossed: false,
                is_official: false,
            },
        ),
        0x98 => Some(
            Spec {
                opcode_byte: 0x98,
                opcode: Opcode::TYA,
                addr_mode: AddrMode::Implicit,
                base_cycles: 2,
                inc_cycle_on_page_crossed: false,
                is_official: true,
            },
        ),
        0x99 => Some(
            Spec {
                opcode_byte: 0x99,
                opcode: Opcode::STA,
                addr_mode: AddrMode::AbsoluteY,
                base_cycles: 5,
                inc_cycle_on_page_crossed: false,
                is_official: true,
            },
        ),
        0x9A => Some(
            Spec {
                opcode_byte: 0x9A,
                opcode: Opcode::TXS,
                addr_mode: AddrMode::Implicit,
                base_cycles: 2,
                inc_cycle_on_page_crossed: false,
                is_official: true,
            },
        ),
        0x9D => Some(
            Spec {
                opcode_byte: 0x9D,
                opcode: Opcode::STA,
                addr_mode: AddrMode::AbsoluteX,
                base_cycles: 5,
                inc_cycle_on_page_crossed: false,
                is_official: true,
            },
        ),
        0xA0 => Some(
            Spec {
                opcode_byte: 0xA0,
                opcode: Opcode::LDY,
                addr_mode: AddrMode::Immediate,
                base_cycles: 2,
                inc_cycle_on_page_crossed: false,
                is_official: true,
            },
        ),
        0xA1 => Some(
            Spec {
                opcode_byte: 0xA1,
                opcode: Opcode::LDA,
                addr_mode: AddrMode::IndexedIndirect,
                base_cycles: 6,
                inc_cycle_on_page_crossed: false,
                is_official: true,
            },
        ),
        0xA2 => Some(
            Spec {
                opcode_byte: 0xA2,
                opcode: Opcode::LDX,
                addr_mode: AddrMode::Immediate,
                base_cycles: 2,
                inc_cycle_on_page_crossed: false,
                is_official: true,
            },
        ),
        0xA3 => Some(
            Spec {
                opcode_byte: 0xA3,
                opcode: Opcode::LAX,
                addr_mode: AddrMode::IndexedIndirect,
                base_cycles: 6,
                inc_cycle_on_page_crossed: false,
                is_official: false,
            },
        ),
        0xA4 => Some(
            Spec {
                opcode_byte: 0xA4,
                opcode: Opcode::LDY,
                addr_mode: AddrMode::ZeroPage,
                base_cycles: 3,
                inc_cycle_on_page_crossed: false,
                is_official: true,
            },
        ),
        0xA5 => Some(
            Spec {
                opcode_byte: 0xA5,
                opcode: Opcode::LDA,
                addr_mode: AddrMode::ZeroPage,
                base_cycles: 3,
                inc_cycle_on_page_crossed: false,
                is_official: true,
            },
        ),
        0xA6 => Some(
            Spec {
                opcode_byte: 0xA6,
                opcode: Opcode::LDX,
                addr_mode: AddrMode::ZeroPage,
                base_cycles: 3,
                inc_cycle_on_page_crossed: false,
                is_official: true,
            },
        ),
        0xA7 => Some(
            Spec {
                opcode_byte: 0xA7,
                opcode: Opcode::LAX,
                addr_mode: AddrMode::ZeroPage,
                base_cycles: 3,
                inc_cycle_on_page_crossed: false,
                is_official: false,
            },
        ),
        0xA8 => Some(
            Spec {
                opcode_byte: 0xA8,
                opcode: Opcode::TAY,
                addr_mode: AddrMode::Implicit,
                base_cycles: 2,
                inc_cycle_on_page_crossed: false,
                is_official: true,
            },
        ),
        0xA9 => Some(
            Spec {
                opcode_byte: 0xA9,
                opcode: Opcode::LDA,
                addr_mode: AddrMode::Immediate,
                base_cycles: 2,
                inc_cycle_on_page_crossed: false,
                is_official: true,
            },
        ),
        0xAA => Some(
            Spec {
                opcode_byte: 0xAA,
                opcode: Opcode::TAX,
                addr_mode: AddrMode::Implicit,
                base_cycles: 2,
                inc_cycle_on_page_crossed: false,
                is_official: true,
            },
        ),
        0xAC => Some(
            Spec {
                opcode_byte: 0xAC,
                opcode: Opcode::LDY,
                addr_mode: AddrMode::Absolute,
                base_cycles: 4,
                inc_cycle_on_page_crossed: false,
                is_official: true,
            },
        ),
        0xAD => Some(
            Spec {
                opcode_byte: 0xAD,
                opcode: Opcode::LDA,
                addr_mode: AddrMode::Absolute,
                base_cycles: 4,
                inc_cycle_on_page_crossed: false,
                is_official: true,
            },
        ),
        0xAE => Some(
            Spec {
                opcode_byte: 0xAE,
                opcode: Opcode::LDX,
                addr_mode: AddrMode::Absolute,
                base_cycles: 4,
                inc_cycle_on_page_crossed: false,
                is_official: true,
            },
        ),
        0xAF => Some(
            Spec {
                opcode_byte: 0xAF,
                opcode: Opcode::LAX,
                addr_mode: AddrMode::Absolute,
                base_cycles: 4,
                inc_cycle_on_page_crossed: false,
                is_official: false,
            },
        ),
        0xB0 => Some(
            Spec {
                opcode_byte: 0xB0,
                opcode: Opcode::BCS,
                addr_mode: AddrMode::Relative,
                base_cycles: 2,
                inc_cycle_on_page_crossed: true,
                is_official: true,
            },
        ),
        0xB1 => Some(
            Spec {
                opcode_byte: 0xB1,
                opcode: Opcode::LDA,
                addr_mode: AddrMode::IndirectIndexed,
                base_cycles: 5,
                inc_cycle_on_page_crossed: true,
                is_official: true,
            },
        ),
        0xB3 => Some(
            Spec {
                opcode_byte: 0xB3,
                opcode: Opcode::LAX,
                addr_mode: AddrMode::IndirectIndexed,
                base_cycles: 5,
                inc_cycle_on_page_crossed: true,
                is_official: false,
            },
        ),
        0xB4 => Some(
            Spec {
                opcode_byte: 0xB4,
                opcode: Opcode::LDY,
                addr_mode: AddrMode::ZeroPageX,
                base_cycles: 4,
                inc_cycle_on_page_crossed: false,
                is_official: true,
            },
        ),
        0xB5 => Some(
            Spec {
                opcode_byte: 0xB5,
                opcode: Opcode::LDA,
                addr_mode: AddrMode::ZeroPageX,
                base_cycles: 4,
                inc_cycle_on_page_crossed: false,
                is_official: true,
            },
        ),
        0xB6 => Some(
            Spec {
                opcode_byte: 0xB6,
                opcode: Opcode::LDX,
                addr_mode: AddrMode::ZeroPageY,
                base_cycles: 4,
                inc_cycle_on_page_crossed: false,
                is_official: true,
            },
        ),
        0xB7 => Some(
            Spec {
                opcode_byte: 0xB7,
                opcode: Opcode::LAX,
                addr_mode: AddrMode::ZeroPageY,
                base_cycles: 4,
                inc_cycle_on_page_crossed: false,
                is_official: false,
            },
        ),
        0xB8 => Some(
            Spec {
                opcode_byte: 0xB8,
                opcode: Opcode::CLV,
                addr_mode: AddrMode::Implicit,
                base_cycles: 2,
                inc_cycle_on_page_crossed: false,
                is_official: true,
            },
        ),
        0xB9 => Some(
            Spec {
                opcode_byte: 0xB9,
                opcode: Opcode::LDA,
                addr_mode: AddrMode::AbsoluteY,
                base_cycles: 4,
                inc_cycle_on_page_crossed: true,
                is_official: true,
            },
        ),
        0xBA => Some(
            Spec {
                opcode_byte: 0xBA,
                opcode: Opcode::TSX,
                addr_mode: AddrMode::Implicit,
                base_cycles: 2,
                inc_cycle_on_page_crossed: false,
                is_official: true,
            },
        ),
        0xBC => Some(
            Spec {
                opcode_byte: 0xBC,
                opcode: Opcode::LDY,
                addr_mode: AddrMode::AbsoluteX,
                base_cycles: 4,
                inc_cycle_on_page_crossed: true,
                is_official: true,
            },
        ),
        0xBD => Some(
            Spec {
                opcode_byte: 0xBD,
                opcode: Opcode::LDA,
                addr_mode: AddrMode::AbsoluteX,
                base_cycles: 4,
                inc_cycle_on_page_crossed: true,
                is_official: true,
            },
        ),
        0xBE => Some(
            Spec {
                opcode_byte: 0xBE,
                opcode: Opcode::LDX,
                addr_mode: AddrMode::AbsoluteY,
                base_cycles: 4,
                inc_cycle_on_page_crossed: true,
                is_official: true,
            },
        ),
        0xBF => Some(
            Spec {
                opcode_byte: 0xBF,
                opcode: Opcode::LAX,
                addr_mode: AddrMode::AbsoluteY,
                base_cycles: 4,
                inc_cycle_on_page_crossed: true,
                is_official: false,
            },
        ),
        0xC0 => Some(
            Spec {
                opcode_byte: 0xC0,
                opcode: Opcode::CPY,
                addr_mode: AddrMode::Immediate,
                base_cycles: 2,
                inc_cycle_on_page_crossed: false,
                is_official: true,
            },
        ),
        0xC1 => Some(
            Spec {
                opcode_byte: 0xC1,
                opcode: Opcode::CMP,
                addr_mode: AddrMode::IndexedIndirect,
                base_cycles: 6,
                inc_cycle_on_page_crossed: false,
                is_official: true,
            },
        ),
        0xC2 => Some(
            Spec {
                opcode_byte: 0xC2,
                opcode: Opcode::NOP,
                addr_mode: AddrMode::Immediate,
                base_cycles: 2,
                inc_cycle_on_page_crossed: false,
                is_official: false,
            },
        ),
        0xC3 => Some(
            Spec {
                opcode_byte: 0xC3,
                opcode: Opcode::DCP,
                addr_mode: AddrMode::IndexedIndirect,
                base_cycles: 8,
                inc_cycle_on_page_crossed: false,
                is_official: false,
            },
        ),
        0xC4 => Some(
            Spec {
                opcode_byte: 0xC4,
                opcode: Opcode::CPY,
                addr_mode: AddrMode::ZeroPage,
                base_cycles: 3,
                inc_cycle_on_page_crossed: false,
                is_official: true,
            },
        ),
        0xC5 => Some(
            Spec {
                opcode_byte: 0xC5,
                opcode: Opcode::CMP,
                addr_mode: AddrMode::ZeroPage,
                base_cycles: 3,
                inc_cycle_on_page_crossed: false,
                is_official: true,
            },
        ),
        0xC6 => Some(
            Spec {
                opcode_byte: 0xC6,
                opcode: Opcode::DEC,
                addr_mode: AddrMode::ZeroPage,
                base_cycles: 5,
                inc_cycle_on_page_crossed: false,
                is_official: true,
            },
        ),
        0xC7 => Some(
            Spec {
                opcode_byte: 0xC7,
                opcode: Opcode::DCP,
                addr_mode: AddrMode::ZeroPage,
                base_cycles: 5,
                inc_cycle_on_page_crossed: false,
                is_official: false,
            },
        ),
        0xC8 => Some(
            Spec {
                opcode_byte: 0xC8,
                opcode: Opcode::INY,
                addr_mode: AddrMode::Implicit,
                base_cycles: 2,
                inc_cycle_on_page_crossed: false,
                is_official: true,
            },
        ),
        0xC9 => Some(
            Spec {
                opcode_byte: 0xC9,
                opcode: Opcode::CMP,
                addr_mode: AddrMode::Immediate,
                base_cycles: 2,
                inc_cycle_on_page_crossed: false,
                is_official: true,
            },
        ),
        0xCA => Some(
            Spec {
                opcode_byte: 0xCA,
                opcode: Opcode::DEX,
                addr_mode: AddrMode::Implicit,
                base_cycles: 2,
                inc_cycle_on_page_crossed: false,
                is_official: true,
            },
        ),
        0xCC => Some(
            Spec {
                opcode_byte: 0xCC,
                opcode: Opcode::CPY,
                addr_mode: AddrMode::Absolute,
                base_cycles: 4,
                inc_cycle_on_page_crossed: false,
                is_official: true,
            },
        ),
        0xCD => Some(
            Spec {
                opcode_byte: 0xCD,
                opcode: Opcode::CMP,
                addr_mode: AddrMode::Absolute,
                base_cycles: 4,
                inc_cycle_on_page_crossed: false,
                is_official: true,
            },
        ),
        0xCE => Some(
            Spec {
                opcode_byte: 0xCE,
                opcode: Opcode::DEC,
                addr_mode: AddrMode::Absolute,
                base_cycles: 6,
                inc_cycle_on_page_crossed: false,
                is_official: true,
            },
        ),
        0xCF => Some(
            Spec {
                opcode_byte: 0xCF,
                opcode: Opcode::DCP,
                addr_mode: AddrMode::Absolute,
                base_cycles: 6,
                inc_cycle_on_page_crossed: false,
                is_official: false,
            },
        ),
        0xD0 => Some(
            Spec {
                opcode_byte: 0xD0,
                opcode: Opcode::BNE,
                addr_mode: AddrMode::Relative,
                base_cycles: 2,
                inc_cycle_on_page_crossed: true,
                is_official: true,
            },
        ),
        0xD1 => Some(
            Spec {
                opcode_byte: 0xD1,
                opcode: Opcode::CMP,
                addr_mode: AddrMode::IndirectIndexed,
                base_cycles: 5,
                inc_cycle_on_page_crossed: true,
                is_official: true,
            },
        ),
        0xD3 => Some(
            Spec {
                opcode_byte: 0xD3,
                opcode: Opcode::DCP,
                addr_mode: AddrMode::IndirectIndexed,
                base_cycles: 8,
                inc_cycle_on_page_crossed: false,
                is_official: false,
            },
        ),
        0xD4 => Some(
            Spec {
                opcode_byte: 0xD4,
                opcode: Opcode::NOP,
                addr_mode: AddrMode::ZeroPageX,
                base_cycles: 4,
                inc_cycle_on_page_crossed: false,
                is_official: false,
            },
        ),
        0xD5 => Some(
            Spec {
                opcode_byte: 0xD5,
                opcode: Opcode::CMP,
                addr_mode: AddrMode::ZeroPageX,
                base_cycles: 4,
                inc_cycle_on_page_crossed: false,
                is_official: true,
            },
        ),
        0xD6 => Some(
            Spec {
                opcode_byte: 0xD6,
                opcode: Opcode::DEC,
                addr_mode: AddrMode::ZeroPageX,
                base_cycles: 6,
                inc_cycle_on_page_crossed: false,
                is_official: true,
            },
        ),
        0xD7 => Some(
            Spec {
                opcode_byte: 0xD7,
                opcode: Opcode::DCP,
                addr_mode: AddrMode::ZeroPageX,
                base_cycles: 6,
                inc_cycle_on_page_crossed: false,
                is_official: false,
            },
        ),
        0xD8 => Some(
            Spec {
                opcode_byte: 0xD8,
                opcode: Opcode::CLD,
                addr_mode: AddrMode::Implicit,
                base_cycles: 2,
                inc_cycle_on_page_crossed: false,
                is_official: true,
            },
        ),
        0xD9 => Some(
            Spec {
                opcode_byte: 0xD9,
                opcode: Opcode::CMP,
                addr_mode: AddrMode::AbsoluteY,
                base_cycles: 4,
                inc_cycle_on_page_crossed: true,
                is_official: true,
            },
        ),
        0xDA => Some(
            Spec {
                opcode_byte: 0xDA,
                opcode: Opcode::NOP,
                addr_mode: AddrMode::Implicit,
                base_cycles: 2,
                inc_cycle_on_page_crossed: false,
                is_official: false,
            },
        ),
        0xDB => Some(
            Spec {
                opcode_byte: 0xDB,
                opcode: Opcode::DCP,
                addr_mode: AddrMode::AbsoluteY,
                base_cycles: 7,
                inc_cycle_on_page_crossed: false,
                is_official: false,
            },
        ),
        0xDC => Some(
            Spec {
                opcode_byte: 0xDC,
                opcode: Opcode::NOP,
                addr_mode: AddrMode::AbsoluteX,
                base_cycles: 4,
                inc_cycle_on_page_crossed: true,
                is_official: false,
            },
        ),
        0xDD => Some(
            Spec {
                opcode_byte: 0xDD,
                opcode: Opcode::CMP,
                addr_mode: AddrMode::AbsoluteX,
                base_cycles: 4,
                inc_cycle_on_page_crossed: true,
                is_official: true,
            },
        ),
        0xDE => Some(
            Spec {
                opcode_byte: 0xDE,
                opcode: Opcode::DEC,
                addr_mode: AddrMode::AbsoluteX,
                base_cycles: 7,
                inc_cycle_on_page_crossed: false,
                is_official: true,
            },
        ),
        0xDF => Some(
            Spec {
                opcode_byte: 0xDF,
                opcode: Opcode::DCP,
                addr_mode: AddrMode::AbsoluteX,
                base_cycles: 7,
                inc_cycle_on_page_crossed: false,
                is_official: false,
            },
        ),
        0xE0 => Some(
            Spec {
                opcode_byte: 0xE0,
                opcode: Opcode::CPX,
                addr_mode: AddrMode::Immediate,
                base_cycles: 2,
                inc_cycle_on_page_crossed: false,
                is_official: true,
            },
        ),
        0xE1 => Some(
            Spec {
                opcode_byte: 0xE1,
                opcode: Opcode::SBC,
                addr_mode: AddrMode::IndexedIndirect,
                base_cycles: 6,
                inc_cycle_on_page_crossed: false,
                is_official: true,
            },
        ),
        0xE2 => Some(
            Spec {
                opcode_byte: 0xE2,
                opcode: Opcode::NOP,
                addr_mode: AddrMode::Immediate,
                base_cycles: 2,
                inc_cycle_on_page_crossed: false,
                is_official: false,
            },
        ),
        0xE3 => Some(
            Spec {
                opcode_byte: 0xE3,
                opcode: Opcode::ISB,
                addr_mode: AddrMode::IndexedIndirect,
                base_cycles: 8,
                inc_cycle_on_page_crossed: false,
                is_official: false,
            },
        ),
        0xE4 => Some(
            Spec {
                opcode_byte: 0xE4,
                opcode: Opcode::CPX,
                addr_mode: AddrMode::ZeroPage,
                base_cycles: 3,
                inc_cycle_on_page_crossed: false,
                is_official: true,
            },
        ),
        0xE5 => Some(
            Spec {
                opcode_byte: 0xE5,
                opcode: Opcode::SBC,
                addr_mode: AddrMode::ZeroPage,
                base_cycles: 3,
                inc_cycle_on_page_crossed: false,
                is_official: true,
            },
        ),
        0xE6 => Some(
            Spec {
                opcode_byte: 0xE6,
                opcode: Opcode::INC,
                addr_mode: AddrMode::ZeroPage,
                base_cycles: 5,
                inc_cycle_on_page_crossed: false,
                is_official: true,
            },
        ),
        0xE7 => Some(
            Spec {
                opcode_byte: 0xE7,
                opcode: Opcode::ISB,
                addr_mode: AddrMode::ZeroPage,
                base_cycles: 5,
                inc_cycle_on_page_crossed: false,
                is_official: false,
            },
        ),
        0xE8 => Some(
            Spec {
                opcode_byte: 0xE8,
                opcode: Opcode::INX,
                addr_mode: AddrMode::Implicit,
                base_cycles: 2,
                inc_cycle_on_page_crossed: false,
                is_official: true,
            },
        ),
        0xE9 => Some(
            Spec {
                opcode_byte: 0xE9,
                opcode: Opcode::SBC,
                addr_mode: AddrMode::Immediate,
                base_cycles: 2,
                inc_cycle_on_page_crossed: false,
                is_official: true,
            },
        ),
        0xEA => Some(
            Spec {
                opcode_byte: 0xEA,
                opcode: Opcode::NOP,
                addr_mode: AddrMode::Implicit,
                base_cycles: 2,
                inc_cycle_on_page_crossed: false,
                is_official: true,
            },
        ),
        0xEC => Some(
            Spec {
                opcode_byte: 0xEC,
                opcode: Opcode::CPX,
                addr_mode: AddrMode::Absolute,
                base_cycles: 4,
                inc_cycle_on_page_crossed: false,
                is_official: true,
            },
        ),
        0xED => Some(
            Spec {
                opcode_byte: 0xED,
                opcode: Opcode::SBC,
                addr_mode: AddrMode::Absolute,
                base_cycles: 4,
                inc_cycle_on_page_crossed: false,
                is_official: true,
            },
        ),
        0xEE => Some(
            Spec {
                opcode_byte: 0xEE,
                opcode: Opcode::INC,
                addr_mode: AddrMode::Absolute,
                base_cycles: 6,
                inc_cycle_on_page_crossed: false,
                is_official: true,
            },
        ),
        0xEF => Some(
            Spec {
                opcode_byte: 0xEF,
                opcode: Opcode::ISB,
                addr_mode: AddrMode::Absolute,
                base_cycles: 6,
                inc_cycle_on_page_crossed: false,
                is_official: false,
            },
        ),
        0xF0 => Some(
            Spec {
                opcode_byte: 0xF0,
                opcode: Opcode::BEQ,
                addr_mode: AddrMode::Relative,
                base_cycles: 2,
                inc_cycle_on_page_crossed: true,
                is_official: true,
            },
        ),
        0xF1 => Some(
            Spec {
                opcode_byte: 0xF1,
                opcode: Opcode::SBC,
                addr_mode: AddrMode::IndirectIndexed,
                base_cycles: 5,
                inc_cycle_on_page_crossed: true,
                is_official: true,
            },
        ),
        0xF3 => Some(
            Spec {
                opcode_byte: 0xF3,
                opcode: Opcode::ISB,
                addr_mode: AddrMode::IndirectIndexed,
                base_cycles: 8,
                inc_cycle_on_page_crossed: false,
                is_official: false,
            },
        ),
        0xF4 => Some(
            Spec {
                opcode_byte: 0xF4,
                opcode: Opcode::NOP,
                addr_mode: AddrMode::ZeroPageX,
                base_cycles: 4,
                inc_cycle_on_page_crossed: false,
                is_official: false,
            },
        ),
        0xF5 => Some(
            Spec {
                opcode_byte: 0xF5,
                opcode: Opcode::SBC,
                addr_mode: AddrMode::ZeroPageX,
                base_cycles: 4,
                inc_cycle_on_page_crossed: false,
                is_official: true,
            },
        ),
        0xF6 => Some(
            Spec {
                opcode_byte: 0xF6,
                opcode: Opcode::INC,
                addr_mode: AddrMode::ZeroPageX,
                base_cycles: 6,
                inc_cycle_on_page_crossed: false,
                is_official: true,
            },
        ),
        0xF7 => Some(
            Spec {
                opcode_byte: 0xF7,
                opcode: Opcode::ISB,
                addr_mode: AddrMode::ZeroPageX,
                base_cycles: 6,
                inc_cycle_on_page_crossed: false,
                is_official: false,
            },
        ),
        0xF8 => Some(
            Spec {
                opcode_byte: 0xF8,
                opcode: Opcode::SED,
                addr_mode: AddrMode::Implicit,
                base_cycles: 2,
                inc_cycle_on_page_crossed: false,
                is_official: true,
            },
        ),
        0xF9 => Some(
            Spec {
                opcode_byte: 0xF9,
                opcode: Opcode::SBC,
                addr_mode: AddrMode::AbsoluteY,
                base_cycles: 4,
                inc_cycle_on_page_crossed: true,
                is_official: true,
            },
        ),
        0xFA => Some(
            Spec {
                opcode_byte: 0xFA,
                opcode: Opcode::NOP,
                addr_mode: AddrMode::Implicit,
                base_cycles: 2,
                inc_cycle_on_page_crossed: false,
                is_official: false,
            },
        ),
        0xFB => Some(
            Spec {
                opcode_byte: 0xFB,
                opcode: Opcode::ISB,
                addr_mode: AddrMode::AbsoluteY,
                base_cycles: 7,
                inc_cycle_on_page_crossed: false,
                is_official: false,
            },
        ),
        0xFC => Some(
            Spec {
                opcode_byte: 0xFC,
                opcode: Opcode::NOP,
                addr_mode: AddrMode::AbsoluteX,
                base_cycles: 4,
                inc_cycle_on_page_crossed: true,
                is_official: false,
            },
        ),
        0xFD => Some(
            Spec {
                opcode_byte: 0xFD,
                opcode: Opcode::SBC,
                addr_mode: AddrMode::AbsoluteX,
                base_cycles: 4,
                inc_cycle_on_page_crossed: true,
                is_official: true,
            },
        ),
        0xFE => Some(
            Spec {
                opcode_byte: 0xFE,
                opcode: Opcode::INC,
                addr_mode: AddrMode::AbsoluteX,
                base_cycles: 7,
                inc_cycle_on_page_crossed: false,
                is_official: true,
            },
        ),
        0xFF => Some(
            Spec {
                opcode_byte: 0xFF,
                opcode: Opcode::ISB,
                addr_mode: AddrMode::AbsoluteX,
                base_cycles: 7,
                inc_cycle_on_page_crossed: false,
                is_official: false,
            },
        ),
        _ => None,
    }
}

/// Look up `opcode_byte` in the instruction table.
pub fn opcode_to_spec(opcode_byte: u8) -> (r: Option<Spec>)
    ensures
        r == spec_opcode_to_spec(opcode_byte),
        r matches Some(s) ==> s.opcode_byte == opcode_byte && 2 <= s.base_cycles <= 8,
{
    proof {
        reveal(spec_opcode_to_spec);
    }
    match opcode_byte {
        0x00 => Some(
            Spec {
                opcode_byte: 0x00,
                opcode: Opcode::BRK,
                addr_mode: AddrMode::Implicit,
                base_cycles: 7,
                inc_cycle_on_page_crossed: false,
                is_official: true,
            },
        ),
        0x01 => Some(
            Spec {
                opcode_byte: 0x01,
                opcode: Opcode::ORA,
                addr_mode: AddrMode::IndexedIndirect,
                base_cycles: 6,
                inc_cycle_on_page_crossed: false,
                is_official: true,
            },
        ),
        0x03 => Some(
            Spec {
                opcode_byte: 0x03,
                opcode: Opcode::SLO,
                addr_mode: AddrMode::IndexedIndirect,
                base_cycles: 8,
                inc_cycle_on_page_crossed: false,
                is_official: false,
            },
        ),
        0x04 => Some(
            Spec {
                opcode_byte: 0x04,
                opcode: Opcode::NOP,
                addr_mode: AddrMode::ZeroPage,
                base_cycles: 3,
                inc_cycle_on_page_crossed: false,
                is_official: false,
            },
        ),
        0x05 => Some(
            Spec {
                opcode_byte: 0x05,
                opcode: Opcode::ORA,
                addr_mode: AddrMode::ZeroPage,
                base_cycles: 3,
                inc_cycle_on_page_crossed: false,
                is_official: true,
            },
        ),
        0x06 => Some(
            Spec {
                opcode_byte: 0x06,
                opcode: Opcode::ASL,
                addr_mode: AddrMode::ZeroPage,
                base_cycles: 5,
                inc_cycle_on_page_crossed: false,
                is_official: true,
            },
        ),
        0x07 => Some(
            Spec {
                opcode_byte: 0x07,
                opcode: Opcode::SLO,
                addr_mode: AddrMode::ZeroPage,
                base_cycles: 5,
                inc_cycle_on_page_crossed: false,
                is_official: false,
            },
        ),
        0x08 => Some(
            Spec {
                opcode_byte: 0x08,
                opcode: Opcode::PHP,
                addr_mode: AddrMode::Implicit,
                base_cycles: 3,
                inc_cycle_on_page_crossed: false,
                is_official: true,
            },
        ),
        0x09 => Some(
            Spec {
                opcode_byte: 0x09,
                opcode: Opcode::ORA,
                addr_mode: AddrMode::Immediate,
                base_cycles: 2,
                inc_cycle_on_page_crossed: false,
                is_official: true,
            },
        ),
        0x0A => Some(
            Spec {
                opcode_byte: 0x0A,
                opcode: Opcode::ASL,
                addr_mode: AddrMode::Implicit,
                base_cycles: 2,
                inc_cycle_on_page_crossed: false,
                is_official: true,
            },
        ),
        0x0C => Some(
            Spec {
                opcode_byte: 0x0C,
                opcode: Opcode::NOP,
                addr_mode: AddrMode::Absolute,
                base_cycles: 4,
                inc_cycle_on_page_crossed: false,
                is_official: false,
            },
        ),
        0x0D => Some(
            Spec {
                opcode_byte: 0x0D,
                opcode: Opcode::ORA,
                addr_mode: AddrMode::Absolute,
                base_cycles: 4,
                inc_cycle_on_page_crossed: false,
                is_official: true,
            },
        ),
        0x0E => Some(
            Spec {
                opcode_byte: 0x0E,
                opcode: Opcode::ASL,
                addr_mode: AddrMode::Absolute,
                base_cycles: 6,
                inc_cycle_on_page_crossed: false,
                is_official: true,
            },
        ),
        0x0F => Some(
            Spec {
                opcode_byte: 0x0F,
                opcode: Opcode::SLO,
                addr_mode: AddrMode::Absolute,
                base_cycles: 6,
                inc_cycle_on_page_crossed: false,
                is_official: false,
            },
        ),
        0x10 => Some(
            Spec {
                opcode_byte: 0x10,
                opcode: Opcode::BPL,
                addr_mode: AddrMode::Relative,
                base_cycles: 2,
                inc_cycle_on_page_crossed: true,
                is_official: true,
            },
        ),
        0x11 => Some(
            Spec {
                opcode_byte: 0x11,
                opcode: Opcode::ORA,
                addr_mode: AddrMode::IndirectIndexed,
                base_cycles: 5,
                inc_cycle_on_page_crossed: true,
                is_official: true,
            },
        ),
        0x13 => Some(
            Spec {
                opcode_byte: 0x13,
                opcode: Opcode::SLO,
                addr_mode: AddrMode::IndirectIndexed,
                base_cycles: 8,
                inc_cycle_on_page_crossed: false,
                is_official: false,
            },
        ),
        0x14 => Some(
            Spec {
                opcode_byte: 0x14,
                opcode: Opcode::NOP,
                addr_mode: AddrMode::ZeroPageX,
                base_cycles: 4,
                inc_cycle_on_page_crossed: false,
                is_official: false,
            },
        ),
        0x15 => Some(
            Spec {
                opcode_byte: 0x15,
                opcode: Opcode::ORA,
                addr_mode: AddrMode::ZeroPageX,
                base_cycles: 4,
                inc_cycle_on_page_crossed: false,
                is_official: true,
            },
        ),
        0x16 => Some(
            Spec {
                opcode_byte: 0x16,
                opcode: Opcode::ASL,
                addr_mode: AddrMode::ZeroPageX,
                base_cycles: 6,
                inc_cycle_on_page_crossed: false,
                is_official: true,
            },
        ),
        0x17 => Some(
            Spec {
                opcode_byte: 0x17,
                opcode: Opcode::SLO,
                addr_mode: AddrMode::ZeroPageX,
                base_cycles: 6,
                inc_cycle_on_page_crossed: false,
                is_official: false,
            },
        ),
        0x18 => Some(
            Spec {
                opcode_byte: 0x18,
                opcode: Opcode::CLC,
                addr_mode: AddrMode::Implicit,
                base_cycles: 2,
                inc_cycle_on_page_crossed: false,
                is_official: true,
            },
        ),
        0x19 => Some(
            Spec {
                opcode_byte: 0x19,
                opcode: Opcode::ORA,
                addr_mode: AddrMode::AbsoluteY,
                base_cycles: 4,
                inc_cycle_on_page_crossed: true,
                is_official: true,
            },
        ),
        0x1A => Some(
            Spec {
                opcode_byte: 0x1A,
                opcode: Opcode::NOP,
                addr_mode: AddrMode::Implicit,
                base_cycles: 2,
                inc_cycle_on_page_crossed: false,
                is_official: false,
            },
        ),
        0x1B => Some(
            Spec {
                opcode_byte: 0x1B,
                opcode: Opcode::SLO,
                addr_mode: AddrMode::AbsoluteY,
                base_cycles: 7,
                inc_cycle_on_page_crossed: false,
                is_official: false,
            },
        ),
        0x1C => Some(
            Spec {
                opcode_byte: 0x1C,
                opcode: Opcode::NOP,
                addr_mode: AddrMode::AbsoluteX,
                base_cycles: 4,
                inc_cycle_on_page_crossed: true,
                is_official: false,
            },
        ),
        0x1D => Some(
            Spec {
                opcode_byte: 0x1D,
                opcode: Opcode::ORA,
                addr_mode: AddrMode::AbsoluteX,
                base_cycles: 4,
                inc_cycle_on_page_crossed: true,
                is_official: true,
            },
        ),
        0x1E => Some(
            Spec {
                opcode_byte: 0x1E,
                opcode: Opcode::ASL,
                addr_mode: AddrMode::AbsoluteX,
                base_cycles: 7,
                inc_cycle_on_page_crossed: false,
                is_official: true,
            },
        ),
        0x1F => Some(
            Spec {
                opcode_byte: 0x1F,
                opcode: Opcode::SLO,
                addr_mode: AddrMode::AbsoluteX,
                base_cycles: 7,
                inc_cycle_on_page_crossed: false,
                is_official: false,
            },
        ),
        0x20 => Some(
            Spec {
                opcode_byte: 0x20,
                opcode: Opcode::JSR,
                addr_mode: AddrMode::Absolute,
                base_cycles: 6,
                inc_cycle_on_page_crossed: false,
                is_official: true,
            },
        ),
        0x21 => Some(
            Spec {
                opcode_byte: 0x21,
                opcode: Opcode::AND,
                addr_mode: AddrMode::IndexedIndirect,
                base_cycles: 6,
                inc_cycle_on_page_crossed: false,
                is_official: true,
            },
        ),
        0x23 => Some(
            Spec {
                opcode_byte: 0x23,
                opcode: Opcode::RLA,
                addr_mode: AddrMode::IndexedIndirect,
                base_cycles: 8,
                inc_cycle_on_page_crossed: false,
                is_official: false,
            },
        ),
        0x24 => Some(
            Spec {
                opcode_byte: 0x24,
                opcode: Opcode::BIT,
                addr_mode: AddrMode::ZeroPage,
                base_cycles: 3,
                inc_cycle_on_page_crossed: false,
                is_official: true,
            },
        ),
        0x25 => Some(
            Spec {
                opcode_byte: 0x25,
                opcode: Opcode::AND,
                addr_mode: AddrMode::ZeroPage,
                base_cycles: 3,
                inc_cycle_on_page_crossed: false,
                is_official: true,
            },
        ),
        0x26 => Some(
            Spec {
                opcode_byte: 0x26,
                opcode: Opcode::ROL,
                addr_mode: AddrMode::ZeroPage,
                base_cycles: 5,
                inc_cycle_on_page_crossed: false,
                is_official: true,
            },
        ),
        0x27 => Some(
            Spec {
                opcode_byte: 0x27,
                opcode: Opcode::RLA,
                addr_mode: AddrMode::ZeroPage,
                base_cycles: 5,
                inc_cycle_on_page_crossed: false,
                is_official: false,
            },
        ),
        0x28 => Some(
            Spec {
                opcode_byte: 0x28,
                opcode: Opcode::PLP,
                addr_mode: AddrMode::Implicit,
                base_cycles: 4,
                inc_cycle_on_page_crossed: false,
                is_official: true,
            },
        ),
        0x29 => Some(
            Spec {
                opcode_byte: 0x29,
                opcode: Opcode::AND,
                addr_mode: AddrMode::Immediate,
                base_cycles: 2,
                inc_cycle_on_page_crossed: false,
                is_official: true,
            },
        ),
        0x2A => Some(
            Spec {
                opcode_byte: 0x2A,
                opcode: Opcode::ROL,
                addr_mode: AddrMode::Implicit,
                base_cycles: 2,
                inc_cycle_on_page_crossed: false,
                is_official: true,
            },
        ),
        0x2C => Some(
            Spec {
                opcode_byte: 0x2C,
                opcode: Opcode::BIT,
                addr_mode: AddrMode::Absolute,
                base_cycles: 4,
                inc_cycle_on_page_crossed: false,
                is_official: true,
            },
        ),
        0x2D => Some(
            Spec {
                opcode_byte: 0x2D,
                opcode: Opcode::AND,
                addr_mode: AddrMode::Absolute,
                base_cycles: 4,
                inc_cycle_on_page_crossed: false,
                is_official: true,
            },
        ),
        0x2E => Some(
            Spec {
                opcode_byte: 0x2E,
                opcode: Opcode::ROL,
                addr_mode: AddrMode::Absolute,
                base_cycles: 6,
                inc_cycle_on_page_crossed: false,
                is_official: true,
            },
        ),
        0x2F => Some(
            Spec {
                opcode_byte: 0x2F,
                opcode: Opcode::RLA,
                addr_mode: AddrMode::Absolute,
                base_cycles: 6,
                inc_cycle_on_page_crossed: false,
                is_official: false,
            },
        ),
        0x30 => Some(
            Spec {
                opcode_byte: 0x30,
                opcode: Opcode::BMI,
                addr_mode: AddrMode::Relative,
                base_cycles: 2,
                inc_cycle_on_page_crossed: true,
                is_official: true,
            },
        ),
        0x31 => Some(
            Spec {
                opcode_byte: 0x31,
                opcode: Opcode::AND,
                addr_mode: AddrMode::IndirectIndexed,
                base_cycles: 5,
                inc_cycle_on_page_crossed: true,
                is_official: true,
            },
        ),
        0x33 => Some(
            Spec {
                opcode_byte: 0x33,
                opcode: Opcode::RLA,
                addr_mode: AddrMode::IndirectIndexed,
                base_cycles: 8,
                inc_cycle_on_page_crossed: false,
                is_official: false,
            },
        ),
        0x34 => Some(
            Spec {
                opcode_byte: 0x34,
                opcode: Opcode::NOP,
                addr_mode: AddrMode::ZeroPageX,
                base_cycles: 4,
                inc_cycle_on_page_crossed: false,
                is_official: false,
            },
        ),
        0x35 => Some(
            Spec {
                opcode_byte: 0x35,
                opcode: Opcode::AND,
                addr_mode: AddrMode::ZeroPageX,
                base_cycles: 4,
                inc_cycle_on_page_crossed: false,
                is_official: true,
            },
        ),
        0x36 => Some(
            Spec {
                opcode_byte: 0x36,
                opcode: Opcode::ROL,
                addr_mode: AddrMode::ZeroPageX,
                base_cycles: 6,
                inc_cycle_on_page_crossed: false,
                is_official: true,
            },
        ),
        0x37 => Some(
            Spec {
                opcode_byte: 0x37,
                opcode: Opcode::RLA,
                addr_mode: AddrMode::ZeroPageX,
                base_cycles: 6,
                inc_cycle_on_page_crossed: false,
                is_official: false,
            },
        ),
        0x38 => Some(
            Spec {
                opcode_byte: 0x38,
                opcode: Opcode::SEC,
                addr_mode: AddrMode::Implicit,
                base_cycles: 2,
                inc_cycle_on_page_crossed: false,
                is_official: true,
            },
        ),
        0x39 => Some(
            Spec {
                opcode_byte: 0x39,
                opcode: Opcode::AND,
                addr_mode: AddrMode::AbsoluteY,
                base_cycles: 4,
                inc_cycle_on_page_crossed: true,
                is_official: true,
            },
        ),
        0x3A => Some(
            Spec {
                opcode_byte: 0x3A,
                opcode: Opcode::NOP,
                addr_mode: AddrMode::Implicit,
                base_cycles: 2,
                inc_cycle_on_page_crossed: false,
                is_official: false,
            },
        ),
        0x3B => Some(
            Spec {
                opcode_byte: 0x3B,
                opcode: Opcode::RLA,
                addr_mode: AddrMode::AbsoluteY,
                base_cycles: 7,
                inc_cycle_on_page_crossed: false,
                is_official: false,
            },
        ),
        0x3C => Some(
            Spec {
                opcode_byte: 0x3C,
                opcode: Opcode::NOP,
                addr_mode: AddrMode::AbsoluteX,
                base_cycles: 4,
                inc_cycle_on_page_crossed: true,
                is_official: false,
            },
        ),
        0x3D => Some(
            Spec {
                opcode_byte: 0x3D,
                opcode: Opcode::AND,
                addr_mode: AddrMode::AbsoluteX,
                base_cycles: 4,
                inc_cycle_on_page_crossed: true,
                is_official: true,
            },
        ),
        0x3E => Some(
            Spec {
                opcode_byte: 0x3E,
                opcode: Opcode::ROL,
                addr_mode: AddrMode::AbsoluteX,
                base_cycles: 7,
                inc_cycle_on_page_crossed: false,
                is_official: true,
            },
        ),
        0x3F => Some(
            Spec {
                opcode_byte: 0x3F,
                opcode: Opcode::RLA,
                addr_mode: AddrMode::AbsoluteX,
                base_cycles: 7,
                inc_cycle_on_page_crossed: false,
                is_official: false,
            },
        ),
        0x40 => Some(
            Spec {
                opcode_byte: 0x40,
                opcode: Opcode::RTI,
                addr_mode: AddrMode::Implicit,
                base_cycles: 6,
                inc_cycle_on_page_crossed: false,
                is_official: true,
            },
        ),
        0x41 => Some(
            Spec {
                opcode_byte: 0x41,
                opcode: Opcode::EOR,
                addr_mode: AddrMode::IndexedIndirect,
                base_cycles: 6,
                inc_cycle_on_page_crossed: false,
                is_official: true,
            },
        ),
        0x43 => Some(
            Spec {
                opcode_byte: 0x43,
                opcode: Opcode::SRE,
                addr_mode: AddrMode::IndexedIndirect,
                base_cycles: 8,
                inc_cycle_on_page_crossed: false,
                is_official: false,
            },
        ),
        0x44 => Some(
            Spec {
                opcode_byte: 0x44,
                opcode: Opcode::NOP,
                addr_mode: AddrMode::ZeroPage,
                base_cycles: 3,
                inc_cycle_on_page_crossed: false,
                is_official: false,
            },
        ),
        0x45 => Some(
            Spec {
                opcode_byte: 0x45,
                opcode: Opcode::EOR,
                addr_mode: AddrMode::ZeroPage,
                base_cycles: 3,
                inc_cycle_on_page_crossed: false,
                is_official: true,
            },
        ),
        0x46 => Some(
            Spec {
                opcode_byte: 0x46,
                opcode: Opcode::LSR,
                addr_mode: AddrMode::ZeroPage,
                base_cycles: 5,
                inc_cycle_on_page_crossed: false,
                is_official: true,
            },
        ),
        0x47 => Some(
            Spec {
                opcode_byte: 0x47,
                opcode: Opcode::SRE,
                addr_mode: AddrMode::ZeroPage,
                base_cycles: 5,
                inc_cycle_on_page_crossed: false,
                is_official: false,
            },
        ),
        0x48 => Some(
            Spec {
                opcode_byte: 0x48,
                opcode: Opcode::PHA,
                addr_mode: AddrMode::Implicit,
                base_cycles: 3,
                inc_cycle_on_page_crossed: false,
                is_official: true,
            },
        ),
        0x49 => Some(
            Spec {
                opcode_byte: 0x49,
                opcode: Opcode::EOR,
                addr_mode: AddrMode::Immediate,
                base_cycles: 2,
                inc_cycle_on_page_crossed: false,
                is_official: true,
            },
        ),
        0x4A => Some(
            Spec {
                opcode_byte: 0x4A,
                opcode: Opcode::LSR,
                addr_mode: AddrMode::Implicit,
                base_cycles: 2,
                inc_cycle_on_page_crossed: false,
                is_official: true,
            },
        ),
        0x4C => Some(
            Spec {
                opcode_byte: 0x4C,
                opcode: Opcode::JMP,
                addr_mode: AddrMode::Absolute,
                base_cycles: 3,
                inc_cycle_on_page_crossed: false,
                is_official: true,
            },
        ),
        0x4D => Some(
            Spec {
                opcode_byte: 0x4D,
                opcode: Opcode::EOR,
                addr_mode: AddrMode::Absolute,
                base_cycles: 4,
                inc_cycle_on_page_crossed: false,
                is_official: true,
            },
        ),
        0x4E => Some(
            Spec {
                opcode_byte: 0x4E,
                opcode: Opcode::LSR,
                addr_mode: AddrMode::Absolute,
                base_cycles: 6,
                inc_cycle_on_page_crossed: false,
                is_official: true,
            },
        ),
        0x4F => Some(
            Spec {
                opcode_byte: 0x4F,
                opcode: Opcode::SRE,
                addr_mode: AddrMode::Absolute,
                base_cycles: 6,
                inc_cycle_on_page_crossed: false,
                is_official: false,
            },
        ),
        0x50 => Some(
            Spec {
                opcode_byte: 0x50,
                opcode: Opcode::BVC,
                addr_mode: AddrMode::Relative,
                base_cycles: 2,
                inc_cycle_on_page_crossed: true,
                is_official: true,
            },
        ),
        0x51 => Some(
            Spec {
                opcode_byte: 0x51,
                opcode: Opcode::EOR,
                addr_mode: AddrMode::IndirectIndexed,
                base_cycles: 5,
                inc_cycle_on_page_crossed: true,
                is_official: true,
            },
        ),
        0x53 => Some(
            Spec {
                opcode_byte: 0x53,
                opcode: Opcode::SRE,
                addr_mode: AddrMode::IndirectIndexed,
                base_cycles: 8,
                inc_cycle_on_page_crossed: false,
                is_official: false,
            },
        ),
        0x54 => Some(
            Spec {
                opcode_byte: 0x54,
                opcode: Opcode::NOP,
                addr_mode: AddrMode::ZeroPageX,
                base_cycles: 4,
                inc_cycle_on_page_crossed: false,
                is_official: false,
            },
        ),
        0x55 => Some(
            Spec {
                opcode_byte: 0x55,
                opcode: Opcode::EOR,
                addr_mode: AddrMode::ZeroPageX,
                base_cycles: 4,
                inc_cycle_on_page_crossed: false,
                is_official: true,
            },
        ),
        0x56 => Some(
            Spec {
                opcode_byte: 0x56,
                opcode: Opcode::LSR,
                addr_mode: AddrMode::ZeroPageX,
                base_cycles: 6,
                inc_cycle_on_page_crossed: false,
                is_official: true,
            },
        ),
        0x57 => Some(
            Spec {
                opcode_byte: 0x57,
                opcode: Opcode::SRE,
                addr_mode: AddrMode::ZeroPageX,
                base_cycles: 6,
                inc_cycle_on_page_crossed: false,
                is_official: false,
            },
        ),
        0x58 => Some(
            Spec {
                opcode_byte: 0x58,
                opcode: Opcode::CLI,
                addr_mode: AddrMode::Implicit,
                base_cycles: 2,
                inc_cycle_on_page_crossed: false,
                is_official: true,
            },
        ),
        0x59 => Some(
            Spec {
                opcode_byte: 0x59,
                opcode: Opcode::EOR,
                addr_mode: AddrMode::AbsoluteY,
                base_cycles: 4,
                inc_cycle_on_page_crossed: true,
                is_official: true,
            },
        ),
        0x5A => Some(
            Spec {
                opcode_byte: 0x5A,
                opcode: Opcode::NOP,
                addr_mode: AddrMode::Implicit,
                base_cycles: 2,
                inc_cycle_on_page_crossed: false,
                is_official: false,
            },
        ),
        0x5B => Some(
            Spec {
                opcode_byte: 0x5B,
                opcode: Opcode::SRE,
                addr_mode: AddrMode::AbsoluteY,
                base_cycles: 7,
                inc_cycle_on_page_crossed: false,
                is_official: false,
            },
        ),
        0x5C => Some(
            Spec {
                opcode_byte: 0x5C,
                opcode: Opcode::NOP,
                addr_mode: AddrMode::AbsoluteX,
                base_cycles: 4,
                inc_cycle_on_page_crossed: true,
                is_official: false,
            },
        ),
        0x5D => Some(
            Spec {
                opcode_byte: 0x5D,
                opcode: Opcode::EOR,
                addr_mode: AddrMode::AbsoluteX,
                base_cycles: 4,
                inc_cycle_on_page_crossed: true,
                is_official: true,
            },
        ),
        0x5E => Some(
            Spec {
                opcode_byte: 0x5E,
                opcode: Opcode::LSR,
                addr_mode: AddrMode::AbsoluteX,
                base_cycles: 7,
                inc_cycle_on_page_crossed: false,
                is_official: true,
            },
        ),
        0x5F => Some(
            Spec {
                opcode_byte: 0x5F,
                opcode: Opcode::SRE,
                addr_mode: AddrMode::AbsoluteX,
                base_cycles: 7,
                inc_cycle_on_page_crossed: false,
                is_official: false,
            },
        ),
        0x60 => Some(
            Spec {
                opcode_byte: 0x60,
                opcode: Opcode::RTS,
                addr_mode: AddrMode::Implicit,
                base_cycles: 6,
                inc_cycle_on_page_crossed: false,
                is_official: true,
            },
        ),
        0x61 => Some(
            Spec {
                opcode_byte: 0x61,
                opcode: Opcode::ADC,
                addr_mode: AddrMode::IndexedIndirect,
                base_cycles: 6,
                inc_cycle_on_page_crossed: false,
                is_official: true,
            },
        ),
        0x63 => Some(
            Spec {
                opcode_byte: 0x63,
                opcode: Opcode::RRA,
                addr_mode: AddrMode::IndexedIndirect,
                base_cycles: 8,
                inc_cycle_on_page_crossed: false,
                is_official: false,
            },
        ),
        0x64 => Some(
            Spec {
                opcode_byte: 0x64,
                opcode: Opcode::NOP,
                addr_mode: AddrMode::ZeroPage,
                base_cycles: 3,
                inc_cycle_on_page_crossed: false,
                is_official: false,
            },
        ),
        0x65 => Some(
            Spec {
                opcode_byte: 0x65,
                opcode: Opcode::ADC,
                addr_mode: AddrMode::ZeroPage,
                base_cycles: 3,
                inc_cycle_on_page_crossed: false,
                is_official: true,
            },
        ),
        0x66 => Some(
            Spec {
                opcode_byte: 0x66,
                opcode: Opcode::ROR,
                addr_mode: AddrMode::ZeroPage,
                base_cycles: 5,
                inc_cycle_on_page_crossed: false,
                is_official: true,
            },
        ),
        0x67 => Some(
            Spec {
                opcode_byte: 0x67,
                opcode: Opcode::RRA,
                addr_mode: AddrMode::ZeroPage,
                base_cycles: 5,
                inc_cycle_on_page_crossed: false,
                is_official: false,
            },
        ),
        0x68 => Some(
            Spec {
                opcode_byte: 0x68,
                opcode: Opcode::PLA,
                addr_mode: AddrMode::Implicit,
                base_cycles: 4,
                inc_cycle_on_page_crossed: false,
                is_official: true,
            },
        ),
        0x69 => Some(
            Spec {
                opcode_byte: 0x69,
                opcode: Opcode::ADC,
                addr_mode: AddrMode::Immediate,
                base_cycles: 2,
                inc_cycle_on_page_crossed: false,
                is_official: true,
            },
        ),
        0x6A => Some(
            Spec {
                opcode_byte: 0x6A,
                opcode: Opcode::ROR,
                addr_mode: AddrMode::Implicit,
                base_cycles: 2,
                inc_cycle_on_page_crossed: false,
                is_official: true,
            },
        ),
        0x6C => Some(
            Spec {
                opcode_byte: 0x6C,
                opcode: Opcode::JMP,
                addr_mode: AddrMode::Indirect,
                base_cycles: 5,
                inc_cycle_on_page_crossed: false,
                is_official: true,
            },
        ),
        0x6D => Some(
            Spec {
                opcode_byte: 0x6D,
                opcode: Opcode::ADC,
                addr_mode: AddrMode::Absolute,
                base_cycles: 4,
                inc_cycle_on_page_crossed: false,
                is_official: true,
            },
        ),
        0x6E => Some(
            Spec {
                opcode_byte: 0x6E,
                opcode: Opcode::ROR,
                addr_mode: AddrMode::Absolute,
                base_cycles: 6,
                inc_cycle_on_page_crossed: false,
                is_official: true,
            },
        ),
        0x6F => Some(
            Spec {
                opcode_byte: 0x6F,
                opcode: Opcode::RRA,
                addr_mode: AddrMode::Absolute,
                base_cycles: 6,
                inc_cycle_on_page_crossed: false,
                is_official: false,
            },
        ),
        0x70 => Some(
            Spec {
                opcode_byte: 0x70,
                opcode: Opcode::BVS,
                addr_mode: AddrMode::Relative,
                base_cycles: 2,
                inc_cycle_on_page_crossed: true,
                is_official: true,
            },
        ),
        0x71 => Some(
            Spec {
                opcode_byte: 0x71,
                opcode: Opcode::ADC,
                addr_mode: AddrMode::IndirectIndexed,
                base_cycles: 5,
                inc_cycle_on_page_crossed: true,
                is_official: true,
            },
        ),
        0x73 => Some(
            Spec {
                opcode_byte: 0x73,
                opcode: Opcode::RRA,
                addr_mode: AddrMode::IndirectIndexed,
                base_cycles: 8,
                inc_cycle_on_page_crossed: false,
                is_official: false,
            },
        ),
        0x74 => Some(
            Spec {
                opcode_byte: 0x74,
                opcode: Opcode::NOP,
                addr_mode: AddrMode::ZeroPageX,
                base_cycles: 4,
                inc_cycle_on_page_crossed: false,
                is_official: false,
            },
        ),
        0x75 => Some(
            Spec {
                opcode_byte: 0x75,
                opcode: Opcode::ADC,
                addr_mode: AddrMode::ZeroPageX,
                base_cycles: 4,
                inc_cycle_on_page_crossed: false,
                is_official: true,
            },
        ),
        0x76 => Some(
            Spec {
                opcode_byte: 0x76,
                opcode: Opcode::ROR,
                addr_mode: AddrMode::ZeroPageX,
                base_cycles: 6,
                inc_cycle_on_page_crossed: false,
                is_official: true,
            },
        ),
        0x77 => Some(
            Spec {
                opcode_byte: 0x77,
                opcode: Opcode::RRA,
                addr_mode: AddrMode::ZeroPageX,
                base_cycles: 6,
                inc_cycle_on_page_crossed: false,
                is_official: false,
            },
        ),
        0x78 => Some(
            Spec {
                opcode_byte: 0x78,
                opcode: Opcode::SEI,
                addr_mode: AddrMode::Implicit,
                base_cycles: 2,
                inc_cycle_on_page_crossed: false,
                is_official: true,
            },
        ),
        0x79 => Some(
            Spec {
                opcode_byte: 0x79,
                opcode: Opcode::ADC,
                addr_mode: AddrMode::AbsoluteY,
                base_cycles: 4,
                inc_cycle_on_page_crossed: true,
                is_official: true,
            },
        ),
        0x7A => Some(
            Spec {
                opcode_byte: 0x7A,
                opcode: Opcode::NOP,
                addr_mode: AddrMode::Implicit,
                base_cycles: 2,
                inc_cycle_on_page_crossed: false,
                is_official: false,
            },
        ),
        0x7B => Some(
            Spec {
                opcode_byte: 0x7B,
                opcode: Opcode::RRA,
                addr_mode: AddrMode::AbsoluteY,
                base_cycles: 7,
                inc_cycle_on_page_crossed: false,
                is_official: false,
            },
        ),
        0x7C => Some(
            Spec {
                opcode_byte: 0x7C,
                opcode: Opcode::NOP,
                addr_mode: AddrMode::AbsoluteX,
                base_cycles: 4,
                inc_cycle_on_page_crossed: true,
                is_official: false,
            },
        ),
        0x7D => Some(
            Spec {
                opcode_byte: 0x7D,
                opcode: Opcode::ADC,
                addr_mode: AddrMode::AbsoluteX,
                base_cycles: 4,
                inc_cycle_on_page_crossed: true,
                is_official: true,
            },
        ),
        0x7E => Some(
            Spec {
                opcode_byte: 0x7E,
                opcode: Opcode::ROR,
                addr_mode: AddrMode::AbsoluteX,
                base_cycles: 7,
                inc_cycle_on_page_crossed: false,
                is_official: true,
            },
        ),
        0x7F => Some(
            Spec {
                opcode_byte: 0x7F,
                opcode: Opcode::RRA,
                addr_mode: AddrMode::AbsoluteX,
                base_cycles: 7,
                inc_cycle_on_page_crossed: false,
                is_official: false,
            },
        ),
        0x80 => Some(
            Spec {
                opcode_byte: 0x80,
                opcode: Opcode::NOP,
                addr_mode: AddrMode::Immediate,
                base_cycles: 2,
                inc_cycle_on_page_crossed: false,
                is_official: false,
            },
        ),
        0x81 => Some(
            Spec {
                opcode_byte: 0x81,
                opcode: Opcode::STA,
                addr_mode: AddrMode::IndexedIndirect,
                base_cycles: 6,
                inc_cycle_on_page_crossed: false,
                is_official: true,
            },
        ),
        0x82 => Some(
            Spec {
                opcode_byte: 0x82,
                opcode: Opcode::NOP,
                addr_mode: AddrMode::Immediate,
                base_cycles: 2,
                inc_cycle_on_page_crossed: false,
                is_official: false,
            },
        ),
        0x83 => Some(
            Spec {
                opcode_byte: 0x83,
                opcode: Opcode::SAX,
                addr_mode: AddrMode::IndexedIndirect,
                base_cycles: 6,
                inc_cycle_on_page_crossed: false,
                is_official: false,
            },
        ),
        0x84 => Some(
            Spec {
                opcode_byte: 0x84,
                opcode: Opcode::STY,
                addr_mode: AddrMode::ZeroPage,
                base_cycles: 3,
                inc_cycle_on_page_crossed: false,
                is_official: true,
            },
        ),
        0x85 => Some(
            Spec {
                opcode_byte: 0x85,
                opcode: Opcode::STA,
                addr_mode: AddrMode::ZeroPage,
                base_cycles: 3,
                inc_cycle_on_page_crossed: false,
                is_official: true,
            },
        ),
        0x86 => Some(
            Spec {
                opcode_byte: 0x86,
                opcode: Opcode::STX,
                addr_mode: AddrMode::ZeroPage,
                base_cycles: 3,
                inc_cycle_on_page_crossed: false,
                is_official: true,
            },
        ),
        0x87 => Some(
            Spec {
                opcode_byte: 0x87,
                opcode: Opcode::SAX,
                addr_mode: AddrMode::ZeroPage,
                base_cycles: 3,
                inc_cycle_on_page_crossed: false,
                is_official: false,
            },
        ),
        0x88 => Some(
            Spec {
                opcode_byte: 0x88,
                opcode: Opcode::DEY,
                addr_mode: AddrMode::Implicit,
                base_cycles: 2,
                inc_cycle_on_page_crossed: false,
                is_official: true,
            },
        ),
        0x89 => Some(
            Spec {
                opcode_byte: 0x89,
                opcode: Opcode::NOP,
                addr_mode: AddrMode::Immediate,
                base_cycles: 2,
                inc_cycle_on_page_crossed: false,
                is_official: false,
            },
        ),
        0x8A => Some(
            Spec {
                opcode_byte: 0x8A,
                opcode: Opcode::TXA,
                addr_mode: AddrMode::Implicit,
                base_cycles: 2,
                inc_cycle_on_page_crossed: false,
                is_official: true,
            },
        ),
        0x8C => Some(
            Spec {
                opcode_byte: 0x8C,
                opcode: Opcode::STY,
                addr_mode: AddrMode::Absolute,
                base_cycles: 4,
                inc_cycle_on_page_crossed: false,
                is_official: true,
            },
        ),
        0x8D => Some(
            Spec {
                opcode_byte: 0x8D,
                opcode: Opcode::STA,
                addr_mode: AddrMode::Absolute,
                base_cycles: 4,
                inc_cycle_on_page_crossed: false,
                is_official: true,
            },
        ),
        0x8E => Some(
            Spec {
                opcode_byte: 0x8E,
                opcode: Opcode::STX,
                addr_mode: AddrMode::Absolute,
                base_cycles: 4,
                inc_cycle_on_page_crossed: false,
                is_official: true,
            },
        ),
        0x8F => Some(
            Spec {
                opcode_byte: 0x8F,
                opcode: Opcode::SAX,
                addr_mode: AddrMode::Absolute,
                base_cycles: 4,
                inc_cycle_on_page_crossed: false,
                is_official: false,
            },
        ),
        0x90 => Some(
            Spec {
                opcode_byte: 0x90,
                opcode: Opcode::BCC,
                addr_mode: AddrMode::Relative,
                base_cycles: 2,
                inc_cycle_on_page_crossed: true,
                is_official: true,
            },
        ),
        0x91 => Some(
            Spec {
                opcode_byte: 0x91,
                opcode: Opcode::STA,
                addr_mode: AddrMode::IndirectIndexed,
                base_cycles: 6,
                inc_cycle_on_page_crossed: false,
                is_official: true,
            },
        ),
        0x94 => Some(
            Spec {
                opcode_byte: 0x94,
                opcode: Opcode::STY,
                addr_mode: AddrMode::ZeroPageX,
                base_cycles: 4,
                inc_cycle_on_page_crossed: false,
                is_official: true,
            },
        ),
        0x95 => Some(
            Spec {
                opcode_byte: 0x95,
                opcode: Opcode::STA,
                addr_mode: AddrMode::ZeroPageX,
                base_cycles: 4,
                inc_cycle_on_page_crossed: false,
                is_official: true,
            },
        ),
        0x96 => Some(
            Spec {
                opcode_byte: 0x96,
                opcode: Opcode::STX,
                addr_mode: AddrMode::ZeroPageY,
                base_cycles: 4,
                inc_cycle_on_page_crossed: false,
                is_official: true,
            },
        ),
        0x97 => Some(
            Spec {
                opcode_byte: 0x97,
                opcode: Opcode::SAX,
                addr_mode: AddrMode::ZeroPageY,
                base_cycles: 4,
                inc_cycle_on_page_crossed: false,
                is_official: false,
            },
        ),
        0x98 => Some(
            Spec {
                opcode_byte: 0x98,
                opcode: Opcode::TYA,
                addr_mode: AddrMode::Implicit,
                base_cycles: 2,
                inc_cycle_on_page_crossed: false,
                is_official: true,
            },
        ),
        0x99 => Some(
            Spec {
                opcode_byte: 0x99,
                opcode: Opcode::STA,
                addr_mode: AddrMode::AbsoluteY,
                base_cycles: 5,
                inc_cycle_on_page_crossed: false,
                is_official: true,
            },
        ),
        0x9A => Some(
            Spec {
                opcode_byte: 0x9A,
                opcode: Opcode::TXS,
                addr_mode: AddrMode::Implicit,
                base_cycles: 2,
                inc_cycle_on_page_crossed: false,
                is_official: true,
            },
        ),
        0x9D => Some(
            Spec {
                opcode_byte: 0x9D,
                opcode: Opcode::STA,
                addr_mode: AddrMode::AbsoluteX,
                base_cycles: 5,
                inc_cycle_on_page_crossed: false,
                is_official: true,
            },
        ),
        0xA0 => Some(
            Spec {
                opcode_byte: 0xA0,
                opcode: Opcode::LDY,
                addr_mode: AddrMode::Immediate,
                base_cycles: 2,
                inc_cycle_on_page_crossed: false,
                is_official: true,
            },
        ),
        0xA1 => Some(
            Spec {
                opcode_byte: 0xA1,
                opcode: Opcode::LDA,
                addr_mode: AddrMode::IndexedIndirect,
                base_cycles: 6,
                inc_cycle_on_page_crossed: false,
                is_official: true,
            },
        ),
        0xA2 => Some(
            Spec {
                opcode_byte: 0xA2,
                opcode: Opcode::LDX,
                addr_mode: AddrMode::Immediate,
                base_cycles: 2,
                inc_cycle_on_page_crossed: false,
                is_official: true,
            },
        ),
        0xA3 => Some(
            Spec {
                opcode_byte: 0xA3,
                opcode: Opcode::LAX,
                addr_mode: AddrMode::IndexedIndirect,
                base_cycles: 6,
                inc_cycle_on_page_crossed: false,
                is_official: false,
            },
        ),
        0xA4 => Some(
            Spec {
                opcode_byte: 0xA4,
                opcode: Opcode::LDY,
                addr_mode: AddrMode::ZeroPage,
                base_cycles: 3,
                inc_cycle_on_page_crossed: false,
                is_official: true,
            },
        ),
        0xA5 => Some(
            Spec {
                opcode_byte: 0xA5,
                opcode: Opcode::LDA,
                addr_mode: AddrMode::ZeroPage,
                base_cycles: 3,
                inc_cycle_on_page_crossed: false,
                is_official: true,
            },
        ),
        0xA6 => Some(
            Spec {
                opcode_byte: 0xA6,
                opcode: Opcode::LDX,
                addr_mode: AddrMode::ZeroPage,
                base_cycles: 3,
                inc_cycle_on_page_crossed: false,
                is_official: true,
            },
        ),
        0xA7 => Some(
            Spec {
                opcode_byte: 0xA7,
                opcode: Opcode::LAX,
                addr_mode: AddrMode::ZeroPage,
                base_cycles: 3,
                inc_cycle_on_page_crossed: false,
                is_official: false,
            },
        ),
        0xA8 => Some(
            Spec {
                opcode_byte: 0xA8,
                opcode: Opcode::TAY,
                addr_mode: AddrMode::Implicit,
                base_cycles: 2,
                inc_cycle_on_page_crossed: false,
                is_official: true,
            },
        ),
        0xA9 => Some(
            Spec {
                opcode_byte: 0xA9,
                opcode: Opcode::LDA,
                addr_mode: AddrMode::Immediate,
                base_cycles: 2,
                inc_cycle_on_page_crossed: false,
                is_official: true,
            },
        ),
        0xAA => Some(
            Spec {
                opcode_byte: 0xAA,
                opcode: Opcode::TAX,
                addr_mode: AddrMode::Implicit,
                base_cycles: 2,
                inc_cycle_on_page_crossed: false,
                is_official: true,
            },
        ),
        0xAC => Some(
            Spec {
                opcode_byte: 0xAC,
                opcode: Opcode::LDY,
                addr_mode: AddrMode::Absolute,
                base_cycles: 4,
                inc_cycle_on_page_crossed: false,
                is_official: true,
            },
        ),
        0xAD => Some(
            Spec {
                opcode_byte: 0xAD,
                opcode: Opcode::LDA,
                addr_mode: AddrMode::Absolute,
                base_cycles: 4,
                inc_cycle_on_page_crossed: false,
                is_official: true,
            },
        ),
        0xAE => Some(
            Spec {
                opcode_byte: 0xAE,
                opcode: Opcode::LDX,
                addr_mode: AddrMode::Absolute,
                base_cycles: 4,
                inc_cycle_on_page_crossed: false,
                is_official: true,
            },
        ),
        0xAF => Some(
            Spec {
                opcode_byte: 0xAF,
                opcode: Opcode::LAX,
                addr_mode: AddrMode::Absolute,
                base_cycles: 4,
                inc_cycle_on_page_crossed: false,
                is_official: false,
            },
        ),
        0xB0 => Some(
            Spec {
                opcode_byte: 0xB0,
                opcode: Opcode::BCS,
                addr_mode: AddrMode::Relative,
                base_cycles: 2,
                inc_cycle_on_page_crossed: true,
                is_official: true,
            },
        ),
        0xB1 => Some(
            Spec {
                opcode_byte: 0xB1,
                opcode: Opcode::LDA,
                addr_mode: AddrMode::IndirectIndexed,
                base_cycles: 5,
                inc_cycle_on_page_crossed: true,
                is_official: true,
            },
        ),
        0xB3 => Some(
            Spec {
                opcode_byte: 0xB3,
                opcode: Opcode::LAX,
                addr_mode: AddrMode::IndirectIndexed,
                base_cycles: 5,
                inc_cycle_on_page_crossed: true,
                is_official: false,
            },
        ),
        0xB4 => Some(
            Spec {
                opcode_byte: 0xB4,
                opcode: Opcode::LDY,
                addr_mode: AddrMode::ZeroPageX,
                base_cycles: 4,
                inc_cycle_on_page_crossed: false,
                is_official: true,
            },
        ),
        0xB5 => Some(
            Spec {
                opcode_byte: 0xB5,
                opcode: Opcode::LDA,
                addr_mode: AddrMode::ZeroPageX,
                base_cycles: 4,
                inc_cycle_on_page_crossed: false,
                is_official: true,
            },
        ),
        0xB6 => Some(
            Spec {
                opcode_byte: 0xB6,
                opcode: Opcode::LDX,
                addr_mode: AddrMode::ZeroPageY,
                base_cycles: 4,
                inc_cycle_on_page_crossed: false,
                is_official: true,
            },
        ),
        0xB7 => Some(
            Spec {
                opcode_byte: 0xB7,
                opcode: Opcode::LAX,
                addr_mode: AddrMode::ZeroPageY,
                base_cycles: 4,
                inc_cycle_on_page_crossed: false,
                is_official: false,
            },
        ),
        0xB8 => Some(
            Spec {
                opcode_byte: 0xB8,
                opcode: Opcode::CLV,
                addr_mode: AddrMode::Implicit,
                base_cycles: 2,
                inc_cycle_on_page_crossed: false,
                is_official: true,
            },
        ),
        0xB9 => Some(
            Spec {
                opcode_byte: 0xB9,
                opcode: Opcode::LDA,
                addr_mode: AddrMode::AbsoluteY,
                base_cycles: 4,
                inc_cycle_on_page_crossed: true,
                is_official: true,
            },
        ),
        0xBA => Some(
            Spec {
                opcode_byte: 0xBA,
                opcode: Opcode::TSX,
                addr_mode: AddrMode::Implicit,
                base_cycles: 2,
                inc_cycle_on_page_crossed: false,
                is_official: true,
            },
        ),
        0xBC => Some(
            Spec {
                opcode_byte: 0xBC,
                opcode: Opcode::LDY,
                addr_mode: AddrMode::AbsoluteX,
                base_cycles: 4,
                inc_cycle_on_page_crossed: true,
                is_official: true,
            },
        ),
        0xBD => Some(
            Spec {
                opcode_byte: 0xBD,
                opcode: Opcode::LDA,
                addr_mode: AddrMode::AbsoluteX,
                base_cycles: 4,
                inc_cycle_on_page_crossed: true,
                is_official: true,
            },
        ),
        0xBE => Some(
            Spec {
                opcode_byte: 0xBE,
                opcode: Opcode::LDX,
                addr_mode: AddrMode::AbsoluteY,
                base_cycles: 4,
                inc_cycle_on_page_crossed: true,
                is_official: true,
            },
        ),
        0xBF => Some(
            Spec {
                opcode_byte: 0xBF,
                opcode: Opcode::LAX,
                addr_mode: AddrMode::AbsoluteY,
                base_cycles: 4,
                inc_cycle_on_page_crossed: true,
                is_official: false,
            },
        ),
        0xC0 => Some(
            Spec {
                opcode_byte: 0xC0,
                opcode: Opcode::CPY,
                addr_mode: AddrMode::Immediate,
                base_cycles: 2,
                inc_cycle_on_page_crossed: false,
                is_official: true,
            },
        ),
        0xC1 => Some(
            Spec {
                opcode_byte: 0xC1,
                opcode: Opcode::CMP,
                addr_mode: AddrMode::IndexedIndirect,
                base_cycles: 6,
                inc_cycle_on_page_crossed: false,
                is_official: true,
            },
        ),
        0xC2 => Some(
            Spec {
                opcode_byte: 0xC2,
                opcode: Opcode::NOP,
                addr_mode: AddrMode::Immediate,
                base_cycles: 2,
                inc_cycle_on_page_crossed: false,
                is_official: false,
            },
        ),
        0xC3 => Some(
            Spec {
                opcode_byte: 0xC3,
                opcode: Opcode::DCP,
                addr_mode: AddrMode::IndexedIndirect,
                base_cycles: 8,
                inc_cycle_on_page_crossed: false,
                is_official: false,
            },
        ),
        0xC4 => Some(
            Spec {
                opcode_byte: 0xC4,
                opcode: Opcode::CPY,
                addr_mode: AddrMode::ZeroPage,
                base_cycles: 3,
                inc_cycle_on_page_crossed: false,
                is_official: true,
            },
        ),
        0xC5 => Some(
            Spec {
                opcode_byte: 0xC5,
                opcode: Opcode::CMP,
                addr_mode: AddrMode::ZeroPage,
                base_cycles: 3,
                inc_cycle_on_page_crossed: false,
                is_official: true,
            },
        ),
        0xC6 => Some(
            Spec {
                opcode_byte: 0xC6,
                opcode: Opcode::DEC,
                addr_mode: AddrMode::ZeroPage,
                base_cycles: 5,
                inc_cycle_on_page_crossed: false,
                is_official: true,
            },
        ),
        0xC7 => Some(
            Spec {
                opcode_byte: 0xC7,
                opcode: Opcode::DCP,
                addr_mode: AddrMode::ZeroPage,
                base_cycles: 5,
                inc_cycle_on_page_crossed: false,
                is_official: false,
            },
        ),
        0xC8 => Some(
            Spec {
                opcode_byte: 0xC8,
                opcode: Opcode::INY,
                addr_mode: AddrMode::Implicit,
                base_cycles: 2,
                inc_cycle_on_page_crossed: false,
                is_official: true,
            },
        ),
        0xC9 => Some(
            Spec {
                opcode_byte: 0xC9,
                opcode: Opcode::CMP,
                addr_mode: AddrMode::Immediate,
                base_cycles: 2,
                inc_cycle_on_page_crossed: false,
                is_official: true,
            },
        ),
        0xCA => Some(
            Spec {
                opcode_byte: 0xCA,
                opcode: Opcode::DEX,
                addr_mode: AddrMode::Implicit,
                base_cycles: 2,
                inc_cycle_on_page_crossed: false,
                is_official: true,
            },
        ),
        0xCC => Some(
            Spec {
                opcode_byte: 0xCC,
                opcode: Opcode::CPY,
                addr_mode: AddrMode::Absolute,
                base_cycles: 4,
                inc_cycle_on_page_crossed: false,
                is_official: true,
            },
        ),
        0xCD => Some(
            Spec {
                opcode_byte: 0xCD,
                opcode: Opcode::CMP,
                addr_mode: AddrMode::Absolute,
                base_cycles: 4,
                inc_cycle_on_page_crossed: false,
                is_official: true,
            },
        ),
        0xCE => Some(
            Spec {
                opcode_byte: 0xCE,
                opcode: Opcode::DEC,
                addr_mode: AddrMode::Absolute,
                base_cycles: 6,
                inc_cycle_on_page_crossed: false,
                is_official: true,
            },
        ),
        0xCF => Some(
            Spec {
                opcode_byte: 0xCF,
                opcode: Opcode::DCP,
                addr_mode: AddrMode::Absolute,
                base_cycles: 6,
                inc_cycle_on_page_crossed: false,
                is_official: false,
            },
        ),
        0xD0 => Some(
            Spec {
                opcode_byte: 0xD0,
                opcode: Opcode::BNE,
                addr_mode: AddrMode::Relative,
                base_cycles: 2,
                inc_cycle_on_page_crossed: true,
                is_official: true,
            },
        ),
        0xD1 => Some(
            Spec {
                opcode_byte: 0xD1,
                opcode: Opcode::CMP,
                addr_mode: AddrMode::IndirectIndexed,
                base_cycles: 5,
                inc_cycle_on_page_crossed: true,
                is_official: true,
            },
        ),
        0xD3 => Some(
            Spec {
                opcode_byte: 0xD3,
                opcode: Opcode::DCP,
                addr_mode: AddrMode::IndirectIndexed,
                base_cycles: 8,
                inc_cycle_on_page_crossed: false,
                is_official: false,
            },
        ),
        0xD4 => Some(
            Spec {
                opcode_byte: 0xD4,
                opcode: Opcode::NOP,
                addr_mode: AddrMode::ZeroPageX,
                base_cycles: 4,
                inc_cycle_on_page_crossed: false,
                is_official: false,
            },
        ),
        0xD5 => Some(
            Spec {
                opcode_byte: 0xD5,
                opcode: Opcode::CMP,
                addr_mode: AddrMode::ZeroPageX,
                base_cycles: 4,
                inc_cycle_on_page_crossed: false,
                is_official: true,
            },
        ),
        0xD6 => Some(
            Spec {
                opcode_byte: 0xD6,
                opcode: Opcode::DEC,
                addr_mode: AddrMode::ZeroPageX,
                base_cycles: 6,
                inc_cycle_on_page_crossed: false,
                is_official: true,
            },
        ),
        0xD7 => Some(
            Spec {
                opcode_byte: 0xD7,
                opcode: Opcode::DCP,
                addr_mode: AddrMode::ZeroPageX,
                base_cycles: 6,
                inc_cycle_on_page_crossed: false,
                is_official: false,
            },
        ),
        0xD8 => Some(
            Spec {
                opcode_byte: 0xD8,
                opcode: Opcode::CLD,
                addr_mode: AddrMode::Implicit,
                base_cycles: 2,
                inc_cycle_on_page_crossed: false,
                is_official: true,
            },
        ),
        0xD9 => Some(
            Spec {
                opcode_byte: 0xD9,
                opcode: Opcode::CMP,
                addr_mode: AddrMode::AbsoluteY,
                base_cycles: 4,
                inc_cycle_on_page_crossed: true,
                is_official: true,
            },
        ),
        0xDA => Some(
            Spec {
                opcode_byte: 0xDA,
                opcode: Opcode::NOP,
                addr_mode: AddrMode::Implicit,
                base_cycles: 2,
                inc_cycle_on_page_crossed: false,
                is_official: false,
            },
        ),
        0xDB => Some(
            Spec {
                opcode_byte: 0xDB,
                opcode: Opcode::DCP,
                addr_mode: AddrMode::AbsoluteY,
                base_cycles: 7,
                inc_cycle_on_page_crossed: false,
                is_official: false,
            },
        ),
        0xDC => Some(
            Spec {
                opcode_byte: 0xDC,
                opcode: Opcode::NOP,
                addr_mode: AddrMode::AbsoluteX,
                base_cycles: 4,
                inc_cycle_on_page_crossed: true,
                is_official: false,
            },
        ),
        0xDD => Some(
            Spec {
                opcode_byte: 0xDD,
                opcode: Opcode::CMP,
                addr_mode: AddrMode::AbsoluteX,
                base_cycles: 4,
                inc_cycle_on_page_crossed: true,
                is_official: true,
            },
        ),
        0xDE => Some(
            Spec {
                opcode_byte: 0xDE,
                opcode: Opcode::DEC,
                addr_mode: AddrMode::AbsoluteX,
                base_cycles: 7,
                inc_cycle_on_page_crossed: false,
                is_official: true,
            },
        ),
        0xDF => Some(
            Spec {
                opcode_byte: 0xDF,
                opcode: Opcode::DCP,
                addr_mode: AddrMode::AbsoluteX,
                base_cycles: 7,
                inc_cycle_on_page_crossed: false,
                is_official: false,
            },
        ),
        0xE0 => Some(
            Spec {
                opcode_byte: 0xE0,
                opcode: Opcode::CPX,
                addr_mode: AddrMode::Immediate,
                base_cycles: 2,
                inc_cycle_on_page_crossed: false,
                is_official: true,
            },
        ),
        0xE1 => Some(
            Spec {
                opcode_byte: 0xE1,
                opcode: Opcode::SBC,
                addr_mode: AddrMode::IndexedIndirect,
                base_cycles: 6,
                inc_cycle_on_page_crossed: false,
                is_official: true,
            },
        ),
        0xE2 => Some(
            Spec {
                opcode_byte: 0xE2,
                opcode: Opcode::NOP,
                addr_mode: AddrMode::Immediate,
                base_cycles: 2,
                inc_cycle_on_page_crossed: false,
                is_official: false,
            },
        ),
        0xE3 => Some(
            Spec {
                opcode_byte: 0xE3,
                opcode: Opcode::ISB,
                addr_mode: AddrMode::IndexedIndirect,
                base_cycles: 8,
                inc_cycle_on_page_crossed: false,
                is_official: false,
            },
        ),
        0xE4 => Some(
            Spec {
                opcode_byte: 0xE4,
                opcode: Opcode::CPX,
                addr_mode: AddrMode::ZeroPage,
                base_cycles: 3,
                inc_cycle_on_page_crossed: false,
                is_official: true,
            },
        ),
        0xE5 => Some(
            Spec {
                opcode_byte: 0xE5,
                opcode: Opcode::SBC,
                addr_mode: AddrMode::ZeroPage,
                base_cycles: 3,
                inc_cycle_on_page_crossed: false,
                is_official: true,
            },
        ),
        0xE6 => Some(
            Spec {
                opcode_byte: 0xE6,
                opcode: Opcode::INC,
                addr_mode: AddrMode::ZeroPage,
                base_cycles: 5,
                inc_cycle_on_page_crossed: false,
                is_official: true,
            },
        ),
        0xE7 => Some(
            Spec {
                opcode_byte: 0xE7,
                opcode: Opcode::ISB,
                addr_mode: AddrMode::ZeroPage,
                base_cycles: 5,
                inc_cycle_on_page_crossed: false,
                is_official: false,
            },
        ),
        0xE8 => Some(
            Spec {
                opcode_byte: 0xE8,
                opcode: Opcode::INX,
                addr_mode: AddrMode::Implicit,
                base_cycles: 2,
                inc_cycle_on_page_crossed: false,
                is_official: true,
            },
        ),
        0xE9 => Some(
            Spec {
                opcode_byte: 0xE9,
                opcode: Opcode::SBC,
                addr_mode: AddrMode::Immediate,
                base_cycles: 2,
                inc_cycle_on_page_crossed: false,
                is_official: true,
            },
        ),
        0xEA => Some(
            Spec {
                opcode_byte: 0xEA,
                opcode: Opcode::NOP,
                addr_mode: AddrMode::Implicit,
                base_cycles: 2,
                inc_cycle_on_page_crossed: false,
                is_official: true,
            },
        ),
        0xEC => Some(
            Spec {
                opcode_byte: 0xEC,
                opcode: Opcode::CPX,
                addr_mode: AddrMode::Absolute,
                base_cycles: 4,
                inc_cycle_on_page_crossed: false,
                is_official: true,
            },
        ),
        0xED => Some(
            Spec {
                opcode_byte: 0xED,
                opcode: Opcode::SBC,
                addr_mode: AddrMode::Absolute,
                base_cycles: 4,
                inc_cycle_on_page_crossed: false,
                is_official: true,
            },
        ),
        0xEE => Some(
            Spec {
                opcode_byte: 0xEE,
                opcode: Opcode::INC,
                addr_mode: AddrMode::Absolute,
                base_cycles: 6,
                inc_cycle_on_page_crossed: false,
                is_official: true,
            },
        ),
        0xEF => Some(
            Spec {
                opcode_byte: 0xEF,
                opcode: Opcode::ISB,
                addr_mode: AddrMode::Absolute,
                base_cycles: 6,
                inc_cycle_on_page_crossed: false,
                is_official: false,
            },
        ),
        0xF0 => Some(
            Spec {
                opcode_byte: 0xF0,
                opcode: Opcode::BEQ,
                addr_mode: AddrMode::Relative,
                base_cycles: 2,
                inc_cycle_on_page_crossed: true,
                is_official: true,
            },
        ),
        0xF1 => Some(
            Spec {
                opcode_byte: 0xF1,
                opcode: Opcode::SBC,
                addr_mode: AddrMode::IndirectIndexed,
                base_cycles: 5,
                inc_cycle_on_page_crossed: true,
                is_official: true,
            },
        ),
        0xF3 => Some(
            Spec {
                opcode_byte: 0xF3,
                opcode: Opcode::ISB,
                addr_mode: AddrMode::IndirectIndexed,
                base_cycles: 8,
                inc_cycle_on_page_crossed: false,
                is_official: false,
            },
        ),
        0xF4 => Some(
            Spec {
                opcode_byte: 0xF4,
                opcode: Opcode::NOP,
                addr_mode: AddrMode::ZeroPageX,
                base_cycles: 4,
                inc_cycle_on_page_crossed: false,
                is_official: false,
            },
        ),
        0xF5 => Some(
            Spec {
                opcode_byte: 0xF5,
                opcode: Opcode::SBC,
                addr_mode: AddrMode::ZeroPageX,
                base_cycles: 4,
                inc_cycle_on_page_crossed: false,
                is_official: true,
            },
        ),
        0xF6 => Some(
            Spec {
                opcode_byte: 0xF6,
                opcode: Opcode::INC,
                addr_mode: AddrMode::ZeroPageX,
                base_cycles: 6,
                inc_cycle_on_page_crossed: false,
                is_official: true,
            },
        ),
        0xF7 => Some(
            Spec {
                opcode_byte: 0xF7,
                opcode: Opcode::ISB,
                addr_mode: AddrMode::ZeroPageX,
                base_cycles: 6,
                inc_cycle_on_page_crossed: false,
                is_official: false,
            },
        ),
        0xF8 => Some(
            Spec {
                opcode_byte: 0xF8,
                opcode: Opcode::SED,
                addr_mode: AddrMode::Implicit,
                base_cycles: 2,
                inc_cycle_on_page_crossed: false,
                is_official: true,
            },
        ),
        0xF9 => Some(
            Spec {
                opcode_byte: 0xF9,
                opcode: Opcode::SBC,
                addr_mode: AddrMode::AbsoluteY,
                base_cycles: 4,
                inc_cycle_on_page_crossed: true,
                is_official: true,
            },
        ),
        0xFA => Some(
            Spec {
                opcode_byte: 0xFA,
                opcode: Opcode::NOP,
                addr_mode: AddrMode::Implicit,
                base_cycles: 2,
                inc_cycle_on_page_crossed: false,
                is_official: false,
            },
        ),
        0xFB => Some(
            Spec {
                opcode_byte: 0xFB,
                opcode: Opcode::ISB,
                addr_mode: AddrMode::AbsoluteY,
                base_cycles: 7,
                inc_cycle_on_page_crossed: false,
                is_official: false,
            },
        ),
        0xFC => Some(
            Spec {
                opcode_byte: 0xFC,
                opcode: Opcode::NOP,
                addr_mode: AddrMode::AbsoluteX,
                base_cycles: 4,
                inc_cycle_on_page_crossed: true,
                is_official: false,
            },
        ),
        0xFD => Some(
            Spec {
                opcode_byte: 0xFD,
                opcode: Opcode::SBC,
                addr_mode: AddrMode::AbsoluteX,
                base_cycles: 4,
                inc_cycle_on_page_crossed: true,
                is_official: true,
            },
        ),
        0xFE => Some(
            Spec {
                opcode_byte: 0xFE,
                opcode: Opcode::INC,
                addr_mode: AddrMode::AbsoluteX,
                base_cycles: 7,
                inc_cycle_on_page_crossed: false,
                is_official: true,
            },
        ),
        0xFF => Some(
            Spec {
                opcode_byte: 0xFF,
                opcode: Opcode::ISB,
                addr_mode: AddrMode::AbsoluteX,
                base_cycles: 7,
                inc_cycle_on_page_crossed: false,
                is_official: false,
            },
        ),
        _ => None,
    }
}

} // verus!
