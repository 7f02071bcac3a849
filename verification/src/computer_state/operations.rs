//! The instruction set as data: an identifier for every operation the
//! machine knows, the 256-entry decoding of opcode bytes, and the
//! per-operation denotation that `execute_next`'s contract is stated
//! over. Unmapped opcode bytes decode to the no-operation, matching the
//! permissive behaviour of real undocumented-opcode slots.

use vstd::prelude::*;

pub mod arithmetic;
pub mod bitwise;
pub mod branch;
pub mod comparison;
pub mod flags;
pub mod interrupt;
pub mod jumps_calls;
pub mod load_store;
pub mod register_transfers;
pub mod stack;

use crate::computer_state::status_register::StatusRegister;
use crate::computer_state::{ComputerState, CpuView};

verus! {

/// One identifier per operation: an instruction together with its
/// addressing mode.
#[derive(Clone, Copy, PartialEq, Eq, Structural, Debug)]
pub enum Operation {
    LdaIm,
    LdaZp,
    LdaZpx,
    LdaAb,
    LdaAbx,
    LdaAby,
    LdaInx,
    LdaIny,
    LdxIm,
    LdxZp,
    LdxZpy,
    LdxAb,
    LdxAby,
    LdyIm,
    LdyZp,
    LdyZpx,
    LdyAb,
    LdyAbx,
    StaZp,
    StaZpx,
    StaAb,
    StaAbx,
    StaAby,
    StaInx,
    StaIny,
    StxZp,
    StxZpy,
    StxAb,
    StyZp,
    StyZpx,
    StyAb,
    Tax,
    Tay,
    Txa,
    Tya,
    Tsx,
    Txs,
    Pha,
    Php,
    Pla,
    Plp,
    AndIm,
    AndZp,
    AndZpx,
    AndAb,
    AndAbx,
    AndAby,
    AndInx,
    AndIny,
    EorIm,
    EorZp,
    EorZpx,
    EorAb,
    EorAbx,
    EorAby,
    EorInx,
    EorIny,
    OrIm,
    OrZp,
    OrZpx,
    OrAb,
    OrAbx,
    OrAby,
    OrInx,
    OrIny,
    BitZp,
    BitAb,
    AslAcc,
    AslZp,
    AslZpx,
    AslAb,
    AslAbx,
    LsrAcc,
    LsrZp,
    LsrZpx,
    LsrAb,
    LsrAbx,
    RolAcc,
    RolZp,
    RolZpx,
    RolAb,
    RolAbx,
    RorAcc,
    RorZp,
    RorZpx,
    RorAb,
    RorAbx,
    AdcIm,
    AdcZp,
    AdcZpx,
    AdcAb,
    AdcAbx,
    AdcAby,
    AdcInx,
    AdcIny,
    SbcIm,
    SbcZp,
    SbcZpx,
    SbcAb,
    SbcAbx,
    SbcAby,
    SbcInx,
    SbcIny,
    IncZp,
    IncZpx,
    IncAb,
    IncAbx,
    Inx,
    Iny,
    DecZp,
    DecZpx,
    DecAb,
    DecAbx,
    Dex,
    Dey,
    CmpIm,
    CmpZp,
    CmpZpx,
    CmpAb,
    CmpAbx,
    CmpAby,
    CmpInx,
    CmpIny,
    CpxIm,
    CpxZp,
    CpxAb,
    CpyIm,
    CpyZp,
    CpyAb,
    JmpAb,
    JmpIn,
    Jsr,
    Rts,
    Bcc,
    Bcs,
    Beq,
    Bne,
    Bmi,
    Bpl,
    Bvs,
    Bvc,
    Clc,
    Cld,
    Cli,
    Clv,
    Sec,
    Sed,
    Sei,
    Brk,
    Rti,
    Nop,
}

/// The operation a fetched opcode byte decodes to; a byte outside the
/// table decodes to the no-operation.
pub open spec fn spec_decode(opcode: u8) -> Operation {
    match opcode {
        0x00 => Operation::Brk,
        0x01 => Operation::OrInx,
        0x05 => Operation::OrZp,
        0x06 => Operation::AslZp,
        0x08 => Operation::Php,
        0x09 => Operation::OrIm,
        0x0A => Operation::AslAcc,
        0x0D => Operation::OrAb,
        0x0E => Operation::AslAb,
        0x10 => Operation::Bpl,
        0x11 => Operation::OrIny,
        0x15 => Operation::OrZpx,
        0x16 => Operation::AslZpx,
        0x18 => Operation::Clc,
        0x19 => Operation::OrAby,
        0x1D => Operation::OrAbx,
        0x1E => Operation::AslAbx,
        0x20 => Operation::Jsr,
        0x21 => Operation::AndInx,
        0x24 => Operation::BitZp,
        0x25 => Operation::AndZp,
        0x26 => Operation::RolZp,
        0x28 => Operation::Plp,
        0x29 => Operation::AndIm,
        0x2A => Operation::RolAcc,
        0x2C => Operation::BitAb,
        0x2D => Operation::AndAb,
        0x2E => Operation::RolAb,
        0x30 => Operation::Bmi,
        0x31 => Operation::AndIny,
        0x35 => Operation::AndZpx,
        0x36 => Operation::RolZpx,
        0x38 => Operation::Sec,
        0x39 => Operation::AndAby,
        0x3D => Operation::AndAbx,
        0x3E => Operation::RolAbx,
        0x40 => Operation::Rti,
        0x41 => Operation::EorInx,
        0x45 => Operation::EorZp,
        0x46 => Operation::LsrZp,
        0x48 => Operation::Pha,
        0x49 => Operation::EorIm,
        0x4A => Operation::LsrAcc,
        0x4C => Operation::JmpAb,
        0x4D => Operation::EorAb,
        0x4E => Operation::LsrAb,
        0x50 => Operation::Bvc,
        0x51 => Operation::EorIny,
        0x55 => Operation::EorZpx,
        0x56 => Operation::LsrZpx,
        0x58 => Operation::Cli,
        0x59 => Operation::EorAby,
        0x5D => Operation::EorAbx,
        0x5E => Operation::LsrAbx,
        0x60 => Operation::Rts,
        0x61 => Operation::AdcInx,
        0x65 => Operation::AdcZp,
        0x66 => Operation::RorZp,
        0x68 => Operation::Pla,
        0x69 => Operation::AdcIm,
        0x6A => Operation::RorAcc,
        0x6C => Operation::JmpIn,
        0x6D => Operation::AdcAb,
        0x6E => Operation::RorAb,
        0x70 => Operation::Bvs,
        0x71 => Operation::AdcIny,
        0x75 => Operation::AdcZpx,
        0x76 => Operation::RorZpx,
        0x78 => Operation::Sei,
        0x79 => Operation::AdcAby,
        0x7D => Operation::AdcAbx,
        0x7E => Operation::RorAbx,
        0x81 => Operation::StaInx,
        0x84 => Operation::StyZp,
        0x85 => Operation::StaZp,
        0x86 => Operation::StxZp,
        0x88 => Operation::Dey,
        0x8A => Operation::Txa,
        0x8C => Operation::StyAb,
        0x8D => Operation::StaAb,
        0x8E => Operation::StxAb,
        0x90 => Operation::Bcc,
        0x91 => Operation::StaIny,
        0x94 => Operation::StyZpx,
        0x95 => Operation::StaZpx,
        0x96 => Operation::StxZpy,
        0x98 => Operation::Tya,
        0x99 => Operation::StaAby,
        0x9A => Operation::Txs,
        0x9D => Operation::StaAbx,
        0xA0 => Operation::LdyIm,
        0xA1 => Operation::LdaInx,
        0xA2 => Operation::LdxIm,
        0xA4 => Operation::LdyZp,
        0xA5 => Operation::LdaZp,
        0xA6 => Operation::LdxZp,
        0xA8 => Operation::Tay,
        0xA9 => Operation::LdaIm,
        0xAA => Operation::Tax,
        0xAC => Operation::LdyAb,
        0xAD => Operation::LdaAb,
        0xAE => Operation::LdxAb,
        0xB0 => Operation::Bcs,
        0xB1 => Operation::LdaIny,
        0xB4 => Operation::LdyZpx,
        0xB5 => Operation::LdaZpx,
        0xB6 => Operation::LdxZpy,
        0xB8 => Operation::Clv,
        0xB9 => Operation::LdaAby,
        0xBA => Operation::Tsx,
        0xBC => Operation::LdyAbx,
        0xBD => Operation::LdaAbx,
        0xBE => Operation::LdxAby,
        0xC0 => Operation::CpyIm,
        0xC1 => Operation::CmpInx,
        0xC4 => Operation::CpyZp,
        0xC5 => Operation::CmpZp,
        0xC6 => Operation::DecZp,
        0xC8 => Operation::Iny,
        0xC9 => Operation::CmpIm,
        0xCA => Operation::Dex,
        0xCC => Operation::CpyAb,
        0xCD => Operation::CmpAb,
        0xCE => Operation::DecAb,
        0xD0 => Operation::Bne,
        0xD1 => Operation::CmpIny,
        0xD5 => Operation::CmpZpx,
        0xD6 => Operation::DecZpx,
        0xD8 => Operation::Cld,
        0xD9 => Operation::CmpAby,
        0xDD => Operation::CmpAbx,
        0xDE => Operation::DecAbx,
        0xE0 => Operation::CpxIm,
        0xE1 => Operation::SbcInx,
        0xE4 => Operation::CpxZp,
        0xE5 => Operation::SbcZp,
        0xE6 => Operation::IncZp,
        0xE8 => Operation::Inx,
        0xE9 => Operation::SbcIm,
        0xEA => Operation::Nop,
        0xEC => Operation::CpxAb,
        0xED => Operation::SbcAb,
        0xEE => Operation::IncAb,
        0xF0 => Operation::Beq,
        0xF1 => Operation::SbcIny,
        0xF5 => Operation::SbcZpx,
        0xF6 => Operation::IncZpx,
        0xF8 => Operation::Sed,
        0xF9 => Operation::SbcAby,
        0xFD => Operation::SbcAbx,
        0xFE => Operation::IncAbx,
        _ => Operation::Nop,
    }
}

/// Decodes an opcode byte to its operation in constant time; unmapped
/// bytes resolve to the no-operation rather than failing
pub fn decode(opcode: u8) -> (r: Operation)
    ensures
        r == spec_decode(opcode),
{
    match opcode {
        0x00 => Operation::Brk,
        0x01 => Operation::OrInx,
        0x05 => Operation::OrZp,
        0x06 => Operation::AslZp,
        0x08 => Operation::Php,
        0x09 => Operation::OrIm,
        0x0A => Operation::AslAcc,
        0x0D => Operation::OrAb,
        0x0E => Operation::AslAb,
        0x10 => Operation::Bpl,
        0x11 => Operation::OrIny,
        0x15 => Operation::OrZpx,
        0x16 => Operation::AslZpx,
        0x18 => Operation::Clc,
        0x19 => Operation::OrAby,
        0x1D => Operation::OrAbx,
        0x1E => Operation::AslAbx,
        0x20 => Operation::Jsr,
        0x21 => Operation::AndInx,
        0x24 => Operation::BitZp,
        0x25 => Operation::AndZp,
        0x26 => Operation::RolZp,
        0x28 => Operation::Plp,
        0x29 => Operation::AndIm,
        0x2A => Operation::RolAcc,
        0x2C => Operation::BitAb,
        0x2D => Operation::AndAb,
        0x2E => Operation::RolAb,
        0x30 => Operation::Bmi,
        0x31 => Operation::AndIny,
        0x35 => Operation::AndZpx,
        0x36 => Operation::RolZpx,
        0x38 => Operation::Sec,
        0x39 => Operation::AndAby,
        0x3D => Operation::AndAbx,
        0x3E => Operation::RolAbx,
        0x40 => Operation::Rti,
        0x41 => Operation::EorInx,
        0x45 => Operation::EorZp,
        0x46 => Operation::LsrZp,
        0x48 => Operation::Pha,
        0x49 => Operation::EorIm,
        0x4A => Operation::LsrAcc,
        0x4C => Operation::JmpAb,
        0x4D => Operation::EorAb,
        0x4E => Operation::LsrAb,
        0x50 => Operation::Bvc,
        0x51 => Operation::EorIny,
        0x55 => Operation::EorZpx,
        0x56 => Operation::LsrZpx,
        0x58 => Operation::Cli,
        0x59 => Operation::EorAby,
        0x5D => Operation::EorAbx,
        0x5E => Operation::LsrAbx,
        0x60 => Operation::Rts,
        0x61 => Operation::AdcInx,
        0x65 => Operation::AdcZp,
        0x66 => Operation::RorZp,
        0x68 => Operation::Pla,
        0x69 => Operation::AdcIm,
        0x6A => Operation::RorAcc,
        0x6C => Operation::JmpIn,
        0x6D => Operation::AdcAb,
        0x6E => Operation::RorAb,
        0x70 => Operation::Bvs,
        0x71 => Operation::AdcIny,
        0x75 => Operation::AdcZpx,
        0x76 => Operation::RorZpx,
        0x78 => Operation::Sei,
        0x79 => Operation::AdcAby,
        0x7D => Operation::AdcAbx,
        0x7E => Operation::RorAbx,
        0x81 => Operation::StaInx,
        0x84 => Operation::StyZp,
        0x85 => Operation::StaZp,
        0x86 => Operation::StxZp,
        0x88 => Operation::Dey,
        0x8A => Operation::Txa,
        0x8C => Operation::StyAb,
        0x8D => Operation::StaAb,
        0x8E => Operation::StxAb,
        0x90 => Operation::Bcc,
        0x91 => Operation::StaIny,
        0x94 => Operation::StyZpx,
        0x95 => Operation::StaZpx,
        0x96 => Operation::StxZpy,
        0x98 => Operation::Tya,
        0x99 => Operation::StaAby,
        0x9A => Operation::Txs,
        0x9D => Operation::StaAbx,
        0xA0 => Operation::LdyIm,
        0xA1 => Operation::LdaInx,
        0xA2 => Operation::LdxIm,
        0xA4 => Operation::LdyZp,
        0xA5 => Operation::LdaZp,
        0xA6 => Operation::LdxZp,
        0xA8 => Operation::Tay,
        0xA9 => Operation::LdaIm,
        0xAA => Operation::Tax,
        0xAC => Operation::LdyAb,
        0xAD => Operation::LdaAb,
        0xAE => Operation::LdxAb,
        0xB0 => Operation::Bcs,
        0xB1 => Operation::LdaIny,
        0xB4 => Operation::LdyZpx,
        0xB5 => Operation::LdaZpx,
        0xB6 => Operation::LdxZpy,
        0xB8 => Operation::Clv,
        0xB9 => Operation::LdaAby,
        0xBA => Operation::Tsx,
        0xBC => Operation::LdyAbx,
        0xBD => Operation::LdaAbx,
        0xBE => Operation::LdxAby,
        0xC0 => Operation::CpyIm,
        0xC1 => Operation::CmpInx,
        0xC4 => Operation::CpyZp,
        0xC5 => Operation::CmpZp,
        0xC6 => Operation::DecZp,
        0xC8 => Operation::Iny,
        0xC9 => Operation::CmpIm,
        0xCA => Operation::Dex,
        0xCC => Operation::CpyAb,
        0xCD => Operation::CmpAb,
        0xCE => Operation::DecAb,
        0xD0 => Operation::Bne,
        0xD1 => Operation::CmpIny,
        0xD5 => Operation::CmpZpx,
        0xD6 => Operation::DecZpx,
        0xD8 => Operation::Cld,
        0xD9 => Operation::CmpAby,
        0xDD => Operation::CmpAbx,
        0xDE => Operation::DecAbx,
        0xE0 => Operation::CpxIm,
        0xE1 => Operation::SbcInx,
        0xE4 => Operation::CpxZp,
        0xE5 => Operation::SbcZp,
        0xE6 => Operation::IncZp,
        0xE8 => Operation::Inx,
        0xE9 => Operation::SbcIm,
        0xEA => Operation::Nop,
        0xEC => Operation::CpxAb,
        0xED => Operation::SbcAb,
        0xEE => Operation::IncAb,
        0xF0 => Operation::Beq,
        0xF1 => Operation::SbcIny,
        0xF5 => Operation::SbcZpx,
        0xF6 => Operation::IncZpx,
        0xF8 => Operation::Sed,
        0xF9 => Operation::SbcAby,
        0xFD => Operation::SbcAbx,
        0xFE => Operation::IncAbx,
        _ => Operation::Nop,
    }
}

/// The opcode byte that an operation is decoded from.
pub open spec fn spec_opcode_of(op: Operation) -> u8 {
    match op {
        Operation::LdaIm => 0xA9,
        Operation::LdaZp => 0xA5,
        Operation::LdaZpx => 0xB5,
        Operation::LdaAb => 0xAD,
        Operation::LdaAbx => 0xBD,
        Operation::LdaAby => 0xB9,
        Operation::LdaInx => 0xA1,
        Operation::LdaIny => 0xB1,
        Operation::LdxIm => 0xA2,
        Operation::LdxZp => 0xA6,
        Operation::LdxZpy => 0xB6,
        Operation::LdxAb => 0xAE,
        Operation::LdxAby => 0xBE,
        Operation::LdyIm => 0xA0,
        Operation::LdyZp => 0xA4,
        Operation::LdyZpx => 0xB4,
        Operation::LdyAb => 0xAC,
        Operation::LdyAbx => 0xBC,
        Operation::StaZp => 0x85,
        Operation::StaZpx => 0x95,
        Operation::StaAb => 0x8D,
        Operation::StaAbx => 0x9D,
        Operation::StaAby => 0x99,
        Operation::StaInx => 0x81,
        Operation::StaIny => 0x91,
        Operation::StxZp => 0x86,
        Operation::StxZpy => 0x96,
        Operation::StxAb => 0x8E,
        Operation::StyZp => 0x84,
        Operation::StyZpx => 0x94,
        Operation::StyAb => 0x8C,
        Operation::Tax => 0xAA,
        Operation::Tay => 0xA8,
        Operation::Txa => 0x8A,
        Operation::Tya => 0x98,
        Operation::Tsx => 0xBA,
        Operation::Txs => 0x9A,
        Operation::Pha => 0x48,
        Operation::Php => 0x08,
        Operation::Pla => 0x68,
        Operation::Plp => 0x28,
        Operation::AndIm => 0x29,
        Operation::AndZp => 0x25,
        Operation::AndZpx => 0x35,
        Operation::AndAb => 0x2D,
        Operation::AndAbx => 0x3D,
        Operation::AndAby => 0x39,
        Operation::AndInx => 0x21,
        Operation::AndIny => 0x31,
        Operation::EorIm => 0x49,
        Operation::EorZp => 0x45,
        Operation::EorZpx => 0x55,
        Operation::EorAb => 0x4D,
        Operation::EorAbx => 0x5D,
        Operation::EorAby => 0x59,
        Operation::EorInx => 0x41,
        Operation::EorIny => 0x51,
        Operation::OrIm => 0x09,
        Operation::OrZp => 0x05,
        Operation::OrZpx => 0x15,
        Operation::OrAb => 0x0D,
        Operation::OrAbx => 0x1D,
        Operation::OrAby => 0x19,
        Operation::OrInx => 0x01,
        Operation::OrIny => 0x11,
        Operation::BitZp => 0x24,
        Operation::BitAb => 0x2C,
        Operation::AslAcc => 0x0A,
        Operation::AslZp => 0x06,
        Operation::AslZpx => 0x16,
        Operation::AslAb => 0x0E,
        Operation::AslAbx => 0x1E,
        Operation::LsrAcc => 0x4A,
        Operation::LsrZp => 0x46,
        Operation::LsrZpx => 0x56,
        Operation::LsrAb => 0x4E,
        Operation::LsrAbx => 0x5E,
        Operation::RolAcc => 0x2A,
        Operation::RolZp => 0x26,
        Operation::RolZpx => 0x36,
        Operation::RolAb => 0x2E,
        Operation::RolAbx => 0x3E,
        Operation::RorAcc => 0x6A,
        Operation::RorZp => 0x66,
        Operation::RorZpx => 0x76,
        Operation::RorAb => 0x6E,
        Operation::RorAbx => 0x7E,
        Operation::AdcIm => 0x69,
        Operation::AdcZp => 0x65,
        Operation::AdcZpx => 0x75,
        Operation::AdcAb => 0x6D,
        Operation::AdcAbx => 0x7D,
        Operation::AdcAby => 0x79,
        Operation::AdcInx => 0x61,
        Operation::AdcIny => 0x71,
        Operation::SbcIm => 0xE9,
        Operation::SbcZp => 0xE5,
        Operation::SbcZpx => 0xF5,
        Operation::SbcAb => 0xED,
        Operation::SbcAbx => 0xFD,
        Operation::SbcAby => 0xF9,
        Operation::SbcInx => 0xE1,
        Operation::SbcIny => 0xF1,
        Operation::IncZp => 0xE6,
        Operation::IncZpx => 0xF6,
        Operation::IncAb => 0xEE,
        Operation::IncAbx => 0xFE,
        Operation::Inx => 0xE8,
        Operation::Iny => 0xC8,
        Operation::DecZp => 0xC6,
        Operation::DecZpx => 0xD6,
        Operation::DecAb => 0xCE,
        Operation::DecAbx => 0xDE,
        Operation::Dex => 0xCA,
        Operation::Dey => 0x88,
        Operation::CmpIm => 0xC9,
        Operation::CmpZp => 0xC5,
        Operation::CmpZpx => 0xD5,
        Operation::CmpAb => 0xCD,
        Operation::CmpAbx => 0xDD,
        Operation::CmpAby => 0xD9,
        Operation::CmpInx => 0xC1,
        Operation::CmpIny => 0xD1,
        Operation::CpxIm => 0xE0,
        Operation::CpxZp => 0xE4,
        Operation::CpxAb => 0xEC,
        Operation::CpyIm => 0xC0,
        Operation::CpyZp => 0xC4,
        Operation::CpyAb => 0xCC,
        Operation::JmpAb => 0x4C,
        Operation::JmpIn => 0x6C,
        Operation::Jsr => 0x20,
        Operation::Rts => 0x60,
        Operation::Bcc => 0x90,
        Operation::Bcs => 0xB0,
        Operation::Beq => 0xF0,
        Operation::Bne => 0xD0,
        Operation::Bmi => 0x30,
        Operation::Bpl => 0x10,
        Operation::Bvs => 0x70,
        Operation::Bvc => 0x50,
        Operation::Clc => 0x18,
        Operation::Cld => 0xD8,
        Operation::Cli => 0x58,
        Operation::Clv => 0xB8,
        Operation::Sec => 0x38,
        Operation::Sed => 0xF8,
        Operation::Sei => 0x78,
        Operation::Brk => 0x00,
        Operation::Rti => 0x40,
        Operation::Nop => 0xEA,
    }
}

/// Returns the opcode byte of an operation; decoding that byte gives the
/// operation back
pub fn opcode_from_operation(op: Operation) -> (r: u8)
    ensures
        r == spec_opcode_of(op),
        spec_decode(r) == op,
{
    match op {
        Operation::LdaIm => 0xA9,
        Operation::LdaZp => 0xA5,
        Operation::LdaZpx => 0xB5,
        Operation::LdaAb => 0xAD,
        Operation::LdaAbx => 0xBD,
        Operation::LdaAby => 0xB9,
        Operation::LdaInx => 0xA1,
        Operation::LdaIny => 0xB1,
        Operation::LdxIm => 0xA2,
        Operation::LdxZp => 0xA6,
        Operation::LdxZpy => 0xB6,
        Operation::LdxAb => 0xAE,
        Operation::LdxAby => 0xBE,
        Operation::LdyIm => 0xA0,
        Operation::LdyZp => 0xA4,
        Operation::LdyZpx => 0xB4,
        Operation::LdyAb => 0xAC,
        Operation::LdyAbx => 0xBC,
        Operation::StaZp => 0x85,
        Operation::StaZpx => 0x95,
        Operation::StaAb => 0x8D,
        Operation::StaAbx => 0x9D,
        Operation::StaAby => 0x99,
        Operation::StaInx => 0x81,
        Operation::StaIny => 0x91,
        Operation::StxZp => 0x86,
        Operation::StxZpy => 0x96,
        Operation::StxAb => 0x8E,
        Operation::StyZp => 0x84,
        Operation::StyZpx => 0x94,
        Operation::StyAb => 0x8C,
        Operation::Tax => 0xAA,
        Operation::Tay => 0xA8,
        Operation::Txa => 0x8A,
        Operation::Tya => 0x98,
        Operation::Tsx => 0xBA,
        Operation::Txs => 0x9A,
        Operation::Pha => 0x48,
        Operation::Php => 0x08,
        Operation::Pla => 0x68,
        Operation::Plp => 0x28,
        Operation::AndIm => 0x29,
        Operation::AndZp => 0x25,
        Operation::AndZpx => 0x35,
        Operation::AndAb => 0x2D,
        Operation::AndAbx => 0x3D,
        Operation::AndAby => 0x39,
        Operation::AndInx => 0x21,
        Operation::AndIny => 0x31,
        Operation::EorIm => 0x49,
        Operation::EorZp => 0x45,
        Operation::EorZpx => 0x55,
        Operation::EorAb => 0x4D,
        Operation::EorAbx => 0x5D,
        Operation::EorAby => 0x59,
        Operation::EorInx => 0x41,
        Operation::EorIny => 0x51,
        Operation::OrIm => 0x09,
        Operation::OrZp => 0x05,
        Operation::OrZpx => 0x15,
        Operation::OrAb => 0x0D,
        Operation::OrAbx => 0x1D,
        Operation::OrAby => 0x19,
        Operation::OrInx => 0x01,
        Operation::OrIny => 0x11,
        Operation::BitZp => 0x24,
        Operation::BitAb => 0x2C,
        Operation::AslAcc => 0x0A,
        Operation::AslZp => 0x06,
        Operation::AslZpx => 0x16,
        Operation::AslAb => 0x0E,
        Operation::AslAbx => 0x1E,
        Operation::LsrAcc => 0x4A,
        Operation::LsrZp => 0x46,
        Operation::LsrZpx => 0x56,
        Operation::LsrAb => 0x4E,
        Operation::LsrAbx => 0x5E,
        Operation::RolAcc => 0x2A,
        Operation::RolZp => 0x26,
        Operation::RolZpx => 0x36,
        Operation::RolAb => 0x2E,
        Operation::RolAbx => 0x3E,
        Operation::RorAcc => 0x6A,
        Operation::RorZp => 0x66,
        Operation::RorZpx => 0x76,
        Operation::RorAb => 0x6E,
        Operation::RorAbx => 0x7E,
        Operation::AdcIm => 0x69,
        Operation::AdcZp => 0x65,
        Operation::AdcZpx => 0x75,
        Operation::AdcAb => 0x6D,
        Operation::AdcAbx => 0x7D,
        Operation::AdcAby => 0x79,
        Operation::AdcInx => 0x61,
        Operation::AdcIny => 0x71,
        Operation::SbcIm => 0xE9,
        Operation::SbcZp => 0xE5,
        Operation::SbcZpx => 0xF5,
        Operation::SbcAb => 0xED,
        Operation::SbcAbx => 0xFD,
        Operation::SbcAby => 0xF9,
        Operation::SbcInx => 0xE1,
        Operation::SbcIny => 0xF1,
        Operation::IncZp => 0xE6,
        Operation::IncZpx => 0xF6,
        Operation::IncAb => 0xEE,
        Operation::IncAbx => 0xFE,
        Operation::Inx => 0xE8,
        Operation::Iny => 0xC8,
        Operation::DecZp => 0xC6,
        Operation::DecZpx => 0xD6,
        Operation::DecAb => 0xCE,
        Operation::DecAbx => 0xDE,
        Operation::Dex => 0xCA,
        Operation::Dey => 0x88,
        Operation::CmpIm => 0xC9,
        Operation::CmpZp => 0xC5,
        Operation::CmpZpx => 0xD5,
        Operation::CmpAb => 0xCD,
        Operation::CmpAbx => 0xDD,
        Operation::CmpAby => 0xD9,
        Operation::CmpInx => 0xC1,
        Operation::CmpIny => 0xD1,
        Operation::CpxIm => 0xE0,
        Operation::CpxZp => 0xE4,
        Operation::CpxAb => 0xEC,
        Operation::CpyIm => 0xC0,
        Operation::CpyZp => 0xC4,
        Operation::CpyAb => 0xCC,
        Operation::JmpAb => 0x4C,
        Operation::JmpIn => 0x6C,
        Operation::Jsr => 0x20,
        Operation::Rts => 0x60,
        Operation::Bcc => 0x90,
        Operation::Bcs => 0xB0,
        Operation::Beq => 0xF0,
        Operation::Bne => 0xD0,
        Operation::Bmi => 0x30,
        Operation::Bpl => 0x10,
        Operation::Bvs => 0x70,
        Operation::Bvc => 0x50,
        Operation::Clc => 0x18,
        Operation::Cld => 0xD8,
        Operation::Cli => 0x58,
        Operation::Clv => 0xB8,
        Operation::Sec => 0x38,
        Operation::Sed => 0xF8,
        Operation::Sei => 0x78,
        Operation::Brk => 0x00,
        Operation::Rti => 0x40,
        Operation::Nop => 0xEA,
    }
}

/// The name of an operation, as its mnemonic plus the addressing-mode
/// suffix of the function that implements it.
pub open spec fn spec_operation_name(op: Operation) -> Seq<char> {
    match op {
        Operation::LdaIm => "lda_im"@,
        Operation::LdaZp => "lda_zp"@,
        Operation::LdaZpx => "lda_zpx"@,
        Operation::LdaAb => "lda_ab"@,
        Operation::LdaAbx => "lda_abx"@,
        Operation::LdaAby => "lda_aby"@,
        Operation::LdaInx => "lda_inx"@,
        Operation::LdaIny => "lda_iny"@,
        Operation::LdxIm => "ldx_im"@,
        Operation::LdxZp => "ldx_zp"@,
        Operation::LdxZpy => "ldx_zpy"@,
        Operation::LdxAb => "ldx_ab"@,
        Operation::LdxAby => "ldx_aby"@,
        Operation::LdyIm => "ldy_im"@,
        Operation::LdyZp => "ldy_zp"@,
        Operation::LdyZpx => "ldy_zpx"@,
        Operation::LdyAb => "ldy_ab"@,
        Operation::LdyAbx => "ldy_abx"@,
        Operation::StaZp => "sta_zp"@,
        Operation::StaZpx => "sta_zpx"@,
        Operation::StaAb => "sta_ab"@,
        Operation::StaAbx => "sta_abx"@,
        Operation::StaAby => "sta_aby"@,
        Operation::StaInx => "sta_inx"@,
        Operation::StaIny => "sta_iny"@,
        Operation::StxZp => "stx_zp"@,
        Operation::StxZpy => "stx_zpy"@,
        Operation::StxAb => "stx_ab"@,
        Operation::StyZp => "sty_zp"@,
        Operation::StyZpx => "sty_zpx"@,
        Operation::StyAb => "sty_ab"@,
        Operation::Tax => "tax"@,
        Operation::Tay => "tay"@,
        Operation::Txa => "txa"@,
        Operation::Tya => "tya"@,
        Operation::Tsx => "tsx"@,
        Operation::Txs => "txs"@,
        Operation::Pha => "pha"@,
        Operation::Php => "php"@,
        Operation::Pla => "pla"@,
        Operation::Plp => "plp"@,
        Operation::AndIm => "and_im"@,
        Operation::AndZp => "and_zp"@,
        Operation::AndZpx => "and_zpx"@,
        Operation::AndAb => "and_ab"@,
        Operation::AndAbx => "and_abx"@,
        Operation::AndAby => "and_aby"@,
        Operation::AndInx => "and_inx"@,
        Operation::AndIny => "and_iny"@,
        Operation::EorIm => "eor_im"@,
        Operation::EorZp => "eor_zp"@,
        Operation::EorZpx => "eor_zpx"@,
        Operation::EorAb => "eor_ab"@,
        Operation::EorAbx => "eor_abx"@,
        Operation::EorAby => "eor_aby"@,
        Operation::EorInx => "eor_inx"@,
        Operation::EorIny => "eor_iny"@,
        Operation::OrIm => "or_im"@,
        Operation::OrZp => "or_zp"@,
        Operation::OrZpx => "or_zpx"@,
        Operation::OrAb => "or_ab"@,
        Operation::OrAbx => "or_abx"@,
        Operation::OrAby => "or_aby"@,
        Operation::OrInx => "or_inx"@,
        Operation::OrIny => "or_iny"@,
        Operation::BitZp => "bit_zp"@,
        Operation::BitAb => "bit_ab"@,
        Operation::AslAcc => "asl_acc"@,
        Operation::AslZp => "asl_zp"@,
        Operation::AslZpx => "asl_zpx"@,
        Operation::AslAb => "asl_ab"@,
        Operation::AslAbx => "asl_abx"@,
        Operation::LsrAcc => "lsr_acc"@,
        Operation::LsrZp => "lsr_zp"@,
        Operation::LsrZpx => "lsr_zpx"@,
        Operation::LsrAb => "lsr_ab"@,
        Operation::LsrAbx => "lsr_abx"@,
        Operation::RolAcc => "rol_acc"@,
        Operation::RolZp => "rol_zp"@,
        Operation::RolZpx => "rol_zpx"@,
        Operation::RolAb => "rol_ab"@,
        Operation::RolAbx => "rol_abx"@,
        Operation::RorAcc => "ror_acc"@,
        Operation::RorZp => "ror_zp"@,
        Operation::RorZpx => "ror_zpx"@,
        Operation::RorAb => "ror_ab"@,
        Operation::RorAbx => "ror_abx"@,
        Operation::AdcIm => "adc_im"@,
        Operation::AdcZp => "adc_zp"@,
        Operation::AdcZpx => "adc_zpx"@,
        Operation::AdcAb => "adc_ab"@,
        Operation::AdcAbx => "adc_abx"@,
        Operation::AdcAby => "adc_aby"@,
        Operation::AdcInx => "adc_inx"@,
        Operation::AdcIny => "adc_iny"@,
        Operation::SbcIm => "sbc_im"@,
        Operation::SbcZp => "sbc_zp"@,
        Operation::SbcZpx => "sbc_zpx"@,
        Operation::SbcAb => "sbc_ab"@,
        Operation::SbcAbx => "sbc_abx"@,
        Operation::SbcAby => "sbc_aby"@,
        Operation::SbcInx => "sbc_inx"@,
        Operation::SbcIny => "sbc_iny"@,
        Operation::IncZp => "inc_zp"@,
        Operation::IncZpx => "inc_zpx"@,
        Operation::IncAb => "inc_ab"@,
        Operation::IncAbx => "inc_abx"@,
        Operation::Inx => "inx"@,
        Operation::Iny => "iny"@,
        Operation::DecZp => "dec_zp"@,
        Operation::DecZpx => "dec_zpx"@,
        Operation::DecAb => "dec_ab"@,
        Operation::DecAbx => "dec_abx"@,
        Operation::Dex => "dex"@,
        Operation::Dey => "dey"@,
        Operation::CmpIm => "cmp_im"@,
        Operation::CmpZp => "cmp_zp"@,
        Operation::CmpZpx => "cmp_zpx"@,
        Operation::CmpAb => "cmp_ab"@,
        Operation::CmpAbx => "cmp_abx"@,
        Operation::CmpAby => "cmp_aby"@,
        Operation::CmpInx => "cmp_inx"@,
        Operation::CmpIny => "cmp_iny"@,
        Operation::CpxIm => "cpx_im"@,
        Operation::CpxZp => "cpx_zp"@,
        Operation::CpxAb => "cpx_ab"@,
        Operation::CpyIm => "cpy_im"@,
        Operation::CpyZp => "cpy_zp"@,
        Operation::CpyAb => "cpy_ab"@,
        Operation::JmpAb => "jmp_ab"@,
        Operation::JmpIn => "jmp_in"@,
        Operation::Jsr => "jsr"@,
        Operation::Rts => "rts"@,
        Operation::Bcc => "bcc"@,
        Operation::Bcs => "bcs"@,
        Operation::Beq => "beq"@,
        Operation::Bne => "bne"@,
        Operation::Bmi => "bmi"@,
        Operation::Bpl => "bpl"@,
        Operation::Bvs => "bvs"@,
        Operation::Bvc => "bvc"@,
        Operation::Clc => "clc"@,
        Operation::Cld => "cld"@,
        Operation::Cli => "cli"@,
        Operation::Clv => "clv"@,
        Operation::Sec => "sec"@,
        Operation::Sed => "sed"@,
        Operation::Sei => "sei"@,
        Operation::Brk => "brk"@,
        Operation::Rti => "rti"@,
        Operation::Nop => "nop"@,
    }
}

/// Returns the name of the operation an opcode byte decodes to
pub fn decode_operation_name(opcode: u8) -> (r: &'static str)
    ensures
        r@ == spec_operation_name(spec_decode(opcode)),
{
    match decode(opcode) {
        Operation::LdaIm => "lda_im",
        Operation::LdaZp => "lda_zp",
        Operation::LdaZpx => "lda_zpx",
        Operation::LdaAb => "lda_ab",
        Operation::LdaAbx => "lda_abx",
        Operation::LdaAby => "lda_aby",
        Operation::LdaInx => "lda_inx",
        Operation::LdaIny => "lda_iny",
        Operation::LdxIm => "ldx_im",
        Operation::LdxZp => "ldx_zp",
        Operation::LdxZpy => "ldx_zpy",
        Operation::LdxAb => "ldx_ab",
        Operation::LdxAby => "ldx_aby",
        Operation::LdyIm => "ldy_im",
        Operation::LdyZp => "ldy_zp",
        Operation::LdyZpx => "ldy_zpx",
        Operation::LdyAb => "ldy_ab",
        Operation::LdyAbx => "ldy_abx",
        Operation::StaZp => "sta_zp",
        Operation::StaZpx => "sta_zpx",
        Operation::StaAb => "sta_ab",
        Operation::StaAbx => "sta_abx",
        Operation::StaAby => "sta_aby",
        Operation::StaInx => "sta_inx",
        Operation::StaIny => "sta_iny",
        Operation::StxZp => "stx_zp",
        Operation::StxZpy => "stx_zpy",
        Operation::StxAb => "stx_ab",
        Operation::StyZp => "sty_zp",
        Operation::StyZpx => "sty_zpx",
        Operation::StyAb => "sty_ab",
        Operation::Tax => "tax",
        Operation::Tay => "tay",
        Operation::Txa => "txa",
        Operation::Tya => "tya",
        Operation::Tsx => "tsx",
        Operation::Txs => "txs",
        Operation::Pha => "pha",
        Operation::Php => "php",
        Operation::Pla => "pla",
        Operation::Plp => "plp",
        Operation::AndIm => "and_im",
        Operation::AndZp => "and_zp",
        Operation::AndZpx => "and_zpx",
        Operation::AndAb => "and_ab",
        Operation::AndAbx => "and_abx",
        Operation::AndAby => "and_aby",
        Operation::AndInx => "and_inx",
        Operation::AndIny => "and_iny",
        Operation::EorIm => "eor_im",
        Operation::EorZp => "eor_zp",
        Operation::EorZpx => "eor_zpx",
        Operation::EorAb => "eor_ab",
        Operation::EorAbx => "eor_abx",
        Operation::EorAby => "eor_aby",
        Operation::EorInx => "eor_inx",
        Operation::EorIny => "eor_iny",
        Operation::OrIm => "or_im",
        Operation::OrZp => "or_zp",
        Operation::OrZpx => "or_zpx",
        Operation::OrAb => "or_ab",
        Operation::OrAbx => "or_abx",
        Operation::OrAby => "or_aby",
        Operation::OrInx => "or_inx",
        Operation::OrIny => "or_iny",
        Operation::BitZp => "bit_zp",
        Operation::BitAb => "bit_ab",
        Operation::AslAcc => "asl_acc",
        Operation::AslZp => "asl_zp",
        Operation::AslZpx => "asl_zpx",
        Operation::AslAb => "asl_ab",
        Operation::AslAbx => "asl_abx",
        Operation::LsrAcc => "lsr_acc",
        Operation::LsrZp => "lsr_zp",
        Operation::LsrZpx => "lsr_zpx",
        Operation::LsrAb => "lsr_ab",
        Operation::LsrAbx => "lsr_abx",
        Operation::RolAcc => "rol_acc",
        Operation::RolZp => "rol_zp",
        Operation::RolZpx => "rol_zpx",
        Operation::RolAb => "rol_ab",
        Operation::RolAbx => "rol_abx",
        Operation::RorAcc => "ror_acc",
        Operation::RorZp => "ror_zp",
        Operation::RorZpx => "ror_zpx",
        Operation::RorAb => "ror_ab",
        Operation::RorAbx => "ror_abx",
        Operation::AdcIm => "adc_im",
        Operation::AdcZp => "adc_zp",
        Operation::AdcZpx => "adc_zpx",
        Operation::AdcAb => "adc_ab",
        Operation::AdcAbx => "adc_abx",
        Operation::AdcAby => "adc_aby",
        Operation::AdcInx => "adc_inx",
        Operation::AdcIny => "adc_iny",
        Operation::SbcIm => "sbc_im",
        Operation::SbcZp => "sbc_zp",
        Operation::SbcZpx => "sbc_zpx",
        Operation::SbcAb => "sbc_ab",
        Operation::SbcAbx => "sbc_abx",
        Operation::SbcAby => "sbc_aby",
        Operation::SbcInx => "sbc_inx",
        Operation::SbcIny => "sbc_iny",
        Operation::IncZp => "inc_zp",
        Operation::IncZpx => "inc_zpx",
        Operation::IncAb => "inc_ab",
        Operation::IncAbx => "inc_abx",
        Operation::Inx => "inx",
        Operation::Iny => "iny",
        Operation::DecZp => "dec_zp",
        Operation::DecZpx => "dec_zpx",
        Operation::DecAb => "dec_ab",
        Operation::DecAbx => "dec_abx",
        Operation::Dex => "dex",
        Operation::Dey => "dey",
        Operation::CmpIm => "cmp_im",
        Operation::CmpZp => "cmp_zp",
        Operation::CmpZpx => "cmp_zpx",
        Operation::CmpAb => "cmp_ab",
        Operation::CmpAbx => "cmp_abx",
        Operation::CmpAby => "cmp_aby",
        Operation::CmpInx => "cmp_inx",
        Operation::CmpIny => "cmp_iny",
        Operation::CpxIm => "cpx_im",
        Operation::CpxZp => "cpx_zp",
        Operation::CpxAb => "cpx_ab",
        Operation::CpyIm => "cpy_im",
        Operation::CpyZp => "cpy_zp",
        Operation::CpyAb => "cpy_ab",
        Operation::JmpAb => "jmp_ab",
        Operation::JmpIn => "jmp_in",
        Operation::Jsr => "jsr",
        Operation::Rts => "rts",
        Operation::Bcc => "bcc",
        Operation::Bcs => "bcs",
        Operation::Beq => "beq",
        Operation::Bne => "bne",
        Operation::Bmi => "bmi",
        Operation::Bpl => "bpl",
        Operation::Bvs => "bvs",
        Operation::Bvc => "bvc",
        Operation::Clc => "clc",
        Operation::Cld => "cld",
        Operation::Cli => "cli",
        Operation::Clv => "clv",
        Operation::Sec => "sec",
        Operation::Sed => "sed",
        Operation::Sei => "sei",
        Operation::Brk => "brk",
        Operation::Rti => "rti",
        Operation::Nop => "nop",
    }
}

/// What one operation does to the machine: the denotation that every
/// instruction function is proved against, and that `execute_next`'s
/// contract composes with decoding.
pub open spec fn step_op(s: CpuView, op: Operation) -> CpuView {
    match op {
        Operation::LdaIm => load_store::spec_lda_im(s),
        Operation::LdaZp => load_store::spec_lda_zp(s),
        Operation::LdaZpx => load_store::spec_lda_zpx(s),
        Operation::LdaAb => load_store::spec_lda_ab(s),
        Operation::LdaAbx => load_store::spec_lda_abx(s),
        Operation::LdaAby => load_store::spec_lda_aby(s),
        Operation::LdaInx => load_store::spec_lda_inx(s),
        Operation::LdaIny => load_store::spec_lda_iny(s),
        Operation::LdxIm => load_store::spec_ldx_im(s),
        Operation::LdxZp => load_store::spec_ldx_zp(s),
        Operation::LdxZpy => load_store::spec_ldx_zpy(s),
        Operation::LdxAb => load_store::spec_ldx_ab(s),
        Operation::LdxAby => load_store::spec_ldx_aby(s),
        Operation::LdyIm => load_store::spec_ldy_im(s),
        Operation::LdyZp => load_store::spec_ldy_zp(s),
        Operation::LdyZpx => load_store::spec_ldy_zpx(s),
        Operation::LdyAb => load_store::spec_ldy_ab(s),
        Operation::LdyAbx => load_store::spec_ldy_abx(s),
        Operation::StaZp => load_store::spec_sta_zp(s),
        Operation::StaZpx => load_store::spec_sta_zpx(s),
        Operation::StaAb => load_store::spec_sta_ab(s),
        Operation::StaAbx => load_store::spec_sta_abx(s),
        Operation::StaAby => load_store::spec_sta_aby(s),
        Operation::StaInx => load_store::spec_sta_inx(s),
        Operation::StaIny => load_store::spec_sta_iny(s),
        Operation::StxZp => load_store::spec_stx_zp(s),
        Operation::StxZpy => load_store::spec_stx_zpy(s),
        Operation::StxAb => load_store::spec_stx_ab(s),
        Operation::StyZp => load_store::spec_sty_zp(s),
        Operation::StyZpx => load_store::spec_sty_zpx(s),
        Operation::StyAb => load_store::spec_sty_ab(s),
        Operation::Tax => register_transfers::spec_tax(s),
        Operation::Tay => register_transfers::spec_tay(s),
        Operation::Txa => register_transfers::spec_txa(s),
        Operation::Tya => register_transfers::spec_tya(s),
        Operation::Tsx => stack::spec_tsx(s),
        Operation::Txs => stack::spec_txs(s),
        Operation::Pha => stack::spec_pha(s),
        Operation::Php => stack::spec_php(s),
        Operation::Pla => stack::spec_pla(s),
        Operation::Plp => stack::spec_plp(s),
        Operation::AndIm => bitwise::spec_and_im(s),
        Operation::AndZp => bitwise::spec_and_zp(s),
        Operation::AndZpx => bitwise::spec_and_zpx(s),
        Operation::AndAb => bitwise::spec_and_ab(s),
        Operation::AndAbx => bitwise::spec_and_abx(s),
        Operation::AndAby => bitwise::spec_and_aby(s),
        Operation::AndInx => bitwise::spec_and_inx(s),
        Operation::AndIny => bitwise::spec_and_iny(s),
        Operation::EorIm => bitwise::spec_eor_im(s),
        Operation::EorZp => bitwise::spec_eor_zp(s),
        Operation::EorZpx => bitwise::spec_eor_zpx(s),
        Operation::EorAb => bitwise::spec_eor_ab(s),
        Operation::EorAbx => bitwise::spec_eor_abx(s),
        Operation::EorAby => bitwise::spec_eor_aby(s),
        Operation::EorInx => bitwise::spec_eor_inx(s),
        Operation::EorIny => bitwise::spec_eor_iny(s),
        Operation::OrIm => bitwise::spec_or_im(s),
        Operation::OrZp => bitwise::spec_or_zp(s),
        Operation::OrZpx => bitwise::spec_or_zpx(s),
        Operation::OrAb => bitwise::spec_or_ab(s),
        Operation::OrAbx => bitwise::spec_or_abx(s),
        Operation::OrAby => bitwise::spec_or_aby(s),
        Operation::OrInx => bitwise::spec_or_inx(s),
        Operation::OrIny => bitwise::spec_or_iny(s),
        Operation::BitZp => bitwise::spec_bit_zp(s),
        Operation::BitAb => bitwise::spec_bit_ab(s),
        Operation::AslAcc => bitwise::spec_asl_acc(s),
        Operation::AslZp => bitwise::spec_asl_zp(s),
        Operation::AslZpx => bitwise::spec_asl_zpx(s),
        Operation::AslAb => bitwise::spec_asl_ab(s),
        Operation::AslAbx => bitwise::spec_asl_abx(s),
        Operation::LsrAcc => bitwise::spec_lsr_acc(s),
        Operation::LsrZp => bitwise::spec_lsr_zp(s),
        Operation::LsrZpx => bitwise::spec_lsr_zpx(s),
        Operation::LsrAb => bitwise::spec_lsr_ab(s),
        Operation::LsrAbx => bitwise::spec_lsr_abx(s),
        Operation::RolAcc => bitwise::spec_rol_acc(s),
        Operation::RolZp => bitwise::spec_rol_zp(s),
        Operation::RolZpx => bitwise::spec_rol_zpx(s),
        Operation::RolAb => bitwise::spec_rol_ab(s),
        Operation::RolAbx => bitwise::spec_rol_abx(s),
        Operation::RorAcc => bitwise::spec_ror_acc(s),
        Operation::RorZp => bitwise::spec_ror_zp(s),
        Operation::RorZpx => bitwise::spec_ror_zpx(s),
        Operation::RorAb => bitwise::spec_ror_ab(s),
        Operation::RorAbx => bitwise::spec_ror_abx(s),
        Operation::AdcIm => arithmetic::spec_adc_im(s),
        Operation::AdcZp => arithmetic::spec_adc_zp(s),
        Operation::AdcZpx => arithmetic::spec_adc_zpx(s),
        Operation::AdcAb => arithmetic::spec_adc_ab(s),
        Operation::AdcAbx => arithmetic::spec_adc_abx(s),
        Operation::AdcAby => arithmetic::spec_adc_aby(s),
        Operation::AdcInx => arithmetic::spec_adc_inx(s),
        Operation::AdcIny => arithmetic::spec_adc_iny(s),
        Operation::SbcIm => arithmetic::spec_sbc_im(s),
        Operation::SbcZp => arithmetic::spec_sbc_zp(s),
        Operation::SbcZpx => arithmetic::spec_sbc_zpx(s),
        Operation::SbcAb => arithmetic::spec_sbc_ab(s),
        Operation::SbcAbx => arithmetic::spec_sbc_abx(s),
        Operation::SbcAby => arithmetic::spec_sbc_aby(s),
        Operation::SbcInx => arithmetic::spec_sbc_inx(s),
        Operation::SbcIny => arithmetic::spec_sbc_iny(s),
        Operation::IncZp => arithmetic::spec_inc_zp(s),
        Operation::IncZpx => arithmetic::spec_inc_zpx(s),
        Operation::IncAb => arithmetic::spec_inc_ab(s),
        Operation::IncAbx => arithmetic::spec_inc_abx(s),
        Operation::Inx => arithmetic::spec_inx(s),
        Operation::Iny => arithmetic::spec_iny(s),
        Operation::DecZp => arithmetic::spec_dec_zp(s),
        Operation::DecZpx => arithmetic::spec_dec_zpx(s),
        Operation::DecAb => arithmetic::spec_dec_ab(s),
        Operation::DecAbx => arithmetic::spec_dec_abx(s),
        Operation::Dex => arithmetic::spec_dex(s),
        Operation::Dey => arithmetic::spec_dey(s),
        Operation::CmpIm => comparison::spec_cmp_im(s),
        Operation::CmpZp => comparison::spec_cmp_zp(s),
        Operation::CmpZpx => comparison::spec_cmp_zpx(s),
        Operation::CmpAb => comparison::spec_cmp_ab(s),
        Operation::CmpAbx => comparison::spec_cmp_abx(s),
        Operation::CmpAby => comparison::spec_cmp_aby(s),
        Operation::CmpInx => comparison::spec_cmp_inx(s),
        Operation::CmpIny => comparison::spec_cmp_iny(s),
        Operation::CpxIm => comparison::spec_cpx_im(s),
        Operation::CpxZp => comparison::spec_cpx_zp(s),
        Operation::CpxAb => comparison::spec_cpx_ab(s),
        Operation::CpyIm => comparison::spec_cpy_im(s),
        Operation::CpyZp => comparison::spec_cpy_zp(s),
        Operation::CpyAb => comparison::spec_cpy_ab(s),
        Operation::JmpAb => jumps_calls::spec_jmp_ab(s),
        Operation::JmpIn => jumps_calls::spec_jmp_in(s),
        Operation::Jsr => jumps_calls::spec_jsr(s),
        Operation::Rts => jumps_calls::spec_rts(s),
        Operation::Bcc => branch::spec_bcc(s),
        Operation::Bcs => branch::spec_bcs(s),
        Operation::Beq => branch::spec_beq(s),
        Operation::Bne => branch::spec_bne(s),
        Operation::Bmi => branch::spec_bmi(s),
        Operation::Bpl => branch::spec_bpl(s),
        Operation::Bvs => branch::spec_bvs(s),
        Operation::Bvc => branch::spec_bvc(s),
        Operation::Clc => flags::spec_clear_flag(s, StatusRegister::C),
        Operation::Cld => flags::spec_clear_flag(s, StatusRegister::D),
        Operation::Cli => flags::spec_clear_flag(s, StatusRegister::I),
        Operation::Clv => flags::spec_clear_flag(s, StatusRegister::V),
        Operation::Sec => flags::spec_set_flag(s, StatusRegister::C),
        Operation::Sed => flags::spec_set_flag(s, StatusRegister::D),
        Operation::Sei => flags::spec_set_flag(s, StatusRegister::I),
        Operation::Brk => interrupt::spec_brk(s),
        Operation::Rti => interrupt::spec_rti(s),
        Operation::Nop => interrupt::spec_nop(s),
    }
}

/// Runs one decoded operation against the machine state
pub fn run_operation(state: &mut ComputerState, op: Operation)
    requires
        old(state).wf(),
    ensures
        final(state).wf(),
        final(state)@ == step_op(old(state)@, op),
{
    match op {
        Operation::LdaIm => load_store::lda_im(state),
        Operation::LdaZp => load_store::lda_zp(state),
        Operation::LdaZpx => load_store::lda_zpx(state),
        Operation::LdaAb => load_store::lda_ab(state),
        Operation::LdaAbx => load_store::lda_abx(state),
        Operation::LdaAby => load_store::lda_aby(state),
        Operation::LdaInx => load_store::lda_inx(state),
        Operation::LdaIny => load_store::lda_iny(state),
        Operation::LdxIm => load_store::ldx_im(state),
        Operation::LdxZp => load_store::ldx_zp(state),
        Operation::LdxZpy => load_store::ldx_zpy(state),
        Operation::LdxAb => load_store::ldx_ab(state),
        Operation::LdxAby => load_store::ldx_aby(state),
        Operation::LdyIm => load_store::ldy_im(state),
        Operation::LdyZp => load_store::ldy_zp(state),
        Operation::LdyZpx => load_store::ldy_zpx(state),
        Operation::LdyAb => load_store::ldy_ab(state),
        Operation::LdyAbx => load_store::ldy_abx(state),
        Operation::StaZp => load_store::sta_zp(state),
        Operation::StaZpx => load_store::sta_zpx(state),
        Operation::StaAb => load_store::sta_ab(state),
        Operation::StaAbx => load_store::sta_abx(state),
        Operation::StaAby => load_store::sta_aby(state),
        Operation::StaInx => load_store::sta_inx(state),
        Operation::StaIny => load_store::sta_iny(state),
        Operation::StxZp => load_store::stx_zp(state),
        Operation::StxZpy => load_store::stx_zpy(state),
        Operation::StxAb => load_store::stx_ab(state),
        Operation::StyZp => load_store::sty_zp(state),
        Operation::StyZpx => load_store::sty_zpx(state),
        Operation::StyAb => load_store::sty_ab(state),
        Operation::Tax => register_transfers::tax(state),
        Operation::Tay => register_transfers::tay(state),
        Operation::Txa => register_transfers::txa(state),
        Operation::Tya => register_transfers::tya(state),
        Operation::Tsx => stack::tsx(state),
        Operation::Txs => stack::txs(state),
        Operation::Pha => stack::pha(state),
        Operation::Php => stack::php(state),
        Operation::Pla => stack::pla(state),
        Operation::Plp => stack::plp(state),
        Operation::AndIm => bitwise::and_im(state),
        Operation::AndZp => bitwise::and_zp(state),
        Operation::AndZpx => bitwise::and_zpx(state),
        Operation::AndAb => bitwise::and_ab(state),
        Operation::AndAbx => bitwise::and_abx(state),
        Operation::AndAby => bitwise::and_aby(state),
        Operation::AndInx => bitwise::and_inx(state),
        Operation::AndIny => bitwise::and_iny(state),
        Operation::EorIm => bitwise::eor_im(state),
        Operation::EorZp => bitwise::eor_zp(state),
        Operation::EorZpx => bitwise::eor_zpx(state),
        Operation::EorAb => bitwise::eor_ab(state),
        Operation::EorAbx => bitwise::eor_abx(state),
        Operation::EorAby => bitwise::eor_aby(state),
        Operation::EorInx => bitwise::eor_inx(state),
        Operation::EorIny => bitwise::eor_iny(state),
        Operation::OrIm => bitwise::or_im(state),
        Operation::OrZp => bitwise::or_zp(state),
        Operation::OrZpx => bitwise::or_zpx(state),
        Operation::OrAb => bitwise::or_ab(state),
        Operation::OrAbx => bitwise::or_abx(state),
        Operation::OrAby => bitwise::or_aby(state),
        Operation::OrInx => bitwise::or_inx(state),
        Operation::OrIny => bitwise::or_iny(state),
        Operation::BitZp => bitwise::bit_zp(state),
        Operation::BitAb => bitwise::bit_ab(state),
        Operation::AslAcc => bitwise::asl_acc(state),
        Operation::AslZp => bitwise::asl_zp(state),
        Operation::AslZpx => bitwise::asl_zpx(state),
        Operation::AslAb => bitwise::asl_ab(state),
        Operation::AslAbx => bitwise::asl_abx(state),
        Operation::LsrAcc => bitwise::lsr_acc(state),
        Operation::LsrZp => bitwise::lsr_zp(state),
        Operation::LsrZpx => bitwise::lsr_zpx(state),
        Operation::LsrAb => bitwise::lsr_ab(state),
        Operation::LsrAbx => bitwise::lsr_abx(state),
        Operation::RolAcc => bitwise::rol_acc(state),
        Operation::RolZp => bitwise::rol_zp(state),
        Operation::RolZpx => bitwise::rol_zpx(state),
        Operation::RolAb => bitwise::rol_ab(state),
        Operation::RolAbx => bitwise::rol_abx(state),
        Operation::RorAcc => bitwise::ror_acc(state),
        Operation::RorZp => bitwise::ror_zp(state),
        Operation::RorZpx => bitwise::ror_zpx(state),
        Operation::RorAb => bitwise::ror_ab(state),
        Operation::RorAbx => bitwise::ror_abx(state),
        Operation::AdcIm => arithmetic::adc_im(state),
        Operation::AdcZp => arithmetic::adc_zp(state),
        Operation::AdcZpx => arithmetic::adc_zpx(state),
        Operation::AdcAb => arithmetic::adc_ab(state),
        Operation::AdcAbx => arithmetic::adc_abx(state),
        Operation::AdcAby => arithmetic::adc_aby(state),
        Operation::AdcInx => arithmetic::adc_inx(state),
        Operation::AdcIny => arithmetic::adc_iny(state),
        Operation::SbcIm => arithmetic::sbc_im(state),
        Operation::SbcZp => arithmetic::sbc_zp(state),
        Operation::SbcZpx => arithmetic::sbc_zpx(state),
        Operation::SbcAb => arithmetic::sbc_ab(state),
        Operation::SbcAbx => arithmetic::sbc_abx(state),
        Operation::SbcAby => arithmetic::sbc_aby(state),
        Operation::SbcInx => arithmetic::sbc_inx(state),
        Operation::SbcIny => arithmetic::sbc_iny(state),
        Operation::IncZp => arithmetic::inc_zp(state),
        Operation::IncZpx => arithmetic::inc_zpx(state),
        Operation::IncAb => arithmetic::inc_ab(state),
        Operation::IncAbx => arithmetic::inc_abx(state),
        Operation::Inx => arithmetic::inx(state),
        Operation::Iny => arithmetic::iny(state),
        Operation::DecZp => arithmetic::dec_zp(state),
        Operation::DecZpx => arithmetic::dec_zpx(state),
        Operation::DecAb => arithmetic::dec_ab(state),
        Operation::DecAbx => arithmetic::dec_abx(state),
        Operation::Dex => arithmetic::dex(state),
        Operation::Dey => arithmetic::dey(state),
        Operation::CmpIm => comparison::cmp_im(state),
        Operation::CmpZp => comparison::cmp_zp(state),
        Operation::CmpZpx => comparison::cmp_zpx(state),
        Operation::CmpAb => comparison::cmp_ab(state),
        Operation::CmpAbx => comparison::cmp_abx(state),
        Operation::CmpAby => comparison::cmp_aby(state),
        Operation::CmpInx => comparison::cmp_inx(state),
        Operation::CmpIny => comparison::cmp_iny(state),
        Operation::CpxIm => comparison::cpx_im(state),
        Operation::CpxZp => comparison::cpx_zp(state),
        Operation::CpxAb => comparison::cpx_ab(state),
        Operation::CpyIm => comparison::cpy_im(state),
        Operation::CpyZp => comparison::cpy_zp(state),
        Operation::CpyAb => comparison::cpy_ab(state),
        Operation::JmpAb => jumps_calls::jmp_ab(state),
        Operation::JmpIn => jumps_calls::jmp_in(state),
        Operation::Jsr => jumps_calls::jsr(state),
        Operation::Rts => jumps_calls::rts(state),
        Operation::Bcc => branch::bcc(state),
        Operation::Bcs => branch::bcs(state),
        Operation::Beq => branch::beq(state),
        Operation::Bne => branch::bne(state),
        Operation::Bmi => branch::bmi(state),
        Operation::Bpl => branch::bpl(state),
        Operation::Bvs => branch::bvs(state),
        Operation::Bvc => branch::bvc(state),
        Operation::Clc => flags::clc(state),
        Operation::Cld => flags::cld(state),
        Operation::Cli => flags::cli(state),
        Operation::Clv => flags::clv(state),
        Operation::Sec => flags::sec(state),
        Operation::Sed => flags::sed(state),
        Operation::Sei => flags::sei(state),
        Operation::Brk => interrupt::brk(state),
        Operation::Rti => interrupt::rti(state),
        Operation::Nop => interrupt::nop(state),
    }
}

/// One fetch-decode-execute cycle as a whole: the byte at the program
/// counter is consumed, decoded, and its operation applied.
pub open spec fn spec_step(s: CpuView) -> CpuView {
    let (opcode, m) = s.mem.next_byte();
    step_op(s.with_mem(m), spec_decode(opcode))
}

} // verus!
