//! The accumulator and the program counter, each a thin wrapper around
//! a fixed-width integer with wrapping update operations.

use vstd::prelude::*;

verus! {

/// The primary 8-bit arithmetic register. Its view is the held byte.
pub struct Accumulator {
    acc: u8,
}

impl View for Accumulator {
    type V = u8;

    closed spec fn view(&self) -> u8 {
        self.acc
    }
}

impl Accumulator {
    /// Constructs an accumulator initialised to the given value
    pub fn new(acc: u8) -> (r: Self)
        ensures
            r@ == acc,
    {
        Self { acc }
    }

    /// Gets the value inside the accumulator
    pub fn get(&self) -> (r: u8)
        ensures
            r == self@,
    {
        self.acc
    }

    /// Sets the value inside the accumulator
    pub fn set(&mut self, value: u8)
        ensures
            final(self)@ == value,
    {
        self.acc = value
    }
}

/// A 16-bit value reduced modulo the size of the address space.
pub open spec fn wrap16(a: int) -> u16 {
    (a % 0x10000) as u16
}

/// An 8-bit value reduced modulo 256.
pub open spec fn wrap8(a: int) -> u8 {
    (a % 0x100) as u8
}

/// A 16-bit cursor into memory. All updates wrap modulo 65536.
/// Its view is the held address.
pub struct ProgramCounter {
    pc: u16,
}

impl View for ProgramCounter {
    type V = u16;

    closed spec fn view(&self) -> u16 {
        self.pc
    }
}

impl ProgramCounter {
    /// Constructs a program counter initialised to point at the given address
    pub fn new(pc: u16) -> (r: Self)
        ensures
            r@ == pc,
    {
        Self { pc }
    }

    /// Gets the current address in the PC
    pub fn get(&self) -> (r: u16)
        ensures
            r == self@,
    {
        self.pc
    }

    /// Sets a new address in the PC
    pub fn set(&mut self, new_pc: u16)
        ensures
            final(self)@ == new_pc,
    {
        self.pc = new_pc
    }

    /// Adds an unsigned offset to the PC, wrapping modulo 65536
    pub fn add_unsigned(&mut self, value: u8)
        ensures
            final(self)@ == wrap16(old(self)@ + value),
    {
        self.pc = self.pc.wrapping_add(value as u16);
    }

    /// Adds a signed offset to the PC, wrapping modulo 65536.
    /// A negative offset moves the cursor backwards.
    pub fn add_signed(&mut self, value: i8)
        ensures
            final(self)@ == wrap16(old(self)@ + value),
    {
        if value >= 0 {
            self.pc = self.pc.wrapping_add(value as u16);
        } else {
            let magnitude: u16 = (-(value as i16)) as u16;
            self.pc = self.pc.wrapping_sub(magnitude);
        }
    }
}

/// A relative-branch operand byte is read as a signed 8-bit offset: an
/// operand below 0x80 moves the program counter forwards by its own
/// value, and an operand of 0x80 or above moves it backwards by
/// `0x100 - operand`, in both cases modulo the size of the address space.
pub proof fn branch_offset_signed(pc: u16, operand: u8)
    ensures
        operand < 0x80 ==> wrap16(pc + (operand as i8)) == wrap16(pc + operand),
        operand >= 0x80 ==> wrap16(pc + (operand as i8)) == wrap16(pc - (0x100 - operand)),
{
    assert((operand as i8) as int == if operand < 0x80 {
        operand as int
    } else {
        operand - 0x100
    }) by (bit_vector);
}

} // verus!
