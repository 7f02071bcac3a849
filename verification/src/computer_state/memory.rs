//! The 64KB linear address space together with the X/Y index registers,
//! the program counter and the stack pointer, and every addressing-mode
//! resolver of the instruction set.
//!
//! The mathematical model is [`MemView`]: a sequence of 65,536 bytes plus
//! the four cursor registers. Every computed address wraps modulo 65536;
//! zero-page indexed addresses wrap modulo 256 and never leave the zero
//! page; the stack pointer wraps modulo 256 and never leaves the stack
//! page.

use vstd::prelude::*;

use crate::computer_state::registers::{wrap16, wrap8, ProgramCounter};

verus! {

/// The mathematical model of [`Memory`].
#[verifier::ext_equal]
pub ghost struct MemView {
    /// The 65,536 memory cells.
    pub bytes: Seq<u8>,
    /// The program counter.
    pub pc: u16,
    /// The X index register.
    pub x: u8,
    /// The Y index register.
    pub y: u8,
    /// The stack pointer: an offset into the stack page.
    pub stk: u8,
}

/// The low byte of a 16-bit value.
pub open spec fn lo_byte(w: u16) -> u8 {
    (w % 0x100) as u8
}

/// The high byte of a 16-bit value.
pub open spec fn hi_byte(w: u16) -> u8 {
    (w / 0x100) as u8
}

/// The address within the stack page that a stack pointer denotes.
pub open spec fn stack_addr(stk: u8) -> u16 {
    (0x100 + stk) as u16
}

impl MemView {
    /// Well-formedness: the address space holds exactly 65,536 cells.
    pub open spec fn wf(self) -> bool {
        self.bytes.len() == 0x10000
    }

    /// The byte held at an address.
    pub open spec fn read(self, addr: u16) -> u8 {
        self.bytes[addr as int]
    }

    /// The state with one byte replaced.
    pub open spec fn write(self, addr: u16, value: u8) -> MemView {
        MemView { bytes: self.bytes.update(addr as int, value), ..self }
    }

    /// The 16-bit little-endian value held at an address; the high byte
    /// is read at the following address, wrapping at the top of memory.
    pub open spec fn word(self, addr: u16) -> u16 {
        (self.read(addr) + 0x100 * self.read(wrap16(addr + 1))) as u16
    }

    /// The state with a 16-bit value written in little-endian byte order.
    pub open spec fn write_word(self, addr: u16, value: u16) -> MemView {
        self.write(addr, lo_byte(value)).write(wrap16(addr + 1), hi_byte(value))
    }

    /// The state with the program counter moved forwards.
    pub open spec fn advance_pc(self, k: u16) -> MemView {
        MemView { pc: wrap16(self.pc + k), ..self }
    }

    /// The state with the program counter set to an address.
    pub open spec fn with_pc(self, pc: u16) -> MemView {
        MemView { pc, ..self }
    }

    /// The state after a byte is stored at the program counter, which
    /// then moves past it.
    pub open spec fn insert_at_pc(self, value: u8) -> MemView {
        self.write(self.pc, value).advance_pc(1)
    }

    /// The byte at the program counter, and the state with the counter
    /// moved past it.
    pub open spec fn next_byte(self) -> (u8, MemView) {
        (self.read(self.pc), self.advance_pc(1))
    }

    /// The 16-bit value at the program counter, and the state with the
    /// counter moved past both bytes.
    pub open spec fn next_word(self) -> (u16, MemView) {
        (self.word(self.pc), self.advance_pc(2))
    }

    // Addressing-mode resolvers. Each yields the effective address or
    // operand value, paired with the state whose program counter has
    // moved past the operand bytes consumed.
    /// Zero-page mode: the operand byte is the address.
    pub open spec fn zero_page_addr(self) -> (u16, MemView) {
        (self.read(self.pc) as u16, self.advance_pc(1))
    }

    /// Zero-page,X mode: operand plus X, wrapped within the zero page.
    pub open spec fn zero_page_x_addr(self) -> (u16, MemView) {
        (wrap8(self.read(self.pc) + self.x) as u16, self.advance_pc(1))
    }

    /// Zero-page,Y mode: operand plus Y, wrapped within the zero page.
    pub open spec fn zero_page_y_addr(self) -> (u16, MemView) {
        (wrap8(self.read(self.pc) + self.y) as u16, self.advance_pc(1))
    }

    /// Absolute mode: the 16-bit little-endian operand is the address.
    pub open spec fn absolute_addr(self) -> (u16, MemView) {
        (self.word(self.pc), self.advance_pc(2))
    }

    /// Absolute,X mode: the absolute address plus X, wrapping at the top
    /// of memory.
    pub open spec fn absolute_x_addr(self) -> (u16, MemView) {
        (wrap16(self.word(self.pc) + self.x), self.advance_pc(2))
    }

    /// Absolute,Y mode: the absolute address plus Y, wrapping at the top
    /// of memory.
    pub open spec fn absolute_y_addr(self) -> (u16, MemView) {
        (wrap16(self.word(self.pc) + self.y), self.advance_pc(2))
    }

    /// Indirect,X mode: a 16-bit pointer read from the zero-page address
    /// `(operand + X) mod 256` is the effective address.
    pub open spec fn indirect_x_addr(self) -> (u16, MemView) {
        (self.word(wrap8(self.read(self.pc) + self.x) as u16), self.advance_pc(1))
    }

    /// Indirect,Y mode: a 16-bit pointer read from the zero-page operand
    /// address, plus Y, wrapping at the top of memory.
    pub open spec fn indirect_y_addr(self) -> (u16, MemView) {
        (wrap16(self.word(self.read(self.pc) as u16) + self.y), self.advance_pc(1))
    }

    /// Relative mode: the operand byte reinterpreted as a signed offset.
    pub open spec fn relative_offset(self) -> (i8, MemView) {
        (self.read(self.pc) as i8, self.advance_pc(1))
    }

    /// Indirect jump target: the 16-bit value held at the address that
    /// the absolute operand points to.
    pub open spec fn indirect_target(self) -> (u16, MemView) {
        (self.word(self.word(self.pc)), self.advance_pc(2))
    }

    /// Immediate mode: the operand byte itself is the value.
    pub open spec fn immediate_value(self) -> (u8, MemView) {
        self.next_byte()
    }

    /// The operand value a zero-page instruction works on.
    pub open spec fn zero_page_value(self) -> (u8, MemView) {
        let (addr, m) = self.zero_page_addr();
        (m.read(addr), m)
    }

    /// The operand value a zero-page,X instruction works on.
    pub open spec fn zero_page_x_value(self) -> (u8, MemView) {
        let (addr, m) = self.zero_page_x_addr();
        (m.read(addr), m)
    }

    /// The operand value a zero-page,Y instruction works on.
    pub open spec fn zero_page_y_value(self) -> (u8, MemView) {
        let (addr, m) = self.zero_page_y_addr();
        (m.read(addr), m)
    }

    /// The operand value an absolute instruction works on.
    pub open spec fn absolute_value(self) -> (u8, MemView) {
        let (addr, m) = self.absolute_addr();
        (m.read(addr), m)
    }

    /// The operand value an absolute,X instruction works on.
    pub open spec fn absolute_x_value(self) -> (u8, MemView) {
        let (addr, m) = self.absolute_x_addr();
        (m.read(addr), m)
    }

    /// The operand value an absolute,Y instruction works on.
    pub open spec fn absolute_y_value(self) -> (u8, MemView) {
        let (addr, m) = self.absolute_y_addr();
        (m.read(addr), m)
    }

    /// The operand value an indirect,X instruction works on.
    pub open spec fn indirect_x_value(self) -> (u8, MemView) {
        let (addr, m) = self.indirect_x_addr();
        (m.read(addr), m)
    }

    /// The operand value an indirect,Y instruction works on.
    pub open spec fn indirect_y_value(self) -> (u8, MemView) {
        let (addr, m) = self.indirect_y_addr();
        (m.read(addr), m)
    }

    /// The state after a byte is pushed: the cell under the stack
    /// pointer is written and the pointer steps down, wrapping within
    /// the stack page.
    pub open spec fn push(self, value: u8) -> MemView {
        MemView {
            bytes: self.bytes.update(stack_addr(self.stk) as int, value),
            stk: wrap8(self.stk - 1),
            ..self
        }
    }

    /// The byte a pop returns, and the state with the stack pointer
    /// stepped back up, wrapping within the stack page.
    pub open spec fn pop(self) -> (u8, MemView) {
        let stk = wrap8(self.stk + 1);
        (self.read(stack_addr(stk)), MemView { stk, ..self })
    }

    /// The state after a 16-bit value is pushed: low byte first, then
    /// high byte.
    pub open spec fn push_word(self, value: u16) -> MemView {
        self.push(lo_byte(value)).push(hi_byte(value))
    }

    /// The 16-bit value two pops reconstruct, high byte first, mirroring
    /// the push order exactly.
    pub open spec fn pop_word(self) -> (u16, MemView) {
        let (hi, m1) = self.pop();
        let (lo, m2) = m1.pop();
        ((hi * 0x100 + lo) as u16, m2)
    }
}

/// The memory state a freshly reset machine starts from: every cell
/// zero, the cursor registers zero, and the stack pointer at the top of
/// the stack page.
pub open spec fn initial_mem_view() -> MemView {
    MemView { bytes: Seq::new(0x10000, |i: int| 0u8), pc: 0, x: 0, y: 0, stk: 0xFF }
}

/// The 64KB address space with its cursor registers.
pub struct Memory {
    /// The program counter.
    pub pc: ProgramCounter,
    /// The X index register.
    pub x: u8,
    /// The Y index register.
    pub y: u8,
    /// The stack pointer.
    pub stk: u8,
    /// The memory cells; exactly 65,536 of them.
    pub mem: Vec<u8>,
}

impl View for Memory {
    type V = MemView;

    open spec fn view(&self) -> MemView {
        MemView { bytes: self.mem@, pc: self.pc@, x: self.x, y: self.y, stk: self.stk }
    }
}

impl Memory {
    /// Well-formedness: the cell vector has exactly the size of the
    /// address space.
    pub open spec fn wf(self) -> bool {
        self@.wf()
    }

    /// Constructs a zeroed memory with the stack pointer at the top of
    /// the stack page
    pub fn new() -> (r: Memory)
        ensures
            r.wf(),
            r@ == initial_mem_view(),
    {
        let mut mem: Vec<u8> = Vec::new();
        let mut i: usize = 0;
        while i < 0x10000
            invariant
                i <= 0x10000,
                mem@.len() == i,
                forall|j: int| 0 <= j < i ==> mem@[j] == 0u8,
            decreases 0x10000 - i,
        {
            mem.push(0);
            i += 1;
        }
        proof {
            assert(mem@ =~= Seq::new(0x10000, |i: int| 0u8));
        }
        Memory { pc: ProgramCounter::new(0), x: 0, y: 0, stk: 0xFF, mem }
    }

    // SET INSTRUCTIONS
    /// Stores a byte at the given address
    pub fn set_byte_at_addr(&mut self, addr: u16, value: u8)
        requires
            old(self).wf(),
        ensures
            final(self).wf(),
            final(self)@ == old(self)@.write(addr, value),
    {
        self.mem[addr as usize] = value;
    }

    /// Stores a 16-bit value at the given address in little-endian byte
    /// order; the high byte's address wraps at the top of memory
    pub fn set_nibble_at_addr(&mut self, addr: u16, value: u16)
        requires
            old(self).wf(),
        ensures
            final(self).wf(),
            final(self)@ == old(self)@.write_word(addr, value),
    {
        let hi: u8 = (value / 0x100) as u8;
        let lo: u8 = (value % 0x100) as u8;
        self.set_byte_at_addr(addr, lo);
        self.set_byte_at_addr(addr.wrapping_add(1), hi);
    }

    /// Inserts the given value at the position pointed to by the PC;
    /// increments the PC
    pub fn insert_at_pc(&mut self, value: u8)
        requires
            old(self).wf(),
        ensures
            final(self).wf(),
            final(self)@ == old(self)@.insert_at_pc(value),
    {
        let pc = self.pc.get();
        self.set_byte_at_addr(pc, value);
        self.pc.add_unsigned(1);
    }

    // FETCH INSTRUCTIONS
    // These help the interpreter fetch memory according to addressing modes.
    /// Returns the byte of data at the given address
    pub fn fetch_byte_from_addr(&self, addr: u16) -> (r: u8)
        requires
            self.wf(),
        ensures
            r == self@.read(addr),
    {
        self.mem[addr as usize]
    }

    /// Returns 16 bits of data at the given address in little-endian
    /// byte order; the high byte's address wraps at the top of memory
    pub fn fetch_nibble_from_addr(&self, addr: u16) -> (r: u16)
        requires
            self.wf(),
        ensures
            r == self@.word(addr),
    {
        let lo = self.fetch_byte_from_addr(addr);
        let hi = self.fetch_byte_from_addr(addr.wrapping_add(1));
        hi as u16 * 0x100 + lo as u16
    }

    /// Returns the 8-bit address held at the given address
    pub fn fetch_zp_addr_from_addr(&self, addr: u16) -> (r: u16)
        requires
            self.wf(),
        ensures
            r == self@.read(addr) as u16,
    {
        self.fetch_byte_from_addr(addr) as u16
    }

    /// Returns the 16-bit address held at the given address in
    /// little-endian byte order
    pub fn fetch_ab_addr_from_addr(&self, addr: u16) -> (r: u16)
        requires
            self.wf(),
        ensures
            r == self@.word(addr),
    {
        self.fetch_nibble_from_addr(addr)
    }

    /// Fetches the byte at the PC, and increments the PC by 1
    pub fn fetch_next_byte(&mut self) -> (r: u8)
        requires
            old(self).wf(),
        ensures
            final(self).wf(),
            (r, final(self)@) == old(self)@.next_byte(),
    {
        let pc = self.pc.get();
        let result = self.fetch_byte_from_addr(pc);
        self.pc.add_unsigned(1);
        result
    }

    /// Fetches the 16-bit value at the PC, and increments the PC by 2
    pub fn fetch_next_nibble(&mut self) -> (r: u16)
        requires
            old(self).wf(),
        ensures
            final(self).wf(),
            (r, final(self)@) == old(self)@.next_word(),
    {
        let pc = self.pc.get();
        let result = self.fetch_nibble_from_addr(pc);
        self.pc.add_unsigned(2);
        result
    }

    /// Fetches the 8-bit address at the PC, and increments the PC by 1
    pub fn fetch_next_zp_addr(&mut self) -> (r: u16)
        requires
            old(self).wf(),
        ensures
            final(self).wf(),
            (r, final(self)@) == old(self)@.zero_page_addr(),
    {
        self.fetch_next_byte() as u16
    }

    /// Fetches the 16-bit address at the PC, and increments the PC by 2
    pub fn fetch_next_ab_addr(&mut self) -> (r: u16)
        requires
            old(self).wf(),
        ensures
            final(self).wf(),
            (r, final(self)@) == old(self)@.absolute_addr(),
    {
        self.fetch_next_nibble()
    }

    /// Fetches the operand as a zero-page address
    pub fn fetch_zero_page_address(&mut self) -> (r: u16)
        requires
            old(self).wf(),
        ensures
            final(self).wf(),
            (r, final(self)@) == old(self)@.zero_page_addr(),
    {
        self.fetch_next_zp_addr()
    }

    /// Fetches the operand as a zero-page address and adds the X index
    /// to it; the addition wraps within the zero page
    pub fn fetch_zero_page_x_address(&mut self) -> (r: u16)
        requires
            old(self).wf(),
        ensures
            final(self).wf(),
            (r, final(self)@) == old(self)@.zero_page_x_addr(),
    {
        let operand = self.fetch_next_byte();
        operand.wrapping_add(self.x) as u16
    }

    /// Fetches the operand as a zero-page address and adds the Y index
    /// to it; the addition wraps within the zero page
    pub fn fetch_zero_page_y_address(&mut self) -> (r: u16)
        requires
            old(self).wf(),
        ensures
            final(self).wf(),
            (r, final(self)@) == old(self)@.zero_page_y_addr(),
    {
        let operand = self.fetch_next_byte();
        operand.wrapping_add(self.y) as u16
    }

    /// Fetches the operand as the address of an absolute address mode
    /// instruction
    pub fn fetch_absolute_address(&mut self) -> (r: u16)
        requires
            old(self).wf(),
        ensures
            final(self).wf(),
            (r, final(self)@) == old(self)@.absolute_addr(),
    {
        self.fetch_next_ab_addr()
    }

    /// Fetches the operand as an absolute address and adds the X index
    /// to it; the addition wraps at the top of memory
    pub fn fetch_absolute_x_address(&mut self) -> (r: u16)
        requires
            old(self).wf(),
        ensures
            final(self).wf(),
            (r, final(self)@) == old(self)@.absolute_x_addr(),
    {
        let base = self.fetch_absolute_address();
        base.wrapping_add(self.x as u16)
    }

    /// Fetches the operand as an absolute address and adds the Y index
    /// to it; the addition wraps at the top of memory
    pub fn fetch_absolute_y_address(&mut self) -> (r: u16)
        requires
            old(self).wf(),
        ensures
            final(self).wf(),
            (r, final(self)@) == old(self)@.absolute_y_addr(),
    {
        let base = self.fetch_absolute_address();
        base.wrapping_add(self.y as u16)
    }

    /// Fetches the 16-bit pointer held at the zero-page address
    /// `(operand + X) mod 256`; that pointer is the effective address
    pub fn fetch_indirect_x_address(&mut self) -> (r: u16)
        requires
            old(self).wf(),
        ensures
            final(self).wf(),
            (r, final(self)@) == old(self)@.indirect_x_addr(),
    {
        let indirect_addr = self.fetch_zero_page_x_address();
        self.fetch_ab_addr_from_addr(indirect_addr)
    }

    /// Fetches the 16-bit pointer held at the zero-page operand address
    /// and adds the Y index to it; the addition wraps at the top of
    /// memory
    pub fn fetch_indirect_y_address(&mut self) -> (r: u16)
        requires
            old(self).wf(),
        ensures
            final(self).wf(),
            (r, final(self)@) == old(self)@.indirect_y_addr(),
    {
        let indirect_addr = self.fetch_next_zp_addr();
        let pointer = self.fetch_ab_addr_from_addr(indirect_addr);
        pointer.wrapping_add(self.y as u16)
    }

    /// Moves the PC up by one and fetches that constant from memory
    pub fn fetch_intermediate(&mut self) -> (r: u8)
        requires
            old(self).wf(),
        ensures
            final(self).wf(),
            (r, final(self)@) == old(self)@.immediate_value(),
    {
        self.fetch_next_byte()
    }

    /// Fetches the byte of memory located at the zero-page operand
    /// address
    pub fn fetch_zero_page(&mut self) -> (r: u8)
        requires
            old(self).wf(),
        ensures
            final(self).wf(),
            (r, final(self)@) == old(self)@.zero_page_value(),
    {
        let addr = self.fetch_zero_page_address();
        self.fetch_byte_from_addr(addr)
    }

    /// Fetches the byte of memory located at the zero-page operand
    /// address offset by the X index; the offset wraps within the zero
    /// page
    pub fn fetch_zero_page_x(&mut self) -> (r: u8)
        requires
            old(self).wf(),
        ensures
            final(self).wf(),
            (r, final(self)@) == old(self)@.zero_page_x_value(),
    {
        let addr = self.fetch_zero_page_x_address();
        self.fetch_byte_from_addr(addr)
    }

    /// Fetches the byte of memory located at the zero-page operand
    /// address offset by the Y index; the offset wraps within the zero
    /// page
    pub fn fetch_zero_page_y(&mut self) -> (r: u8)
        requires
            old(self).wf(),
        ensures
            final(self).wf(),
            (r, final(self)@) == old(self)@.zero_page_y_value(),
    {
        let addr = self.fetch_zero_page_y_address();
        self.fetch_byte_from_addr(addr)
    }

    /// Fetches the operand byte reinterpreted as a signed relative
    /// offset
    pub fn fetch_relative(&mut self) -> (r: i8)
        requires
            old(self).wf(),
        ensures
            final(self).wf(),
            (r, final(self)@) == old(self)@.relative_offset(),
    {
        let raw_offset = self.fetch_next_byte();
        raw_offset as i8
    }

    /// Fetches the memory at the target location of an absolute address
    /// mode instruction
    pub fn fetch_absolute(&mut self) -> (r: u8)
        requires
            old(self).wf(),
        ensures
            final(self).wf(),
            (r, final(self)@) == old(self)@.absolute_value(),
    {
        let addr = self.fetch_absolute_address();
        self.fetch_byte_from_addr(addr)
    }

    /// Fetches the memory at the absolute target address offset by the X
    /// index
    pub fn fetch_absolute_x(&mut self) -> (r: u8)
        requires
            old(self).wf(),
        ensures
            final(self).wf(),
            (r, final(self)@) == old(self)@.absolute_x_value(),
    {
        let addr = self.fetch_absolute_x_address();
        self.fetch_byte_from_addr(addr)
    }

    /// Fetches the memory at the absolute target address offset by the Y
    /// index
    pub fn fetch_absolute_y(&mut self) -> (r: u8)
        requires
            old(self).wf(),
        ensures
            final(self).wf(),
            (r, final(self)@) == old(self)@.absolute_y_value(),
    {
        let addr = self.fetch_absolute_y_address();
        self.fetch_byte_from_addr(addr)
    }

    /// Fetches the memory held at the address pointed to by the
    /// zero-page operand offset by the X index
    pub fn fetch_indirect_x(&mut self) -> (r: u8)
        requires
            old(self).wf(),
        ensures
            final(self).wf(),
            (r, final(self)@) == old(self)@.indirect_x_value(),
    {
        let addr = self.fetch_indirect_x_address();
        self.fetch_byte_from_addr(addr)
    }

    /// Fetches the memory held at the address pointed to by the
    /// zero-page operand, offset by the Y index
    pub fn fetch_indirect_y(&mut self) -> (r: u8)
        requires
            old(self).wf(),
        ensures
            final(self).wf(),
            (r, final(self)@) == old(self)@.indirect_y_value(),
    {
        let addr = self.fetch_indirect_y_address();
        self.fetch_byte_from_addr(addr)
    }

    /// Fetches the 16-bit jump target held at the address that the
    /// absolute operand points to
    pub fn fetch_indirect(&mut self) -> (r: u16)
        requires
            old(self).wf(),
        ensures
            final(self).wf(),
            (r, final(self)@) == old(self)@.indirect_target(),
    {
        let pointer = self.fetch_next_nibble();
        self.fetch_nibble_from_addr(pointer)
    }

    // STACK INSTRUCTIONS
    /// Gets the stack pointer
    pub fn get_stk(&self) -> (r: u8)
        ensures
            r == self@.stk,
    {
        self.stk
    }

    /// Sets the stack pointer
    pub fn set_stk(&mut self, value: u8)
        requires
            old(self).wf(),
        ensures
            final(self).wf(),
            final(self)@ == (MemView { stk: value, ..old(self)@ }),
    {
        self.stk = value;
    }

    /// Pushes a byte onto the stack: the cell under the stack pointer is
    /// written and the pointer steps down, wrapping within the stack
    /// page
    pub fn push_on_stack(&mut self, value: u8)
        requires
            old(self).wf(),
        ensures
            final(self).wf(),
            final(self)@ == old(self)@.push(value),
    {
        let addr: u16 = 0x100 + self.stk as u16;
        self.set_byte_at_addr(addr, value);
        self.stk = self.stk.wrapping_sub(1);
    }

    /// Pops a byte from the stack: the pointer steps back up, wrapping
    /// within the stack page, and the cell it then denotes is returned
    pub fn pop_from_stack(&mut self) -> (r: u8)
        requires
            old(self).wf(),
        ensures
            final(self).wf(),
            (r, final(self)@) == old(self)@.pop(),
    {
        self.stk = self.stk.wrapping_add(1);
        let addr: u16 = 0x100 + self.stk as u16;
        self.fetch_byte_from_addr(addr)
    }

    /// Pushes a 16-bit value onto the stack, low byte first, then high
    /// byte
    pub fn push_nibble_on_stack(&mut self, value: u16)
        requires
            old(self).wf(),
        ensures
            final(self).wf(),
            final(self)@ == old(self)@.push_word(value),
    {
        let hi: u8 = (value / 0x100) as u8;
        let lo: u8 = (value % 0x100) as u8;
        self.push_on_stack(lo);
        self.push_on_stack(hi);
    }

    /// Pops a 16-bit value from the stack, high byte first, mirroring
    /// the push order exactly
    pub fn pop_nibble_from_stack(&mut self) -> (r: u16)
        requires
            old(self).wf(),
        ensures
            final(self).wf(),
            (r, final(self)@) == old(self)@.pop_word(),
    {
        let hi = self.pop_from_stack();
        let lo = self.pop_from_stack();
        hi as u16 * 0x100 + lo as u16
    }
}

/// Popping a byte just pushed returns exactly that byte and restores the
/// stack pointer, whatever the rest of the machine holds: the stack is a
/// last-in first-out store, however many pushes and pops came before.
pub proof fn stack_byte_round_trip(m: MemView, value: u8)
    requires
        m.wf(),
    ensures
        m.push(value).pop().0 == value,
        m.push(value).pop().1 == m.write(stack_addr(m.stk), value),
        m.push(value).pop().1.stk == m.stk,
{
    assert(m.push(value).pop().1 =~= m.write(stack_addr(m.stk), value));
}

/// Popping a 16-bit value just pushed returns exactly that value and
/// restores the stack pointer, whatever the rest of the machine holds.
pub proof fn stack_word_round_trip(m: MemView, value: u16)
    requires
        m.wf(),
    ensures
        m.push_word(value).pop_word().0 == value,
        m.push_word(value).pop_word().1.stk == m.stk,
        m.push_word(value).pop_word().1.pc == m.pc,
        m.push_word(value).pop_word().1.x == m.x,
        m.push_word(value).pop_word().1.y == m.y,
{
    assert(lo_byte(value) + 0x100 * hi_byte(value) == value);
}

/// Zero-page indexed addressing never leaves the zero page: the resolved
/// address is always below 0x100, and an operand of 0xFF with an X index
/// of 0x01 resolves to address 0x0000.
pub proof fn zero_page_x_wraps(m: MemView)
    ensures
        m.zero_page_x_addr().0 < 0x100,
        m.read(m.pc) == 0xFF && m.x == 0x01 ==> m.zero_page_x_addr().0 == 0,
{
}

/// Zero-page,Y indexed addressing never leaves the zero page either.
pub proof fn zero_page_y_wraps(m: MemView)
    ensures
        m.zero_page_y_addr().0 < 0x100,
        m.read(m.pc) == 0xFF && m.y == 0x01 ==> m.zero_page_y_addr().0 == 0,
{
}

} // verus!
