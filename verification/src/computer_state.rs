//! The CPU state as a whole: memory with its cursor registers, the
//! accumulator, and the status register, together with the
//! fetch-decode-execute driver.

use vstd::prelude::*;

pub mod memory;
pub mod operations;
pub mod registers;
pub mod status_register;

use crate::computer_state::memory::{initial_mem_view, MemView, Memory};
use crate::computer_state::registers::Accumulator;
use crate::computer_state::status_register::{has_flag, StatusRegister};

verus! {

/// The mathematical model of [`ComputerState`]: the memory model plus
/// the accumulator byte and the raw status flag byte.
#[verifier::ext_equal]
pub ghost struct CpuView {
    /// The memory with its cursor registers.
    pub mem: MemView,
    /// The accumulator.
    pub acc: u8,
    /// The status flag byte.
    pub sta: u8,
}

impl CpuView {
    /// Well-formedness: the memory holds exactly 65,536 cells.
    pub open spec fn wf(self) -> bool {
        self.mem.wf()
    }

    /// The state with the memory model replaced and the registers kept.
    pub open spec fn with_mem(self, mem: MemView) -> CpuView {
        CpuView { mem, ..self }
    }

    /// The carry flag read as an arithmetic carry-in: 1 when set, else 0.
    pub open spec fn carry_in(self) -> u8 {
        if has_flag(self.sta, StatusRegister::C) {
            1
        } else {
            0
        }
    }
}

/// The machine state a reset leaves behind: memory and registers zeroed,
/// flags empty, and the stack pointer at the top of the stack page.
pub open spec fn initial_cpu_view() -> CpuView {
    CpuView { mem: initial_mem_view(), acc: 0, sta: 0 }
}

/// The state after the bytes of a program image are stored one after
/// another starting at the program counter, which ends up past them.
pub open spec fn load_bytes(m: MemView, bytes: Seq<u8>) -> MemView
    decreases bytes.len(),
{
    if bytes.len() == 0 {
        m
    } else {
        load_bytes(m.insert_at_pc(bytes[0]), bytes.drop_first())
    }
}

/// The state after a program image is copied in at the program counter,
/// which is then put back where it was.
pub open spec fn load_program(m: MemView, bytes: Seq<u8>) -> MemView {
    MemView { pc: m.pc, ..load_bytes(m, bytes) }
}

/// The full state of the emulated machine.
///
/// Each page of memory is 256 bytes. The first page is the zero page
/// ($0000-$00FF), the second page backs the hardware stack
/// ($0100-$01FF), and the last six bytes ($FFFA-$FFFF) hold the
/// interrupt vectors.
pub struct ComputerState {
    /// The memory with the PC, index registers and stack pointer.
    pub mem: Memory,
    /// The accumulator.
    pub acc: Accumulator,
    /// The status register.
    pub sta: StatusRegister,
}

impl View for ComputerState {
    type V = CpuView;

    open spec fn view(&self) -> CpuView {
        CpuView { mem: self.mem@, acc: self.acc@, sta: self.sta@ }
    }
}

impl ComputerState {
    /// Well-formedness: the memory holds exactly 65,536 cells.
    pub open spec fn wf(self) -> bool {
        self@.wf()
    }

    /// Constructs a machine in its reset state: memory and registers
    /// zeroed, flags empty, stack pointer at the top of the stack page
    pub fn new() -> (r: ComputerState)
        ensures
            r.wf(),
            r@ == initial_cpu_view(),
    {
        ComputerState { mem: Memory::new(), acc: Accumulator::new(0), sta: StatusRegister::new() }
    }

    // REGISTERS
    /// Gets the X index register
    pub fn get_x(&self) -> (r: u8)
        ensures
            r == self@.mem.x,
    {
        self.mem.x
    }

    /// Gets the Y index register
    pub fn get_y(&self) -> (r: u8)
        ensures
            r == self@.mem.y,
    {
        self.mem.y
    }

    /// Sets the X index register
    pub fn set_x(&mut self, value: u8)
        requires
            old(self).wf(),
        ensures
            final(self).wf(),
            final(self)@ == old(self)@.with_mem(MemView { x: value, ..old(self)@.mem }),
    {
        self.mem.x = value;
    }

    /// Sets the Y index register
    pub fn set_y(&mut self, value: u8)
        requires
            old(self).wf(),
        ensures
            final(self).wf(),
            final(self)@ == old(self)@.with_mem(MemView { y: value, ..old(self)@.mem }),
    {
        self.mem.y = value;
    }

    /// Gets the stack pointer
    pub fn get_stk(&self) -> (r: u8)
        ensures
            r == self@.mem.stk,
    {
        self.mem.get_stk()
    }

    /// Sets the stack pointer
    pub fn set_stk(&mut self, value: u8)
        requires
            old(self).wf(),
        ensures
            final(self).wf(),
            final(self)@ == old(self)@.with_mem(MemView { stk: value, ..old(self)@.mem }),
    {
        self.mem.set_stk(value);
    }

    /// Reads the byte a pop would return, without moving the stack
    /// pointer
    pub fn stk_peek_byte(&self) -> (r: u8)
        requires
            self.wf(),
        ensures
            r == self@.mem.pop().0,
    {
        let addr: u16 = 0x100 + self.mem.get_stk().wrapping_add(1) as u16;
        self.mem.fetch_byte_from_addr(addr)
    }

    // EXECUTION
    /// Executes the instruction at the program counter: fetch the opcode
    /// byte, decode it, and apply the operation it names
    pub fn execute_next(&mut self)
        requires
            old(self).wf(),
        ensures
            final(self).wf(),
            final(self)@ == operations::spec_step(old(self)@),
    {
        // Fetch
        let opcode = self.mem.fetch_next_byte();
        // Decode
        let op = operations::decode(opcode);
        // Execute
        operations::run_operation(self, op);
    }

    // MEMORY ACCESS
    /// Copies the given bytes into memory starting at the program
    /// counter, leaving the program counter where it was
    pub fn set_up_state(&mut self, bytes: &[u8])
        requires
            old(self).wf(),
        ensures
            final(self).wf(),
            final(self)@ == old(self)@.with_mem(load_program(old(self)@.mem, bytes@)),
    {
        let old_pc = self.mem.pc.get();
        let mut i: usize = 0;
        proof {
            assert(bytes@.skip(0) =~= bytes@);
        }
        while i < bytes.len()
            invariant
                self.wf(),
                i <= bytes@.len(),
                self@.acc == old(self)@.acc,
                self@.sta == old(self)@.sta,
                load_bytes(old(self)@.mem, bytes@) == load_bytes(self@.mem, bytes@.skip(i as int)),
                old_pc == old(self)@.mem.pc,
            decreases bytes@.len() - i,
        {
            proof {
                assert(bytes@.skip(i as int).drop_first() =~= bytes@.skip(i as int + 1));
            }
            let byte = bytes[i];
            self.mem.insert_at_pc(byte);
            i += 1;
        }
        proof {
            assert(bytes@.skip(bytes@.len() as int) =~= Seq::<u8>::empty());
        }
        self.mem.pc.set(old_pc);
        proof {
            assert(self@ =~= old(self)@.with_mem(load_program(old(self)@.mem, bytes@)));
        }
    }

    // REGISTER INSTRUCTIONS
    /// Reads the carry flag as an arithmetic carry-in: 1 when set, 0
    /// when clear
    pub fn get_carry(&self) -> (r: u8)
        ensures
            r == self@.carry_in(),
    {
        if self.sta.contains(StatusRegister::C) {
            1
        } else {
            0
        }
    }
}

} // verus!
