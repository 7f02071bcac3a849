//! The software interrupt and its return, and the no-operation that
//! unmapped opcodes fall back to.

use vstd::prelude::*;

use crate::computer_state::status_register::StatusRegister;
use crate::computer_state::{ComputerState, CpuView};

verus! {

/// The address of the non-maskable-interrupt vector.
pub const NMI_VECTOR: u16 = 0xFFFA;

/// The address of the reset vector, conventionally read at power-on.
pub const RESET_VECTOR: u16 = 0xFFFC;

/// The address of the IRQ/BRK vector: the 16-bit address loaded into the
/// program counter when a break is executed.
pub const IRQ_BRK_VECTOR: u16 = 0xFFFE;

/// NOP: the machine state is left exactly as it was.
pub open spec fn spec_nop(s: CpuView) -> CpuView {
    s
}

/// NOP (no operation)
/// Opcode: EA
pub fn nop(state: &mut ComputerState)
    requires
        old(state).wf(),
    ensures
        final(state).wf(),
        final(state)@ == spec_nop(old(state)@),
{
}

/// BRK (force break): the Break flag is set, the program counter and the
/// flag byte are pushed, the Interrupt-disable flag is set, and the
/// program counter is loaded from the IRQ/BRK vector.
pub open spec fn spec_brk(s: CpuView) -> CpuView {
    let m1 = s.mem.push_word(s.mem.pc);
    let sta1 = s.sta | StatusRegister::B;
    let m2 = m1.push(sta1);
    CpuView {
        mem: m2.with_pc(m2.word(IRQ_BRK_VECTOR)),
        acc: s.acc,
        sta: sta1 | StatusRegister::I,
    }
}

/// BRK (force break)
/// Opcode: 00
pub fn brk(state: &mut ComputerState)
    requires
        old(state).wf(),
    ensures
        final(state).wf(),
        final(state)@ == spec_brk(old(state)@),
{
    // Push the program counter
    let pc = state.mem.pc.get();
    state.mem.push_nibble_on_stack(pc);
    // Then push the status with the Break flag set
    state.sta = state.sta.union(StatusRegister::B);
    state.mem.push_on_stack(state.sta.as_byte());
    // Set the interrupt-disable status
    state.sta = state.sta.union(StatusRegister::I);
    // Load the PC from the interrupt vector
    let interrupt_vector = state.mem.fetch_nibble_from_addr(IRQ_BRK_VECTOR);
    state.mem.pc.set(interrupt_vector);
}

/// RTI (return from interrupt): the flag byte is pulled back verbatim,
/// then the program counter, exactly mirroring what BRK pushed. The
/// Interrupt-disable flag is not cleared beyond what the pulled byte
/// holds.
pub open spec fn spec_rti(s: CpuView) -> CpuView {
    let (flags, m1) = s.mem.pop();
    let (ret_addr, m2) = m1.pop_word();
    CpuView { mem: m2.with_pc(ret_addr), acc: s.acc, sta: flags }
}

/// RTI (return from interrupt)
/// Opcode: 40
pub fn rti(state: &mut ComputerState)
    requires
        old(state).wf(),
    ensures
        final(state).wf(),
        final(state)@ == spec_rti(old(state)@),
{
    let flags = state.mem.pop_from_stack();
    state.sta = StatusRegister::from_byte(flags);
    let ret_addr = state.mem.pop_nibble_from_stack();
    state.mem.pc.set(ret_addr);
}

} // verus!
