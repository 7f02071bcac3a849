//! Jump and subroutine instructions: direct and indirect jumps, and the
//! call/return pair that threads return addresses through the stack.

use vstd::prelude::*;

use crate::computer_state::{ComputerState, CpuView};

verus! {

/// JMP (absolute addressing mode)
pub open spec fn spec_jmp_ab(s: CpuView) -> CpuView {
    let (addr, m) = s.mem.next_word();
    s.with_mem(m.with_pc(addr))
}

/// JMP (absolute addressing mode)
/// Opcode: 4C
pub fn jmp_ab(state: &mut ComputerState)
    requires
        old(state).wf(),
    ensures
        final(state).wf(),
        final(state)@ == spec_jmp_ab(old(state)@),
{
    let addr = state.mem.fetch_next_nibble();
    state.mem.pc.set(addr);
}

/// JMP (indirect addressing mode): the program counter is loaded from
/// the 16-bit value held at the address the operand points to
pub open spec fn spec_jmp_in(s: CpuView) -> CpuView {
    let (addr, m) = s.mem.indirect_target();
    s.with_mem(m.with_pc(addr))
}

/// JMP (indirect addressing mode)
/// Opcode: 6C
pub fn jmp_in(state: &mut ComputerState)
    requires
        old(state).wf(),
    ensures
        final(state).wf(),
        final(state)@ == spec_jmp_in(old(state)@),
{
    let addr = state.mem.fetch_indirect();
    state.mem.pc.set(addr);
}

/// JSR (jump to subroutine): the address of the instruction following
/// the operand is pushed onto the stack, then the program counter is
/// loaded with the operand
pub open spec fn spec_jsr(s: CpuView) -> CpuView {
    let (sub_addr, m) = s.mem.next_word();
    s.with_mem(m.push_word(m.pc).with_pc(sub_addr))
}

/// JSR (jump to subroutine)
/// Opcode: 20
pub fn jsr(state: &mut ComputerState)
    requires
        old(state).wf(),
    ensures
        final(state).wf(),
        final(state)@ == spec_jsr(old(state)@),
{
    let sub_addr = state.mem.fetch_next_nibble();
    let ret_addr = state.mem.pc.get();
    state.mem.push_nibble_on_stack(ret_addr);
    state.mem.pc.set(sub_addr);
}

/// RTS (return from subroutine): the program counter is restored from
/// the stack, exactly mirroring what JSR pushed
pub open spec fn spec_rts(s: CpuView) -> CpuView {
    let (ret_addr, m) = s.mem.pop_word();
    s.with_mem(m.with_pc(ret_addr))
}

/// RTS (return from subroutine)
/// Opcode: 60
pub fn rts(state: &mut ComputerState)
    requires
        old(state).wf(),
    ensures
        final(state).wf(),
        final(state)@ == spec_rts(old(state)@),
{
    let ret_addr = state.mem.pop_nibble_from_stack();
    state.mem.pc.set(ret_addr);
}

} // verus!
