//! Branch instructions: each reads a signed relative offset
//! unconditionally, then adds it to the program counter only if the
//! named flag predicate holds.

use vstd::prelude::*;

use crate::computer_state::registers::wrap16;
use crate::computer_state::status_register::{has_flag, StatusRegister};
use crate::computer_state::{ComputerState, CpuView};

verus! {

/// The state after a conditional branch: the offset byte is consumed
/// either way; when the condition holds the program counter then moves
/// by the signed offset, wrapping modulo the size of the address space.
pub open spec fn spec_branch(s: CpuView, condition: bool) -> CpuView {
    let (offset, m) = s.mem.relative_offset();
    if condition {
        s.with_mem(m.with_pc(wrap16(m.pc + offset)))
    } else {
        s.with_mem(m)
    }
}

/// Consumes the relative operand and moves the PC by it if the
/// condition holds
fn branch(state: &mut ComputerState, condition: bool)
    requires
        old(state).wf(),
    ensures
        final(state).wf(),
        final(state)@ == spec_branch(old(state)@, condition),
{
    let offset = state.mem.fetch_relative();
    if condition {
        state.mem.pc.add_signed(offset);
    }
}

/// BCS (branch if carry set)
pub open spec fn spec_bcs(s: CpuView) -> CpuView {
    spec_branch(s, has_flag(s.sta, StatusRegister::C))
}

/// BCS (branch if carry set)
/// Opcode: B0
pub fn bcs(state: &mut ComputerState)
    requires
        old(state).wf(),
    ensures
        final(state).wf(),
        final(state)@ == spec_bcs(old(state)@),
{
    let condition = state.sta.contains(StatusRegister::C);
    branch(state, condition);
}

/// BCC (branch if carry clear)
pub open spec fn spec_bcc(s: CpuView) -> CpuView {
    spec_branch(s, !has_flag(s.sta, StatusRegister::C))
}

/// BCC (branch if carry clear)
/// Opcode: 90
pub fn bcc(state: &mut ComputerState)
    requires
        old(state).wf(),
    ensures
        final(state).wf(),
        final(state)@ == spec_bcc(old(state)@),
{
    let condition = !state.sta.contains(StatusRegister::C);
    branch(state, condition);
}

/// BEQ (branch if equal)
pub open spec fn spec_beq(s: CpuView) -> CpuView {
    spec_branch(s, has_flag(s.sta, StatusRegister::Z))
}

/// BEQ (branch if equal)
/// Opcode: F0
pub fn beq(state: &mut ComputerState)
    requires
        old(state).wf(),
    ensures
        final(state).wf(),
        final(state)@ == spec_beq(old(state)@),
{
    let condition = state.sta.contains(StatusRegister::Z);
    branch(state, condition);
}

/// BNE (branch if not equal)
pub open spec fn spec_bne(s: CpuView) -> CpuView {
    spec_branch(s, !has_flag(s.sta, StatusRegister::Z))
}

/// BNE (branch if not equal)
/// Opcode: D0
pub fn bne(state: &mut ComputerState)
    requires
        old(state).wf(),
    ensures
        final(state).wf(),
        final(state)@ == spec_bne(old(state)@),
{
    let condition = !state.sta.contains(StatusRegister::Z);
    branch(state, condition);
}

/// BMI (branch if minus)
pub open spec fn spec_bmi(s: CpuView) -> CpuView {
    spec_branch(s, has_flag(s.sta, StatusRegister::N))
}

/// BMI (branch if minus)
/// Opcode: 30
pub fn bmi(state: &mut ComputerState)
    requires
        old(state).wf(),
    ensures
        final(state).wf(),
        final(state)@ == spec_bmi(old(state)@),
{
    let condition = state.sta.contains(StatusRegister::N);
    branch(state, condition);
}

/// BPL (branch if positive)
pub open spec fn spec_bpl(s: CpuView) -> CpuView {
    spec_branch(s, !has_flag(s.sta, StatusRegister::N))
}

/// BPL (branch if positive)
/// Opcode: 10
pub fn bpl(state: &mut ComputerState)
    requires
        old(state).wf(),
    ensures
        final(state).wf(),
        final(state)@ == spec_bpl(old(state)@),
{
    let condition = !state.sta.contains(StatusRegister::N);
    branch(state, condition);
}

/// BVS (branch if overflow set)
pub open spec fn spec_bvs(s: CpuView) -> CpuView {
    spec_branch(s, has_flag(s.sta, StatusRegister::V))
}

/// BVS (branch if overflow set)
/// Opcode: 70
pub fn bvs(state: &mut ComputerState)
    requires
        old(state).wf(),
    ensures
        final(state).wf(),
        final(state)@ == spec_bvs(old(state)@),
{
    let condition = state.sta.contains(StatusRegister::V);
    branch(state, condition);
}

/// BVC (branch if overflow clear)
pub open spec fn spec_bvc(s: CpuView) -> CpuView {
    spec_branch(s, !has_flag(s.sta, StatusRegister::V))
}

/// BVC (branch if overflow clear)
/// Opcode: 50
pub fn bvc(state: &mut ComputerState)
    requires
        old(state).wf(),
    ensures
        final(state).wf(),
        final(state)@ == spec_bvc(old(state)@),
{
    let condition = !state.sta.contains(StatusRegister::V);
    branch(state, condition);
}

} // verus!
