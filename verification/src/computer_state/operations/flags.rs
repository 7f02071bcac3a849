//! Status flag instructions: pure single-bit sets and clears on the
//! status register, with no other side effect.

use vstd::prelude::*;

use crate::computer_state::status_register::StatusRegister;
use crate::computer_state::{ComputerState, CpuView};

verus! {

/// The state with one flag cleared and everything else untouched.
pub open spec fn spec_clear_flag(s: CpuView, flag: u8) -> CpuView {
    CpuView { sta: s.sta & !flag, ..s }
}

/// The state with one flag set and everything else untouched.
pub open spec fn spec_set_flag(s: CpuView, flag: u8) -> CpuView {
    CpuView { sta: s.sta | flag, ..s }
}

// CLEAR INSTRUCTIONS
/// CLC (clear carry flag)
/// Opcode: 18
pub fn clc(state: &mut ComputerState)
    requires
        old(state).wf(),
    ensures
        final(state).wf(),
        final(state)@ == spec_clear_flag(old(state)@, StatusRegister::C),
{
    state.sta = state.sta.difference(StatusRegister::C);
}

/// CLD (clear decimal flag)
/// Opcode: D8
pub fn cld(state: &mut ComputerState)
    requires
        old(state).wf(),
    ensures
        final(state).wf(),
        final(state)@ == spec_clear_flag(old(state)@, StatusRegister::D),
{
    state.sta = state.sta.difference(StatusRegister::D);
}

/// CLI (clear interrupt disable flag)
/// Opcode: 58
pub fn cli(state: &mut ComputerState)
    requires
        old(state).wf(),
    ensures
        final(state).wf(),
        final(state)@ == spec_clear_flag(old(state)@, StatusRegister::I),
{
    state.sta = state.sta.difference(StatusRegister::I);
}

/// CLV (clear overflow flag)
/// Opcode: B8
pub fn clv(state: &mut ComputerState)
    requires
        old(state).wf(),
    ensures
        final(state).wf(),
        final(state)@ == spec_clear_flag(old(state)@, StatusRegister::V),
{
    state.sta = state.sta.difference(StatusRegister::V);
}

// SET INSTRUCTIONS
/// SEC (set carry flag)
/// Opcode: 38
pub fn sec(state: &mut ComputerState)
    requires
        old(state).wf(),
    ensures
        final(state).wf(),
        final(state)@ == spec_set_flag(old(state)@, StatusRegister::C),
{
    state.sta = state.sta.union(StatusRegister::C);
}

/// SED (set decimal flag)
/// Opcode: F8
pub fn sed(state: &mut ComputerState)
    requires
        old(state).wf(),
    ensures
        final(state).wf(),
        final(state)@ == spec_set_flag(old(state)@, StatusRegister::D),
{
    state.sta = state.sta.union(StatusRegister::D);
}

/// SEI (set interrupt disable flag)
/// Opcode: 78
pub fn sei(state: &mut ComputerState)
    requires
        old(state).wf(),
    ensures
        final(state).wf(),
        final(state)@ == spec_set_flag(old(state)@, StatusRegister::I),
{
    state.sta = state.sta.union(StatusRegister::I);
}

} // verus!
