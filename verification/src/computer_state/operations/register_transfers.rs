//! Register transfer instructions: copies between the accumulator and
//! the index registers, updating Zero and Negative on the destination.

use vstd::prelude::*;

use crate::computer_state::memory::MemView;
use crate::computer_state::status_register::{
    get_zero_neg_flags, merge_flags, spec_zero_neg_flags, ZN_FLAGS,
};
use crate::computer_state::{ComputerState, CpuView};

verus! {

/// TAX (transfer accumulator to X)
pub open spec fn spec_tax(s: CpuView) -> CpuView {
    CpuView {
        mem: MemView { x: s.acc, ..s.mem },
        sta: merge_flags(s.sta, ZN_FLAGS, spec_zero_neg_flags(s.acc)),
        ..s
    }
}

/// TAX (transfer accumulator to X)
/// Opcode: AA
pub fn tax(state: &mut ComputerState)
    requires
        old(state).wf(),
    ensures
        final(state).wf(),
        final(state)@ == spec_tax(old(state)@),
{
    let value = state.acc.get();
    state.set_x(value);
    state.sta = state.sta.difference(ZN_FLAGS).union(get_zero_neg_flags(value));
}

/// TAY (transfer accumulator to Y)
pub open spec fn spec_tay(s: CpuView) -> CpuView {
    CpuView {
        mem: MemView { y: s.acc, ..s.mem },
        sta: merge_flags(s.sta, ZN_FLAGS, spec_zero_neg_flags(s.acc)),
        ..s
    }
}

/// TAY (transfer accumulator to Y)
/// Opcode: A8
pub fn tay(state: &mut ComputerState)
    requires
        old(state).wf(),
    ensures
        final(state).wf(),
        final(state)@ == spec_tay(old(state)@),
{
    let value = state.acc.get();
    state.set_y(value);
    state.sta = state.sta.difference(ZN_FLAGS).union(get_zero_neg_flags(value));
}

/// TXA (transfer X to accumulator)
pub open spec fn spec_txa(s: CpuView) -> CpuView {
    CpuView { acc: s.mem.x, sta: merge_flags(s.sta, ZN_FLAGS, spec_zero_neg_flags(s.mem.x)), ..s }
}

/// TXA (transfer X to accumulator)
/// Opcode: 8A
pub fn txa(state: &mut ComputerState)
    requires
        old(state).wf(),
    ensures
        final(state).wf(),
        final(state)@ == spec_txa(old(state)@),
{
    let value = state.get_x();
    state.acc.set(value);
    state.sta = state.sta.difference(ZN_FLAGS).union(get_zero_neg_flags(value));
}

/// TYA (transfer Y to accumulator)
pub open spec fn spec_tya(s: CpuView) -> CpuView {
    CpuView { acc: s.mem.y, sta: merge_flags(s.sta, ZN_FLAGS, spec_zero_neg_flags(s.mem.y)), ..s }
}

/// TYA (transfer Y to accumulator)
/// Opcode: 98
pub fn tya(state: &mut ComputerState)
    requires
        old(state).wf(),
    ensures
        final(state).wf(),
        final(state)@ == spec_tya(old(state)@),
{
    let value = state.get_y();
    state.acc.set(value);
    state.sta = state.sta.difference(ZN_FLAGS).union(get_zero_neg_flags(value));
}

} // verus!
