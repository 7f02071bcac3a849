//! Stack instructions: moving the accumulator and the status byte to and
//! from the hardware stack, and the stack pointer transfers.

use vstd::prelude::*;

use crate::computer_state::memory::MemView;
use crate::computer_state::status_register::{
    get_zero_neg_flags, merge_flags, spec_zero_neg_flags, StatusRegister, ZN_FLAGS,
};
use crate::computer_state::{ComputerState, CpuView};

verus! {

/// TSX (transfer stack pointer to X)
pub open spec fn spec_tsx(s: CpuView) -> CpuView {
    CpuView {
        mem: MemView { x: s.mem.stk, ..s.mem },
        sta: merge_flags(s.sta, ZN_FLAGS, spec_zero_neg_flags(s.mem.stk)),
        ..s
    }
}

/// TSX (transfer stack pointer to X)
/// Opcode: BA
pub fn tsx(state: &mut ComputerState)
    requires
        old(state).wf(),
    ensures
        final(state).wf(),
        final(state)@ == spec_tsx(old(state)@),
{
    let value = state.get_stk();
    state.set_x(value);
    state.sta = state.sta.difference(ZN_FLAGS).union(get_zero_neg_flags(value));
}

/// TXS (transfer X to stack pointer); no flag is touched
pub open spec fn spec_txs(s: CpuView) -> CpuView {
    CpuView { mem: MemView { stk: s.mem.x, ..s.mem }, ..s }
}

/// TXS (transfer X to stack pointer)
/// Opcode: 9A
pub fn txs(state: &mut ComputerState)
    requires
        old(state).wf(),
    ensures
        final(state).wf(),
        final(state)@ == spec_txs(old(state)@),
{
    let value = state.get_x();
    state.set_stk(value);
}

/// PHA (push accumulator); no flag is touched
pub open spec fn spec_pha(s: CpuView) -> CpuView {
    s.with_mem(s.mem.push(s.acc))
}

/// PHA (push accumulator)
/// Opcode: 48
pub fn pha(state: &mut ComputerState)
    requires
        old(state).wf(),
    ensures
        final(state).wf(),
        final(state)@ == spec_pha(old(state)@),
{
    let value = state.acc.get();
    state.mem.push_on_stack(value);
}

/// PHP (push processor status); the flag byte goes out verbatim
pub open spec fn spec_php(s: CpuView) -> CpuView {
    s.with_mem(s.mem.push(s.sta))
}

/// PHP (push processor status)
/// Opcode: 08
pub fn php(state: &mut ComputerState)
    requires
        old(state).wf(),
    ensures
        final(state).wf(),
        final(state)@ == spec_php(old(state)@),
{
    let value = state.sta.as_byte();
    state.mem.push_on_stack(value);
}

/// PLA (pull accumulator): Zero and Negative are rewritten from the
/// pulled value
pub open spec fn spec_pla(s: CpuView) -> CpuView {
    let (value, m) = s.mem.pop();
    CpuView { mem: m, acc: value, sta: merge_flags(s.sta, ZN_FLAGS, spec_zero_neg_flags(value)) }
}

/// PLA (pull accumulator)
/// Opcode: 68
pub fn pla(state: &mut ComputerState)
    requires
        old(state).wf(),
    ensures
        final(state).wf(),
        final(state)@ == spec_pla(old(state)@),
{
    let value = state.mem.pop_from_stack();
    state.acc.set(value);
    state.sta = state.sta.difference(ZN_FLAGS).union(get_zero_neg_flags(value));
}

/// PLP (pull processor status): the flag byte comes back verbatim, with
/// no flag recomputation
pub open spec fn spec_plp(s: CpuView) -> CpuView {
    let (value, m) = s.mem.pop();
    CpuView { mem: m, sta: value, ..s }
}

/// PLP (pull processor status)
/// Opcode: 28
pub fn plp(state: &mut ComputerState)
    requires
        old(state).wf(),
    ensures
        final(state).wf(),
        final(state)@ == spec_plp(old(state)@),
{
    let value = state.mem.pop_from_stack();
    state.sta = StatusRegister::from_byte(value);
}

} // verus!
