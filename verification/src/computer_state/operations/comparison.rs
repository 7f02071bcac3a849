//! Compare instructions: the accumulator, X and Y registers compared
//! against a resolved operand, setting flags without storing a result.

use vstd::prelude::*;

use crate::computer_state::status_register::{
    cond_mask, get_cond_flag, has_flag, merge_flags, StatusRegister, CZN_FLAGS,
};
use crate::computer_state::{ComputerState, CpuView};

verus! {

/// The flags of a compare: the operand is subtracted from the register
/// without storing the result. Carry is set iff the register is at least
/// the operand (unsigned), Zero iff they are equal, and Negative iff the
/// register is below the operand.
pub open spec fn spec_cmp(val: u8, mem: u8) -> u8 {
    cond_mask(StatusRegister::C, val >= mem) | cond_mask(StatusRegister::Z, val == mem) | cond_mask(
        StatusRegister::N,
        val < mem,
    )
}

/// CMP/CPX/CPY (compare a register with memory)
fn cmp(val: u8, mem: u8) -> (r: u8)
    ensures
        r == spec_cmp(val, mem),
{
    get_cond_flag(StatusRegister::C, val >= mem) | get_cond_flag(StatusRegister::Z, val == mem)
        | get_cond_flag(StatusRegister::N, val < mem)
}

/// The state after a register is compared with the operand: Carry, Zero
/// and Negative are rewritten, no register changes.
pub open spec fn spec_apply_cmp(s: CpuView, val: u8, operand: u8) -> CpuView {
    CpuView { sta: merge_flags(s.sta, CZN_FLAGS, spec_cmp(val, operand)), ..s }
}

/// Folds the flags of a compare into the machine state
fn apply_cmp(state: &mut ComputerState, val: u8, operand: u8)
    requires
        old(state).wf(),
    ensures
        final(state).wf(),
        final(state)@ == spec_apply_cmp(old(state)@, val, operand),
{
    let flags = cmp(val, operand);
    state.sta = state.sta.difference(CZN_FLAGS).union(flags);
}

// COMPARE ACCUMULATOR
/// CMP (intermediate addressing mode)
pub open spec fn spec_cmp_im(s: CpuView) -> CpuView {
    let (v, m) = s.mem.immediate_value();
    spec_apply_cmp(s.with_mem(m), s.acc, v)
}

/// CMP (intermediate addressing mode)
/// Opcode: C9
pub fn cmp_im(state: &mut ComputerState)
    requires
        old(state).wf(),
    ensures
        final(state).wf(),
        final(state)@ == spec_cmp_im(old(state)@),
{
    let operand = state.mem.fetch_intermediate();
    let val = state.acc.get();
    apply_cmp(state, val, operand);
}

/// CMP (zero-page addressing mode)
pub open spec fn spec_cmp_zp(s: CpuView) -> CpuView {
    let (v, m) = s.mem.zero_page_value();
    spec_apply_cmp(s.with_mem(m), s.acc, v)
}

/// CMP (zero-page addressing mode)
/// Opcode: C5
pub fn cmp_zp(state: &mut ComputerState)
    requires
        old(state).wf(),
    ensures
        final(state).wf(),
        final(state)@ == spec_cmp_zp(old(state)@),
{
    let operand = state.mem.fetch_zero_page();
    let val = state.acc.get();
    apply_cmp(state, val, operand);
}

/// CMP (zero-page X addressing mode)
pub open spec fn spec_cmp_zpx(s: CpuView) -> CpuView {
    let (v, m) = s.mem.zero_page_x_value();
    spec_apply_cmp(s.with_mem(m), s.acc, v)
}

/// CMP (zero-page X addressing mode)
/// Opcode: D5
pub fn cmp_zpx(state: &mut ComputerState)
    requires
        old(state).wf(),
    ensures
        final(state).wf(),
        final(state)@ == spec_cmp_zpx(old(state)@),
{
    let operand = state.mem.fetch_zero_page_x();
    let val = state.acc.get();
    apply_cmp(state, val, operand);
}

/// CMP (absolute addressing mode)
pub open spec fn spec_cmp_ab(s: CpuView) -> CpuView {
    let (v, m) = s.mem.absolute_value();
    spec_apply_cmp(s.with_mem(m), s.acc, v)
}

/// CMP (absolute addressing mode)
/// Opcode: CD
pub fn cmp_ab(state: &mut ComputerState)
    requires
        old(state).wf(),
    ensures
        final(state).wf(),
        final(state)@ == spec_cmp_ab(old(state)@),
{
    let operand = state.mem.fetch_absolute();
    let val = state.acc.get();
    apply_cmp(state, val, operand);
}

/// CMP (absolute X addressing mode)
pub open spec fn spec_cmp_abx(s: CpuView) -> CpuView {
    let (v, m) = s.mem.absolute_x_value();
    spec_apply_cmp(s.with_mem(m), s.acc, v)
}

/// CMP (absolute X addressing mode)
/// Opcode: DD
pub fn cmp_abx(state: &mut ComputerState)
    requires
        old(state).wf(),
    ensures
        final(state).wf(),
        final(state)@ == spec_cmp_abx(old(state)@),
{
    let operand = state.mem.fetch_absolute_x();
    let val = state.acc.get();
    apply_cmp(state, val, operand);
}

/// CMP (absolute Y addressing mode)
pub open spec fn spec_cmp_aby(s: CpuView) -> CpuView {
    let (v, m) = s.mem.absolute_y_value();
    spec_apply_cmp(s.with_mem(m), s.acc, v)
}

/// CMP (absolute Y addressing mode)
/// Opcode: D9
pub fn cmp_aby(state: &mut ComputerState)
    requires
        old(state).wf(),
    ensures
        final(state).wf(),
        final(state)@ == spec_cmp_aby(old(state)@),
{
    let operand = state.mem.fetch_absolute_y();
    let val = state.acc.get();
    apply_cmp(state, val, operand);
}

/// CMP (indirect X addressing mode)
pub open spec fn spec_cmp_inx(s: CpuView) -> CpuView {
    let (v, m) = s.mem.indirect_x_value();
    spec_apply_cmp(s.with_mem(m), s.acc, v)
}

/// CMP (indirect X addressing mode)
/// Opcode: C1
pub fn cmp_inx(state: &mut ComputerState)
    requires
        old(state).wf(),
    ensures
        final(state).wf(),
        final(state)@ == spec_cmp_inx(old(state)@),
{
    let operand = state.mem.fetch_indirect_x();
    let val = state.acc.get();
    apply_cmp(state, val, operand);
}

/// CMP (indirect Y addressing mode)
pub open spec fn spec_cmp_iny(s: CpuView) -> CpuView {
    let (v, m) = s.mem.indirect_y_value();
    spec_apply_cmp(s.with_mem(m), s.acc, v)
}

/// CMP (indirect Y addressing mode)
/// Opcode: D1
pub fn cmp_iny(state: &mut ComputerState)
    requires
        old(state).wf(),
    ensures
        final(state).wf(),
        final(state)@ == spec_cmp_iny(old(state)@),
{
    let operand = state.mem.fetch_indirect_y();
    let val = state.acc.get();
    apply_cmp(state, val, operand);
}

// COMPARE X REGISTER
/// CPX (intermediate addressing mode)
pub open spec fn spec_cpx_im(s: CpuView) -> CpuView {
    let (v, m) = s.mem.immediate_value();
    spec_apply_cmp(s.with_mem(m), s.mem.x, v)
}

/// CPX (intermediate addressing mode)
/// Opcode: E0
pub fn cpx_im(state: &mut ComputerState)
    requires
        old(state).wf(),
    ensures
        final(state).wf(),
        final(state)@ == spec_cpx_im(old(state)@),
{
    let operand = state.mem.fetch_intermediate();
    let val = state.get_x();
    apply_cmp(state, val, operand);
}

/// CPX (zero-page addressing mode)
pub open spec fn spec_cpx_zp(s: CpuView) -> CpuView {
    let (v, m) = s.mem.zero_page_value();
    spec_apply_cmp(s.with_mem(m), s.mem.x, v)
}

/// CPX (zero-page addressing mode)
/// Opcode: E4
pub fn cpx_zp(state: &mut ComputerState)
    requires
        old(state).wf(),
    ensures
        final(state).wf(),
        final(state)@ == spec_cpx_zp(old(state)@),
{
    let operand = state.mem.fetch_zero_page();
    let val = state.get_x();
    apply_cmp(state, val, operand);
}

/// CPX (absolute addressing mode)
pub open spec fn spec_cpx_ab(s: CpuView) -> CpuView {
    let (v, m) = s.mem.absolute_value();
    spec_apply_cmp(s.with_mem(m), s.mem.x, v)
}

/// CPX (absolute addressing mode)
/// Opcode: EC
pub fn cpx_ab(state: &mut ComputerState)
    requires
        old(state).wf(),
    ensures
        final(state).wf(),
        final(state)@ == spec_cpx_ab(old(state)@),
{
    let operand = state.mem.fetch_absolute();
    let val = state.get_x();
    apply_cmp(state, val, operand);
}

// COMPARE Y REGISTER
/// CPY (intermediate addressing mode)
pub open spec fn spec_cpy_im(s: CpuView) -> CpuView {
    let (v, m) = s.mem.immediate_value();
    spec_apply_cmp(s.with_mem(m), s.mem.y, v)
}

/// CPY (intermediate addressing mode)
/// Opcode: C0
pub fn cpy_im(state: &mut ComputerState)
    requires
        old(state).wf(),
    ensures
        final(state).wf(),
        final(state)@ == spec_cpy_im(old(state)@),
{
    let operand = state.mem.fetch_intermediate();
    let val = state.get_y();
    apply_cmp(state, val, operand);
}

/// CPY (zero-page addressing mode)
pub open spec fn spec_cpy_zp(s: CpuView) -> CpuView {
    let (v, m) = s.mem.zero_page_value();
    spec_apply_cmp(s.with_mem(m), s.mem.y, v)
}

/// CPY (zero-page addressing mode)
/// Opcode: C4
pub fn cpy_zp(state: &mut ComputerState)
    requires
        old(state).wf(),
    ensures
        final(state).wf(),
        final(state)@ == spec_cpy_zp(old(state)@),
{
    let operand = state.mem.fetch_zero_page();
    let val = state.get_y();
    apply_cmp(state, val, operand);
}

/// CPY (absolute addressing mode)
pub open spec fn spec_cpy_ab(s: CpuView) -> CpuView {
    let (v, m) = s.mem.absolute_value();
    spec_apply_cmp(s.with_mem(m), s.mem.y, v)
}

/// CPY (absolute addressing mode)
/// Opcode: CC
pub fn cpy_ab(state: &mut ComputerState)
    requires
        old(state).wf(),
    ensures
        final(state).wf(),
        final(state)@ == spec_cpy_ab(old(state)@),
{
    let operand = state.mem.fetch_absolute();
    let val = state.get_y();
    apply_cmp(state, val, operand);
}

// LAWS
/// A compare's flags say exactly what happened, and it alters nothing
/// else: Carry iff the register is at least the operand, Zero iff they
/// are equal, Negative iff the register is below the operand.
pub proof fn cmp_flags_exact(val: u8, mem: u8)
    ensures
        has_flag(spec_cmp(val, mem), StatusRegister::C) <==> val >= mem,
        has_flag(spec_cmp(val, mem), StatusRegister::Z) <==> val == mem,
        has_flag(spec_cmp(val, mem), StatusRegister::N) <==> val < mem,
{
    assert((has_flag(spec_cmp(val, mem), StatusRegister::C) <==> val >= mem) && (has_flag(
        spec_cmp(val, mem),
        StatusRegister::Z,
    ) <==> val == mem) && (has_flag(spec_cmp(val, mem), StatusRegister::N) <==> val < mem))
        by (bit_vector);
}

} // verus!
