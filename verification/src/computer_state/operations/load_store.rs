//! Load and store instructions: moving bytes between the registers and
//! resolved memory operands.

use vstd::prelude::*;

use crate::computer_state::memory::MemView;
use crate::computer_state::status_register::{
    get_zero_neg_flags, merge_flags, spec_zero_neg_flags, ZN_FLAGS,
};
use crate::computer_state::{ComputerState, CpuView};

verus! {

// LOADS
/// The state after a value is loaded into the accumulator: Zero and
/// Negative are rewritten from the loaded value, Carry and Overflow are
/// untouched.
pub open spec fn spec_apply_lda(s: CpuView, value: u8) -> CpuView {
    CpuView { acc: value, sta: merge_flags(s.sta, ZN_FLAGS, spec_zero_neg_flags(value)), ..s }
}

/// Loads a resolved value into the accumulator
fn lda(state: &mut ComputerState, value: u8)
    requires
        old(state).wf(),
    ensures
        final(state).wf(),
        final(state)@ == spec_apply_lda(old(state)@, value),
{
    state.acc.set(value);
    state.sta = state.sta.difference(ZN_FLAGS).union(get_zero_neg_flags(value));
}

/// The state after a value is loaded into the X index register: Zero and
/// Negative are rewritten from the loaded value.
pub open spec fn spec_apply_ldx(s: CpuView, value: u8) -> CpuView {
    CpuView {
        mem: MemView { x: value, ..s.mem },
        sta: merge_flags(s.sta, ZN_FLAGS, spec_zero_neg_flags(value)),
        ..s
    }
}

/// Loads a resolved value into the X index register
fn ldx(state: &mut ComputerState, value: u8)
    requires
        old(state).wf(),
    ensures
        final(state).wf(),
        final(state)@ == spec_apply_ldx(old(state)@, value),
{
    state.set_x(value);
    state.sta = state.sta.difference(ZN_FLAGS).union(get_zero_neg_flags(value));
}

/// The state after a value is loaded into the Y index register: Zero and
/// Negative are rewritten from the loaded value.
pub open spec fn spec_apply_ldy(s: CpuView, value: u8) -> CpuView {
    CpuView {
        mem: MemView { y: value, ..s.mem },
        sta: merge_flags(s.sta, ZN_FLAGS, spec_zero_neg_flags(value)),
        ..s
    }
}

/// Loads a resolved value into the Y index register
fn ldy(state: &mut ComputerState, value: u8)
    requires
        old(state).wf(),
    ensures
        final(state).wf(),
        final(state)@ == spec_apply_ldy(old(state)@, value),
{
    state.set_y(value);
    state.sta = state.sta.difference(ZN_FLAGS).union(get_zero_neg_flags(value));
}

// LOAD ACCUMULATOR
/// LDA (intermediate addressing mode)
pub open spec fn spec_lda_im(s: CpuView) -> CpuView {
    let (v, m) = s.mem.immediate_value();
    spec_apply_lda(s.with_mem(m), v)
}

/// LDA (intermediate addressing mode)
/// Opcode: A9
pub fn lda_im(state: &mut ComputerState)
    requires
        old(state).wf(),
    ensures
        final(state).wf(),
        final(state)@ == spec_lda_im(old(state)@),
{
    let value = state.mem.fetch_intermediate();
    lda(state, value);
}

/// LDA (zero-page addressing mode)
pub open spec fn spec_lda_zp(s: CpuView) -> CpuView {
    let (v, m) = s.mem.zero_page_value();
    spec_apply_lda(s.with_mem(m), v)
}

/// LDA (zero-page addressing mode)
/// Opcode: A5
pub fn lda_zp(state: &mut ComputerState)
    requires
        old(state).wf(),
    ensures
        final(state).wf(),
        final(state)@ == spec_lda_zp(old(state)@),
{
    let value = state.mem.fetch_zero_page();
    lda(state, value);
}

/// LDA (zero-page X addressing mode)
pub open spec fn spec_lda_zpx(s: CpuView) -> CpuView {
    let (v, m) = s.mem.zero_page_x_value();
    spec_apply_lda(s.with_mem(m), v)
}

/// LDA (zero-page X addressing mode)
/// Opcode: B5
pub fn lda_zpx(state: &mut ComputerState)
    requires
        old(state).wf(),
    ensures
        final(state).wf(),
        final(state)@ == spec_lda_zpx(old(state)@),
{
    let value = state.mem.fetch_zero_page_x();
    lda(state, value);
}

/// LDA (absolute addressing mode)
pub open spec fn spec_lda_ab(s: CpuView) -> CpuView {
    let (v, m) = s.mem.absolute_value();
    spec_apply_lda(s.with_mem(m), v)
}

/// LDA (absolute addressing mode)
/// Opcode: AD
pub fn lda_ab(state: &mut ComputerState)
    requires
        old(state).wf(),
    ensures
        final(state).wf(),
        final(state)@ == spec_lda_ab(old(state)@),
{
    let value = state.mem.fetch_absolute();
    lda(state, value);
}

/// LDA (absolute X addressing mode)
pub open spec fn spec_lda_abx(s: CpuView) -> CpuView {
    let (v, m) = s.mem.absolute_x_value();
    spec_apply_lda(s.with_mem(m), v)
}

/// LDA (absolute X addressing mode)
/// Opcode: BD
pub fn lda_abx(state: &mut ComputerState)
    requires
        old(state).wf(),
    ensures
        final(state).wf(),
        final(state)@ == spec_lda_abx(old(state)@),
{
    let value = state.mem.fetch_absolute_x();
    lda(state, value);
}

/// LDA (absolute Y addressing mode)
pub open spec fn spec_lda_aby(s: CpuView) -> CpuView {
    let (v, m) = s.mem.absolute_y_value();
    spec_apply_lda(s.with_mem(m), v)
}

/// LDA (absolute Y addressing mode)
/// Opcode: B9
pub fn lda_aby(state: &mut ComputerState)
    requires
        old(state).wf(),
    ensures
        final(state).wf(),
        final(state)@ == spec_lda_aby(old(state)@),
{
    let value = state.mem.fetch_absolute_y();
    lda(state, value);
}

/// LDA (indirect X addressing mode)
pub open spec fn spec_lda_inx(s: CpuView) -> CpuView {
    let (v, m) = s.mem.indirect_x_value();
    spec_apply_lda(s.with_mem(m), v)
}

/// LDA (indirect X addressing mode)
/// Opcode: A1
pub fn lda_inx(state: &mut ComputerState)
    requires
        old(state).wf(),
    ensures
        final(state).wf(),
        final(state)@ == spec_lda_inx(old(state)@),
{
    let value = state.mem.fetch_indirect_x();
    lda(state, value);
}

/// LDA (indirect Y addressing mode)
pub open spec fn spec_lda_iny(s: CpuView) -> CpuView {
    let (v, m) = s.mem.indirect_y_value();
    spec_apply_lda(s.with_mem(m), v)
}

/// LDA (indirect Y addressing mode)
/// Opcode: B1
pub fn lda_iny(state: &mut ComputerState)
    requires
        old(state).wf(),
    ensures
        final(state).wf(),
        final(state)@ == spec_lda_iny(old(state)@),
{
    let value = state.mem.fetch_indirect_y();
    lda(state, value);
}

// LOAD X REGISTER
/// LDX (intermediate addressing mode)
pub open spec fn spec_ldx_im(s: CpuView) -> CpuView {
    let (v, m) = s.mem.immediate_value();
    spec_apply_ldx(s.with_mem(m), v)
}

/// LDX (intermediate addressing mode)
/// Opcode: A2
pub fn ldx_im(state: &mut ComputerState)
    requires
        old(state).wf(),
    ensures
        final(state).wf(),
        final(state)@ == spec_ldx_im(old(state)@),
{
    let value = state.mem.fetch_intermediate();
    ldx(state, value);
}

/// LDX (zero-page addressing mode)
pub open spec fn spec_ldx_zp(s: CpuView) -> CpuView {
    let (v, m) = s.mem.zero_page_value();
    spec_apply_ldx(s.with_mem(m), v)
}

/// LDX (zero-page addressing mode)
/// Opcode: A6
pub fn ldx_zp(state: &mut ComputerState)
    requires
        old(state).wf(),
    ensures
        final(state).wf(),
        final(state)@ == spec_ldx_zp(old(state)@),
{
    let value = state.mem.fetch_zero_page();
    ldx(state, value);
}

/// LDX (zero-page Y addressing mode)
pub open spec fn spec_ldx_zpy(s: CpuView) -> CpuView {
    let (v, m) = s.mem.zero_page_y_value();
    spec_apply_ldx(s.with_mem(m), v)
}

/// LDX (zero-page Y addressing mode)
/// Opcode: B6
pub fn ldx_zpy(state: &mut ComputerState)
    requires
        old(state).wf(),
    ensures
        final(state).wf(),
        final(state)@ == spec_ldx_zpy(old(state)@),
{
    let value = state.mem.fetch_zero_page_y();
    ldx(state, value);
}

/// LDX (absolute addressing mode)
pub open spec fn spec_ldx_ab(s: CpuView) -> CpuView {
    let (v, m) = s.mem.absolute_value();
    spec_apply_ldx(s.with_mem(m), v)
}

/// LDX (absolute addressing mode)
/// Opcode: AE
pub fn ldx_ab(state: &mut ComputerState)
    requires
        old(state).wf(),
    ensures
        final(state).wf(),
        final(state)@ == spec_ldx_ab(old(state)@),
{
    let value = state.mem.fetch_absolute();
    ldx(state, value);
}

/// LDX (absolute Y addressing mode)
pub open spec fn spec_ldx_aby(s: CpuView) -> CpuView {
    let (v, m) = s.mem.absolute_y_value();
    spec_apply_ldx(s.with_mem(m), v)
}

/// LDX (absolute Y addressing mode)
/// Opcode: BE
pub fn ldx_aby(state: &mut ComputerState)
    requires
        old(state).wf(),
    ensures
        final(state).wf(),
        final(state)@ == spec_ldx_aby(old(state)@),
{
    let value = state.mem.fetch_absolute_y();
    ldx(state, value);
}

// LOAD Y REGISTER
/// LDY (intermediate addressing mode)
pub open spec fn spec_ldy_im(s: CpuView) -> CpuView {
    let (v, m) = s.mem.immediate_value();
    spec_apply_ldy(s.with_mem(m), v)
}

/// LDY (intermediate addressing mode)
/// Opcode: A0
pub fn ldy_im(state: &mut ComputerState)
    requires
        old(state).wf(),
    ensures
        final(state).wf(),
        final(state)@ == spec_ldy_im(old(state)@),
{
    let value = state.mem.fetch_intermediate();
    ldy(state, value);
}

/// LDY (zero-page addressing mode)
pub open spec fn spec_ldy_zp(s: CpuView) -> CpuView {
    let (v, m) = s.mem.zero_page_value();
    spec_apply_ldy(s.with_mem(m), v)
}

/// LDY (zero-page addressing mode)
/// Opcode: A4
pub fn ldy_zp(state: &mut ComputerState)
    requires
        old(state).wf(),
    ensures
        final(state).wf(),
        final(state)@ == spec_ldy_zp(old(state)@),
{
    let value = state.mem.fetch_zero_page();
    ldy(state, value);
}

/// LDY (zero-page X addressing mode)
pub open spec fn spec_ldy_zpx(s: CpuView) -> CpuView {
    let (v, m) = s.mem.zero_page_x_value();
    spec_apply_ldy(s.with_mem(m), v)
}

/// LDY (zero-page X addressing mode)
/// Opcode: B4
pub fn ldy_zpx(state: &mut ComputerState)
    requires
        old(state).wf(),
    ensures
        final(state).wf(),
        final(state)@ == spec_ldy_zpx(old(state)@),
{
    let value = state.mem.fetch_zero_page_x();
    ldy(state, value);
}

/// LDY (absolute addressing mode)
pub open spec fn spec_ldy_ab(s: CpuView) -> CpuView {
    let (v, m) = s.mem.absolute_value();
    spec_apply_ldy(s.with_mem(m), v)
}

/// LDY (absolute addressing mode)
/// Opcode: AC
pub fn ldy_ab(state: &mut ComputerState)
    requires
        old(state).wf(),
    ensures
        final(state).wf(),
        final(state)@ == spec_ldy_ab(old(state)@),
{
    let value = state.mem.fetch_absolute();
    ldy(state, value);
}

/// LDY (absolute X addressing mode)
pub open spec fn spec_ldy_abx(s: CpuView) -> CpuView {
    let (v, m) = s.mem.absolute_x_value();
    spec_apply_ldy(s.with_mem(m), v)
}

/// LDY (absolute X addressing mode)
/// Opcode: BC
pub fn ldy_abx(state: &mut ComputerState)
    requires
        old(state).wf(),
    ensures
        final(state).wf(),
        final(state)@ == spec_ldy_abx(old(state)@),
{
    let value = state.mem.fetch_absolute_x();
    ldy(state, value);
}

// STORES
/// The state after a register's byte is stored at the resolved address:
/// memory alone changes, no flag is touched.
pub open spec fn spec_apply_store(s: CpuView, addr: u16, value: u8) -> CpuView {
    CpuView { mem: s.mem.write(addr, value), ..s }
}

// STORE ACCUMULATOR
/// STA (zero-page addressing mode)
pub open spec fn spec_sta_zp(s: CpuView) -> CpuView {
    let (addr, m) = s.mem.zero_page_addr();
    spec_apply_store(s.with_mem(m), addr, s.acc)
}

/// STA (zero-page addressing mode)
/// Opcode: 85
pub fn sta_zp(state: &mut ComputerState)
    requires
        old(state).wf(),
    ensures
        final(state).wf(),
        final(state)@ == spec_sta_zp(old(state)@),
{
    let addr = state.mem.fetch_zero_page_address();
    let value = state.acc.get();
    state.mem.set_byte_at_addr(addr, value);
}

/// STA (zero-page X addressing mode)
pub open spec fn spec_sta_zpx(s: CpuView) -> CpuView {
    let (addr, m) = s.mem.zero_page_x_addr();
    spec_apply_store(s.with_mem(m), addr, s.acc)
}

/// STA (zero-page X addressing mode)
/// Opcode: 95
pub fn sta_zpx(state: &mut ComputerState)
    requires
        old(state).wf(),
    ensures
        final(state).wf(),
        final(state)@ == spec_sta_zpx(old(state)@),
{
    let addr = state.mem.fetch_zero_page_x_address();
    let value = state.acc.get();
    state.mem.set_byte_at_addr(addr, value);
}

/// STA (absolute addressing mode)
pub open spec fn spec_sta_ab(s: CpuView) -> CpuView {
    let (addr, m) = s.mem.absolute_addr();
    spec_apply_store(s.with_mem(m), addr, s.acc)
}

/// STA (absolute addressing mode)
/// Opcode: 8D
pub fn sta_ab(state: &mut ComputerState)
    requires
        old(state).wf(),
    ensures
        final(state).wf(),
        final(state)@ == spec_sta_ab(old(state)@),
{
    let addr = state.mem.fetch_absolute_address();
    let value = state.acc.get();
    state.mem.set_byte_at_addr(addr, value);
}

/// STA (absolute X addressing mode)
pub open spec fn spec_sta_abx(s: CpuView) -> CpuView {
    let (addr, m) = s.mem.absolute_x_addr();
    spec_apply_store(s.with_mem(m), addr, s.acc)
}

/// STA (absolute X addressing mode)
/// Opcode: 9D
pub fn sta_abx(state: &mut ComputerState)
    requires
        old(state).wf(),
    ensures
        final(state).wf(),
        final(state)@ == spec_sta_abx(old(state)@),
{
    let addr = state.mem.fetch_absolute_x_address();
    let value = state.acc.get();
    state.mem.set_byte_at_addr(addr, value);
}

/// STA (absolute Y addressing mode)
pub open spec fn spec_sta_aby(s: CpuView) -> CpuView {
    let (addr, m) = s.mem.absolute_y_addr();
    spec_apply_store(s.with_mem(m), addr, s.acc)
}

/// STA (absolute Y addressing mode)
/// Opcode: 99
pub fn sta_aby(state: &mut ComputerState)
    requires
        old(state).wf(),
    ensures
        final(state).wf(),
        final(state)@ == spec_sta_aby(old(state)@),
{
    let addr = state.mem.fetch_absolute_y_address();
    let value = state.acc.get();
    state.mem.set_byte_at_addr(addr, value);
}

/// STA (indirect X addressing mode)
pub open spec fn spec_sta_inx(s: CpuView) -> CpuView {
    let (addr, m) = s.mem.indirect_x_addr();
    spec_apply_store(s.with_mem(m), addr, s.acc)
}

/// STA (indirect X addressing mode)
/// Opcode: 81
pub fn sta_inx(state: &mut ComputerState)
    requires
        old(state).wf(),
    ensures
        final(state).wf(),
        final(state)@ == spec_sta_inx(old(state)@),
{
    let addr = state.mem.fetch_indirect_x_address();
    let value = state.acc.get();
    state.mem.set_byte_at_addr(addr, value);
}

/// STA (indirect Y addressing mode)
pub open spec fn spec_sta_iny(s: CpuView) -> CpuView {
    let (addr, m) = s.mem.indirect_y_addr();
    spec_apply_store(s.with_mem(m), addr, s.acc)
}

/// STA (indirect Y addressing mode)
/// Opcode: 91
pub fn sta_iny(state: &mut ComputerState)
    requires
        old(state).wf(),
    ensures
        final(state).wf(),
        final(state)@ == spec_sta_iny(old(state)@),
{
    let addr = state.mem.fetch_indirect_y_address();
    let value = state.acc.get();
    state.mem.set_byte_at_addr(addr, value);
}

// STORE X REGISTER
/// STX (zero-page addressing mode)
pub open spec fn spec_stx_zp(s: CpuView) -> CpuView {
    let (addr, m) = s.mem.zero_page_addr();
    spec_apply_store(s.with_mem(m), addr, s.mem.x)
}

/// STX (zero-page addressing mode)
/// Opcode: 86
pub fn stx_zp(state: &mut ComputerState)
    requires
        old(state).wf(),
    ensures
        final(state).wf(),
        final(state)@ == spec_stx_zp(old(state)@),
{
    let addr = state.mem.fetch_zero_page_address();
    let value = state.get_x();
    state.mem.set_byte_at_addr(addr, value);
}

/// STX (zero-page Y addressing mode)
pub open spec fn spec_stx_zpy(s: CpuView) -> CpuView {
    let (addr, m) = s.mem.zero_page_y_addr();
    spec_apply_store(s.with_mem(m), addr, s.mem.x)
}

/// STX (zero-page Y addressing mode)
/// Opcode: 96
pub fn stx_zpy(state: &mut ComputerState)
    requires
        old(state).wf(),
    ensures
        final(state).wf(),
        final(state)@ == spec_stx_zpy(old(state)@),
{
    let addr = state.mem.fetch_zero_page_y_address();
    let value = state.get_x();
    state.mem.set_byte_at_addr(addr, value);
}

/// STX (absolute addressing mode)
pub open spec fn spec_stx_ab(s: CpuView) -> CpuView {
    let (addr, m) = s.mem.absolute_addr();
    spec_apply_store(s.with_mem(m), addr, s.mem.x)
}

/// STX (absolute addressing mode)
/// Opcode: 8E
pub fn stx_ab(state: &mut ComputerState)
    requires
        old(state).wf(),
    ensures
        final(state).wf(),
        final(state)@ == spec_stx_ab(old(state)@),
{
    let addr = state.mem.fetch_absolute_address();
    let value = state.get_x();
    state.mem.set_byte_at_addr(addr, value);
}

// STORE Y REGISTER
/// STY (zero-page addressing mode)
pub open spec fn spec_sty_zp(s: CpuView) -> CpuView {
    let (addr, m) = s.mem.zero_page_addr();
    spec_apply_store(s.with_mem(m), addr, s.mem.y)
}

/// STY (zero-page addressing mode)
/// Opcode: 84
pub fn sty_zp(state: &mut ComputerState)
    requires
        old(state).wf(),
    ensures
        final(state).wf(),
        final(state)@ == spec_sty_zp(old(state)@),
{
    let addr = state.mem.fetch_zero_page_address();
    let value = state.get_y();
    state.mem.set_byte_at_addr(addr, value);
}

/// STY (zero-page X addressing mode)
pub open spec fn spec_sty_zpx(s: CpuView) -> CpuView {
    let (addr, m) = s.mem.zero_page_x_addr();
    spec_apply_store(s.with_mem(m), addr, s.mem.y)
}

/// STY (zero-page X addressing mode)
/// Opcode: 94
pub fn sty_zpx(state: &mut ComputerState)
    requires
        old(state).wf(),
    ensures
        final(state).wf(),
        final(state)@ == spec_sty_zpx(old(state)@),
{
    let addr = state.mem.fetch_zero_page_x_address();
    let value = state.get_y();
    state.mem.set_byte_at_addr(addr, value);
}

/// STY (absolute addressing mode)
pub open spec fn spec_sty_ab(s: CpuView) -> CpuView {
    let (addr, m) = s.mem.absolute_addr();
    spec_apply_store(s.with_mem(m), addr, s.mem.y)
}

/// STY (absolute addressing mode)
/// Opcode: 8C
pub fn sty_ab(state: &mut ComputerState)
    requires
        old(state).wf(),
    ensures
        final(state).wf(),
        final(state)@ == spec_sty_ab(old(state)@),
{
    let addr = state.mem.fetch_absolute_address();
    let value = state.get_y();
    state.mem.set_byte_at_addr(addr, value);
}

} // verus!
