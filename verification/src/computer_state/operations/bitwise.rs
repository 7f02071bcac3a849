//! Bitwise instructions: the logical combinations AND, OR and EOR, the
//! non-destructive bit test, and the shifts and rotates, in every
//! addressing mode they support.

use vstd::prelude::*;

use crate::computer_state::registers::wrap8;
use crate::computer_state::status_register::{
    cond_mask, get_cond_flag, get_zero_neg_flags, has_flag, merge_flags, spec_zero_neg_flags,
    StatusRegister, CZN_FLAGS, ZNV_FLAGS, ZN_FLAGS,
};
use crate::computer_state::{ComputerState, CpuView};

verus! {

// AND
/// The result and flags of a bitwise and: Zero and Negative are produced
/// from the result, Carry and Overflow are untouched.
pub open spec fn spec_and(acc: u8, value: u8) -> (u8, u8) {
    let result = acc & value;
    (result, spec_zero_neg_flags(result))
}

/// AND (bitwise and)
fn and(acc: u8, value: u8) -> (r: (u8, u8))
    ensures
        r == spec_and(acc, value),
{
    let result = acc & value;
    (result, get_zero_neg_flags(result))
}

/// The state after the accumulator is combined with the operand by
/// bitwise and: Zero and Negative are rewritten from the result.
pub open spec fn spec_apply_and(s: CpuView, operand: u8) -> CpuView {
    let (result, flags) = spec_and(s.acc, operand);
    CpuView { acc: result, sta: merge_flags(s.sta, ZN_FLAGS, flags), ..s }
}

/// Folds the result of a bitwise and into the machine state
fn apply_and(state: &mut ComputerState, operand: u8)
    requires
        old(state).wf(),
    ensures
        final(state).wf(),
        final(state)@ == spec_apply_and(old(state)@, operand),
{
    let (result, flags) = and(state.acc.get(), operand);
    state.acc.set(result);
    state.sta = state.sta.difference(ZN_FLAGS).union(flags);
}

/// AND (intermediate addressing mode)
pub open spec fn spec_and_im(s: CpuView) -> CpuView {
    let (v, m) = s.mem.immediate_value();
    spec_apply_and(s.with_mem(m), v)
}

/// AND (intermediate addressing mode)
/// Opcode: 29
pub fn and_im(state: &mut ComputerState)
    requires
        old(state).wf(),
    ensures
        final(state).wf(),
        final(state)@ == spec_and_im(old(state)@),
{
    let operand = state.mem.fetch_intermediate();
    apply_and(state, operand);
}

/// AND (zero-page addressing mode)
pub open spec fn spec_and_zp(s: CpuView) -> CpuView {
    let (v, m) = s.mem.zero_page_value();
    spec_apply_and(s.with_mem(m), v)
}

/// AND (zero-page addressing mode)
/// Opcode: 25
pub fn and_zp(state: &mut ComputerState)
    requires
        old(state).wf(),
    ensures
        final(state).wf(),
        final(state)@ == spec_and_zp(old(state)@),
{
    let operand = state.mem.fetch_zero_page();
    apply_and(state, operand);
}

/// AND (zero-page X addressing mode)
pub open spec fn spec_and_zpx(s: CpuView) -> CpuView {
    let (v, m) = s.mem.zero_page_x_value();
    spec_apply_and(s.with_mem(m), v)
}

/// AND (zero-page X addressing mode)
/// Opcode: 35
pub fn and_zpx(state: &mut ComputerState)
    requires
        old(state).wf(),
    ensures
        final(state).wf(),
        final(state)@ == spec_and_zpx(old(state)@),
{
    let operand = state.mem.fetch_zero_page_x();
    apply_and(state, operand);
}

/// AND (absolute addressing mode)
pub open spec fn spec_and_ab(s: CpuView) -> CpuView {
    let (v, m) = s.mem.absolute_value();
    spec_apply_and(s.with_mem(m), v)
}

/// AND (absolute addressing mode)
/// Opcode: 2D
pub fn and_ab(state: &mut ComputerState)
    requires
        old(state).wf(),
    ensures
        final(state).wf(),
        final(state)@ == spec_and_ab(old(state)@),
{
    let operand = state.mem.fetch_absolute();
    apply_and(state, operand);
}

/// AND (absolute X addressing mode)
pub open spec fn spec_and_abx(s: CpuView) -> CpuView {
    let (v, m) = s.mem.absolute_x_value();
    spec_apply_and(s.with_mem(m), v)
}

/// AND (absolute X addressing mode)
/// Opcode: 3D
pub fn and_abx(state: &mut ComputerState)
    requires
        old(state).wf(),
    ensures
        final(state).wf(),
        final(state)@ == spec_and_abx(old(state)@),
{
    let operand = state.mem.fetch_absolute_x();
    apply_and(state, operand);
}

/// AND (absolute Y addressing mode)
pub open spec fn spec_and_aby(s: CpuView) -> CpuView {
    let (v, m) = s.mem.absolute_y_value();
    spec_apply_and(s.with_mem(m), v)
}

/// AND (absolute Y addressing mode)
/// Opcode: 39
pub fn and_aby(state: &mut ComputerState)
    requires
        old(state).wf(),
    ensures
        final(state).wf(),
        final(state)@ == spec_and_aby(old(state)@),
{
    let operand = state.mem.fetch_absolute_y();
    apply_and(state, operand);
}

/// AND (indirect X addressing mode)
pub open spec fn spec_and_inx(s: CpuView) -> CpuView {
    let (v, m) = s.mem.indirect_x_value();
    spec_apply_and(s.with_mem(m), v)
}

/// AND (indirect X addressing mode)
/// Opcode: 21
pub fn and_inx(state: &mut ComputerState)
    requires
        old(state).wf(),
    ensures
        final(state).wf(),
        final(state)@ == spec_and_inx(old(state)@),
{
    let operand = state.mem.fetch_indirect_x();
    apply_and(state, operand);
}

/// AND (indirect Y addressing mode)
pub open spec fn spec_and_iny(s: CpuView) -> CpuView {
    let (v, m) = s.mem.indirect_y_value();
    spec_apply_and(s.with_mem(m), v)
}

/// AND (indirect Y addressing mode)
/// Opcode: 31
pub fn and_iny(state: &mut ComputerState)
    requires
        old(state).wf(),
    ensures
        final(state).wf(),
        final(state)@ == spec_and_iny(old(state)@),
{
    let operand = state.mem.fetch_indirect_y();
    apply_and(state, operand);
}

// OR
/// The result and flags of a bitwise inclusive or: Zero and Negative are
/// produced from the result, Carry and Overflow are untouched.
pub open spec fn spec_or(acc: u8, value: u8) -> (u8, u8) {
    let result = acc | value;
    (result, spec_zero_neg_flags(result))
}

/// OR (logical bitwise inclusive or)
fn or(acc: u8, value: u8) -> (r: (u8, u8))
    ensures
        r == spec_or(acc, value),
{
    let result = acc | value;
    (result, get_zero_neg_flags(result))
}

/// The state after the accumulator is combined with the operand by
/// bitwise inclusive or: Zero and Negative are rewritten from the result.
pub open spec fn spec_apply_or(s: CpuView, operand: u8) -> CpuView {
    let (result, flags) = spec_or(s.acc, operand);
    CpuView { acc: result, sta: merge_flags(s.sta, ZN_FLAGS, flags), ..s }
}

/// Folds the result of a bitwise inclusive or into the machine state
fn apply_or(state: &mut ComputerState, operand: u8)
    requires
        old(state).wf(),
    ensures
        final(state).wf(),
        final(state)@ == spec_apply_or(old(state)@, operand),
{
    let (result, flags) = or(state.acc.get(), operand);
    state.acc.set(result);
    state.sta = state.sta.difference(ZN_FLAGS).union(flags);
}

/// OR (intermediate addressing mode)
pub open spec fn spec_or_im(s: CpuView) -> CpuView {
    let (v, m) = s.mem.immediate_value();
    spec_apply_or(s.with_mem(m), v)
}

/// OR (intermediate addressing mode)
/// Opcode: 09
pub fn or_im(state: &mut ComputerState)
    requires
        old(state).wf(),
    ensures
        final(state).wf(),
        final(state)@ == spec_or_im(old(state)@),
{
    let operand = state.mem.fetch_intermediate();
    apply_or(state, operand);
}

/// OR (zero-page addressing mode)
pub open spec fn spec_or_zp(s: CpuView) -> CpuView {
    let (v, m) = s.mem.zero_page_value();
    spec_apply_or(s.with_mem(m), v)
}

/// OR (zero-page addressing mode)
/// Opcode: 05
pub fn or_zp(state: &mut ComputerState)
    requires
        old(state).wf(),
    ensures
        final(state).wf(),
        final(state)@ == spec_or_zp(old(state)@),
{
    let operand = state.mem.fetch_zero_page();
    apply_or(state, operand);
}

/// OR (zero-page X addressing mode)
pub open spec fn spec_or_zpx(s: CpuView) -> CpuView {
    let (v, m) = s.mem.zero_page_x_value();
    spec_apply_or(s.with_mem(m), v)
}

/// OR (zero-page X addressing mode)
/// Opcode: 15
pub fn or_zpx(state: &mut ComputerState)
    requires
        old(state).wf(),
    ensures
        final(state).wf(),
        final(state)@ == spec_or_zpx(old(state)@),
{
    let operand = state.mem.fetch_zero_page_x();
    apply_or(state, operand);
}

/// OR (absolute addressing mode)
pub open spec fn spec_or_ab(s: CpuView) -> CpuView {
    let (v, m) = s.mem.absolute_value();
    spec_apply_or(s.with_mem(m), v)
}

/// OR (absolute addressing mode)
/// Opcode: 0D
pub fn or_ab(state: &mut ComputerState)
    requires
        old(state).wf(),
    ensures
        final(state).wf(),
        final(state)@ == spec_or_ab(old(state)@),
{
    let operand = state.mem.fetch_absolute();
    apply_or(state, operand);
}

/// OR (absolute X addressing mode)
pub open spec fn spec_or_abx(s: CpuView) -> CpuView {
    let (v, m) = s.mem.absolute_x_value();
    spec_apply_or(s.with_mem(m), v)
}

/// OR (absolute X addressing mode)
/// Opcode: 1D
pub fn or_abx(state: &mut ComputerState)
    requires
        old(state).wf(),
    ensures
        final(state).wf(),
        final(state)@ == spec_or_abx(old(state)@),
{
    let operand = state.mem.fetch_absolute_x();
    apply_or(state, operand);
}

/// OR (absolute Y addressing mode)
pub open spec fn spec_or_aby(s: CpuView) -> CpuView {
    let (v, m) = s.mem.absolute_y_value();
    spec_apply_or(s.with_mem(m), v)
}

/// OR (absolute Y addressing mode)
/// Opcode: 19
pub fn or_aby(state: &mut ComputerState)
    requires
        old(state).wf(),
    ensures
        final(state).wf(),
        final(state)@ == spec_or_aby(old(state)@),
{
    let operand = state.mem.fetch_absolute_y();
    apply_or(state, operand);
}

/// OR (indirect X addressing mode)
pub open spec fn spec_or_inx(s: CpuView) -> CpuView {
    let (v, m) = s.mem.indirect_x_value();
    spec_apply_or(s.with_mem(m), v)
}

/// OR (indirect X addressing mode)
/// Opcode: 01
pub fn or_inx(state: &mut ComputerState)
    requires
        old(state).wf(),
    ensures
        final(state).wf(),
        final(state)@ == spec_or_inx(old(state)@),
{
    let operand = state.mem.fetch_indirect_x();
    apply_or(state, operand);
}

/// OR (indirect Y addressing mode)
pub open spec fn spec_or_iny(s: CpuView) -> CpuView {
    let (v, m) = s.mem.indirect_y_value();
    spec_apply_or(s.with_mem(m), v)
}

/// OR (indirect Y addressing mode)
/// Opcode: 11
pub fn or_iny(state: &mut ComputerState)
    requires
        old(state).wf(),
    ensures
        final(state).wf(),
        final(state)@ == spec_or_iny(old(state)@),
{
    let operand = state.mem.fetch_indirect_y();
    apply_or(state, operand);
}

// EOR
/// The result and flags of a bitwise exclusive or: Zero and Negative are
/// produced from the result, Carry and Overflow are untouched.
pub open spec fn spec_eor(acc: u8, value: u8) -> (u8, u8) {
    let result = acc ^ value;
    (result, spec_zero_neg_flags(result))
}

/// EOR (logical bitwise exclusive or)
fn eor(acc: u8, value: u8) -> (r: (u8, u8))
    ensures
        r == spec_eor(acc, value),
{
    let result = acc ^ value;
    (result, get_zero_neg_flags(result))
}

/// The state after the accumulator is combined with the operand by
/// bitwise exclusive or: Zero and Negative are rewritten from the result.
pub open spec fn spec_apply_eor(s: CpuView, operand: u8) -> CpuView {
    let (result, flags) = spec_eor(s.acc, operand);
    CpuView { acc: result, sta: merge_flags(s.sta, ZN_FLAGS, flags), ..s }
}

/// Folds the result of a bitwise exclusive or into the machine state
fn apply_eor(state: &mut ComputerState, operand: u8)
    requires
        old(state).wf(),
    ensures
        final(state).wf(),
        final(state)@ == spec_apply_eor(old(state)@, operand),
{
    let (result, flags) = eor(state.acc.get(), operand);
    state.acc.set(result);
    state.sta = state.sta.difference(ZN_FLAGS).union(flags);
}

/// EOR (intermediate addressing mode)
pub open spec fn spec_eor_im(s: CpuView) -> CpuView {
    let (v, m) = s.mem.immediate_value();
    spec_apply_eor(s.with_mem(m), v)
}

/// EOR (intermediate addressing mode)
/// Opcode: 49
pub fn eor_im(state: &mut ComputerState)
    requires
        old(state).wf(),
    ensures
        final(state).wf(),
        final(state)@ == spec_eor_im(old(state)@),
{
    let operand = state.mem.fetch_intermediate();
    apply_eor(state, operand);
}

/// EOR (zero-page addressing mode)
pub open spec fn spec_eor_zp(s: CpuView) -> CpuView {
    let (v, m) = s.mem.zero_page_value();
    spec_apply_eor(s.with_mem(m), v)
}

/// EOR (zero-page addressing mode)
/// Opcode: 45
pub fn eor_zp(state: &mut ComputerState)
    requires
        old(state).wf(),
    ensures
        final(state).wf(),
        final(state)@ == spec_eor_zp(old(state)@),
{
    let operand = state.mem.fetch_zero_page();
    apply_eor(state, operand);
}

/// EOR (zero-page X addressing mode)
pub open spec fn spec_eor_zpx(s: CpuView) -> CpuView {
    let (v, m) = s.mem.zero_page_x_value();
    spec_apply_eor(s.with_mem(m), v)
}

/// EOR (zero-page X addressing mode)
/// Opcode: 55
pub fn eor_zpx(state: &mut ComputerState)
    requires
        old(state).wf(),
    ensures
        final(state).wf(),
        final(state)@ == spec_eor_zpx(old(state)@),
{
    let operand = state.mem.fetch_zero_page_x();
    apply_eor(state, operand);
}

/// EOR (absolute addressing mode)
pub open spec fn spec_eor_ab(s: CpuView) -> CpuView {
    let (v, m) = s.mem.absolute_value();
    spec_apply_eor(s.with_mem(m), v)
}

/// EOR (absolute addressing mode)
/// Opcode: 4D
pub fn eor_ab(state: &mut ComputerState)
    requires
        old(state).wf(),
    ensures
        final(state).wf(),
        final(state)@ == spec_eor_ab(old(state)@),
{
    let operand = state.mem.fetch_absolute();
    apply_eor(state, operand);
}

/// EOR (absolute X addressing mode)
pub open spec fn spec_eor_abx(s: CpuView) -> CpuView {
    let (v, m) = s.mem.absolute_x_value();
    spec_apply_eor(s.with_mem(m), v)
}

/// EOR (absolute X addressing mode)
/// Opcode: 5D
pub fn eor_abx(state: &mut ComputerState)
    requires
        old(state).wf(),
    ensures
        final(state).wf(),
        final(state)@ == spec_eor_abx(old(state)@),
{
    let operand = state.mem.fetch_absolute_x();
    apply_eor(state, operand);
}

/// EOR (absolute Y addressing mode)
pub open spec fn spec_eor_aby(s: CpuView) -> CpuView {
    let (v, m) = s.mem.absolute_y_value();
    spec_apply_eor(s.with_mem(m), v)
}

/// EOR (absolute Y addressing mode)
/// Opcode: 59
pub fn eor_aby(state: &mut ComputerState)
    requires
        old(state).wf(),
    ensures
        final(state).wf(),
        final(state)@ == spec_eor_aby(old(state)@),
{
    let operand = state.mem.fetch_absolute_y();
    apply_eor(state, operand);
}

/// EOR (indirect X addressing mode)
pub open spec fn spec_eor_inx(s: CpuView) -> CpuView {
    let (v, m) = s.mem.indirect_x_value();
    spec_apply_eor(s.with_mem(m), v)
}

/// EOR (indirect X addressing mode)
/// Opcode: 41
pub fn eor_inx(state: &mut ComputerState)
    requires
        old(state).wf(),
    ensures
        final(state).wf(),
        final(state)@ == spec_eor_inx(old(state)@),
{
    let operand = state.mem.fetch_indirect_x();
    apply_eor(state, operand);
}

/// EOR (indirect Y addressing mode)
pub open spec fn spec_eor_iny(s: CpuView) -> CpuView {
    let (v, m) = s.mem.indirect_y_value();
    spec_apply_eor(s.with_mem(m), v)
}

/// EOR (indirect Y addressing mode)
/// Opcode: 51
pub fn eor_iny(state: &mut ComputerState)
    requires
        old(state).wf(),
    ensures
        final(state).wf(),
        final(state)@ == spec_eor_iny(old(state)@),
{
    let operand = state.mem.fetch_indirect_y();
    apply_eor(state, operand);
}

// BIT TEST
/// The flags of a bit test: Zero from the conjunction of accumulator and
/// operand, Negative copied from the operand's bit 7, Overflow from its
/// bit 6. The accumulator itself is untouched: a non-destructive probe.
pub open spec fn spec_bit(acc: u8, value: u8) -> u8 {
    cond_mask(StatusRegister::Z, acc & value == 0) | cond_mask(StatusRegister::N, value >= 0x80)
        | cond_mask(StatusRegister::V, value & 0x40 == 0x40)
}

/// BIT (bit test)
fn bit(acc: u8, value: u8) -> (r: u8)
    ensures
        r == spec_bit(acc, value),
{
    get_cond_flag(StatusRegister::Z, acc & value == 0) | get_cond_flag(
        StatusRegister::N,
        value >= 0x80,
    ) | get_cond_flag(StatusRegister::V, value & 0x40 == 0x40)
}

/// The state after a bit test of the operand against the accumulator:
/// Zero, Negative and Overflow are rewritten, nothing else changes.
pub open spec fn spec_apply_bit(s: CpuView, operand: u8) -> CpuView {
    CpuView { sta: merge_flags(s.sta, ZNV_FLAGS, spec_bit(s.acc, operand)), ..s }
}

/// Folds the flags of a bit test into the machine state
fn apply_bit(state: &mut ComputerState, operand: u8)
    requires
        old(state).wf(),
    ensures
        final(state).wf(),
        final(state)@ == spec_apply_bit(old(state)@, operand),
{
    let flags = bit(state.acc.get(), operand);
    state.sta = state.sta.difference(ZNV_FLAGS).union(flags);
}

/// BIT (zero-page addressing mode)
pub open spec fn spec_bit_zp(s: CpuView) -> CpuView {
    let (v, m) = s.mem.zero_page_value();
    spec_apply_bit(s.with_mem(m), v)
}

/// BIT (zero-page addressing mode)
/// Opcode: 24
pub fn bit_zp(state: &mut ComputerState)
    requires
        old(state).wf(),
    ensures
        final(state).wf(),
        final(state)@ == spec_bit_zp(old(state)@),
{
    let operand = state.mem.fetch_zero_page();
    apply_bit(state, operand);
}

/// BIT (absolute addressing mode)
pub open spec fn spec_bit_ab(s: CpuView) -> CpuView {
    let (v, m) = s.mem.absolute_value();
    spec_apply_bit(s.with_mem(m), v)
}

/// BIT (absolute addressing mode)
/// Opcode: 2C
pub fn bit_ab(state: &mut ComputerState)
    requires
        old(state).wf(),
    ensures
        final(state).wf(),
        final(state)@ == spec_bit_ab(old(state)@),
{
    let operand = state.mem.fetch_absolute();
    apply_bit(state, operand);
}

// ASL
/// The result and flags of an arithmetic shift left: the operand is
/// doubled modulo 256, the bit shifted out becomes the new Carry, and
/// Zero and Negative reflect the shifted result.
pub open spec fn spec_asl(value: u8) -> (u8, u8) {
    let result = wrap8(value * 2);
    (result, spec_zero_neg_flags(result) | cond_mask(StatusRegister::C, value >= 0x80))
}

/// ASL (arithmetic shift left)
fn asl(value: u8) -> (r: (u8, u8))
    ensures
        r == spec_asl(value),
{
    let result: u8 = ((value as u16 * 2) % 0x100) as u8;
    (result, get_zero_neg_flags(result) | get_cond_flag(StatusRegister::C, value >= 0x80))
}

/// The state after the byte at the given address is rewritten by a
/// arithmetic shift left: Carry, Zero and Negative are rewritten from the result.
pub open spec fn spec_apply_asl(s: CpuView, addr: u16) -> CpuView {
    let (result, flags) = spec_asl(s.mem.read(addr));
    CpuView { mem: s.mem.write(addr, result), sta: merge_flags(s.sta, CZN_FLAGS, flags), ..s }
}

/// Folds the result of a arithmetic shift left into the byte at the resolved
/// address
fn apply_asl(state: &mut ComputerState, addr: u16)
    requires
        old(state).wf(),
    ensures
        final(state).wf(),
        final(state)@ == spec_apply_asl(old(state)@, addr),
{
    let value = state.mem.fetch_byte_from_addr(addr);
    let (result, flags) = asl(value);
    state.mem.set_byte_at_addr(addr, result);
    state.sta = state.sta.difference(CZN_FLAGS).union(flags);
}

/// ASL (accumulator addressing mode)
pub open spec fn spec_asl_acc(s: CpuView) -> CpuView {
    let (result, flags) = spec_asl(s.acc);
    CpuView { acc: result, sta: merge_flags(s.sta, CZN_FLAGS, flags), ..s }
}

/// ASL (accumulator addressing mode)
/// Opcode: 0A
pub fn asl_acc(state: &mut ComputerState)
    requires
        old(state).wf(),
    ensures
        final(state).wf(),
        final(state)@ == spec_asl_acc(old(state)@),
{
    let (result, flags) = asl(state.acc.get());
    state.acc.set(result);
    state.sta = state.sta.difference(CZN_FLAGS).union(flags);
}

/// ASL (zero-page addressing mode)
pub open spec fn spec_asl_zp(s: CpuView) -> CpuView {
    let (addr, m) = s.mem.zero_page_addr();
    spec_apply_asl(s.with_mem(m), addr)
}

/// ASL (zero-page addressing mode)
/// Opcode: 06
pub fn asl_zp(state: &mut ComputerState)
    requires
        old(state).wf(),
    ensures
        final(state).wf(),
        final(state)@ == spec_asl_zp(old(state)@),
{
    let addr = state.mem.fetch_zero_page_address();
    apply_asl(state, addr);
}

/// ASL (zero-page X addressing mode)
pub open spec fn spec_asl_zpx(s: CpuView) -> CpuView {
    let (addr, m) = s.mem.zero_page_x_addr();
    spec_apply_asl(s.with_mem(m), addr)
}

/// ASL (zero-page X addressing mode)
/// Opcode: 16
pub fn asl_zpx(state: &mut ComputerState)
    requires
        old(state).wf(),
    ensures
        final(state).wf(),
        final(state)@ == spec_asl_zpx(old(state)@),
{
    let addr = state.mem.fetch_zero_page_x_address();
    apply_asl(state, addr);
}

/// ASL (absolute addressing mode)
pub open spec fn spec_asl_ab(s: CpuView) -> CpuView {
    let (addr, m) = s.mem.absolute_addr();
    spec_apply_asl(s.with_mem(m), addr)
}

/// ASL (absolute addressing mode)
/// Opcode: 0E
pub fn asl_ab(state: &mut ComputerState)
    requires
        old(state).wf(),
    ensures
        final(state).wf(),
        final(state)@ == spec_asl_ab(old(state)@),
{
    let addr = state.mem.fetch_absolute_address();
    apply_asl(state, addr);
}

/// ASL (absolute X addressing mode)
pub open spec fn spec_asl_abx(s: CpuView) -> CpuView {
    let (addr, m) = s.mem.absolute_x_addr();
    spec_apply_asl(s.with_mem(m), addr)
}

/// ASL (absolute X addressing mode)
/// Opcode: 1E
pub fn asl_abx(state: &mut ComputerState)
    requires
        old(state).wf(),
    ensures
        final(state).wf(),
        final(state)@ == spec_asl_abx(old(state)@),
{
    let addr = state.mem.fetch_absolute_x_address();
    apply_asl(state, addr);
}

// LSR
/// The result and flags of a logical shift right: the operand is halved,
/// the bit shifted out becomes the new Carry, and Zero and Negative
/// reflect the shifted result.
pub open spec fn spec_lsr(value: u8) -> (u8, u8) {
    let result = value / 2;
    (result, spec_zero_neg_flags(result) | cond_mask(StatusRegister::C, value % 2 == 1))
}

/// LSR (logical shift right)
fn lsr(value: u8) -> (r: (u8, u8))
    ensures
        r == spec_lsr(value),
{
    let result = value / 2;
    (result, get_zero_neg_flags(result) | get_cond_flag(StatusRegister::C, value % 2 == 1))
}

/// The state after the byte at the given address is rewritten by a
/// logical shift right: Carry, Zero and Negative are rewritten from the result.
pub open spec fn spec_apply_lsr(s: CpuView, addr: u16) -> CpuView {
    let (result, flags) = spec_lsr(s.mem.read(addr));
    CpuView { mem: s.mem.write(addr, result), sta: merge_flags(s.sta, CZN_FLAGS, flags), ..s }
}

/// Folds the result of a logical shift right into the byte at the resolved
/// address
fn apply_lsr(state: &mut ComputerState, addr: u16)
    requires
        old(state).wf(),
    ensures
        final(state).wf(),
        final(state)@ == spec_apply_lsr(old(state)@, addr),
{
    let value = state.mem.fetch_byte_from_addr(addr);
    let (result, flags) = lsr(value);
    state.mem.set_byte_at_addr(addr, result);
    state.sta = state.sta.difference(CZN_FLAGS).union(flags);
}

/// LSR (accumulator addressing mode)
pub open spec fn spec_lsr_acc(s: CpuView) -> CpuView {
    let (result, flags) = spec_lsr(s.acc);
    CpuView { acc: result, sta: merge_flags(s.sta, CZN_FLAGS, flags), ..s }
}

/// LSR (accumulator addressing mode)
/// Opcode: 4A
pub fn lsr_acc(state: &mut ComputerState)
    requires
        old(state).wf(),
    ensures
        final(state).wf(),
        final(state)@ == spec_lsr_acc(old(state)@),
{
    let (result, flags) = lsr(state.acc.get());
    state.acc.set(result);
    state.sta = state.sta.difference(CZN_FLAGS).union(flags);
}

/// LSR (zero-page addressing mode)
pub open spec fn spec_lsr_zp(s: CpuView) -> CpuView {
    let (addr, m) = s.mem.zero_page_addr();
    spec_apply_lsr(s.with_mem(m), addr)
}

/// LSR (zero-page addressing mode)
/// Opcode: 46
pub fn lsr_zp(state: &mut ComputerState)
    requires
        old(state).wf(),
    ensures
        final(state).wf(),
        final(state)@ == spec_lsr_zp(old(state)@),
{
    let addr = state.mem.fetch_zero_page_address();
    apply_lsr(state, addr);
}

/// LSR (zero-page X addressing mode)
pub open spec fn spec_lsr_zpx(s: CpuView) -> CpuView {
    let (addr, m) = s.mem.zero_page_x_addr();
    spec_apply_lsr(s.with_mem(m), addr)
}

/// LSR (zero-page X addressing mode)
/// Opcode: 56
pub fn lsr_zpx(state: &mut ComputerState)
    requires
        old(state).wf(),
    ensures
        final(state).wf(),
        final(state)@ == spec_lsr_zpx(old(state)@),
{
    let addr = state.mem.fetch_zero_page_x_address();
    apply_lsr(state, addr);
}

/// LSR (absolute addressing mode)
pub open spec fn spec_lsr_ab(s: CpuView) -> CpuView {
    let (addr, m) = s.mem.absolute_addr();
    spec_apply_lsr(s.with_mem(m), addr)
}

/// LSR (absolute addressing mode)
/// Opcode: 4E
pub fn lsr_ab(state: &mut ComputerState)
    requires
        old(state).wf(),
    ensures
        final(state).wf(),
        final(state)@ == spec_lsr_ab(old(state)@),
{
    let addr = state.mem.fetch_absolute_address();
    apply_lsr(state, addr);
}

/// LSR (absolute X addressing mode)
pub open spec fn spec_lsr_abx(s: CpuView) -> CpuView {
    let (addr, m) = s.mem.absolute_x_addr();
    spec_apply_lsr(s.with_mem(m), addr)
}

/// LSR (absolute X addressing mode)
/// Opcode: 5E
pub fn lsr_abx(state: &mut ComputerState)
    requires
        old(state).wf(),
    ensures
        final(state).wf(),
        final(state)@ == spec_lsr_abx(old(state)@),
{
    let addr = state.mem.fetch_absolute_x_address();
    apply_lsr(state, addr);
}

// ROL
/// The result and flags of a rotate left: the old Carry enters at the
/// bottom as the operand doubles, and the bit shifted out at the top
/// becomes the new Carry, so rotates chain across calls when the carry
/// is preserved between instructions.
pub open spec fn spec_rol(value: u8, carry: u8) -> (u8, u8) {
    let result = wrap8(value * 2 + carry);
    (result, spec_zero_neg_flags(result) | cond_mask(StatusRegister::C, value >= 0x80))
}

/// ROL (rotate left one bit)
fn rol(value: u8, carry: u8) -> (r: (u8, u8))
    requires
        carry <= 1,
    ensures
        r == spec_rol(value, carry),
{
    let result: u8 = ((value as u16 * 2 + carry as u16) % 0x100) as u8;
    (result, get_zero_neg_flags(result) | get_cond_flag(StatusRegister::C, value >= 0x80))
}

/// The state after the byte at the given address is rewritten by a
/// rotate left one bit: Carry, Zero and Negative are rewritten from the result.
pub open spec fn spec_apply_rol(s: CpuView, addr: u16) -> CpuView {
    let (result, flags) = spec_rol(s.mem.read(addr), s.carry_in());
    CpuView { mem: s.mem.write(addr, result), sta: merge_flags(s.sta, CZN_FLAGS, flags), ..s }
}

/// Folds the result of a rotate left one bit into the byte at the resolved
/// address
fn apply_rol(state: &mut ComputerState, addr: u16)
    requires
        old(state).wf(),
    ensures
        final(state).wf(),
        final(state)@ == spec_apply_rol(old(state)@, addr),
{
    let carry = state.get_carry();
    let value = state.mem.fetch_byte_from_addr(addr);
    let (result, flags) = rol(value, carry);
    state.mem.set_byte_at_addr(addr, result);
    state.sta = state.sta.difference(CZN_FLAGS).union(flags);
}

/// ROL (accumulator addressing mode)
pub open spec fn spec_rol_acc(s: CpuView) -> CpuView {
    let (result, flags) = spec_rol(s.acc, s.carry_in());
    CpuView { acc: result, sta: merge_flags(s.sta, CZN_FLAGS, flags), ..s }
}

/// ROL (accumulator addressing mode)
/// Opcode: 2A
pub fn rol_acc(state: &mut ComputerState)
    requires
        old(state).wf(),
    ensures
        final(state).wf(),
        final(state)@ == spec_rol_acc(old(state)@),
{
    let carry = state.get_carry();
    let (result, flags) = rol(state.acc.get(), carry);
    state.acc.set(result);
    state.sta = state.sta.difference(CZN_FLAGS).union(flags);
}

/// ROL (zero-page addressing mode)
pub open spec fn spec_rol_zp(s: CpuView) -> CpuView {
    let (addr, m) = s.mem.zero_page_addr();
    spec_apply_rol(s.with_mem(m), addr)
}

/// ROL (zero-page addressing mode)
/// Opcode: 26
pub fn rol_zp(state: &mut ComputerState)
    requires
        old(state).wf(),
    ensures
        final(state).wf(),
        final(state)@ == spec_rol_zp(old(state)@),
{
    let addr = state.mem.fetch_zero_page_address();
    apply_rol(state, addr);
}

/// ROL (zero-page X addressing mode)
pub open spec fn spec_rol_zpx(s: CpuView) -> CpuView {
    let (addr, m) = s.mem.zero_page_x_addr();
    spec_apply_rol(s.with_mem(m), addr)
}

/// ROL (zero-page X addressing mode)
/// Opcode: 36
pub fn rol_zpx(state: &mut ComputerState)
    requires
        old(state).wf(),
    ensures
        final(state).wf(),
        final(state)@ == spec_rol_zpx(old(state)@),
{
    let addr = state.mem.fetch_zero_page_x_address();
    apply_rol(state, addr);
}

/// ROL (absolute addressing mode)
pub open spec fn spec_rol_ab(s: CpuView) -> CpuView {
    let (addr, m) = s.mem.absolute_addr();
    spec_apply_rol(s.with_mem(m), addr)
}

/// ROL (absolute addressing mode)
/// Opcode: 2E
pub fn rol_ab(state: &mut ComputerState)
    requires
        old(state).wf(),
    ensures
        final(state).wf(),
        final(state)@ == spec_rol_ab(old(state)@),
{
    let addr = state.mem.fetch_absolute_address();
    apply_rol(state, addr);
}

/// ROL (absolute X addressing mode)
pub open spec fn spec_rol_abx(s: CpuView) -> CpuView {
    let (addr, m) = s.mem.absolute_x_addr();
    spec_apply_rol(s.with_mem(m), addr)
}

/// ROL (absolute X addressing mode)
/// Opcode: 3E
pub fn rol_abx(state: &mut ComputerState)
    requires
        old(state).wf(),
    ensures
        final(state).wf(),
        final(state)@ == spec_rol_abx(old(state)@),
{
    let addr = state.mem.fetch_absolute_x_address();
    apply_rol(state, addr);
}

// ROR
/// The result and flags of a rotate right: the old Carry enters at the
/// top as the operand halves, and the bit shifted out at the bottom
/// becomes the new Carry.
pub open spec fn spec_ror(value: u8, carry: u8) -> (u8, u8) {
    let result = (value / 2 + carry * 0x80) as u8;
    (result, spec_zero_neg_flags(result) | cond_mask(StatusRegister::C, value % 2 == 1))
}

/// ROR (rotate right one bit)
fn ror(value: u8, carry: u8) -> (r: (u8, u8))
    requires
        carry <= 1,
    ensures
        r == spec_ror(value, carry),
{
    let result: u8 = value / 2 + carry * 0x80;
    (result, get_zero_neg_flags(result) | get_cond_flag(StatusRegister::C, value % 2 == 1))
}

/// The state after the byte at the given address is rewritten by a
/// rotate right one bit: Carry, Zero and Negative are rewritten from the result.
pub open spec fn spec_apply_ror(s: CpuView, addr: u16) -> CpuView {
    let (result, flags) = spec_ror(s.mem.read(addr), s.carry_in());
    CpuView { mem: s.mem.write(addr, result), sta: merge_flags(s.sta, CZN_FLAGS, flags), ..s }
}

/// Folds the result of a rotate right one bit into the byte at the resolved
/// address
fn apply_ror(state: &mut ComputerState, addr: u16)
    requires
        old(state).wf(),
    ensures
        final(state).wf(),
        final(state)@ == spec_apply_ror(old(state)@, addr),
{
    let carry = state.get_carry();
    let value = state.mem.fetch_byte_from_addr(addr);
    let (result, flags) = ror(value, carry);
    state.mem.set_byte_at_addr(addr, result);
    state.sta = state.sta.difference(CZN_FLAGS).union(flags);
}

/// ROR (accumulator addressing mode)
pub open spec fn spec_ror_acc(s: CpuView) -> CpuView {
    let (result, flags) = spec_ror(s.acc, s.carry_in());
    CpuView { acc: result, sta: merge_flags(s.sta, CZN_FLAGS, flags), ..s }
}

/// ROR (accumulator addressing mode)
/// Opcode: 6A
pub fn ror_acc(state: &mut ComputerState)
    requires
        old(state).wf(),
    ensures
        final(state).wf(),
        final(state)@ == spec_ror_acc(old(state)@),
{
    let carry = state.get_carry();
    let (result, flags) = ror(state.acc.get(), carry);
    state.acc.set(result);
    state.sta = state.sta.difference(CZN_FLAGS).union(flags);
}

/// ROR (zero-page addressing mode)
pub open spec fn spec_ror_zp(s: CpuView) -> CpuView {
    let (addr, m) = s.mem.zero_page_addr();
    spec_apply_ror(s.with_mem(m), addr)
}

/// ROR (zero-page addressing mode)
/// Opcode: 66
pub fn ror_zp(state: &mut ComputerState)
    requires
        old(state).wf(),
    ensures
        final(state).wf(),
        final(state)@ == spec_ror_zp(old(state)@),
{
    let addr = state.mem.fetch_zero_page_address();
    apply_ror(state, addr);
}

/// ROR (zero-page X addressing mode)
pub open spec fn spec_ror_zpx(s: CpuView) -> CpuView {
    let (addr, m) = s.mem.zero_page_x_addr();
    spec_apply_ror(s.with_mem(m), addr)
}

/// ROR (zero-page X addressing mode)
/// Opcode: 76
pub fn ror_zpx(state: &mut ComputerState)
    requires
        old(state).wf(),
    ensures
        final(state).wf(),
        final(state)@ == spec_ror_zpx(old(state)@),
{
    let addr = state.mem.fetch_zero_page_x_address();
    apply_ror(state, addr);
}

/// ROR (absolute addressing mode)
pub open spec fn spec_ror_ab(s: CpuView) -> CpuView {
    let (addr, m) = s.mem.absolute_addr();
    spec_apply_ror(s.with_mem(m), addr)
}

/// ROR (absolute addressing mode)
/// Opcode: 6E
pub fn ror_ab(state: &mut ComputerState)
    requires
        old(state).wf(),
    ensures
        final(state).wf(),
        final(state)@ == spec_ror_ab(old(state)@),
{
    let addr = state.mem.fetch_absolute_address();
    apply_ror(state, addr);
}

/// ROR (absolute X addressing mode)
pub open spec fn spec_ror_abx(s: CpuView) -> CpuView {
    let (addr, m) = s.mem.absolute_x_addr();
    spec_apply_ror(s.with_mem(m), addr)
}

/// ROR (absolute X addressing mode)
/// Opcode: 7E
pub fn ror_abx(state: &mut ComputerState)
    requires
        old(state).wf(),
    ensures
        final(state).wf(),
        final(state)@ == spec_ror_abx(old(state)@),
{
    let addr = state.mem.fetch_absolute_x_address();
    apply_ror(state, addr);
}

// LAWS
/// A shift's flags say exactly what happened: the bit shifted out is the
/// new Carry, Zero iff the shifted result is 0, Negative iff its top bit
/// is set.
pub proof fn shift_flags_exact(value: u8)
    ensures
        has_flag(spec_asl(value).1, StatusRegister::C) <==> value >= 0x80,
        has_flag(spec_asl(value).1, StatusRegister::Z) <==> spec_asl(value).0 == 0,
        has_flag(spec_asl(value).1, StatusRegister::N) <==> spec_asl(value).0 >= 0x80,
        has_flag(spec_lsr(value).1, StatusRegister::C) <==> value % 2 == 1,
        has_flag(spec_lsr(value).1, StatusRegister::Z) <==> spec_lsr(value).0 == 0,
        has_flag(spec_lsr(value).1, StatusRegister::N) <==> spec_lsr(value).0 >= 0x80,
{
    assert((has_flag(spec_asl(value).1, StatusRegister::C) <==> value >= 0x80) && (has_flag(
        spec_asl(value).1,
        StatusRegister::Z,
    ) <==> spec_asl(value).0 == 0) && (has_flag(spec_asl(value).1, StatusRegister::N) <==> spec_asl(
        value,
    ).0 >= 0x80)) by (bit_vector);
    assert((has_flag(spec_lsr(value).1, StatusRegister::C) <==> value % 2 == 1) && (has_flag(
        spec_lsr(value).1,
        StatusRegister::Z,
    ) <==> spec_lsr(value).0 == 0) && (has_flag(spec_lsr(value).1, StatusRegister::N) <==> spec_lsr(
        value,
    ).0 >= 0x80)) by (bit_vector);
}

/// A rotate left followed by a rotate right restores the byte and the
/// carry, whatever they were: the two rotates are exact mirrors through
/// the carry bit.
pub proof fn rol_ror_inverse(value: u8, carry: u8)
    requires
        carry <= 1,
    ensures
        spec_ror(spec_rol(value, carry).0, if has_flag(spec_rol(value, carry).1, StatusRegister::C) {
            1
        } else {
            0
        }).0 == value,
{
    let (rotated, flags) = spec_rol(value, carry);
    let carry_out: u8 = if has_flag(flags, StatusRegister::C) {
        1
    } else {
        0
    };
    assert(spec_ror(spec_rol(value, carry).0, carry_out).0 == value) by (bit_vector)
        requires
            carry <= 1,
            carry_out == (if has_flag(spec_rol(value, carry).1, StatusRegister::C) {
                1u8
            } else {
                0u8
            }),
    ;
}

} // verus!
