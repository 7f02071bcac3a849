//! Arithmetic instructions: add with carry, subtract with carry, and the
//! increments and decrements, in every addressing mode they support.

use vstd::prelude::*;

use crate::computer_state::memory::MemView;
use crate::computer_state::registers::wrap8;
use crate::computer_state::status_register::{
    cond_mask, get_cond_flag, get_zero_neg_flags, has_flag, merge_flags, spec_zero_neg_flags,
    StatusRegister, CZNV_FLAGS, ZN_FLAGS,
};
use crate::computer_state::{ComputerState, CpuView};

verus! {

// ADDITION
/// The result and flags of an add with carry: the 8-bit sum of the
/// accumulator, the operand and the carry-in, wrapping modulo 256.
/// Carry is set iff the unsigned sum exceeds 255; Overflow is set iff
/// the operands' sign bits agree and the result's sign bit differs.
pub open spec fn spec_adc(acc: u8, n: u8, carry: u8) -> (u8, u8) {
    let result = wrap8(acc + n + carry);
    let flags = spec_zero_neg_flags(result) | cond_mask(StatusRegister::C, acc + n + carry > 0xFF)
        | cond_mask(
        StatusRegister::V,
        (acc < 0x80 && n < 0x80 && result >= 0x80) || (acc >= 0x80 && n >= 0x80 && result < 0x80),
    );
    (result, flags)
}

/// ADC (addition with carry)
fn adc(acc: u8, n: u8, carry: u8) -> (r: (u8, u8))
    requires
        carry <= 1,
    ensures
        r == spec_adc(acc, n, carry),
{
    let sum: u32 = acc as u32 + n as u32 + carry as u32;
    let result: u8 = (sum % 0x100) as u8;
    let flags: u8 = get_zero_neg_flags(result) | get_cond_flag(StatusRegister::C, sum > 0xFF)
        | get_cond_flag(
        StatusRegister::V,
        (acc < 0x80 && n < 0x80 && result >= 0x80) || (acc >= 0x80 && n >= 0x80 && result < 0x80),
    );
    (result, flags)
}

/// The state after an add with carry of the given operand into the
/// accumulator: Carry, Zero, Negative and Overflow are rewritten from
/// the result, every other flag keeps its value.
pub open spec fn spec_apply_adc(s: CpuView, operand: u8) -> CpuView {
    let (result, flags) = spec_adc(s.acc, operand, s.carry_in());
    CpuView { acc: result, sta: merge_flags(s.sta, CZNV_FLAGS, flags), ..s }
}

/// Folds the result of an addition into the machine state
fn apply_adc(state: &mut ComputerState, operand: u8)
    requires
        old(state).wf(),
    ensures
        final(state).wf(),
        final(state)@ == spec_apply_adc(old(state)@, operand),
{
    let carry = state.get_carry();
    let (result, flags) = adc(state.acc.get(), operand, carry);
    state.acc.set(result);
    state.sta = state.sta.difference(CZNV_FLAGS).union(flags);
}

/// ADC (intermediate addressing mode)
pub open spec fn spec_adc_im(s: CpuView) -> CpuView {
    let (v, m) = s.mem.immediate_value();
    spec_apply_adc(s.with_mem(m), v)
}

/// ADC (intermediate addressing mode)
/// Opcode: 69
pub fn adc_im(state: &mut ComputerState)
    requires
        old(state).wf(),
    ensures
        final(state).wf(),
        final(state)@ == spec_adc_im(old(state)@),
{
    let operand = state.mem.fetch_intermediate();
    apply_adc(state, operand);
}

/// ADC (zero-page addressing mode)
pub open spec fn spec_adc_zp(s: CpuView) -> CpuView {
    let (v, m) = s.mem.zero_page_value();
    spec_apply_adc(s.with_mem(m), v)
}

/// ADC (zero-page addressing mode)
/// Opcode: 65
pub fn adc_zp(state: &mut ComputerState)
    requires
        old(state).wf(),
    ensures
        final(state).wf(),
        final(state)@ == spec_adc_zp(old(state)@),
{
    let operand = state.mem.fetch_zero_page();
    apply_adc(state, operand);
}

/// ADC (zero-page X addressing mode)
pub open spec fn spec_adc_zpx(s: CpuView) -> CpuView {
    let (v, m) = s.mem.zero_page_x_value();
    spec_apply_adc(s.with_mem(m), v)
}

/// ADC (zero-page X addressing mode)
/// Opcode: 75
pub fn adc_zpx(state: &mut ComputerState)
    requires
        old(state).wf(),
    ensures
        final(state).wf(),
        final(state)@ == spec_adc_zpx(old(state)@),
{
    let operand = state.mem.fetch_zero_page_x();
    apply_adc(state, operand);
}

/// ADC (absolute addressing mode)
pub open spec fn spec_adc_ab(s: CpuView) -> CpuView {
    let (v, m) = s.mem.absolute_value();
    spec_apply_adc(s.with_mem(m), v)
}

/// ADC (absolute addressing mode)
/// Opcode: 6D
pub fn adc_ab(state: &mut ComputerState)
    requires
        old(state).wf(),
    ensures
        final(state).wf(),
        final(state)@ == spec_adc_ab(old(state)@),
{
    let operand = state.mem.fetch_absolute();
    apply_adc(state, operand);
}

/// ADC (absolute X addressing mode)
pub open spec fn spec_adc_abx(s: CpuView) -> CpuView {
    let (v, m) = s.mem.absolute_x_value();
    spec_apply_adc(s.with_mem(m), v)
}

/// ADC (absolute X addressing mode)
/// Opcode: 7D
pub fn adc_abx(state: &mut ComputerState)
    requires
        old(state).wf(),
    ensures
        final(state).wf(),
        final(state)@ == spec_adc_abx(old(state)@),
{
    let operand = state.mem.fetch_absolute_x();
    apply_adc(state, operand);
}

/// ADC (absolute Y addressing mode)
pub open spec fn spec_adc_aby(s: CpuView) -> CpuView {
    let (v, m) = s.mem.absolute_y_value();
    spec_apply_adc(s.with_mem(m), v)
}

/// ADC (absolute Y addressing mode)
/// Opcode: 79
pub fn adc_aby(state: &mut ComputerState)
    requires
        old(state).wf(),
    ensures
        final(state).wf(),
        final(state)@ == spec_adc_aby(old(state)@),
{
    let operand = state.mem.fetch_absolute_y();
    apply_adc(state, operand);
}

/// ADC (indirect X addressing mode)
pub open spec fn spec_adc_inx(s: CpuView) -> CpuView {
    let (v, m) = s.mem.indirect_x_value();
    spec_apply_adc(s.with_mem(m), v)
}

/// ADC (indirect X addressing mode)
/// Opcode: 61
pub fn adc_inx(state: &mut ComputerState)
    requires
        old(state).wf(),
    ensures
        final(state).wf(),
        final(state)@ == spec_adc_inx(old(state)@),
{
    let operand = state.mem.fetch_indirect_x();
    apply_adc(state, operand);
}

/// ADC (indirect Y addressing mode)
pub open spec fn spec_adc_iny(s: CpuView) -> CpuView {
    let (v, m) = s.mem.indirect_y_value();
    spec_apply_adc(s.with_mem(m), v)
}

/// ADC (indirect Y addressing mode)
/// Opcode: 71
pub fn adc_iny(state: &mut ComputerState)
    requires
        old(state).wf(),
    ensures
        final(state).wf(),
        final(state)@ == spec_adc_iny(old(state)@),
{
    let operand = state.mem.fetch_indirect_y();
    apply_adc(state, operand);
}

// SUBTRACTION
/// The result and flags of a subtract with carry: the subtrahend is
/// bit-inverted and the carry acts as "not borrow", the standard
/// two's-complement borrow-via-carry trick.
pub open spec fn spec_sbc(acc: u8, n: u8, carry: u8) -> (u8, u8) {
    spec_adc(acc, (0xFF - n) as u8, carry)
}

/// SBC (subtraction with carry): `a - b` is computed as `a + NOT b`
/// plus the carry
fn sbc(acc: u8, n: u8, carry: u8) -> (r: (u8, u8))
    requires
        carry <= 1,
    ensures
        r == spec_sbc(acc, n, carry),
{
    let inverted: u8 = 0xFF - n;
    adc(acc, inverted, carry)
}

/// The state after a subtract with carry of the given operand from the
/// accumulator.
pub open spec fn spec_apply_sbc(s: CpuView, operand: u8) -> CpuView {
    let (result, flags) = spec_sbc(s.acc, operand, s.carry_in());
    CpuView { acc: result, sta: merge_flags(s.sta, CZNV_FLAGS, flags), ..s }
}

/// Folds the result of a subtraction into the machine state
fn apply_sbc(state: &mut ComputerState, operand: u8)
    requires
        old(state).wf(),
    ensures
        final(state).wf(),
        final(state)@ == spec_apply_sbc(old(state)@, operand),
{
    let carry = state.get_carry();
    let (result, flags) = sbc(state.acc.get(), operand, carry);
    state.acc.set(result);
    state.sta = state.sta.difference(CZNV_FLAGS).union(flags);
}

/// SBC (intermediate addressing mode)
pub open spec fn spec_sbc_im(s: CpuView) -> CpuView {
    let (v, m) = s.mem.immediate_value();
    spec_apply_sbc(s.with_mem(m), v)
}

/// SBC (intermediate addressing mode)
/// Opcode: E9
pub fn sbc_im(state: &mut ComputerState)
    requires
        old(state).wf(),
    ensures
        final(state).wf(),
        final(state)@ == spec_sbc_im(old(state)@),
{
    let operand = state.mem.fetch_intermediate();
    apply_sbc(state, operand);
}

/// SBC (zero-page addressing mode)
pub open spec fn spec_sbc_zp(s: CpuView) -> CpuView {
    let (v, m) = s.mem.zero_page_value();
    spec_apply_sbc(s.with_mem(m), v)
}

/// SBC (zero-page addressing mode)
/// Opcode: E5
pub fn sbc_zp(state: &mut ComputerState)
    requires
        old(state).wf(),
    ensures
        final(state).wf(),
        final(state)@ == spec_sbc_zp(old(state)@),
{
    let operand = state.mem.fetch_zero_page();
    apply_sbc(state, operand);
}

/// SBC (zero-page X addressing mode)
pub open spec fn spec_sbc_zpx(s: CpuView) -> CpuView {
    let (v, m) = s.mem.zero_page_x_value();
    spec_apply_sbc(s.with_mem(m), v)
}

/// SBC (zero-page X addressing mode)
/// Opcode: F5
pub fn sbc_zpx(state: &mut ComputerState)
    requires
        old(state).wf(),
    ensures
        final(state).wf(),
        final(state)@ == spec_sbc_zpx(old(state)@),
{
    let operand = state.mem.fetch_zero_page_x();
    apply_sbc(state, operand);
}

/// SBC (absolute addressing mode)
pub open spec fn spec_sbc_ab(s: CpuView) -> CpuView {
    let (v, m) = s.mem.absolute_value();
    spec_apply_sbc(s.with_mem(m), v)
}

/// SBC (absolute addressing mode)
/// Opcode: ED
pub fn sbc_ab(state: &mut ComputerState)
    requires
        old(state).wf(),
    ensures
        final(state).wf(),
        final(state)@ == spec_sbc_ab(old(state)@),
{
    let operand = state.mem.fetch_absolute();
    apply_sbc(state, operand);
}

/// SBC (absolute X addressing mode)
pub open spec fn spec_sbc_abx(s: CpuView) -> CpuView {
    let (v, m) = s.mem.absolute_x_value();
    spec_apply_sbc(s.with_mem(m), v)
}

/// SBC (absolute X addressing mode)
/// Opcode: FD
pub fn sbc_abx(state: &mut ComputerState)
    requires
        old(state).wf(),
    ensures
        final(state).wf(),
        final(state)@ == spec_sbc_abx(old(state)@),
{
    let operand = state.mem.fetch_absolute_x();
    apply_sbc(state, operand);
}

/// SBC (absolute Y addressing mode)
pub open spec fn spec_sbc_aby(s: CpuView) -> CpuView {
    let (v, m) = s.mem.absolute_y_value();
    spec_apply_sbc(s.with_mem(m), v)
}

/// SBC (absolute Y addressing mode)
/// Opcode: F9
pub fn sbc_aby(state: &mut ComputerState)
    requires
        old(state).wf(),
    ensures
        final(state).wf(),
        final(state)@ == spec_sbc_aby(old(state)@),
{
    let operand = state.mem.fetch_absolute_y();
    apply_sbc(state, operand);
}

/// SBC (indirect X addressing mode)
pub open spec fn spec_sbc_inx(s: CpuView) -> CpuView {
    let (v, m) = s.mem.indirect_x_value();
    spec_apply_sbc(s.with_mem(m), v)
}

/// SBC (indirect X addressing mode)
/// Opcode: E1
pub fn sbc_inx(state: &mut ComputerState)
    requires
        old(state).wf(),
    ensures
        final(state).wf(),
        final(state)@ == spec_sbc_inx(old(state)@),
{
    let operand = state.mem.fetch_indirect_x();
    apply_sbc(state, operand);
}

/// SBC (indirect Y addressing mode)
pub open spec fn spec_sbc_iny(s: CpuView) -> CpuView {
    let (v, m) = s.mem.indirect_y_value();
    spec_apply_sbc(s.with_mem(m), v)
}

/// SBC (indirect Y addressing mode)
/// Opcode: F1
pub fn sbc_iny(state: &mut ComputerState)
    requires
        old(state).wf(),
    ensures
        final(state).wf(),
        final(state)@ == spec_sbc_iny(old(state)@),
{
    let operand = state.mem.fetch_indirect_y();
    apply_sbc(state, operand);
}

// DECREMENT
/// The result and flags of a decrement: one less, wrapping modulo 256;
/// only Zero and Negative are produced, never Carry or Overflow.
pub open spec fn spec_dec(val: u8) -> (u8, u8) {
    let result = wrap8(val - 1);
    (result, spec_zero_neg_flags(result))
}

/// DEC (decrement memory by one)
fn dec(val: u8) -> (r: (u8, u8))
    ensures
        r == spec_dec(val),
{
    let result = val.wrapping_sub(1);
    (result, get_zero_neg_flags(result))
}

/// The state after the byte at the given address is decremented in
/// place: Zero and Negative are rewritten from the result.
pub open spec fn spec_apply_dec(s: CpuView, addr: u16) -> CpuView {
    let (result, flags) = spec_dec(s.mem.read(addr));
    CpuView { mem: s.mem.write(addr, result), sta: merge_flags(s.sta, ZN_FLAGS, flags), ..s }
}

/// Folds the result of a decrement into the byte at the resolved address
fn apply_dec(state: &mut ComputerState, addr: u16)
    requires
        old(state).wf(),
    ensures
        final(state).wf(),
        final(state)@ == spec_apply_dec(old(state)@, addr),
{
    let (result, flags) = dec(state.mem.fetch_byte_from_addr(addr));
    state.mem.set_byte_at_addr(addr, result);
    state.sta = state.sta.difference(ZN_FLAGS).union(flags);
}

/// DEC (zero-page addressing mode)
pub open spec fn spec_dec_zp(s: CpuView) -> CpuView {
    let (addr, m) = s.mem.zero_page_addr();
    spec_apply_dec(s.with_mem(m), addr)
}

/// DEC (zero-page addressing mode)
/// Opcode: C6
pub fn dec_zp(state: &mut ComputerState)
    requires
        old(state).wf(),
    ensures
        final(state).wf(),
        final(state)@ == spec_dec_zp(old(state)@),
{
    let addr = state.mem.fetch_zero_page_address();
    apply_dec(state, addr);
}

/// DEC (zero-page X addressing mode)
pub open spec fn spec_dec_zpx(s: CpuView) -> CpuView {
    let (addr, m) = s.mem.zero_page_x_addr();
    spec_apply_dec(s.with_mem(m), addr)
}

/// DEC (zero-page X addressing mode)
/// Opcode: D6
pub fn dec_zpx(state: &mut ComputerState)
    requires
        old(state).wf(),
    ensures
        final(state).wf(),
        final(state)@ == spec_dec_zpx(old(state)@),
{
    let addr = state.mem.fetch_zero_page_x_address();
    apply_dec(state, addr);
}

/// DEC (absolute addressing mode)
pub open spec fn spec_dec_ab(s: CpuView) -> CpuView {
    let (addr, m) = s.mem.absolute_addr();
    spec_apply_dec(s.with_mem(m), addr)
}

/// DEC (absolute addressing mode)
/// Opcode: CE
pub fn dec_ab(state: &mut ComputerState)
    requires
        old(state).wf(),
    ensures
        final(state).wf(),
        final(state)@ == spec_dec_ab(old(state)@),
{
    let addr = state.mem.fetch_absolute_address();
    apply_dec(state, addr);
}

/// DEC (absolute X addressing mode)
pub open spec fn spec_dec_abx(s: CpuView) -> CpuView {
    let (addr, m) = s.mem.absolute_x_addr();
    spec_apply_dec(s.with_mem(m), addr)
}

/// DEC (absolute X addressing mode)
/// Opcode: DE
pub fn dec_abx(state: &mut ComputerState)
    requires
        old(state).wf(),
    ensures
        final(state).wf(),
        final(state)@ == spec_dec_abx(old(state)@),
{
    let addr = state.mem.fetch_absolute_x_address();
    apply_dec(state, addr);
}

/// DEX (implied addressing mode)
pub open spec fn spec_dex(s: CpuView) -> CpuView {
    let (result, flags) = spec_dec(s.mem.x);
    CpuView {
        mem: MemView { x: result, ..s.mem },
        sta: merge_flags(s.sta, ZN_FLAGS, flags),
        ..s
    }
}

/// DEX (implied addressing mode)
/// Opcode: CA
pub fn dex(state: &mut ComputerState)
    requires
        old(state).wf(),
    ensures
        final(state).wf(),
        final(state)@ == spec_dex(old(state)@),
{
    let (result, flags) = dec(state.get_x());
    state.set_x(result);
    state.sta = state.sta.difference(ZN_FLAGS).union(flags);
}

/// DEY (implied addressing mode)
pub open spec fn spec_dey(s: CpuView) -> CpuView {
    let (result, flags) = spec_dec(s.mem.y);
    CpuView {
        mem: MemView { y: result, ..s.mem },
        sta: merge_flags(s.sta, ZN_FLAGS, flags),
        ..s
    }
}

/// DEY (implied addressing mode)
/// Opcode: 88
pub fn dey(state: &mut ComputerState)
    requires
        old(state).wf(),
    ensures
        final(state).wf(),
        final(state)@ == spec_dey(old(state)@),
{
    let (result, flags) = dec(state.get_y());
    state.set_y(result);
    state.sta = state.sta.difference(ZN_FLAGS).union(flags);
}

// INCREMENT
/// The result and flags of an increment: one more, wrapping modulo 256;
/// only Zero and Negative are produced, never Carry or Overflow.
pub open spec fn spec_inc(val: u8) -> (u8, u8) {
    let result = wrap8(val + 1);
    (result, spec_zero_neg_flags(result))
}

/// INC (increment memory by one)
fn inc(val: u8) -> (r: (u8, u8))
    ensures
        r == spec_inc(val),
{
    let result = val.wrapping_add(1);
    (result, get_zero_neg_flags(result))
}

/// The state after the byte at the given address is incremented in
/// place: Zero and Negative are rewritten from the result.
pub open spec fn spec_apply_inc(s: CpuView, addr: u16) -> CpuView {
    let (result, flags) = spec_inc(s.mem.read(addr));
    CpuView { mem: s.mem.write(addr, result), sta: merge_flags(s.sta, ZN_FLAGS, flags), ..s }
}

/// Folds the result of an increment into the byte at the resolved
/// address
fn apply_inc(state: &mut ComputerState, addr: u16)
    requires
        old(state).wf(),
    ensures
        final(state).wf(),
        final(state)@ == spec_apply_inc(old(state)@, addr),
{
    let (result, flags) = inc(state.mem.fetch_byte_from_addr(addr));
    state.mem.set_byte_at_addr(addr, result);
    state.sta = state.sta.difference(ZN_FLAGS).union(flags);
}

/// INC (zero-page addressing mode)
pub open spec fn spec_inc_zp(s: CpuView) -> CpuView {
    let (addr, m) = s.mem.zero_page_addr();
    spec_apply_inc(s.with_mem(m), addr)
}

/// INC (zero-page addressing mode)
/// Opcode: E6
pub fn inc_zp(state: &mut ComputerState)
    requires
        old(state).wf(),
    ensures
        final(state).wf(),
        final(state)@ == spec_inc_zp(old(state)@),
{
    let addr = state.mem.fetch_zero_page_address();
    apply_inc(state, addr);
}

/// INC (zero-page X addressing mode)
pub open spec fn spec_inc_zpx(s: CpuView) -> CpuView {
    let (addr, m) = s.mem.zero_page_x_addr();
    spec_apply_inc(s.with_mem(m), addr)
}

/// INC (zero-page X addressing mode)
/// Opcode: F6
pub fn inc_zpx(state: &mut ComputerState)
    requires
        old(state).wf(),
    ensures
        final(state).wf(),
        final(state)@ == spec_inc_zpx(old(state)@),
{
    let addr = state.mem.fetch_zero_page_x_address();
    apply_inc(state, addr);
}

/// INC (absolute addressing mode)
pub open spec fn spec_inc_ab(s: CpuView) -> CpuView {
    let (addr, m) = s.mem.absolute_addr();
    spec_apply_inc(s.with_mem(m), addr)
}

/// INC (absolute addressing mode)
/// Opcode: EE
pub fn inc_ab(state: &mut ComputerState)
    requires
        old(state).wf(),
    ensures
        final(state).wf(),
        final(state)@ == spec_inc_ab(old(state)@),
{
    let addr = state.mem.fetch_absolute_address();
    apply_inc(state, addr);
}

/// INC (absolute X addressing mode)
pub open spec fn spec_inc_abx(s: CpuView) -> CpuView {
    let (addr, m) = s.mem.absolute_x_addr();
    spec_apply_inc(s.with_mem(m), addr)
}

/// INC (absolute X addressing mode)
/// Opcode: FE
pub fn inc_abx(state: &mut ComputerState)
    requires
        old(state).wf(),
    ensures
        final(state).wf(),
        final(state)@ == spec_inc_abx(old(state)@),
{
    let addr = state.mem.fetch_absolute_x_address();
    apply_inc(state, addr);
}

/// INX (implied addressing mode)
pub open spec fn spec_inx(s: CpuView) -> CpuView {
    let (result, flags) = spec_inc(s.mem.x);
    CpuView {
        mem: MemView { x: result, ..s.mem },
        sta: merge_flags(s.sta, ZN_FLAGS, flags),
        ..s
    }
}

/// INX (implied addressing mode)
/// Opcode: E8
pub fn inx(state: &mut ComputerState)
    requires
        old(state).wf(),
    ensures
        final(state).wf(),
        final(state)@ == spec_inx(old(state)@),
{
    let (result, flags) = inc(state.get_x());
    state.set_x(result);
    state.sta = state.sta.difference(ZN_FLAGS).union(flags);
}

/// INY (implied addressing mode)
pub open spec fn spec_iny(s: CpuView) -> CpuView {
    let (result, flags) = spec_inc(s.mem.y);
    CpuView {
        mem: MemView { y: result, ..s.mem },
        sta: merge_flags(s.sta, ZN_FLAGS, flags),
        ..s
    }
}

/// INY (implied addressing mode)
/// Opcode: C8
pub fn iny(state: &mut ComputerState)
    requires
        old(state).wf(),
    ensures
        final(state).wf(),
        final(state)@ == spec_iny(old(state)@),
{
    let (result, flags) = inc(state.get_y());
    state.set_y(result);
    state.sta = state.sta.difference(ZN_FLAGS).union(flags);
}

// LAWS
/// Add with carry is total over wrapping bytes: for every accumulator,
/// operand and carry-in, the result is exactly the mathematical sum
/// reduced modulo 256, and so never leaves the 8-bit range.
pub proof fn adc_wrapping_total(acc: u8, n: u8, carry: u8)
    requires
        carry <= 1,
    ensures
        spec_adc(acc, n, carry).0 == (acc + n + carry) % 0x100,
{
}

/// Subtracting a value with the carry preset undoes adding it with the
/// carry clear: for every accumulator and operand, the accumulator comes
/// back, whatever the flags did along the way.
pub proof fn adc_sbc_inverse(acc: u8, n: u8)
    ensures
        spec_sbc(spec_adc(acc, n, 0).0, n, 1).0 == acc,
{
    let a1 = spec_adc(acc, n, 0).0;
    assert(a1 == (acc + n) % 0x100);
    if acc + n < 0x100 {
        assert(a1 == acc + n);
    } else {
        assert(a1 == acc + n - 0x100);
    }
    assert(spec_sbc(a1, n, 1).0 == (a1 + (0xFF - n) + 1) % 0x100);
}

/// The flags of an add with carry say exactly what happened: Zero iff
/// the result is 0, Negative iff its top bit is set, Carry iff the
/// unsigned sum exceeded 255, and Overflow iff the operands' sign bits
/// agree while the result's differs.
pub proof fn adc_flags_exact(acc: u8, n: u8, carry: u8)
    requires
        carry <= 1,
    ensures
        has_flag(spec_adc(acc, n, carry).1, StatusRegister::Z) <==> spec_adc(acc, n, carry).0 == 0,
        has_flag(spec_adc(acc, n, carry).1, StatusRegister::N) <==> spec_adc(acc, n, carry).0
            >= 0x80,
        has_flag(spec_adc(acc, n, carry).1, StatusRegister::C) <==> acc + n + carry > 0xFF,
        has_flag(spec_adc(acc, n, carry).1, StatusRegister::V) <==> ((acc < 0x80 && n < 0x80
            && spec_adc(acc, n, carry).0 >= 0x80) || (acc >= 0x80 && n >= 0x80 && spec_adc(
            acc,
            n,
            carry,
        ).0 < 0x80)),
{
    assert((has_flag(spec_adc(acc, n, carry).1, StatusRegister::Z) <==> spec_adc(acc, n, carry).0
        == 0) && (has_flag(spec_adc(acc, n, carry).1, StatusRegister::N) <==> spec_adc(
        acc,
        n,
        carry,
    ).0 >= 0x80) && (has_flag(spec_adc(acc, n, carry).1, StatusRegister::C) <==> acc + n + carry
        > 0xFF) && (has_flag(spec_adc(acc, n, carry).1, StatusRegister::V) <==> ((acc < 0x80 && n
        < 0x80 && spec_adc(acc, n, carry).0 >= 0x80) || (acc >= 0x80 && n >= 0x80 && spec_adc(
        acc,
        n,
        carry,
    ).0 < 0x80)))) by (bit_vector)
        requires
            carry <= 1,
    ;
}

} // verus!
