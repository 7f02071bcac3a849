//! Concrete checks of the library's stated properties: wrapping
//! arithmetic, the add/subtract inverse, stack round trips, zero-page
//! wraparound, signed branch offsets, and the interrupt stack layout.

use mos6502::computer_state::memory::Memory;
use mos6502::computer_state::operations::{decode, decode_operation_name, opcode_from_operation, Operation};
use mos6502::computer_state::registers::ProgramCounter;
use mos6502::computer_state::status_register::StatusRegister;
use mos6502::computer_state::ComputerState;

#[test]
fn test_adc_wraps_modulo_256() {
    let mut state = ComputerState::new();
    state.acc.set(200);
    state.set_up_state(&vec![opcode_from_operation(Operation::AdcIm), 200]);
    state.execute_next();

    // 200 + 200 = 400, and 400 mod 256 = 144
    assert_eq!(144, state.acc.get());
    assert!(state.sta.contains(StatusRegister::C));
}

#[test]
fn test_sbc_undoes_adc() {
    let mut state = ComputerState::new();
    state.acc.set(77);
    state.set_up_state(&vec![
        opcode_from_operation(Operation::AdcIm),
        33,
        opcode_from_operation(Operation::Sec),
        opcode_from_operation(Operation::SbcIm),
        33,
    ]);
    state.execute_next();
    assert_eq!(110, state.acc.get());
    state.execute_next();
    state.execute_next();
    assert_eq!(77, state.acc.get());
}

#[test]
fn test_stack_byte_round_trip_restores_pointer() {
    let mut state = ComputerState::new();
    let stk_before = state.get_stk();
    state.acc.set(0x5C);
    state.set_up_state(&vec![
        opcode_from_operation(Operation::Pha),
        opcode_from_operation(Operation::Pla),
    ]);
    state.execute_next();
    assert_eq!(stk_before.wrapping_sub(1), state.get_stk());
    state.acc.set(0);
    state.execute_next();

    assert_eq!(0x5C, state.acc.get());
    assert_eq!(stk_before, state.get_stk());
}

#[test]
fn test_stack_word_round_trip() {
    let mut mem = Memory::new();
    let stk_before = mem.get_stk();
    mem.push_nibble_on_stack(0xABCD);
    assert_eq!(0xABCD, mem.pop_nibble_from_stack());
    assert_eq!(stk_before, mem.get_stk());
}

#[test]
fn test_stack_pointer_wraps_within_stack_page() {
    let mut mem = Memory::new();
    mem.set_stk(0x00);
    mem.push_on_stack(0x11);
    // The pointer steps down from 0x00 and wraps to 0xFF
    assert_eq!(0xFF, mem.get_stk());
    assert_eq!(0x11, mem.fetch_byte_from_addr(0x0100));
    mem.push_on_stack(0x22);
    assert_eq!(0x22, mem.fetch_byte_from_addr(0x01FF));
    assert_eq!(0x22, mem.pop_from_stack());
    assert_eq!(0x11, mem.pop_from_stack());
    assert_eq!(0x00, mem.get_stk());
}

#[test]
fn test_stack_word_round_trip_across_page_wrap() {
    let mut mem = Memory::new();
    mem.set_stk(0x00);
    mem.push_nibble_on_stack(0x1234);
    assert_eq!(0x1234, mem.pop_nibble_from_stack());
    assert_eq!(0x00, mem.get_stk());
}

#[test]
fn test_zero_page_x_wraps_to_zero() {
    let mut state = ComputerState::new();
    state.set_x(0x01);
    state.mem.pc.set(0x0200);
    state.set_up_state(&vec![opcode_from_operation(Operation::LdaZpx), 0xFF]);
    // 0xFF + 0x01 wraps to address 0x0000, never 0x0100
    state.mem.set_byte_at_addr(0x0000, 0x42);
    state.mem.set_byte_at_addr(0x0100, 0x99);
    state.execute_next();

    assert_eq!(0x42, state.acc.get());
}

#[test]
fn test_branch_forward_sixteen() {
    let mut state = ComputerState::new();
    state.mem.pc.set(0x0200);
    state.set_up_state(&vec![opcode_from_operation(Operation::Bne), 0x10]);
    state.execute_next();

    // The operand is consumed either way; +16 from the following byte
    assert_eq!(0x0202 + 16, state.mem.pc.get());
}

#[test]
fn test_branch_backward_sixteen() {
    let mut state = ComputerState::new();
    state.mem.pc.set(0x0200);
    state.set_up_state(&vec![opcode_from_operation(Operation::Bne), 0xF0]);
    state.execute_next();

    // 0xF0 is read as -16 from the byte following the operand
    assert_eq!(0x0202 - 16, state.mem.pc.get());
}

#[test]
fn test_brk_stack_layout_and_vector() {
    let mut state = ComputerState::new();
    state.mem.pc.set(0x0200);
    state.mem.set_nibble_at_addr(0xFFFE, 0x8000);
    state.set_up_state(&vec![opcode_from_operation(Operation::Brk)]);
    state.execute_next();

    assert_eq!(0x8000, state.mem.pc.get());
    assert!(state.sta.contains(StatusRegister::B));
    assert!(state.sta.contains(StatusRegister::I));
    // The flag byte sits on top of the pushed program counter, and was
    // pushed with Break set but before Interrupt-disable was set
    let flags = state.mem.pop_from_stack();
    assert_eq!(StatusRegister::B, flags);
    assert_eq!(0x0201, state.mem.pop_nibble_from_stack());
}

#[test]
fn test_rti_reverses_brk() {
    let mut state = ComputerState::new();
    state.mem.pc.set(0x0200);
    state.mem.set_nibble_at_addr(0xFFFE, 0x8000);
    state.mem.set_byte_at_addr(0x8000, opcode_from_operation(Operation::Rti));
    state.set_up_state(&vec![opcode_from_operation(Operation::Brk)]);
    let stk_before = state.get_stk();
    state.execute_next();
    state.execute_next();

    // Control returns to the byte after BRK, the stack pointer restored
    assert_eq!(0x0201, state.mem.pc.get());
    assert_eq!(stk_before, state.get_stk());
    assert!(state.sta.contains(StatusRegister::B));
}

#[test]
fn test_unmapped_opcode_is_nop() {
    let mut state = ComputerState::new();
    state.acc.set(0x42);
    state.set_up_state(&vec![0x02]);
    state.execute_next();

    assert_eq!(Operation::Nop, decode(0x02));
    assert_eq!(0x42, state.acc.get());
    assert_eq!(1, state.mem.pc.get());
    assert!(state.sta.is_empty());
}

#[test]
fn test_decode_inverts_opcode_from_operation() {
    assert_eq!(Operation::AdcIm, decode(opcode_from_operation(Operation::AdcIm)));
    assert_eq!(Operation::Jsr, decode(opcode_from_operation(Operation::Jsr)));
    assert_eq!(Operation::StaIny, decode(opcode_from_operation(Operation::StaIny)));
    assert_eq!(Operation::Nop, decode(opcode_from_operation(Operation::Nop)));
    assert_eq!(0x69, opcode_from_operation(Operation::AdcIm));
    assert_eq!(0x00, opcode_from_operation(Operation::Brk));
    assert_eq!(0xEA, opcode_from_operation(Operation::Nop));
}

#[test]
fn test_decode_operation_name_matches_table() {
    assert_eq!("adc_im", decode_operation_name(0x69));
    assert_eq!("jsr", decode_operation_name(0x20));
    assert_eq!("nop", decode_operation_name(0x02));
}

#[test]
fn test_word_access_is_little_endian() {
    let mut mem = Memory::new();
    mem.set_nibble_at_addr(0x0010, 0xABCD);
    assert_eq!(0xCD, mem.fetch_byte_from_addr(0x0010));
    assert_eq!(0xAB, mem.fetch_byte_from_addr(0x0011));
    assert_eq!(0xABCD, mem.fetch_nibble_from_addr(0x0010));
}

#[test]
fn test_word_access_wraps_at_top_of_memory() {
    let mut mem = Memory::new();
    mem.set_nibble_at_addr(0xFFFF, 0x1234);
    assert_eq!(0x34, mem.fetch_byte_from_addr(0xFFFF));
    assert_eq!(0x12, mem.fetch_byte_from_addr(0x0000));
    assert_eq!(0x1234, mem.fetch_nibble_from_addr(0xFFFF));
}

#[test]
fn test_program_counter_wraps() {
    let mut pc = ProgramCounter::new(0xFFFF);
    pc.add_unsigned(2);
    assert_eq!(0x0001, pc.get());
    let mut pc = ProgramCounter::new(0x0000);
    pc.add_signed(-1);
    assert_eq!(0xFFFF, pc.get());
    pc.add_signed(1);
    assert_eq!(0x0000, pc.get());
}

#[test]
fn test_status_register_set_operations() {
    let sta = StatusRegister::from_byte(StatusRegister::C | StatusRegister::Z);
    assert!(sta.contains(StatusRegister::C));
    assert!(sta.contains(StatusRegister::Z));
    assert!(!sta.contains(StatusRegister::N));
    assert!(sta.contains_only(StatusRegister::C | StatusRegister::Z));
    let sta = sta.union(StatusRegister::N);
    assert!(sta.contains(StatusRegister::N));
    let sta = sta.difference(StatusRegister::C);
    assert!(!sta.contains(StatusRegister::C));
    assert_eq!(StatusRegister::Z | StatusRegister::N, sta.intersect(StatusRegister::Z | StatusRegister::N).as_byte());
    assert!(!sta.is_empty());
    assert!(StatusRegister::new().is_empty());
}

#[test]
fn test_flag_set_and_clear_operations() {
    let mut state = ComputerState::new();
    state.set_up_state(&vec![
        opcode_from_operation(Operation::Sec),
        opcode_from_operation(Operation::Sed),
        opcode_from_operation(Operation::Sei),
        opcode_from_operation(Operation::Clc),
        opcode_from_operation(Operation::Cld),
        opcode_from_operation(Operation::Cli),
    ]);
    state.execute_next();
    state.execute_next();
    state.execute_next();
    assert!(state.sta.contains_only(
        StatusRegister::C | StatusRegister::D | StatusRegister::I
    ));
    state.execute_next();
    state.execute_next();
    state.execute_next();
    assert!(state.sta.is_empty());
}

#[test]
fn test_indirect_y_crosses_page() {
    let mut state = ComputerState::new();
    state.set_y(0x10);
    state.set_up_state(&vec![opcode_from_operation(Operation::LdaIny), 0x40]);
    state.mem.set_nibble_at_addr(0x0040, 0x12F8);
    state.mem.set_byte_at_addr(0x1308, 0x7B);
    state.execute_next();

    assert_eq!(0x7B, state.acc.get());
}
