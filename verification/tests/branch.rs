use mos6502::computer_state::operations::{opcode_from_operation, Operation};
use mos6502::computer_state::status_register::StatusRegister;
use mos6502::computer_state::ComputerState;

#[test]
fn test_bcs_forward() {
    let mut state = ComputerState::new();
    let old_pc = state.mem.pc.get();
    state.sta = state.sta.union(StatusRegister::C);
    state.set_up_state(&vec![
        opcode_from_operation(Operation::Bcs),
        0x23
    ]);
    state.execute_next();

    assert_eq!(old_pc + 2 + 0x23, state.mem.pc.get());
}

#[test]
fn test_bcs_backwards() {
    let mut state = ComputerState::new();
    let old_pc = state.mem.pc.get();
    state.sta = state.sta.union(StatusRegister::C);
    state.set_up_state(&vec![
        opcode_from_operation(Operation::Bcs),
        0xF0 // -16
    ]);
    state.execute_next();

    assert_eq!(old_pc + 2u16.wrapping_sub(0x10), state.mem.pc.get());
}

#[test]
fn test_bcs_not_take() {
    let mut state = ComputerState::new();
    let old_pc = state.mem.pc.get();
    state.set_up_state(&vec![
        opcode_from_operation(Operation::Bcs),
        0xF0 // -16
    ]);
    state.execute_next();

    assert_eq!(old_pc + 2, state.mem.pc.get());
}

#[test]
fn test_bcc_forward() {
    let mut state = ComputerState::new();
    let old_pc = state.mem.pc.get();
    state.set_up_state(&vec![
        opcode_from_operation(Operation::Bcc),
        0x23
    ]);
    state.execute_next();

    assert_eq!(old_pc + 2 + 0x23, state.mem.pc.get());
}

#[test]
fn test_bcc_backwards() {
    let mut state = ComputerState::new();
    let old_pc = state.mem.pc.get();
    state.set_up_state(&vec![
        opcode_from_operation(Operation::Bcc),
        0xF0 // -16
    ]);
    state.execute_next();

    assert_eq!(old_pc + 2u16.wrapping_sub(0x10), state.mem.pc.get());
}

#[test]
fn test_bcc_not_take() {
    let mut state = ComputerState::new();
    let old_pc = state.mem.pc.get();
    state.sta = state.sta.union(StatusRegister::C);
    state.set_up_state(&vec![
        opcode_from_operation(Operation::Bcc),
        0xF0 // -16
    ]);
    state.execute_next();

    assert_eq!(old_pc + 2, state.mem.pc.get());
}

#[test]
fn test_beq_forward() {
    let mut state = ComputerState::new();
    let old_pc = state.mem.pc.get();
    state.sta = state.sta.union(StatusRegister::Z);
    state.set_up_state(&vec![
        opcode_from_operation(Operation::Beq),
        0x23
    ]);
    state.execute_next();

    assert_eq!(old_pc + 2 + 0x23, state.mem.pc.get());
}

#[test]
fn test_beq_backwards() {
    let mut state = ComputerState::new();
    let old_pc = state.mem.pc.get();
    state.sta = state.sta.union(StatusRegister::Z);
    state.set_up_state(&vec![
        opcode_from_operation(Operation::Beq),
        0xF0 // -16
    ]);
    state.execute_next();

    assert_eq!(old_pc + 2u16.wrapping_sub(0x10), state.mem.pc.get());
}

#[test]
fn test_beq_not_take() {
    let mut state = ComputerState::new();
    let old_pc = state.mem.pc.get();
    state.set_up_state(&vec![
        opcode_from_operation(Operation::Beq),
        0xF0 // -16
    ]);
    state.execute_next();

    assert_eq!(old_pc + 2, state.mem.pc.get());
}

#[test]
fn test_bne_forward() {
    let mut state = ComputerState::new();
    let old_pc = state.mem.pc.get();
    state.set_up_state(&vec![
        opcode_from_operation(Operation::Bne),
        0x23
    ]);
    state.execute_next();

    assert_eq!(old_pc + 2 + 0x23, state.mem.pc.get());
}

#[test]
fn test_bne_backwards() {
    let mut state = ComputerState::new();
    let old_pc = state.mem.pc.get();
    state.set_up_state(&vec![
        opcode_from_operation(Operation::Bne),
        0xF0 // -16
    ]);
    state.execute_next();

    assert_eq!(old_pc + 2u16.wrapping_sub(0x10), state.mem.pc.get());
}

#[test]
fn test_bne_not_take() {
    let mut state = ComputerState::new();
    let old_pc = state.mem.pc.get();
    state.sta = state.sta.union(StatusRegister::Z);
    state.set_up_state(&vec![
        opcode_from_operation(Operation::Bne),
        0xF0 // -16
    ]);
    state.execute_next();

    assert_eq!(old_pc + 2, state.mem.pc.get());
}

#[test]
fn test_bpl_forward() {
    let mut state = ComputerState::new();
    let old_pc = state.mem.pc.get();
    state.set_up_state(&vec![
        opcode_from_operation(Operation::Bpl),
        0x23
    ]);
    state.execute_next();

    assert_eq!(old_pc + 2 + 0x23, state.mem.pc.get());
}

#[test]
fn test_bpl_backwards() {
    let mut state = ComputerState::new();
    let old_pc = state.mem.pc.get();
    state.set_up_state(&vec![
        opcode_from_operation(Operation::Bpl),
        0xF0 // -16
    ]);
    state.execute_next();

    assert_eq!(old_pc + 2u16.wrapping_sub(0x10), state.mem.pc.get());
}

#[test]
fn test_bpl_not_take() {
    let mut state = ComputerState::new();
    let old_pc = state.mem.pc.get();
    state.sta = state.sta.union(StatusRegister::N);
    state.set_up_state(&vec![
        opcode_from_operation(Operation::Bpl),
        0xF0 // -16
    ]);
    state.execute_next();

    assert_eq!(old_pc + 2, state.mem.pc.get());
}

#[test]
fn test_bmi_forward() {
    let mut state = ComputerState::new();
    let old_pc = state.mem.pc.get();
    state.sta = state.sta.union(StatusRegister::N);
    state.set_up_state(&vec![
        opcode_from_operation(Operation::Bmi),
        0x23
    ]);
    state.execute_next();

    assert_eq!(old_pc + 2 + 0x23, state.mem.pc.get());
}

#[test]
fn test_bmi_backwards() {
    let mut state = ComputerState::new();
    let old_pc = state.mem.pc.get();
    state.sta = state.sta.union(StatusRegister::N);
    state.set_up_state(&vec![
        opcode_from_operation(Operation::Bmi),
        0xF0 // -16
    ]);
    state.execute_next();

    assert_eq!(old_pc + 2u16.wrapping_sub(0x10), state.mem.pc.get());
}

#[test]
fn test_bmi_not_take() {
    let mut state = ComputerState::new();
    let old_pc = state.mem.pc.get();
    state.set_up_state(&vec![
        opcode_from_operation(Operation::Bmi),
        0xF0 // -16
    ]);
    state.execute_next();

    assert_eq!(old_pc + 2, state.mem.pc.get());
}

#[test]
fn test_bvs_forward() {
    let mut state = ComputerState::new();
    let old_pc = state.mem.pc.get();
    state.sta = state.sta.union(StatusRegister::V);
    state.set_up_state(&vec![
        opcode_from_operation(Operation::Bvs),
        0x23
    ]);
    state.execute_next();

    assert_eq!(old_pc + 2 + 0x23, state.mem.pc.get());
}

#[test]
fn test_bvs_backwards() {
    let mut state = ComputerState::new();
    let old_pc = state.mem.pc.get();
    state.sta = state.sta.union(StatusRegister::V);
    state.set_up_state(&vec![
        opcode_from_operation(Operation::Bvs),
        0xF0 // -16
    ]);
    state.execute_next();

    assert_eq!(old_pc + 2u16.wrapping_sub(0x10), state.mem.pc.get());
}

#[test]
fn test_bvs_not_take() {
    let mut state = ComputerState::new();
    let old_pc = state.mem.pc.get();
    state.set_up_state(&vec![
        opcode_from_operation(Operation::Bvs),
        0xF0 // -16
    ]);
    state.execute_next();

    assert_eq!(old_pc + 2, state.mem.pc.get());
}

#[test]
fn test_bvc_forward() {
    let mut state = ComputerState::new();
    let old_pc = state.mem.pc.get();
    state.set_up_state(&vec![
        opcode_from_operation(Operation::Bvc),
        0x23
    ]);
    state.execute_next();

    assert_eq!(old_pc + 2 + 0x23, state.mem.pc.get());
}

#[test]
fn test_bvc_backwards() {
    let mut state = ComputerState::new();
    let old_pc = state.mem.pc.get();
    state.set_up_state(&vec![
        opcode_from_operation(Operation::Bvc),
        0xF0 // -16
    ]);
    state.execute_next();

    assert_eq!(old_pc + 2u16.wrapping_sub(0x10), state.mem.pc.get());
}

#[test]
fn test_bvc_not_take() {
    let mut state = ComputerState::new();
    let old_pc = state.mem.pc.get();
    state.sta = state.sta.union(StatusRegister::V);
    state.set_up_state(&vec![
        opcode_from_operation(Operation::Bvc),
        0xF0 // -16
    ]);
    state.execute_next();

    assert_eq!(old_pc + 2, state.mem.pc.get());
}
