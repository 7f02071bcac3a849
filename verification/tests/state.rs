use mos6502::computer_state::ComputerState;

#[test]
fn test_stk_peek_byte() {
    let state = ComputerState::new();
    let result = state.stk_peek_byte();
    assert_eq!(0u8, result);
}

#[test]
fn test_new_state_is_reset() {
    let state = ComputerState::new();
    assert_eq!(0, state.acc.get());
    assert_eq!(0, state.get_x());
    assert_eq!(0, state.get_y());
    assert_eq!(0, state.mem.pc.get());
    assert_eq!(0xFF, state.get_stk());
    assert!(state.sta.is_empty());
    assert_eq!(0, state.mem.fetch_byte_from_addr(0x1234));
}

#[test]
fn test_set_up_state_preserves_pc() {
    let mut state = ComputerState::new();
    state.mem.pc.set(0x0200);
    state.set_up_state(&vec![0xA9, 0x77, 0xEA]);
    assert_eq!(0x0200, state.mem.pc.get());
    assert_eq!(0xA9, state.mem.fetch_byte_from_addr(0x0200));
    assert_eq!(0x77, state.mem.fetch_byte_from_addr(0x0201));
    assert_eq!(0xEA, state.mem.fetch_byte_from_addr(0x0202));
}

#[test]
fn test_get_carry() {
    let mut state = ComputerState::new();
    assert_eq!(0, state.get_carry());
    state.set_up_state(&vec![0x38]);
    state.execute_next();
    assert_eq!(1, state.get_carry());
}
