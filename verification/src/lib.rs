//! A verified interpreter for an 8-bit accumulator-based CPU of the
//! MOS 6502 family: registers, a 64KB linear memory, the status flags,
//! every addressing mode, and the per-instruction semantics, together
//! with machine-checked contracts that pin each instruction's effect on
//! the machine state down exactly.

pub mod computer_state;
