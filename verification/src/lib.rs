//! Instruction decoder for an 8-bit CPU: turns a stream of program bytes into
//! structured instruction values, one instruction per call, consuming exactly
//! the bytes that instruction occupies.

pub mod decoder;
pub mod instruction;
pub mod register;
pub mod stream;
