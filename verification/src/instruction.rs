//! The instruction model: the closed set of instruction shapes and operand
//! shapes a decode can produce. Pure data, immutable once constructed, and
//! fully self-describing — interpreting a value needs no external context.

use vstd::prelude::*;

use crate::register::{FlagName, Indirect, Register16Name, Register8Name, RegisterName};

verus! {

/// An absolute memory address operand.
pub type Address = u8;

/// An 8-bit immediate operand, encoded literally in the byte stream.
pub type Immediate8 = u8;

/// A 16-bit immediate operand.
pub type Immediate16 = u16;

/// How one status flag is affected by an instruction: left unchanged, forced
/// set, forced reset, or deferred to execution time (computed there from the
/// operation's actual result).
#[derive(Copy, Clone, Debug, PartialEq, Eq, Structural)]
pub enum FlagChange {
    UNCH,
    SET,
    RESET,
    DEFER,
}

/// The per-flag effect of one instruction, fixed entirely by which opcode was
/// matched, never by operand values. One `FlagChange` per status flag.
#[derive(Copy, Clone, Debug, PartialEq, Eq, Structural)]
pub struct FlagStateChange {
    pub s: FlagChange,
    pub z: FlagChange,
    pub f5: FlagChange,
    pub h: FlagChange,
    pub f3: FlagChange,
    pub pv: FlagChange,
    pub n: FlagChange,
    pub c: FlagChange,
}

impl FlagStateChange {
    /// The effect recorded for one named flag.
    pub fn for_flag(&self, f: FlagName) -> (r: FlagChange)
        ensures
            r == self.spec_for_flag(f),
    {
        match f {
            FlagName::S => self.s,
            FlagName::Z => self.z,
            FlagName::F5 => self.f5,
            FlagName::H => self.h,
            FlagName::F3 => self.f3,
            FlagName::PV => self.pv,
            FlagName::N => self.n,
            FlagName::C => self.c,
        }
    }

    /// The effect recorded for one named flag.
    pub open spec fn spec_for_flag(self, f: FlagName) -> FlagChange {
        match f {
            FlagName::S => self.s,
            FlagName::Z => self.z,
            FlagName::F5 => self.f5,
            FlagName::H => self.h,
            FlagName::F3 => self.f3,
            FlagName::PV => self.pv,
            FlagName::N => self.n,
            FlagName::C => self.c,
        }
    }
}

/// One 8-bit half of a partial address: sourced either from an immediate or
/// from a register.
#[derive(Copy, Clone, Debug, PartialEq, Eq, Structural)]
pub enum PartialAddressChunk {
    Immediate8(Immediate8),
    Register8Name(Register8Name),
}

/// An 8-bit register source conditioned on a status flag.
#[derive(Copy, Clone, Debug, PartialEq, Eq, Structural)]
pub struct Register8PlusFlag {
    pub r: Register8Name,
    pub flag: FlagName,
}

/// A 16-bit register source offset by an immediate.
#[derive(Copy, Clone, Debug, PartialEq, Eq, Structural)]
pub struct Register16PlusImmediate {
    pub r: Register16Name,
    pub imm: Immediate16,
}

/// An indirect source conditioned on a status flag.
#[derive(Copy, Clone, Debug, PartialEq, Eq, Structural)]
pub struct IndirectPlusFlag {
    pub i: Indirect,
    pub flag: FlagName,
}

/// An 8-bit immediate source conditioned on a status flag.
#[derive(Copy, Clone, Debug, PartialEq, Eq, Structural)]
pub struct Immediate8PlusFlag {
    pub imm: Immediate8,
    pub flag: FlagName,
}

/// A 16-bit address assembled from two independently sourced 8-bit chunks.
#[derive(Copy, Clone, Debug, PartialEq, Eq, Structural)]
pub struct PartialAddress {
    pub msb: PartialAddressChunk,
    pub lsb: PartialAddressChunk,
}

/// An 8-bit destination operand.
#[derive(Copy, Clone, Debug, PartialEq, Eq, Structural)]
pub enum Writable8 {
    Register8Name(Register8Name),
    Address(Address),
    Indirect(Indirect),
    PartialAddress(PartialAddress),
}

/// A 16-bit destination operand.
#[derive(Copy, Clone, Debug, PartialEq, Eq, Structural)]
pub enum Writable16 {
    Register16Name(Register16Name),
    Address(Address),
    Indirect(Indirect),
    PartialAddress(PartialAddress),
}

/// An 8-bit source operand.
#[derive(Copy, Clone, Debug, PartialEq, Eq, Structural)]
pub enum Readable8 {
    Register8Name(Register8Name),
    Register8PlusFlag(Register8PlusFlag),
    Address(Address),
    PartialAddress(PartialAddress),
    Immediate8(Immediate8),
    Immediate8PlusFlag(Immediate8PlusFlag),
    Indirect(Indirect),
    IndirectPlusFlag(IndirectPlusFlag),
}

/// A 16-bit source operand.
#[derive(Copy, Clone, Debug, PartialEq, Eq, Structural)]
pub enum Readable16 {
    Register16Name(Register16Name),
    Register16PlusImmediate(Register16PlusImmediate),
    Address(Address),
    PartialAddress(PartialAddress),
    Immediate16(Immediate16),
    Indirect(Indirect),
    IndirectPlusFlag(IndirectPlusFlag),
}

/// A source operand of either width.
#[derive(Copy, Clone, Debug, PartialEq, Eq, Structural)]
pub enum Readable {
    Readable8(Readable8),
    Readable16(Readable16),
}

/// A destination operand of either width.
#[derive(Copy, Clone, Debug, PartialEq, Eq, Structural)]
pub enum Writable {
    Writable8(Writable8),
    Writable16(Writable16),
}

/// Which way a shift or rotate moves bits.
#[derive(Copy, Clone, Debug, PartialEq, Eq, Structural)]
pub enum ShiftDirection {
    Left,
    Right,
}

/// The kind of a shift or rotate.
#[derive(Copy, Clone, Debug, PartialEq, Eq, Structural)]
pub enum ShiftType {
    Logical,
    Arithmetic,
    Rotate,
}

/// One decoded instruction: a tagged variant, one case per operation family.
/// Each case carries exactly the operands and per-flag metadata that
/// operation needs.
#[derive(Copy, Clone, Debug, PartialEq, Eq, Structural)]
pub enum Instruction {
    NoOP,
    Load8(Writable8, Readable8),
    Load16(Writable16, Readable16),
    Push(Register16Name),
    Pop(Register16Name),
    Add8(Readable8, Readable8, FlagStateChange),
    AddHL(Register16Name, FlagStateChange),
    AddSP(Immediate8, FlagStateChange),
    Sub8(Readable8, Readable8, FlagStateChange),
    And8(Readable8, FlagStateChange),
    Or8(Readable8, FlagStateChange),
    Xor8(Readable8, FlagStateChange),
    Compare8(Readable8, FlagStateChange),
    Increment8(Writable8, FlagStateChange),
    Increment16(Register16Name),
    Decrement8(Writable8, FlagStateChange),
    Decrement16(Register16Name),
    RegisterShift(RegisterName, ShiftDirection, ShiftType, u8),
}

} // verus!
