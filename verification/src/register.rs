//! Names for the addressing targets an instruction can mention: 8-bit and
//! 16-bit registers, memory-indirection modes, and status flags. These are
//! pure enumerations; no storage lives here.

use vstd::prelude::*;

verus! {

/// An 8-bit register.
#[derive(Copy, Clone, Debug, PartialEq, Eq, Structural)]
pub enum Register8Name {
    A,
    B,
    C,
    D,
    E,
    H,
    L,
}

/// A 16-bit register or register pair.
#[derive(Copy, Clone, Debug, PartialEq, Eq, Structural)]
pub enum Register16Name {
    AF,
    BC,
    DE,
    HL,
    SP,
    PC,
}

/// Either kind of register.
#[derive(Copy, Clone, Debug, PartialEq, Eq, Structural)]
pub enum RegisterName {
    Register8Name(Register8Name),
    Register16Name(Register16Name),
}

/// A memory-indirection mode: the operand lives at the address held in the
/// named register pair. `HLI` and `HLD` post-increment and post-decrement
/// the pointer after the access.
#[derive(Copy, Clone, Debug, PartialEq, Eq, Structural)]
pub enum Indirect {
    HL,
    HLI,
    HLD,
    BC,
    DE,
}

/// A status flag.
#[derive(Copy, Clone, Debug, PartialEq, Eq, Structural)]
pub enum FlagName {
    S,
    Z,
    F5,
    H,
    F3,
    PV,
    N,
    C,
}

} // verus!
