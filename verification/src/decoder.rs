//! The decoder: a prefix dispatcher over a two-level opcode space. The base
//! table maps the first byte to a construction recipe or to failure; a
//! reserved prefix byte routes to a secondary table keyed by the following
//! byte. Every one of the 256 base byte values has a defined outcome.
//!
//! The whole decode is specified by [`spec_decode`], a pure function from the
//! remaining bytes of a stream to the decoded instruction (or failure) and
//! the exact number of bytes consumed. [`decode_instruction`] is proved to
//! return what `spec_decode` says and to advance the stream by exactly the
//! consumed count; on failure the bytes already read stay consumed — the
//! stream is not rewound.

use vstd::prelude::*;

use crate::instruction::{Instruction, Readable8, Writable8};
use crate::register::{Indirect, Register8Name};
use crate::stream::OpcodeStream;

verus! {

broadcast use vstd::seq_lib::lemma_seq_skip_of_skip, vstd::seq_lib::lemma_seq_skip_nothing;

/// A base-table entry: the construction recipe fixed for one opcode value.
/// The recipe names the operand descriptors; whether an immediate byte must
/// still be pulled from the stream follows from the recipe alone.
#[derive(Copy, Clone, Debug, PartialEq, Eq, Structural)]
pub enum OpcodeEntry {
    LoadRegisterFromImmediate(Register8Name),
    LoadRegisterFromRegister(Register8Name, Register8Name),
    LoadRegisterFromIndirect(Register8Name, Indirect),
    LoadIndirectFromRegister(Indirect, Register8Name),
    LoadIndirectFromImmediate(Indirect),
}

/// Whether a byte value opens the secondary opcode space.
pub open spec fn spec_is_prefix_byte(b: u8) -> bool {
    b == 0xCB
}

/// The base opcode table: a total mapping from the opcode byte to either a
/// construction recipe or an explicit unknown-opcode failure (`None`).
pub open spec fn base_opcode_entry(op: u8) -> Option<OpcodeEntry> {
    match op {
        0x06 => Some(OpcodeEntry::LoadRegisterFromImmediate(Register8Name::B)),
        0x0E => Some(OpcodeEntry::LoadRegisterFromImmediate(Register8Name::C)),
        0x16 => Some(OpcodeEntry::LoadRegisterFromImmediate(Register8Name::D)),
        0x1E => Some(OpcodeEntry::LoadRegisterFromImmediate(Register8Name::E)),
        0x26 => Some(OpcodeEntry::LoadRegisterFromImmediate(Register8Name::H)),
        0x2E => Some(OpcodeEntry::LoadRegisterFromImmediate(Register8Name::L)),
        0x7F => Some(OpcodeEntry::LoadRegisterFromRegister(Register8Name::A, Register8Name::A)),
        0x78 => Some(OpcodeEntry::LoadRegisterFromRegister(Register8Name::A, Register8Name::B)),
        0x79 => Some(OpcodeEntry::LoadRegisterFromRegister(Register8Name::A, Register8Name::C)),
        0x7A => Some(OpcodeEntry::LoadRegisterFromRegister(Register8Name::A, Register8Name::D)),
        0x7B => Some(OpcodeEntry::LoadRegisterFromRegister(Register8Name::A, Register8Name::E)),
        0x7C => Some(OpcodeEntry::LoadRegisterFromRegister(Register8Name::A, Register8Name::H)),
        0x7D => Some(OpcodeEntry::LoadRegisterFromRegister(Register8Name::A, Register8Name::L)),
        0x7E => Some(OpcodeEntry::LoadRegisterFromIndirect(Register8Name::A, Indirect::HL)),
        0x40 => Some(OpcodeEntry::LoadRegisterFromRegister(Register8Name::B, Register8Name::B)),
        0x41 => Some(OpcodeEntry::LoadRegisterFromRegister(Register8Name::B, Register8Name::C)),
        0x42 => Some(OpcodeEntry::LoadRegisterFromRegister(Register8Name::B, Register8Name::D)),
        0x43 => Some(OpcodeEntry::LoadRegisterFromRegister(Register8Name::B, Register8Name::E)),
        0x44 => Some(OpcodeEntry::LoadRegisterFromRegister(Register8Name::B, Register8Name::H)),
        0x45 => Some(OpcodeEntry::LoadRegisterFromRegister(Register8Name::B, Register8Name::L)),
        0x46 => Some(OpcodeEntry::LoadRegisterFromIndirect(Register8Name::B, Indirect::HL)),
        0x48 => Some(OpcodeEntry::LoadRegisterFromRegister(Register8Name::C, Register8Name::B)),
        0x49 => Some(OpcodeEntry::LoadRegisterFromRegister(Register8Name::C, Register8Name::C)),
        0x4A => Some(OpcodeEntry::LoadRegisterFromRegister(Register8Name::C, Register8Name::D)),
        0x4B => Some(OpcodeEntry::LoadRegisterFromRegister(Register8Name::C, Register8Name::E)),
        0x4C => Some(OpcodeEntry::LoadRegisterFromRegister(Register8Name::C, Register8Name::H)),
        0x4D => Some(OpcodeEntry::LoadRegisterFromRegister(Register8Name::C, Register8Name::L)),
        0x4E => Some(OpcodeEntry::LoadRegisterFromIndirect(Register8Name::C, Indirect::HL)),
        0x50 => Some(OpcodeEntry::LoadRegisterFromRegister(Register8Name::D, Register8Name::B)),
        0x51 => Some(OpcodeEntry::LoadRegisterFromRegister(Register8Name::D, Register8Name::C)),
        0x52 => Some(OpcodeEntry::LoadRegisterFromRegister(Register8Name::D, Register8Name::D)),
        0x53 => Some(OpcodeEntry::LoadRegisterFromRegister(Register8Name::D, Register8Name::E)),
        0x54 => Some(OpcodeEntry::LoadRegisterFromRegister(Register8Name::D, Register8Name::H)),
        0x55 => Some(OpcodeEntry::LoadRegisterFromRegister(Register8Name::D, Register8Name::L)),
        0x56 => Some(OpcodeEntry::LoadRegisterFromIndirect(Register8Name::D, Indirect::HL)),
        0x58 => Some(OpcodeEntry::LoadRegisterFromRegister(Register8Name::E, Register8Name::B)),
        0x59 => Some(OpcodeEntry::LoadRegisterFromRegister(Register8Name::E, Register8Name::C)),
        0x5A => Some(OpcodeEntry::LoadRegisterFromRegister(Register8Name::E, Register8Name::D)),
        0x5B => Some(OpcodeEntry::LoadRegisterFromRegister(Register8Name::E, Register8Name::E)),
        0x5C => Some(OpcodeEntry::LoadRegisterFromRegister(Register8Name::E, Register8Name::H)),
        0x5D => Some(OpcodeEntry::LoadRegisterFromRegister(Register8Name::E, Register8Name::L)),
        0x5E => Some(OpcodeEntry::LoadRegisterFromIndirect(Register8Name::H, Indirect::HL)),
        0x60 => Some(OpcodeEntry::LoadRegisterFromRegister(Register8Name::H, Register8Name::B)),
        0x61 => Some(OpcodeEntry::LoadRegisterFromRegister(Register8Name::H, Register8Name::C)),
        0x62 => Some(OpcodeEntry::LoadRegisterFromRegister(Register8Name::H, Register8Name::D)),
        0x63 => Some(OpcodeEntry::LoadRegisterFromRegister(Register8Name::H, Register8Name::E)),
        0x64 => Some(OpcodeEntry::LoadRegisterFromRegister(Register8Name::H, Register8Name::H)),
        0x65 => Some(OpcodeEntry::LoadRegisterFromRegister(Register8Name::H, Register8Name::L)),
        0x66 => Some(OpcodeEntry::LoadRegisterFromIndirect(Register8Name::H, Indirect::HL)),
        0x68 => Some(OpcodeEntry::LoadRegisterFromRegister(Register8Name::L, Register8Name::B)),
        0x69 => Some(OpcodeEntry::LoadRegisterFromRegister(Register8Name::L, Register8Name::C)),
        0x6A => Some(OpcodeEntry::LoadRegisterFromRegister(Register8Name::L, Register8Name::D)),
        0x6B => Some(OpcodeEntry::LoadRegisterFromRegister(Register8Name::L, Register8Name::E)),
        0x6C => Some(OpcodeEntry::LoadRegisterFromRegister(Register8Name::L, Register8Name::H)),
        0x6D => Some(OpcodeEntry::LoadRegisterFromRegister(Register8Name::L, Register8Name::L)),
        0x6E => Some(OpcodeEntry::LoadRegisterFromIndirect(Register8Name::L, Indirect::HL)),
        0x70 => Some(OpcodeEntry::LoadIndirectFromRegister(Indirect::HL, Register8Name::B)),
        0x71 => Some(OpcodeEntry::LoadIndirectFromRegister(Indirect::HL, Register8Name::C)),
        0x72 => Some(OpcodeEntry::LoadIndirectFromRegister(Indirect::HL, Register8Name::D)),
        0x73 => Some(OpcodeEntry::LoadIndirectFromRegister(Indirect::HL, Register8Name::E)),
        0x74 => Some(OpcodeEntry::LoadIndirectFromRegister(Indirect::HL, Register8Name::H)),
        0x75 => Some(OpcodeEntry::LoadIndirectFromRegister(Indirect::HL, Register8Name::L)),
        0x36 => Some(OpcodeEntry::LoadIndirectFromImmediate(Indirect::HL)),
        _ => None,
    }
}

/// The fixed byte length of an opcode with the given recipe: one byte for
/// register and indirect forms, two for forms carrying an 8-bit immediate.
pub open spec fn entry_len(e: OpcodeEntry) -> nat {
    match e {
        OpcodeEntry::LoadRegisterFromImmediate(_) => 2,
        OpcodeEntry::LoadIndirectFromImmediate(_) => 2,
        _ => 1,
    }
}

/// The instruction a recipe assembles. `imm` is the immediate byte that
/// follows the opcode; recipes of length one ignore it.
pub open spec fn entry_instruction(e: OpcodeEntry, imm: u8) -> Instruction {
    match e {
        OpcodeEntry::LoadRegisterFromImmediate(r) => Instruction::Load8(
            Writable8::Register8Name(r),
            Readable8::Immediate8(imm),
        ),
        OpcodeEntry::LoadRegisterFromRegister(dst, src) => Instruction::Load8(
            Writable8::Register8Name(dst),
            Readable8::Register8Name(src),
        ),
        OpcodeEntry::LoadRegisterFromIndirect(r, i) => Instruction::Load8(
            Writable8::Register8Name(r),
            Readable8::Indirect(i),
        ),
        OpcodeEntry::LoadIndirectFromRegister(i, r) => Instruction::Load8(
            Writable8::Indirect(i),
            Readable8::Register8Name(r),
        ),
        OpcodeEntry::LoadIndirectFromImmediate(i) => Instruction::Load8(
            Writable8::Indirect(i),
            Readable8::Immediate8(imm),
        ),
    }
}

/// One decode against the base table, on the remaining bytes `s`: the result
/// and the exact number of bytes consumed. The opcode byte, once read, stays
/// consumed even when the decode fails.
pub open spec fn spec_decode_unprefixed(s: Seq<u8>) -> (Option<Instruction>, nat) {
    if s.len() == 0 {
        (None, 0)
    } else {
        match base_opcode_entry(s[0]) {
            None => (None, 1),
            Some(e) => if entry_len(e) <= s.len() {
                (Some(entry_instruction(e, if entry_len(e) == 2 { s[1] } else { 0 })), entry_len(e))
            } else {
                (None, 1)
            },
        }
    }
}

/// One decode against the secondary table reached through `prefix`, on the
/// bytes after the prefix byte. No secondary opcode is defined yet, so every
/// lookup is an unknown-prefixed-opcode failure consuming nothing further.
pub open spec fn spec_decode_prefixed(prefix: u8, s: Seq<u8>) -> (Option<Instruction>, nat) {
    (None, 0)
}

/// One full decode on the remaining bytes `s`: the prefix dispatcher peeks at
/// the first byte, consumes it and routes to the secondary table when it is a
/// registered prefix value, and routes to the base table otherwise. An empty
/// stream is the ordinary end-of-program failure, consuming nothing.
pub open spec fn spec_decode(s: Seq<u8>) -> (Option<Instruction>, nat) {
    if s.len() == 0 {
        (None, 0)
    } else if spec_is_prefix_byte(s[0]) {
        let (r, n) = spec_decode_prefixed(s[0], s.skip(1));
        (r, 1 + n)
    } else {
        spec_decode_unprefixed(s)
    }
}

/// Whether a byte value is a registered prefix opening the secondary space.
fn is_prefix_byte(b: u8) -> (r: bool)
    ensures
        r == spec_is_prefix_byte(b),
{
    match b {
        0xCB => true,
        _ => false,
    }
}

/// Decode one instruction from the secondary table for `prefix`. The table
/// holds no entries yet, so this reports failure and consumes nothing.
#[allow(unused_variables)]
fn decode_prefixed_instruction(prefix: u8, input: &mut OpcodeStream) -> (ins: Option<Instruction>)
    requires
        old(input).wf(),
    ensures
        final(input).wf(),
        ins == spec_decode_prefixed(prefix, old(input)@).0,
        *final(input) == *old(input),
{
    None
}

/// Assemble a load of register `r` from an 8-bit immediate, pulling the one
/// immediate byte from the stream; fail without fabricating an operand when
/// the stream is exhausted.
fn construct_load8_from_immediate(r: Register8Name, input: &mut OpcodeStream) -> (ins: Option<
    Instruction,
>)
    requires
        old(input).wf(),
    ensures
        final(input).wf(),
        old(input)@.len() == 0 ==> ins is None && *final(input) == *old(input),
        old(input)@.len() > 0 ==> {
            &&& ins == Some(
                Instruction::Load8(
                    Writable8::Register8Name(r),
                    Readable8::Immediate8(old(input)@[0]),
                ),
            )
            &&& final(input)@ == old(input)@.skip(1)
            &&& final(input).position() == old(input).position() + 1
        },
{
    let immediate8 = match input.next() {
        Some(b) => b,
        None => {
            return None;
        },
    };
    Some(Instruction::Load8(Writable8::Register8Name(r), Readable8::Immediate8(immediate8)))
}

/// Assemble a register-to-register load. Degenerate same-register forms are
/// legitimate no-op-equivalent loads and are never filtered out.
fn construct_load8_from_register(dst: Register8Name, src: Register8Name) -> (ins: Option<
    Instruction,
>)
    ensures
        ins == Some(
            Instruction::Load8(Writable8::Register8Name(dst), Readable8::Register8Name(src)),
        ),
{
    Some(Instruction::Load8(Writable8::Register8Name(dst), Readable8::Register8Name(src)))
}

/// Assemble a load of register `r` from memory through an indirection mode.
fn construct_load8_from_indirect(r: Register8Name, indirect: Indirect) -> (ins: Option<Instruction>)
    ensures
        ins == Some(Instruction::Load8(Writable8::Register8Name(r), Readable8::Indirect(indirect))),
{
    Some(Instruction::Load8(Writable8::Register8Name(r), Readable8::Indirect(indirect)))
}

/// Assemble a store of a register to memory through an indirection mode.
fn construct_load8_to_indirect_from_register(indirect: Indirect, register: Register8Name) -> (ins:
    Option<Instruction>)
    ensures
        ins == Some(
            Instruction::Load8(Writable8::Indirect(indirect), Readable8::Register8Name(register)),
        ),
{
    Some(Instruction::Load8(Writable8::Indirect(indirect), Readable8::Register8Name(register)))
}

/// Assemble a store of an 8-bit immediate to memory through an indirection
/// mode, pulling the one immediate byte from the stream; fail without
/// fabricating an operand when the stream is exhausted.
fn construct_load8_to_indirect_from_immediate(indirect: Indirect, input: &mut OpcodeStream) -> (ins:
    Option<Instruction>)
    requires
        old(input).wf(),
    ensures
        final(input).wf(),
        old(input)@.len() == 0 ==> ins is None && *final(input) == *old(input),
        old(input)@.len() > 0 ==> {
            &&& ins == Some(
                Instruction::Load8(
                    Writable8::Indirect(indirect),
                    Readable8::Immediate8(old(input)@[0]),
                ),
            )
            &&& final(input)@ == old(input)@.skip(1)
            &&& final(input).position() == old(input).position() + 1
        },
{
    let immediate8 = match input.next() {
        Some(b) => b,
        None => {
            return None;
        },
    };
    Some(Instruction::Load8(Writable8::Indirect(indirect), Readable8::Immediate8(immediate8)))
}

/// Decode one instruction against the base table: consume the opcode byte,
/// then run the recipe the table fixes for it.
fn decode_unprefixed_instruction(input: &mut OpcodeStream) -> (ins: Option<Instruction>)
    requires
        old(input).wf(),
    ensures
        final(input).wf(),
        ins == spec_decode_unprefixed(old(input)@).0,
        final(input)@ == old(input)@.skip(spec_decode_unprefixed(old(input)@).1 as int),
        final(input).position() == old(input).position() + spec_decode_unprefixed(old(input)@).1,
{
    let opcode = match input.next() {
        Some(b) => b,
        None => {
            return None;
        },
    };
    match opcode {
        0x06 => construct_load8_from_immediate(Register8Name::B, input),
        0x0E => construct_load8_from_immediate(Register8Name::C, input),
        0x16 => construct_load8_from_immediate(Register8Name::D, input),
        0x1E => construct_load8_from_immediate(Register8Name::E, input),
        0x26 => construct_load8_from_immediate(Register8Name::H, input),
        0x2E => construct_load8_from_immediate(Register8Name::L, input),
        0x7F => construct_load8_from_register(Register8Name::A, Register8Name::A),
        0x78 => construct_load8_from_register(Register8Name::A, Register8Name::B),
        0x79 => construct_load8_from_register(Register8Name::A, Register8Name::C),
        0x7A => construct_load8_from_register(Register8Name::A, Register8Name::D),
        0x7B => construct_load8_from_register(Register8Name::A, Register8Name::E),
        0x7C => construct_load8_from_register(Register8Name::A, Register8Name::H),
        0x7D => construct_load8_from_register(Register8Name::A, Register8Name::L),
        0x7E => construct_load8_from_indirect(Register8Name::A, Indirect::HL),
        0x40 => construct_load8_from_register(Register8Name::B, Register8Name::B),
        0x41 => construct_load8_from_register(Register8Name::B, Register8Name::C),
        0x42 => construct_load8_from_register(Register8Name::B, Register8Name::D),
        0x43 => construct_load8_from_register(Register8Name::B, Register8Name::E),
        0x44 => construct_load8_from_register(Register8Name::B, Register8Name::H),
        0x45 => construct_load8_from_register(Register8Name::B, Register8Name::L),
        0x46 => construct_load8_from_indirect(Register8Name::B, Indirect::HL),
        0x48 => construct_load8_from_register(Register8Name::C, Register8Name::B),
        0x49 => construct_load8_from_register(Register8Name::C, Register8Name::C),
        0x4A => construct_load8_from_register(Register8Name::C, Register8Name::D),
        0x4B => construct_load8_from_register(Register8Name::C, Register8Name::E),
        0x4C => construct_load8_from_register(Register8Name::C, Register8Name::H),
        0x4D => construct_load8_from_register(Register8Name::C, Register8Name::L),
        0x4E => construct_load8_from_indirect(Register8Name::C, Indirect::HL),
        0x50 => construct_load8_from_register(Register8Name::D, Register8Name::B),
        0x51 => construct_load8_from_register(Register8Name::D, Register8Name::C),
        0x52 => construct_load8_from_register(Register8Name::D, Register8Name::D),
        0x53 => construct_load8_from_register(Register8Name::D, Register8Name::E),
        0x54 => construct_load8_from_register(Register8Name::D, Register8Name::H),
        0x55 => construct_load8_from_register(Register8Name::D, Register8Name::L),
        0x56 => construct_load8_from_indirect(Register8Name::D, Indirect::HL),
        0x58 => construct_load8_from_register(Register8Name::E, Register8Name::B),
        0x59 => construct_load8_from_register(Register8Name::E, Register8Name::C),
        0x5A => construct_load8_from_register(Register8Name::E, Register8Name::D),
        0x5B => construct_load8_from_register(Register8Name::E, Register8Name::E),
        0x5C => construct_load8_from_register(Register8Name::E, Register8Name::H),
        0x5D => construct_load8_from_register(Register8Name::E, Register8Name::L),
        0x5E => construct_load8_from_indirect(Register8Name::H, Indirect::HL),
        0x60 => construct_load8_from_register(Register8Name::H, Register8Name::B),
        0x61 => construct_load8_from_register(Register8Name::H, Register8Name::C),
        0x62 => construct_load8_from_register(Register8Name::H, Register8Name::D),
        0x63 => construct_load8_from_register(Register8Name::H, Register8Name::E),
        0x64 => construct_load8_from_register(Register8Name::H, Register8Name::H),
        0x65 => construct_load8_from_register(Register8Name::H, Register8Name::L),
        0x66 => construct_load8_from_indirect(Register8Name::H, Indirect::HL),
        0x68 => construct_load8_from_register(Register8Name::L, Register8Name::B),
        0x69 => construct_load8_from_register(Register8Name::L, Register8Name::C),
        0x6A => construct_load8_from_register(Register8Name::L, Register8Name::D),
        0x6B => construct_load8_from_register(Register8Name::L, Register8Name::E),
        0x6C => construct_load8_from_register(Register8Name::L, Register8Name::H),
        0x6D => construct_load8_from_register(Register8Name::L, Register8Name::L),
        0x6E => construct_load8_from_indirect(Register8Name::L, Indirect::HL),
        0x70 => construct_load8_to_indirect_from_register(Indirect::HL, Register8Name::B),
        0x71 => construct_load8_to_indirect_from_register(Indirect::HL, Register8Name::C),
        0x72 => construct_load8_to_indirect_from_register(Indirect::HL, Register8Name::D),
        0x73 => construct_load8_to_indirect_from_register(Indirect::HL, Register8Name::E),
        0x74 => construct_load8_to_indirect_from_register(Indirect::HL, Register8Name::H),
        0x75 => construct_load8_to_indirect_from_register(Indirect::HL, Register8Name::L),
        0x36 => construct_load8_to_indirect_from_immediate(Indirect::HL, input),
        _ => None,
    }
}

/// Decode one instruction from the stream: the result is exactly what
/// [`spec_decode`] says of the bytes that remained, and the stream advances
/// by exactly the consumed count. On failure the bytes already read (the
/// prefix or opcode byte) stay consumed; the stream is not rewound, and it
/// remains usable — an exhausted stream is the ordinary end-of-program
/// signal, not a crash.
pub fn decode_instruction(input: &mut OpcodeStream) -> (ins: Option<Instruction>)
    requires
        old(input).wf(),
    ensures
        final(input).wf(),
        ins == spec_decode(old(input)@).0,
        final(input)@ == old(input)@.skip(spec_decode(old(input)@).1 as int),
        final(input).position() == old(input).position() + spec_decode(old(input)@).1,
{
    let b = match input.peek() {
        Some(b) => b,
        None => {
            return None;
        },
    };
    if is_prefix_byte(b) {
        let prefix = match input.next() {
            Some(p) => p,
            None => {
                return None;
            },
        };
        decode_prefixed_instruction(prefix, input)
    } else {
        decode_unprefixed_instruction(input)
    }
}

/// Determinism: decoding is a pure function of the remaining bytes. Two
/// streams in identical states decode to identical results and consume
/// identical byte counts.
pub proof fn lemma_decode_deterministic(s1: Seq<u8>, s2: Seq<u8>)
    requires
        s1 == s2,
    ensures
        spec_decode(s1) == spec_decode(s2),
{
}

/// Exact consumption: a successful decode happens only on a defined,
/// unprefixed opcode, and consumes exactly that opcode's fixed documented
/// length.
pub proof fn lemma_exact_consumption(s: Seq<u8>)
    requires
        spec_decode(s).0 is Some,
    ensures
        s.len() > 0,
        !spec_is_prefix_byte(s[0]),
        base_opcode_entry(s[0]) is Some,
        spec_decode(s).1 == entry_len(base_opcode_entry(s[0]).unwrap()),
{
}

/// Totality over defined opcodes: an opcode present in the base table never
/// fails as unknown — its decode succeeds exactly when the stream holds the
/// opcode's full length, so it can fail only for a missing immediate byte.
pub proof fn lemma_defined_opcode_total(s: Seq<u8>)
    requires
        s.len() > 0,
        base_opcode_entry(s[0]) is Some,
    ensures
        spec_decode(s).0 is Some <==> entry_len(base_opcode_entry(s[0]).unwrap()) <= s.len(),
{
}

/// Unknown-opcode safety: a first byte with no table entry — an unregistered
/// base opcode, or a prefix byte whose secondary table has no entries — fails
/// and consumes exactly the one opcode or prefix byte already read, never
/// more.
pub proof fn lemma_unknown_opcode_safety(s: Seq<u8>)
    requires
        s.len() > 0,
        !spec_is_prefix_byte(s[0]) ==> base_opcode_entry(s[0]) is None,
    ensures
        spec_decode(s).0 is None,
        spec_decode(s).1 == 1,
{
}

/// Truncation safety: an opcode that requires an immediate, followed
/// immediately by end of stream, fails and consumes only the opcode byte —
/// no phantom immediate is fabricated.
pub proof fn lemma_truncation_safety(s: Seq<u8>)
    requires
        s.len() == 1,
        base_opcode_entry(s[0]) is Some,
        entry_len(base_opcode_entry(s[0]).unwrap()) == 2,
    ensures
        spec_decode(s).0 is None,
        spec_decode(s).1 == 1,
{
}

} // verus!
