use opcode_decoder::decoder::decode_instruction;
use opcode_decoder::instruction::{Instruction, Readable8, Writable8};
use opcode_decoder::register::{Indirect, Register8Name};
use opcode_decoder::stream::OpcodeStream;

fn load8_immediate_expected(opcode: u8, immediate: u8) -> Instruction {
    match opcode {
        0x06 => Instruction::Load8(
            Writable8::Register8Name(Register8Name::B),
            Readable8::Immediate8(immediate),
        ),
        0x0E => Instruction::Load8(
            Writable8::Register8Name(Register8Name::C),
            Readable8::Immediate8(immediate),
        ),
        0x16 => Instruction::Load8(
            Writable8::Register8Name(Register8Name::D),
            Readable8::Immediate8(immediate),
        ),
        0x1E => Instruction::Load8(
            Writable8::Register8Name(Register8Name::E),
            Readable8::Immediate8(immediate),
        ),
        0x26 => Instruction::Load8(
            Writable8::Register8Name(Register8Name::H),
            Readable8::Immediate8(immediate),
        ),
        0x2E => Instruction::Load8(
            Writable8::Register8Name(Register8Name::L),
            Readable8::Immediate8(immediate),
        ),
        _ => panic!(),
    }
}

#[test]
fn load8_immediate() {
    let load8_immediate_opcodes: [u8; 6] = [0x06, 0x0E, 0x16, 0x1E, 0x26, 0x2E];
    let load8_immediate_immediates: [u8; 7] = [0x06, 0x0E, 0x32, 0xFF, 0x00, 0xAC, 0x99];

    for opcode in load8_immediate_opcodes {
        for immediate in load8_immediate_immediates {
            let input: Vec<u8> = vec![opcode, immediate];
            let decoded = decode_instruction(&mut OpcodeStream::new(input));
            let expected = load8_immediate_expected(opcode, immediate);
            assert_eq!(decoded, Some(expected));
        }
    }
}

#[test]
fn scenario_load_b_from_immediate() {
    let mut stream = OpcodeStream::new(vec![0x06, 0x02]);
    let decoded = decode_instruction(&mut stream);
    assert_eq!(
        decoded,
        Some(Instruction::Load8(
            Writable8::Register8Name(Register8Name::B),
            Readable8::Immediate8(0x02),
        ))
    );
    assert_eq!(stream.remaining_len(), 0);
}

#[test]
fn scenario_load_a_from_indirect_hl() {
    let mut stream = OpcodeStream::new(vec![0x7E]);
    let decoded = decode_instruction(&mut stream);
    assert_eq!(
        decoded,
        Some(Instruction::Load8(
            Writable8::Register8Name(Register8Name::A),
            Readable8::Indirect(Indirect::HL),
        ))
    );
    assert_eq!(stream.remaining_len(), 0);
}

#[test]
fn scenario_load_indirect_hl_from_immediate() {
    let mut stream = OpcodeStream::new(vec![0x36, 0xFF]);
    let decoded = decode_instruction(&mut stream);
    assert_eq!(
        decoded,
        Some(Instruction::Load8(
            Writable8::Indirect(Indirect::HL),
            Readable8::Immediate8(0xFF),
        ))
    );
    assert_eq!(stream.remaining_len(), 0);
}

#[test]
fn scenario_load_a_from_a_not_filtered() {
    let mut stream = OpcodeStream::new(vec![0x7F]);
    let decoded = decode_instruction(&mut stream);
    assert_eq!(
        decoded,
        Some(Instruction::Load8(
            Writable8::Register8Name(Register8Name::A),
            Readable8::Register8Name(Register8Name::A),
        ))
    );
}

#[test]
fn scenario_bare_prefix_fails() {
    let mut stream = OpcodeStream::new(vec![0xCB]);
    let decoded = decode_instruction(&mut stream);
    assert_eq!(decoded, None);
    assert_eq!(stream.current_position(), 1);
}

#[test]
fn scenario_empty_stream_fails() {
    let mut stream = OpcodeStream::new(vec![]);
    let decoded = decode_instruction(&mut stream);
    assert_eq!(decoded, None);
    assert_eq!(stream.current_position(), 0);
}

#[test]
fn determinism_same_bytes_same_instruction() {
    let program: Vec<u8> = vec![0x2E, 0xAC, 0x70, 0x00, 0xCB];
    for start in 0..program.len() {
        let tail: Vec<u8> = program[start..].to_vec();
        let first = decode_instruction(&mut OpcodeStream::new(tail.clone()));
        let second = decode_instruction(&mut OpcodeStream::new(tail));
        assert_eq!(first, second);
    }
}

#[test]
fn exact_consumption_per_opcode_length() {
    // A two-byte form consumes exactly two bytes, a one-byte form exactly
    // one, leaving the stream positioned immediately after.
    let mut stream = OpcodeStream::new(vec![0x16, 0x7B, 0x41]);
    let first = decode_instruction(&mut stream);
    assert_eq!(
        first,
        Some(Instruction::Load8(
            Writable8::Register8Name(Register8Name::D),
            Readable8::Immediate8(0x7B),
        ))
    );
    assert_eq!(stream.current_position(), 2);
    let second = decode_instruction(&mut stream);
    assert_eq!(
        second,
        Some(Instruction::Load8(
            Writable8::Register8Name(Register8Name::B),
            Readable8::Register8Name(Register8Name::C),
        ))
    );
    assert_eq!(stream.current_position(), 3);
    assert_eq!(stream.remaining_len(), 0);
}

#[test]
fn totality_every_defined_opcode_decodes() {
    // Every opcode value present in the base table decodes successfully when
    // the stream holds its full length; a spare byte follows so two-byte
    // forms find their immediate.
    let defined: [u8; 61] = [
        0x06, 0x0E, 0x16, 0x1E, 0x26, 0x2E, 0x36, 0x40, 0x41, 0x42, 0x43, 0x44, 0x45, 0x46, 0x48,
        0x49, 0x4A, 0x4B, 0x4C, 0x4D, 0x4E, 0x50, 0x51, 0x52, 0x53, 0x54, 0x55, 0x56, 0x58, 0x59,
        0x5A, 0x5B, 0x5C, 0x5D, 0x5E, 0x60, 0x61, 0x62, 0x63, 0x64, 0x65, 0x66, 0x68, 0x69, 0x6A,
        0x6B, 0x6C, 0x6D, 0x6E, 0x70, 0x71, 0x72, 0x73, 0x74, 0x75, 0x78, 0x79, 0x7A, 0x7B, 0x7C,
        0x7D,
    ];
    for opcode in defined {
        let mut stream = OpcodeStream::new(vec![opcode, 0x55]);
        let decoded = decode_instruction(&mut stream);
        assert!(decoded.is_some());
    }
}

#[test]
fn unknown_opcode_consumes_only_itself() {
    // 0x00 has no base-table entry: the decode fails, consumes exactly the
    // opcode byte, and the stream stays usable — the next decode picks up at
    // the following byte.
    let mut stream = OpcodeStream::new(vec![0x00, 0x06, 0x32]);
    let failed = decode_instruction(&mut stream);
    assert_eq!(failed, None);
    assert_eq!(stream.current_position(), 1);
    let recovered = decode_instruction(&mut stream);
    assert_eq!(
        recovered,
        Some(Instruction::Load8(
            Writable8::Register8Name(Register8Name::B),
            Readable8::Immediate8(0x32),
        ))
    );
}

#[test]
fn unknown_prefixed_opcode_consumes_only_prefix() {
    // The secondary table holds no entries yet: the prefix byte is consumed,
    // the byte after it is not.
    let mut stream = OpcodeStream::new(vec![0xCB, 0x40]);
    let failed = decode_instruction(&mut stream);
    assert_eq!(failed, None);
    assert_eq!(stream.current_position(), 1);
    let recovered = decode_instruction(&mut stream);
    assert_eq!(
        recovered,
        Some(Instruction::Load8(
            Writable8::Register8Name(Register8Name::B),
            Readable8::Register8Name(Register8Name::B),
        ))
    );
}

#[test]
fn truncated_immediate_fails_without_phantom_operand() {
    // Each two-byte opcode followed immediately by end of stream: failure,
    // with only the opcode byte consumed.
    let two_byte_opcodes: [u8; 7] = [0x06, 0x0E, 0x16, 0x1E, 0x26, 0x2E, 0x36];
    for opcode in two_byte_opcodes {
        let mut stream = OpcodeStream::new(vec![opcode]);
        let decoded = decode_instruction(&mut stream);
        assert_eq!(decoded, None);
        assert_eq!(stream.current_position(), 1);
        assert_eq!(stream.remaining_len(), 0);
    }
}
