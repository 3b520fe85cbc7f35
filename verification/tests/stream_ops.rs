use opcode_decoder::instruction::{FlagChange, FlagStateChange};
use opcode_decoder::register::FlagName;
use opcode_decoder::stream::OpcodeStream;

#[test]
fn peek_does_not_consume() {
    let stream = OpcodeStream::new(vec![0x40, 0x41]);
    assert_eq!(stream.peek(), Some(0x40));
    assert_eq!(stream.peek(), Some(0x40));
    assert_eq!(stream.current_position(), 0);
    assert_eq!(stream.remaining_len(), 2);
}

#[test]
fn next_consumes_left_to_right() {
    let mut stream = OpcodeStream::new(vec![0x40, 0x41]);
    assert_eq!(stream.next(), Some(0x40));
    assert_eq!(stream.next(), Some(0x41));
    assert_eq!(stream.next(), None);
    assert_eq!(stream.next(), None);
    assert_eq!(stream.current_position(), 2);
}

#[test]
fn exhaustion_is_explicit() {
    let mut stream = OpcodeStream::new(vec![]);
    assert_eq!(stream.peek(), None);
    assert_eq!(stream.next(), None);
    assert_eq!(stream.remaining_len(), 0);
}

#[test]
fn flag_state_change_per_flag_lookup() {
    let change = FlagStateChange {
        s: FlagChange::UNCH,
        z: FlagChange::DEFER,
        f5: FlagChange::UNCH,
        h: FlagChange::RESET,
        f3: FlagChange::UNCH,
        pv: FlagChange::DEFER,
        n: FlagChange::SET,
        c: FlagChange::UNCH,
    };
    assert_eq!(change.for_flag(FlagName::Z), FlagChange::DEFER);
    assert_eq!(change.for_flag(FlagName::N), FlagChange::SET);
    assert_eq!(change.for_flag(FlagName::H), FlagChange::RESET);
    assert_eq!(change.for_flag(FlagName::C), FlagChange::UNCH);
}
