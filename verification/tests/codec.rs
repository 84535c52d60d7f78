use counter_program::account::{pubkey_eq, Pubkey};
use counter_program::codec::{read_u32_le, write_u32_le};
use counter_program::error::ProgramError;
use counter_program::processor::{apply_opcode, parse_opcode, Opcode};

#[test]
fn write_then_read_round_trips() {
    for v in [0u32, 1, 255, 256, 0x1234_5678, u32::MAX - 1, u32::MAX] {
        let mut data = vec![0u8; 6];
        write_u32_le(&mut data, v);
        assert_eq!(read_u32_le(&data), v);
    }
}

#[test]
fn write_uses_little_endian_order() {
    let mut data = vec![0u8; 4];
    write_u32_le(&mut data, 0x1234_5678);
    assert_eq!(data, vec![0x78, 0x56, 0x34, 0x12]);
}

#[test]
fn write_leaves_trailing_bytes() {
    let mut data = vec![1, 2, 3, 4, 5, 6];
    write_u32_le(&mut data, 0);
    assert_eq!(data, vec![0, 0, 0, 0, 5, 6]);
}

#[test]
fn read_takes_first_four_bytes() {
    let data = vec![7, 0, 0, 0, 200, 200];
    assert_eq!(read_u32_le(&data), 7);
}

#[test]
fn pubkey_eq_compares_bytes() {
    let a = Pubkey { bytes: vec![1; 32] };
    let b = Pubkey { bytes: vec![1; 32] };
    let c = Pubkey { bytes: vec![2; 32] };
    let short = Pubkey { bytes: vec![1; 31] };
    assert!(pubkey_eq(&a, &b));
    assert!(!pubkey_eq(&a, &c));
    assert!(!pubkey_eq(&a, &short));
}

#[test]
fn parse_opcode_knows_the_three_opcodes() {
    assert_eq!(parse_opcode(0), Some(Opcode::Increment));
    assert_eq!(parse_opcode(1), Some(Opcode::Decrement));
    assert_eq!(parse_opcode(2), Some(Opcode::Reset));
    assert_eq!(parse_opcode(3), None);
    assert_eq!(parse_opcode(255), None);
}

#[test]
fn apply_opcode_checks_the_bounds() {
    assert_eq!(apply_opcode(Opcode::Increment, 41), Ok(42));
    assert_eq!(apply_opcode(Opcode::Increment, u32::MAX), Err(ProgramError::InvalidArgument));
    assert_eq!(apply_opcode(Opcode::Decrement, 42), Ok(41));
    assert_eq!(apply_opcode(Opcode::Decrement, 0), Err(ProgramError::InvalidArgument));
    assert_eq!(apply_opcode(Opcode::Reset, u32::MAX), Ok(0));
    assert_eq!(apply_opcode(Opcode::Reset, 0), Ok(0));
}
