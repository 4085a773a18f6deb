use eof_code_info::decode_helpers::{consume_u16, consume_u8};
use eof_code_info::EofDecodeError;

#[test]
fn consume_u8_takes_the_first_byte() {
    let input = [0xABu8, 0xCD, 0xEF];
    let (rest, value) = consume_u8(&input).unwrap();
    assert_eq!(value, 0xAB);
    assert_eq!(rest, &[0xCD, 0xEF]);
}

#[test]
fn consume_u8_of_one_byte_leaves_nothing() {
    let (rest, value) = consume_u8(&[0x7F]).unwrap();
    assert_eq!(value, 0x7F);
    assert!(rest.is_empty());
}

#[test]
fn consume_u8_of_nothing_is_missing_input() {
    assert_eq!(consume_u8(&[]), Err(EofDecodeError::MissingInput));
}

#[test]
fn consume_u16_is_big_endian() {
    let input = [0x12u8, 0x34, 0x56];
    let (rest, value) = consume_u16(&input).unwrap();
    assert_eq!(value, 0x1234);
    assert_eq!(rest, &[0x56]);
    assert_eq!(consume_u16(&[0x00, 0x01]).unwrap().1, 1);
    assert_eq!(consume_u16(&[0x01, 0x00]).unwrap().1, 256);
    assert_eq!(consume_u16(&[0xFF, 0xFF]).unwrap().1, 0xFFFF);
}

#[test]
fn consume_u16_agrees_with_std_on_every_value() {
    for value in 0..=u16::MAX {
        let bytes = value.to_be_bytes();
        let (rest, got) = consume_u16(&bytes).unwrap();
        assert_eq!(got, value);
        assert!(rest.is_empty());
    }
}

#[test]
fn consume_u16_of_too_little_is_missing_input() {
    assert_eq!(consume_u16(&[]), Err(EofDecodeError::MissingInput));
    assert_eq!(consume_u16(&[0x12]), Err(EofDecodeError::MissingInput));
}

#[test]
fn consume_can_be_chained() {
    let input = [0x01u8, 0x02, 0x03, 0x04];
    let (input, a) = consume_u8(&input).unwrap();
    let (input, b) = consume_u8(input).unwrap();
    let (input, c) = consume_u16(input).unwrap();
    assert_eq!((a, b, c), (1, 2, 0x0304));
    assert!(input.is_empty());
    assert_eq!(consume_u8(input), Err(EofDecodeError::MissingInput));
}
