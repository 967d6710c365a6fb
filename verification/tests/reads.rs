use cwextab::digits::{dec_string, hex_padded_string, hex_prefixed_string, hex_string};
use cwextab::mem_utils::{uint16_at, uint32_at};
use cwextab::{read_byte, read_uint16, read_uint32, ExtabError};

#[test]
fn read_byte_advances_when_asked() {
    let data = [0x12u8, 0x34, 0x56];
    let mut offset: usize = 1;
    assert_eq!(read_byte(&data, &mut offset, true), Ok(0x34));
    assert_eq!(offset, 2);
    assert_eq!(read_byte(&data, &mut offset, true), Ok(0x56));
    assert_eq!(offset, 3);
}

#[test]
fn read_byte_peeks_without_advancing() {
    let data = [0x12u8, 0x34, 0x56];
    let mut offset: usize = 0;
    assert_eq!(read_byte(&data, &mut offset, false), Ok(0x12));
    assert_eq!(offset, 0);
}

#[test]
fn read_byte_past_end_is_out_of_bounds() {
    let data = [0x12u8, 0x34, 0x56];
    let mut offset: usize = 3;
    assert_eq!(read_byte(&data, &mut offset, true), Err(ExtabError::OutOfBounds));
    assert_eq!(offset, 3);
    let empty: [u8; 0] = [];
    let mut zero: usize = 0;
    assert_eq!(read_byte(&empty, &mut zero, true), Err(ExtabError::OutOfBounds));
    assert_eq!(zero, 0);
}

#[test]
fn read_uint16_is_big_endian() {
    let data = [0x12u8, 0x34, 0xAB, 0xCD];
    let mut offset: usize = 0;
    assert_eq!(read_uint16(&data, &mut offset, true), Ok(0x1234));
    assert_eq!(offset, 2);
    assert_eq!(read_uint16(&data, &mut offset, false), Ok(0xABCD));
    assert_eq!(offset, 2);
    assert_eq!(read_uint16(&data, &mut offset, true), Ok(0xABCD));
    assert_eq!(offset, 4);
}

#[test]
fn read_uint16_needs_two_bytes() {
    let data = [0x12u8, 0x34, 0xAB];
    let mut offset: usize = 2;
    assert_eq!(read_uint16(&data, &mut offset, true), Err(ExtabError::OutOfBounds));
    assert_eq!(offset, 2);
    let mut far: usize = usize::MAX;
    assert_eq!(read_uint16(&data, &mut far, true), Err(ExtabError::OutOfBounds));
    assert_eq!(far, usize::MAX);
    let one = [0xFFu8];
    let mut zero: usize = 0;
    assert_eq!(read_uint16(&one, &mut zero, false), Err(ExtabError::OutOfBounds));
}

#[test]
fn read_uint32_is_big_endian() {
    let data = [0x00u8, 0x80, 0x00, 0x10, 0x00, 0xFF, 0xFF, 0xFF, 0xFF];
    let mut offset: usize = 1;
    assert_eq!(read_uint32(&data, &mut offset, false), Ok(0x8000_1000));
    assert_eq!(offset, 1);
    assert_eq!(read_uint32(&data, &mut offset, true), Ok(0x8000_1000));
    assert_eq!(offset, 5);
    assert_eq!(read_uint32(&data, &mut offset, true), Ok(0xFFFF_FFFF));
    assert_eq!(offset, 9);
}

#[test]
fn read_uint32_needs_four_bytes() {
    let data = [1u8, 2, 3, 4, 5];
    let mut offset: usize = 2;
    assert_eq!(read_uint32(&data, &mut offset, true), Err(ExtabError::OutOfBounds));
    assert_eq!(offset, 2);
    let mut last_fit: usize = 1;
    assert_eq!(read_uint32(&data, &mut last_fit, true), Ok(0x0203_0405));
    assert_eq!(last_fit, 5);
    let three = [1u8, 2, 3];
    let mut zero: usize = 0;
    assert_eq!(read_uint32(&three, &mut zero, true), Err(ExtabError::OutOfBounds));
    let mut far: usize = usize::MAX - 1;
    assert_eq!(read_uint32(&data, &mut far, true), Err(ExtabError::OutOfBounds));
}

#[test]
fn numbers_at_an_index() {
    let data = [0x01u8, 0x02, 0x03, 0x04, 0x05, 0x06];
    assert_eq!(uint16_at(&data, 0), 0x0102);
    assert_eq!(uint16_at(&data, 4), 0x0506);
    assert_eq!(uint32_at(&data, 0), 0x0102_0304);
    assert_eq!(uint32_at(&data, 2), 0x0304_0506);
}

#[test]
fn decimal_text() {
    assert_eq!(dec_string(0), "0");
    assert_eq!(dec_string(7), "7");
    assert_eq!(dec_string(10), "10");
    assert_eq!(dec_string(65535), "65535");
    assert_eq!(dec_string(4294967295), "4294967295");
}

#[test]
fn hexadecimal_text() {
    assert_eq!(hex_string(0), "0");
    assert_eq!(hex_string(0xF), "F");
    assert_eq!(hex_string(0x10), "10");
    assert_eq!(hex_string(0xABCDEF), "ABCDEF");
    assert_eq!(hex_string(0x9876_5432), "98765432");
    assert_eq!(hex_string(0xFFFF_FFFF), "FFFFFFFF");
}

#[test]
fn hexadecimal_text_with_prefix() {
    assert_eq!(hex_prefixed_string(0), "0x0");
    assert_eq!(hex_prefixed_string(0x10), "0x10");
    assert_eq!(hex_prefixed_string(0xDEAD_BEEF), "0xDEADBEEF");
}

#[test]
fn hexadecimal_text_padded() {
    assert_eq!(hex_padded_string(0, 6), "000000");
    assert_eq!(hex_padded_string(0x18, 6), "000018");
    assert_eq!(hex_padded_string(0xFFFFFF, 6), "FFFFFF");
    assert_eq!(hex_padded_string(0x1000000, 6), "1000000");
    assert_eq!(hex_padded_string(0x8000_1000, 8), "80001000");
    assert_eq!(hex_padded_string(0x40, 8), "00000040");
    assert_eq!(hex_padded_string(0xAB, 0), "AB");
    assert_eq!(hex_padded_string(0xAB, 2), "AB");
    assert_eq!(hex_padded_string(0xAB, 3), "0AB");
}

#[test]
fn error_messages() {
    assert_eq!(ExtabError::TableTooShort.message(), "the table data must be at least 8 bytes long");
    assert_eq!(
        ExtabError::InvalidEmptyTable.message(),
        "the table is 8 bytes long but its terminator is not zero"
    );
    assert_eq!(ExtabError::InvalidActionType.message(), "an action record has an unknown type");
    assert_eq!(ExtabError::OutOfBounds.message(), "a read ran past the end of the table data");
    assert_eq!(
        ExtabError::MissingFunctionName.message(),
        "there are fewer function names than destructor references"
    );
}
