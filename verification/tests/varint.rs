use tinyvg::common::{read_variable_sized_unsigned_number, write_variable_sized_unsigned_number};
use tinyvg::cursor::ByteCursor;
use tinyvg::TinyVgParseError;

fn encode(value: u64) -> Vec<u8> {
    let mut out = Vec::new();
    write_variable_sized_unsigned_number(&mut out, value).unwrap();
    out
}

fn decode(bytes: &[u8]) -> Result<(u64, usize), TinyVgParseError> {
    let mut cursor = ByteCursor::new(bytes);
    let value = read_variable_sized_unsigned_number(&mut cursor)?;
    Ok((value, cursor.position))
}

#[test]
fn varint_encodes_zero_as_one_zero_byte() {
    assert_eq!(encode(0), vec![0x00]);
}

#[test]
fn varint_encodes_127_as_one_byte() {
    assert_eq!(encode(127), vec![0x7F]);
}

#[test]
fn varint_encodes_128_as_two_bytes() {
    assert_eq!(encode(128), vec![0x80, 0x01]);
}

#[test]
fn varint_encodes_16384_as_three_bytes() {
    assert_eq!(encode(16384), vec![0x80, 0x80, 0x01]);
}

#[test]
fn varint_encodes_300() {
    assert_eq!(encode(300), vec![0xAC, 0x02]);
}

#[test]
fn varint_encodes_largest_value_as_ten_bytes() {
    assert_eq!(
        encode(u64::MAX),
        vec![0xFF, 0xFF, 0xFF, 0xFF, 0xFF, 0xFF, 0xFF, 0xFF, 0xFF, 0x01]
    );
}

#[test]
fn varint_write_appends_to_what_is_there() {
    let mut out = vec![0xAA, 0xBB];
    write_variable_sized_unsigned_number(&mut out, 128).unwrap();
    assert_eq!(out, vec![0xAA, 0xBB, 0x80, 0x01]);
}

#[test]
fn varint_round_trips() {
    let values = [
        0u64,
        1,
        127,
        128,
        255,
        300,
        16383,
        16384,
        2097151,
        2097152,
        u32::MAX as u64,
        u32::MAX as u64 + 1,
        1 << 62,
        1 << 63,
        u64::MAX - 1,
        u64::MAX,
    ];
    for value in values {
        let bytes = encode(value);
        assert_eq!(decode(&bytes), Ok((value, bytes.len())), "value {}", value);
    }
}

#[test]
fn varint_round_trips_with_bytes_behind() {
    let mut bytes = encode(123456789);
    let length = bytes.len();
    bytes.extend_from_slice(&[0xFF, 0xFF, 0x00]);
    assert_eq!(decode(&bytes), Ok((123456789, length)));
}

#[test]
fn varint_decode_stops_at_first_byte_without_top_bit() {
    assert_eq!(decode(&[0x05, 0x80, 0x01]), Ok((5, 1)));
}

#[test]
fn varint_decode_reads_from_the_cursor_position() {
    let bytes = [0xFF, 0x80, 0x01, 0x07];
    let mut cursor = ByteCursor::new(&bytes);
    cursor.position = 1;
    assert_eq!(read_variable_sized_unsigned_number(&mut cursor), Ok(128));
    assert_eq!(cursor.position, 3);
    assert_eq!(read_variable_sized_unsigned_number(&mut cursor), Ok(7));
    assert_eq!(cursor.position, 4);
}

#[test]
fn varint_decode_accepts_padded_form() {
    assert_eq!(decode(&[0x80, 0x00]), Ok((0, 2)));
    assert_eq!(decode(&[0x81, 0x80, 0x00]), Ok((1, 3)));
}

#[test]
fn varint_decode_fails_on_empty_input() {
    assert_eq!(decode(&[]), Err(TinyVgParseError::InvalidHeader));
}

#[test]
fn varint_decode_fails_where_data_ends_inside_the_number() {
    let bytes = [0x80, 0x80];
    let mut cursor = ByteCursor::new(&bytes);
    assert_eq!(
        read_variable_sized_unsigned_number(&mut cursor),
        Err(TinyVgParseError::InvalidHeader)
    );
    assert_eq!(cursor.position, 0);
}

#[test]
fn varint_decode_fails_past_ten_bytes() {
    let bytes = [0x80, 0x80, 0x80, 0x80, 0x80, 0x80, 0x80, 0x80, 0x80, 0x80, 0x00];
    assert_eq!(decode(&bytes), Err(TinyVgParseError::InvalidHeader));
}

#[test]
fn varint_decode_accepts_ten_bytes() {
    let bytes = [0x80, 0x80, 0x80, 0x80, 0x80, 0x80, 0x80, 0x80, 0x80, 0x01];
    assert_eq!(decode(&bytes), Ok((1 << 63, 10)));
}

#[test]
fn varint_decode_drops_bits_above_the_64th() {
    let bytes = [0xFF, 0xFF, 0xFF, 0xFF, 0xFF, 0xFF, 0xFF, 0xFF, 0xFF, 0x7F];
    assert_eq!(decode(&bytes), Ok((u64::MAX, 10)));
    let bytes = [0x80, 0x80, 0x80, 0x80, 0x80, 0x80, 0x80, 0x80, 0x80, 0x02];
    assert_eq!(decode(&bytes), Ok((0, 10)));
}

#[test]
fn cursor_reads_bytes_in_order() {
    let bytes = [1u8, 2, 3];
    let mut cursor = ByteCursor::new(&bytes);
    assert_eq!(cursor.remaining(), 3);
    assert_eq!(cursor.read_u8(), Some(1));
    assert_eq!(cursor.read_bytes(2), Some(&bytes[1..3]));
    assert_eq!(cursor.remaining(), 0);
    assert_eq!(cursor.read_u8(), None);
    assert_eq!(cursor.position, 3);
}

#[test]
fn cursor_read_bytes_fails_without_moving() {
    let bytes = [1u8, 2, 3];
    let mut cursor = ByteCursor::new(&bytes);
    assert_eq!(cursor.read_bytes(4), None);
    assert_eq!(cursor.position, 0);
    assert_eq!(cursor.read_bytes(0), Some(&bytes[0..0]));
    cursor.position = 7;
    assert_eq!(cursor.remaining(), 0);
    assert_eq!(cursor.read_bytes(0), None);
    assert_eq!(cursor.read_u8(), None);
}
