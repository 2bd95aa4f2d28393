use tinyvg::cursor::ByteCursor;
use tinyvg::header::{
    choose_scale, write_header, ColorEncoding, CoordinateRange, TinyVgHeader, MAGIC_0, MAGIC_1,
};
use tinyvg::TinyVgParseError;

fn parse(bytes: &[u8]) -> Result<(TinyVgHeader, usize), TinyVgParseError> {
    let mut cursor = ByteCursor::new(bytes);
    let header = TinyVgHeader::parse(&mut cursor)?;
    Ok((header, cursor.position))
}

fn header(
    scale: u8,
    color_encoding: ColorEncoding,
    coordinate_range: CoordinateRange,
    width: u32,
    height: u32,
    color_count: u64,
) -> TinyVgHeader {
    TinyVgHeader {
        magic: [0x72, 0x56],
        version: 1,
        scale,
        color_encoding,
        coordinate_range,
        width,
        height,
        color_count,
    }
}

#[test]
fn magic_is_0x72_0x56() {
    assert_eq!([MAGIC_0, MAGIC_1], [0x72, 0x56]);
}

#[test]
fn color_encoding_from_u8() {
    assert_eq!(ColorEncoding::from_u8(0), Ok(ColorEncoding::Rgba8888));
    assert_eq!(ColorEncoding::from_u8(1), Ok(ColorEncoding::Rgb565));
    assert_eq!(ColorEncoding::from_u8(2), Ok(ColorEncoding::RgbaF32));
    assert_eq!(ColorEncoding::from_u8(3), Ok(ColorEncoding::Custom));
    assert_eq!(ColorEncoding::from_u8(4), Err(TinyVgParseError::InvalidHeader));
    assert_eq!(ColorEncoding::from_u8(255), Err(TinyVgParseError::InvalidHeader));
}

#[test]
fn color_encoding_to_u8_undoes_from_u8() {
    for value in 0u8..4 {
        assert_eq!(ColorEncoding::from_u8(value).unwrap().to_u8(), value);
    }
}

#[test]
fn coordinate_range_from_u8() {
    assert_eq!(CoordinateRange::from_u8(0), Ok(CoordinateRange::Default));
    assert_eq!(CoordinateRange::from_u8(1), Ok(CoordinateRange::Reduced));
    assert_eq!(CoordinateRange::from_u8(2), Ok(CoordinateRange::Enhanced));
    assert_eq!(CoordinateRange::from_u8(3), Err(TinyVgParseError::InvalidHeader));
    assert_eq!(CoordinateRange::from_u8(200), Err(TinyVgParseError::InvalidHeader));
}

#[test]
fn coordinate_range_to_u8_undoes_from_u8() {
    for value in 0u8..3 {
        assert_eq!(CoordinateRange::from_u8(value).unwrap().to_u8(), value);
    }
}

#[test]
fn header_parses_default_range() {
    let bytes = [0x72, 0x56, 0x01, 0x24, 0x64, 0x00, 0x32, 0x00, 0x03, 0xEE];
    let (parsed, consumed) = parse(&bytes).unwrap();
    assert_eq!(consumed, 9);
    assert_eq!(
        parsed,
        header(4, ColorEncoding::RgbaF32, CoordinateRange::Default, 100, 50, 3)
    );
}

#[test]
fn header_parses_reduced_range() {
    let bytes = [0x72, 0x56, 0x01, 0x4F, 0xC8, 0x07, 0x80, 0x01];
    let (parsed, consumed) = parse(&bytes).unwrap();
    assert_eq!(consumed, 8);
    assert_eq!(
        parsed,
        header(15, ColorEncoding::Rgba8888, CoordinateRange::Reduced, 200, 7, 128)
    );
}

#[test]
fn header_parses_enhanced_range() {
    let bytes = [
        0x72, 0x56, 0x02, 0x90, 0x00, 0x00, 0x01, 0x00, 0x01, 0x00, 0x00, 0x00, 0x00,
    ];
    let (parsed, consumed) = parse(&bytes).unwrap();
    assert_eq!(consumed, 13);
    let mut expected = header(0, ColorEncoding::Rgb565, CoordinateRange::Enhanced, 65536, 1, 0);
    expected.version = 2;
    assert_eq!(parsed, expected);
}

#[test]
fn header_parses_custom_encoding() {
    let bytes = [0x72, 0x56, 0x01, 0x30, 0x00, 0x00, 0x00, 0x00, 0x00];
    let (parsed, _) = parse(&bytes).unwrap();
    assert_eq!(parsed.color_encoding, ColorEncoding::Custom);
    assert_eq!(parsed.width, 0);
    assert_eq!(parsed.height, 0);
}

#[test]
fn header_with_wrong_magic_fails_without_reading_on() {
    for bytes in [
        [0x00, 0x56, 0x01, 0x24, 0x64, 0x00, 0x32, 0x00, 0x03],
        [0x72, 0x00, 0x01, 0x24, 0x64, 0x00, 0x32, 0x00, 0x03],
        [0x56, 0x72, 0x01, 0x24, 0x64, 0x00, 0x32, 0x00, 0x03],
    ] {
        let mut cursor = ByteCursor::new(&bytes);
        assert_eq!(TinyVgHeader::parse(&mut cursor), Err(TinyVgParseError::InvalidHeader));
        assert_eq!(cursor.position, 0);
    }
}

#[test]
fn header_with_wrong_magic_and_nothing_else_fails() {
    assert_eq!(parse(&[0x73, 0x56]), Err(TinyVgParseError::InvalidHeader));
}

#[test]
fn header_fails_where_data_ends() {
    let bytes = [0x72, 0x56, 0x01, 0x24, 0x64, 0x00, 0x32, 0x00, 0x03];
    for length in 0..bytes.len() {
        assert_eq!(
            parse(&bytes[..length]),
            Err(TinyVgParseError::InvalidHeader),
            "length {}",
            length
        );
    }
    assert!(parse(&bytes).is_ok());
}

#[test]
fn header_with_unassigned_coordinate_range_fails() {
    let bytes = [0x72, 0x56, 0x01, 0xC4, 0x64, 0x00, 0x32, 0x00, 0x03];
    assert_eq!(parse(&bytes), Err(TinyVgParseError::InvalidHeader));
}

#[test]
fn header_writes_packed_byte_and_sizes() {
    let mut out = Vec::new();
    write_header(
        &header(4, ColorEncoding::RgbaF32, CoordinateRange::Default, 100, 50, 3),
        &mut out,
    )
    .unwrap();
    assert_eq!(out, vec![0x72, 0x56, 0x01, 0x24, 0x64, 0x00, 0x32, 0x00, 0x03]);

    let mut out = Vec::new();
    write_header(
        &header(15, ColorEncoding::Custom, CoordinateRange::Enhanced, 1, 2, 300),
        &mut out,
    )
    .unwrap();
    assert_eq!(
        out,
        vec![0x72, 0x56, 0x01, 0xBF, 0x01, 0x00, 0x00, 0x00, 0x02, 0x00, 0x00, 0x00, 0xAC, 0x02]
    );

    let mut out = Vec::new();
    write_header(
        &header(1, ColorEncoding::Rgb565, CoordinateRange::Reduced, 255, 0, 0),
        &mut out,
    )
    .unwrap();
    assert_eq!(out, vec![0x72, 0x56, 0x01, 0x51, 0xFF, 0x00, 0x00]);
}

#[test]
fn header_round_trips() {
    let headers = [
        header(0, ColorEncoding::Rgba8888, CoordinateRange::Default, 0, 0, 0),
        header(15, ColorEncoding::Rgb565, CoordinateRange::Reduced, 255, 255, 1),
        header(7, ColorEncoding::RgbaF32, CoordinateRange::Enhanced, u32::MAX, 12345678, u64::MAX),
        header(3, ColorEncoding::Custom, CoordinateRange::Default, 65535, 1, 128),
    ];
    for written in headers {
        let mut out = Vec::new();
        write_header(&written, &mut out).unwrap();
        assert_eq!(parse(&out), Ok((written, out.len())));
    }
}

#[test]
fn header_write_refuses_scale_above_15() {
    let mut out = Vec::new();
    assert_eq!(
        write_header(
            &header(16, ColorEncoding::RgbaF32, CoordinateRange::Default, 1, 1, 0),
            &mut out
        ),
        Err(TinyVgParseError::InvalidHeader)
    );
}

#[test]
fn header_write_refuses_size_that_does_not_fit() {
    let mut out = vec![0x99];
    assert_eq!(
        write_header(
            &header(1, ColorEncoding::RgbaF32, CoordinateRange::Default, 70000, 1, 0),
            &mut out
        ),
        Err(TinyVgParseError::InvalidHeader)
    );
    assert_eq!(out, vec![0x99]);
    assert_eq!(
        write_header(
            &header(1, ColorEncoding::RgbaF32, CoordinateRange::Reduced, 1, 256, 0),
            &mut out
        ),
        Err(TinyVgParseError::InvalidHeader)
    );
    assert_eq!(out, vec![0x99]);
}

#[test]
fn header_write_refuses_wrong_magic() {
    let mut wrong = header(1, ColorEncoding::RgbaF32, CoordinateRange::Default, 1, 1, 0);
    wrong.magic = [0x72, 0x57];
    let mut out = Vec::new();
    assert_eq!(write_header(&wrong, &mut out), Err(TinyVgParseError::InvalidHeader));
    assert!(out.is_empty());
}

#[test]
fn scale_for_small_images_is_large() {
    assert_eq!(choose_scale(0, 0), 15);
    assert_eq!(choose_scale(1, 1), 14);
    assert_eq!(choose_scale(1, 0), 14);
    assert_eq!(choose_scale(2, 1), 13);
    assert_eq!(choose_scale(3, 3), 13);
}

#[test]
fn scale_goes_by_the_larger_side() {
    assert_eq!(choose_scale(100, 50), 8);
    assert_eq!(choose_scale(50, 100), 8);
    assert_eq!(choose_scale(127, 1), 8);
    assert_eq!(choose_scale(128, 1), 7);
    assert_eq!(choose_scale(1, 16383), 1);
    assert_eq!(choose_scale(16384, 1), 0);
}

#[test]
fn scale_for_images_beyond_the_range_is_zero() {
    assert_eq!(choose_scale(32767, 32767), 0);
    assert_eq!(choose_scale(32768, 1), 0);
    assert_eq!(choose_scale(u32::MAX, 1), 0);
    assert_eq!(choose_scale(0x8000_0000, 0), 0);
}
