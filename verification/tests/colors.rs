use tinyvg::color_table::{parse_color_table, set_color, write_color_table, Color};
use tinyvg::cursor::ByteCursor;
use tinyvg::header::{ColorEncoding, CoordinateRange, TinyVgHeader};
use tinyvg::TinyVgParseError;

fn header(color_encoding: ColorEncoding, color_count: u64) -> TinyVgHeader {
    TinyVgHeader {
        magic: [0x72, 0x56],
        version: 1,
        scale: 0,
        color_encoding,
        coordinate_range: CoordinateRange::Default,
        width: 0,
        height: 0,
        color_count,
    }
}

fn parse(
    color_encoding: ColorEncoding,
    color_count: u64,
    bytes: &[u8],
) -> Result<(Vec<Color>, usize), TinyVgParseError> {
    let mut cursor = ByteCursor::new(bytes);
    let colors = parse_color_table(&mut cursor, &header(color_encoding, color_count))?;
    Ok((colors, cursor.position))
}

fn intensities(color: Color) -> (f32, f32, f32, f32) {
    match color {
        Color::Rgba8888 { red, green, blue, alpha } => (
            red as f32 / 255.0,
            green as f32 / 255.0,
            blue as f32 / 255.0,
            alpha as f32 / 255.0,
        ),
        Color::Rgb565 { red, green, blue } => {
            (red as f32 / 31.0, green as f32 / 63.0, blue as f32 / 31.0, 1.0)
        }
        Color::RgbaF32 { red_bits, green_bits, blue_bits, alpha_bits } => (
            f32::from_bits(red_bits),
            f32::from_bits(green_bits),
            f32::from_bits(blue_bits),
            f32::from_bits(alpha_bits),
        ),
    }
}

fn from_intensities(red: f32, green: f32, blue: f32, alpha: f32) -> Color {
    Color::RgbaF32 {
        red_bits: red.to_bits(),
        green_bits: green.to_bits(),
        blue_bits: blue.to_bits(),
        alpha_bits: alpha.to_bits(),
    }
}

#[test]
fn rgb565_green_at_its_largest() {
    let (colors, consumed) = parse(ColorEncoding::Rgb565, 1, &[0xE0, 0x07]).unwrap();
    assert_eq!(consumed, 2);
    assert_eq!(colors, vec![Color::Rgb565 { red: 0, green: 63, blue: 0 }]);
    let (red, green, blue, alpha) = intensities(colors[0]);
    assert!((red - 0.0).abs() < 1e-6);
    assert!((green - 1.0).abs() < 1e-6);
    assert!((blue - 0.0).abs() < 1e-6);
    assert!((alpha - 1.0).abs() < 1e-6);
}

#[test]
fn rgb565_channels_lie_in_their_bits() {
    let (colors, _) =
        parse(ColorEncoding::Rgb565, 4, &[0x1F, 0x00, 0x00, 0xF8, 0xFF, 0xFF, 0x41, 0x08])
            .unwrap();
    assert_eq!(
        colors,
        vec![
            Color::Rgb565 { red: 31, green: 0, blue: 0 },
            Color::Rgb565 { red: 0, green: 0, blue: 31 },
            Color::Rgb565 { red: 31, green: 63, blue: 31 },
            Color::Rgb565 { red: 1, green: 2, blue: 1 },
        ]
    );
}

#[test]
fn rgba8888_half_transparent_red() {
    let (colors, consumed) = parse(ColorEncoding::Rgba8888, 1, &[255, 0, 0, 128]).unwrap();
    assert_eq!(consumed, 4);
    assert_eq!(colors, vec![Color::Rgba8888 { red: 255, green: 0, blue: 0, alpha: 128 }]);
    assert_eq!(intensities(colors[0]), (1.0, 0.0, 0.0, 128.0 / 255.0));
}

#[test]
fn rgba8888_keeps_the_order_of_the_table() {
    let (colors, consumed) =
        parse(ColorEncoding::Rgba8888, 2, &[1, 2, 3, 4, 5, 6, 7, 8, 9]).unwrap();
    assert_eq!(consumed, 8);
    assert_eq!(
        colors,
        vec![
            Color::Rgba8888 { red: 1, green: 2, blue: 3, alpha: 4 },
            Color::Rgba8888 { red: 5, green: 6, blue: 7, alpha: 8 },
        ]
    );
}

#[test]
fn rgbaf32_is_taken_as_it_is() {
    let mut bytes = Vec::new();
    for value in [1.0f32, 0.5, 0.25, 0.0] {
        bytes.extend_from_slice(&value.to_le_bytes());
    }
    assert_eq!(&bytes[0..4], &[0x00, 0x00, 0x80, 0x3F]);
    let (colors, consumed) = parse(ColorEncoding::RgbaF32, 1, &bytes).unwrap();
    assert_eq!(consumed, 16);
    assert_eq!(colors, vec![from_intensities(1.0, 0.5, 0.25, 0.0)]);
    assert_eq!(intensities(colors[0]), (1.0, 0.5, 0.25, 0.0));
    assert_eq!(
        colors[0],
        Color::RgbaF32 {
            red_bits: 0x3F80_0000,
            green_bits: 0x3F00_0000,
            blue_bits: 0x3E80_0000,
            alpha_bits: 0
        }
    );
}

#[test]
fn empty_table_reads_nothing() {
    for encoding in [
        ColorEncoding::Rgba8888,
        ColorEncoding::Rgb565,
        ColorEncoding::RgbaF32,
        ColorEncoding::Custom,
    ] {
        assert_eq!(parse(encoding, 0, &[0xAA, 0xBB]), Ok((vec![], 0)));
    }
}

#[test]
fn custom_encoding_with_a_color_fails() {
    assert_eq!(
        parse(ColorEncoding::Custom, 1, &[0; 32]),
        Err(TinyVgParseError::InvalidColorTable)
    );
}

#[test]
fn table_fails_where_data_ends() {
    assert_eq!(
        parse(ColorEncoding::Rgba8888, 2, &[1, 2, 3, 4, 5, 6, 7]),
        Err(TinyVgParseError::InvalidColorTable)
    );
    assert_eq!(
        parse(ColorEncoding::Rgb565, 1, &[1]),
        Err(TinyVgParseError::InvalidColorTable)
    );
    assert_eq!(
        parse(ColorEncoding::RgbaF32, 1, &[0; 15]),
        Err(TinyVgParseError::InvalidColorTable)
    );
    assert_eq!(
        parse(ColorEncoding::Rgba8888, u64::MAX, &[0; 64]),
        Err(TinyVgParseError::InvalidColorTable)
    );
    let bytes = [1u8, 2, 3, 4, 5, 6, 7];
    let mut cursor = ByteCursor::new(&bytes);
    assert!(parse_color_table(&mut cursor, &header(ColorEncoding::Rgba8888, 2)).is_err());
    assert_eq!(cursor.position, 0);
}

#[test]
fn write_color_table_writes_four_numbers_for_each_color() {
    let colors = [from_intensities(1.0, 0.0, 0.5, 1.0), from_intensities(0.0, 0.0, 0.0, 0.25)];
    let mut out = vec![0xEE];
    write_color_table(&mut out, &header(ColorEncoding::RgbaF32, 2), &colors).unwrap();
    let mut expected = vec![0xEE];
    for value in [1.0f32, 0.0, 0.5, 1.0, 0.0, 0.0, 0.0, 0.25] {
        expected.extend_from_slice(&value.to_le_bytes());
    }
    assert_eq!(out, expected);
    assert_eq!(&out[1..5], &[0x00, 0x00, 0x80, 0x3F]);
}

#[test]
fn write_color_table_refuses_other_encodings() {
    let colors = [from_intensities(1.0, 0.0, 0.5, 1.0)];
    for encoding in [ColorEncoding::Rgba8888, ColorEncoding::Rgb565, ColorEncoding::Custom] {
        let mut out = Vec::new();
        assert_eq!(
            write_color_table(&mut out, &header(encoding, 1), &colors),
            Err(TinyVgParseError::InvalidColorTable)
        );
        assert!(out.is_empty());
    }
    let mut out = Vec::new();
    assert_eq!(
        write_color_table(&mut out, &header(ColorEncoding::Rgba8888, 0), &[]),
        Err(TinyVgParseError::InvalidColorTable)
    );
}

#[test]
fn write_color_table_refuses_colors_of_another_form() {
    let colors = [
        from_intensities(1.0, 0.0, 0.5, 1.0),
        Color::Rgba8888 { red: 1, green: 2, blue: 3, alpha: 4 },
    ];
    let mut out = vec![0x44];
    assert_eq!(
        write_color_table(&mut out, &header(ColorEncoding::RgbaF32, 2), &colors),
        Err(TinyVgParseError::InvalidColorTable)
    );
    assert_eq!(out, vec![0x44]);
    let colors = [Color::Rgb565 { red: 1, green: 2, blue: 3 }];
    let mut out = Vec::new();
    assert_eq!(
        write_color_table(&mut out, &header(ColorEncoding::RgbaF32, 1), &colors),
        Err(TinyVgParseError::InvalidColorTable)
    );
}

#[test]
fn color_table_round_trips() {
    let colors = vec![
        from_intensities(1.0, 0.0, 0.5, 1.0),
        from_intensities(0.1, 0.2, 0.3, 0.4),
        from_intensities(f32::MIN_POSITIVE, -0.0, 2.0, f32::INFINITY),
    ];
    let mut out = Vec::new();
    write_color_table(&mut out, &header(ColorEncoding::RgbaF32, 3), &colors).unwrap();
    assert_eq!(out.len(), 48);
    assert_eq!(parse(ColorEncoding::RgbaF32, 3, &out), Ok((colors, 48)));
}

#[test]
fn set_color_adds_a_new_color_at_the_end() {
    let mut table = Vec::new();
    assert_eq!(set_color(&mut table, from_intensities(1.0, 0.0, 0.0, 1.0)), 0);
    assert_eq!(set_color(&mut table, from_intensities(0.0, 1.0, 0.0, 1.0)), 1);
    assert_eq!(set_color(&mut table, from_intensities(0.0, 0.0, 1.0, 1.0)), 2);
    assert_eq!(
        table,
        vec![
            from_intensities(1.0, 0.0, 0.0, 1.0),
            from_intensities(0.0, 1.0, 0.0, 1.0),
            from_intensities(0.0, 0.0, 1.0, 1.0),
        ]
    );
}

#[test]
fn set_color_gives_equal_colors_one_index() {
    let mut table = Vec::new();
    let red = from_intensities(1.0, 0.0, 0.0, 1.0);
    let green = from_intensities(0.0, 1.0, 0.0, 1.0);
    assert_eq!(set_color(&mut table, red), 0);
    assert_eq!(set_color(&mut table, green), 1);
    assert_eq!(set_color(&mut table, red), 0);
    assert_eq!(set_color(&mut table, green), 1);
    assert_eq!(table.len(), 2);
    let half = from_intensities(1.0, 0.0, 0.0, 0.5);
    assert_eq!(set_color(&mut table, half), 2);
    assert_eq!(table.len(), 3);
}

#[test]
fn set_color_finds_the_first_of_equal_entries() {
    let red = from_intensities(1.0, 0.0, 0.0, 1.0);
    let blue = from_intensities(0.0, 0.0, 1.0, 1.0);
    let mut table = vec![blue, red, red];
    assert_eq!(set_color(&mut table, red), 1);
    assert_eq!(table, vec![blue, red, red]);
}
