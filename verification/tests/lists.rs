use tinyvg::commands::{Line, Point, Rectangle};
use tinyvg::common::Unit;
use tinyvg::cursor::ByteCursor;
use tinyvg::geometry::{
    read_glyphs, read_lines, read_offsets, read_points, read_rectangles, write_glyphs,
    write_lines, write_offsets, write_points, write_rectangles,
};
use tinyvg::header::{ColorEncoding, CoordinateRange, TinyVgHeader};
use tinyvg::text::{read_text, write_text};
use tinyvg::TinyVgParseError;

fn header(coordinate_range: CoordinateRange) -> TinyVgHeader {
    TinyVgHeader {
        magic: [0x72, 0x56],
        version: 1,
        scale: 0,
        color_encoding: ColorEncoding::RgbaF32,
        coordinate_range,
        width: 0,
        height: 0,
        color_count: 0,
    }
}

fn point(x: i64, y: i64) -> Point {
    Point::new(Unit(x), Unit(y))
}

#[test]
fn points_are_read_in_order() {
    let bytes = [1, 2, 3, 4, 5, 6, 7];
    let mut cursor = ByteCursor::new(&bytes);
    assert_eq!(
        read_points(&header(CoordinateRange::Reduced), &mut cursor, 3),
        Ok(vec![point(1, 2), point(3, 4), point(5, 6)])
    );
    assert_eq!(cursor.position, 6);
    let mut cursor = ByteCursor::new(&bytes);
    assert_eq!(read_points(&header(CoordinateRange::Reduced), &mut cursor, 0), Ok(vec![]));
    assert_eq!(cursor.position, 0);
    assert_eq!(
        read_points(&header(CoordinateRange::Reduced), &mut cursor, 4),
        Err(TinyVgParseError::InvalidCommand)
    );
    assert_eq!(cursor.position, 0);
    assert_eq!(
        read_points(&header(CoordinateRange::Default), &mut cursor, 1),
        Ok(vec![point(0x0201, 0x0403)])
    );
    assert_eq!(cursor.position, 4);
}

#[test]
fn points_are_written_in_order() {
    let mut out = Vec::new();
    write_points(&mut out, &header(CoordinateRange::Reduced), &vec![point(1, 2), point(-1, -2)])
        .unwrap();
    assert_eq!(out, vec![1, 2, 0xFF, 0xFE]);
    let mut out = Vec::new();
    assert_eq!(
        write_points(
            &mut out,
            &header(CoordinateRange::Reduced),
            &vec![point(1, 2), point(0, 128)]
        ),
        Err(TinyVgParseError::InvalidCommand)
    );
    assert!(out.is_empty());
    assert_eq!(write_points(&mut out, &header(CoordinateRange::Reduced), &vec![]), Ok(()));
}

#[test]
fn rectangles_are_x_y_width_height() {
    let bytes = [1, 2, 3, 4, 5, 6, 7, 8];
    let mut cursor = ByteCursor::new(&bytes);
    let expected = vec![
        Rectangle { x: Unit(1), y: Unit(2), width: Unit(3), height: Unit(4) },
        Rectangle { x: Unit(5), y: Unit(6), width: Unit(7), height: Unit(8) },
    ];
    assert_eq!(
        read_rectangles(&header(CoordinateRange::Reduced), &mut cursor, 2),
        Ok(expected.clone())
    );
    assert_eq!(cursor.position, 8);
    let mut out = Vec::new();
    write_rectangles(&mut out, &header(CoordinateRange::Reduced), &expected).unwrap();
    assert_eq!(out, bytes.to_vec());
    let mut cursor = ByteCursor::new(&bytes[..7]);
    assert_eq!(
        read_rectangles(&header(CoordinateRange::Reduced), &mut cursor, 2),
        Err(TinyVgParseError::InvalidCommand)
    );
    assert_eq!(
        Rectangle::read_rectangle(&header(CoordinateRange::Reduced), &mut cursor),
        Ok(expected[0])
    );
}

#[test]
fn lines_are_start_then_end() {
    let bytes = [1, 2, 3, 4, 5, 6, 7, 8];
    let mut cursor = ByteCursor::new(&bytes);
    let expected = vec![
        Line { start: point(1, 2), end: point(3, 4) },
        Line { start: point(5, 6), end: point(7, 8) },
    ];
    assert_eq!(read_lines(&header(CoordinateRange::Reduced), &mut cursor, 2), Ok(expected.clone()));
    let mut out = Vec::new();
    write_lines(&mut out, &header(CoordinateRange::Reduced), &expected).unwrap();
    assert_eq!(out, bytes.to_vec());
    let mut cursor = ByteCursor::new(&bytes[..3]);
    assert_eq!(
        Line::read_line(&header(CoordinateRange::Reduced), &mut cursor),
        Err(TinyVgParseError::InvalidCommand)
    );
    assert_eq!(cursor.position, 0);
}

#[test]
fn glyph_offsets_are_start_then_end() {
    let bytes = [1, 0, 2, 0, 3, 0, 0xFC, 0xFF];
    let mut cursor = ByteCursor::new(&bytes);
    let expected = vec![(Unit(1), Unit(2)), (Unit(3), Unit(-4))];
    assert_eq!(
        read_glyphs(&header(CoordinateRange::Default), &mut cursor, 2),
        Ok(expected.clone())
    );
    assert_eq!(cursor.position, 8);
    let mut out = Vec::new();
    write_glyphs(&mut out, &header(CoordinateRange::Default), &expected).unwrap();
    assert_eq!(out, bytes.to_vec());
    let mut cursor = ByteCursor::new(&bytes[..4]);
    assert_eq!(
        read_offsets(&header(CoordinateRange::Default), &mut cursor),
        Ok((Unit(1), Unit(2)))
    );
    let mut out = Vec::new();
    assert_eq!(
        write_offsets(&(Unit(0), Unit(40000)), &header(CoordinateRange::Default), &mut out),
        Err(TinyVgParseError::InvalidCommand)
    );
}

#[test]
fn text_is_its_length_then_utf8() {
    let mut out = Vec::new();
    write_text(&mut out, &"gr\u{fc}n".to_string()).unwrap();
    assert_eq!(out, vec![5, b'g', b'r', 0xC3, 0xBC, b'n']);
    out.push(b'!');
    let mut cursor = ByteCursor::new(&out);
    assert_eq!(read_text(&mut cursor), Ok("gr\u{fc}n".to_string()));
    assert_eq!(cursor.position, 6);
}

#[test]
fn text_of_128_bytes_has_a_length_of_two_bytes() {
    let text: String = "x".repeat(128);
    let mut out = Vec::new();
    write_text(&mut out, &text).unwrap();
    assert_eq!(out.len(), 130);
    assert_eq!(&out[..2], &[0x80, 0x01]);
    let mut cursor = ByteCursor::new(&out);
    assert_eq!(read_text(&mut cursor), Ok(text));
}

#[test]
fn text_fails_without_moving_the_cursor() {
    for bytes in [vec![], vec![3, b'a', b'b'], vec![2, 0xC3, 0x28], vec![1, 0xFF], vec![0x80]] {
        let mut cursor = ByteCursor::new(&bytes);
        assert_eq!(read_text(&mut cursor), Err(TinyVgParseError::InvalidCommand), "{:?}", bytes);
        assert_eq!(cursor.position, 0);
    }
}

#[test]
fn text_refuses_surrogates_and_overlong_forms() {
    for text in [
        vec![0xED, 0xA0, 0x80],
        vec![0xC0, 0xAF],
        vec![0xE0, 0x80, 0xAF],
        vec![0xF4, 0x90, 0x80, 0x80],
        vec![0xF8, 0x88, 0x80, 0x80, 0x80],
    ] {
        let mut bytes = vec![text.len() as u8];
        bytes.extend_from_slice(&text);
        let mut cursor = ByteCursor::new(&bytes);
        assert_eq!(read_text(&mut cursor), Err(TinyVgParseError::InvalidCommand), "{:?}", text);
    }
}
