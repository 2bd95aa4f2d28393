use tinyvg::commands::{
    CommandType, FlatColored, LinearGradient, PathCommandType, Point, RadialGradient, Style,
    StyleType,
};
use tinyvg::common::{read_count, read_number, write_count, Unit};
use tinyvg::cursor::ByteCursor;
use tinyvg::geometry::write_point;
use tinyvg::header::{ColorEncoding, CoordinateRange, TinyVgHeader};
use tinyvg::style::{pack_with_style, write_command_and_primary_style, write_style};
use tinyvg::TinyVgParseError;

fn header(coordinate_range: CoordinateRange) -> TinyVgHeader {
    TinyVgHeader {
        magic: [0x72, 0x56],
        version: 1,
        scale: 0,
        color_encoding: ColorEncoding::RgbaF32,
        coordinate_range,
        width: 0,
        height: 0,
        color_count: 0,
    }
}

fn point(x: i64, y: i64) -> Point {
    Point::new(Unit(x), Unit(y))
}

#[test]
fn style_type_from_u8() {
    assert_eq!(StyleType::from_u8(0), Ok(StyleType::Flat));
    assert_eq!(StyleType::from_u8(1), Ok(StyleType::Linear));
    assert_eq!(StyleType::from_u8(2), Ok(StyleType::Radial));
    assert_eq!(StyleType::from_u8(3), Err(TinyVgParseError::InvalidCommand));
    assert_eq!(StyleType::from_u8(64), Err(TinyVgParseError::InvalidCommand));
}

#[test]
fn style_type_to_u8_undoes_from_u8() {
    for value in 0u8..3 {
        assert_eq!(StyleType::from_u8(value).unwrap().to_u8(), value);
    }
}

#[test]
fn style_type_of_a_style() {
    let flat = Style::FlatColor(FlatColored { color_index: 1 });
    let linear = Style::LinearGradient(LinearGradient {
        point_0: point(0, 0),
        point_1: point(1, 1),
        color_index_0: 0,
        color_index_1: 1,
    });
    let radial = Style::RadialGradient(RadialGradient {
        point_0: point(0, 0),
        point_1: point(1, 1),
        color_index_0: 0,
        color_index_1: 1,
    });
    assert_eq!(StyleType::from_style(&flat), StyleType::Flat);
    assert_eq!(StyleType::from_style(&linear), StyleType::Linear);
    assert_eq!(StyleType::from_style(&radial), StyleType::Radial);
}

#[test]
fn command_type_from_u8() {
    let kinds = [
        CommandType::EndOfDocument,
        CommandType::FillPolygon,
        CommandType::FillRectangles,
        CommandType::FillPath,
        CommandType::DrawLines,
        CommandType::DrawLineLoop,
        CommandType::DrawLineStrip,
        CommandType::DrawLinePath,
        CommandType::OutlineFillPolygon,
        CommandType::OutlineFillRectangles,
        CommandType::OutlineFillPath,
        CommandType::TextHint,
    ];
    for (value, kind) in kinds.iter().enumerate() {
        assert_eq!(CommandType::from_u8(value as u8), Ok(*kind));
        assert_eq!(kind.to_u8(), value as u8);
    }
    for value in 12u8..=255 {
        assert_eq!(CommandType::from_u8(value), Err(TinyVgParseError::InvalidCommand));
    }
}

#[test]
fn path_command_type_from_u8() {
    let kinds = [
        PathCommandType::Line,
        PathCommandType::HorizontalLine,
        PathCommandType::VerticalLine,
        PathCommandType::CubicBezier,
        PathCommandType::ArcCircle,
        PathCommandType::ArcEllipse,
        PathCommandType::ClosePath,
        PathCommandType::QuadraticBezier,
    ];
    for (value, kind) in kinds.iter().enumerate() {
        assert_eq!(PathCommandType::from_u8(value as u8), Ok(*kind));
        assert_eq!(kind.to_u8(), value as u8);
    }
    assert_eq!(PathCommandType::from_u8(8), Err(TinyVgParseError::InvalidCommand));
}

#[test]
fn flat_style_reads_one_color_index() {
    let bytes = [0x05, 0x06];
    let mut cursor = ByteCursor::new(&bytes);
    assert_eq!(FlatColored::read_from_cursor(&mut cursor), Ok(FlatColored { color_index: 5 }));
    assert_eq!(cursor.position, 1);
    let bytes = [0x80, 0x01];
    let mut cursor = ByteCursor::new(&bytes);
    assert_eq!(FlatColored::read_from_cursor(&mut cursor), Ok(FlatColored { color_index: 128 }));
    assert_eq!(cursor.position, 2);
}

#[test]
fn flat_style_fails_as_a_command_where_data_ends() {
    let bytes = [0x80];
    let mut cursor = ByteCursor::new(&bytes);
    assert_eq!(
        FlatColored::read_from_cursor(&mut cursor),
        Err(TinyVgParseError::InvalidCommand)
    );
    assert_eq!(cursor.position, 0);
}

#[test]
fn linear_gradient_reads_two_points_and_two_indices() {
    let bytes = [0x01, 0x00, 0x02, 0x00, 0xFD, 0xFF, 0x04, 0x00, 0x07, 0x80, 0x01, 0x99];
    let mut cursor = ByteCursor::new(&bytes);
    assert_eq!(
        LinearGradient::read_from_cursor(&header(CoordinateRange::Default), &mut cursor),
        Ok(LinearGradient {
            point_0: point(1, 2),
            point_1: point(-3, 4),
            color_index_0: 7,
            color_index_1: 128
        })
    );
    assert_eq!(cursor.position, 11);
}

#[test]
fn radial_gradient_reads_two_points_and_two_indices() {
    let bytes = [0x01, 0x02, 0x03, 0x04, 0x00, 0x01];
    let mut cursor = ByteCursor::new(&bytes);
    assert_eq!(
        RadialGradient::read_from_cursor(&header(CoordinateRange::Reduced), &mut cursor),
        Ok(RadialGradient {
            point_0: point(1, 2),
            point_1: point(3, 4),
            color_index_0: 0,
            color_index_1: 1
        })
    );
    assert_eq!(cursor.position, 6);
}

#[test]
fn gradient_fails_where_data_ends() {
    let bytes = [0x01, 0x02, 0x03, 0x04, 0x00];
    let mut cursor = ByteCursor::new(&bytes);
    assert_eq!(
        RadialGradient::read_from_cursor(&header(CoordinateRange::Reduced), &mut cursor),
        Err(TinyVgParseError::InvalidCommand)
    );
    assert_eq!(cursor.position, 0);
    let mut cursor = ByteCursor::new(&bytes[..3]);
    assert_eq!(
        LinearGradient::read_from_cursor(&header(CoordinateRange::Reduced), &mut cursor),
        Err(TinyVgParseError::InvalidCommand)
    );
}

#[test]
fn style_is_read_by_its_kind() {
    let bytes = [0x01, 0x02, 0x03, 0x04, 0x05, 0x06];
    let reduced = header(CoordinateRange::Reduced);
    let mut cursor = ByteCursor::new(&bytes);
    assert_eq!(
        Style::read_cursor_using_style_type(&reduced, &mut cursor, &StyleType::Flat),
        Ok(Style::FlatColor(FlatColored { color_index: 1 }))
    );
    assert_eq!(cursor.position, 1);
    let mut cursor = ByteCursor::new(&bytes);
    assert_eq!(
        Style::read_cursor_using_style_type(&reduced, &mut cursor, &StyleType::Linear),
        Ok(Style::LinearGradient(LinearGradient {
            point_0: point(1, 2),
            point_1: point(3, 4),
            color_index_0: 5,
            color_index_1: 6
        }))
    );
    let mut cursor = ByteCursor::new(&bytes);
    assert_eq!(
        Style::read_cursor_using_style_type(&reduced, &mut cursor, &StyleType::Radial),
        Ok(Style::RadialGradient(RadialGradient {
            point_0: point(1, 2),
            point_1: point(3, 4),
            color_index_0: 5,
            color_index_1: 6
        }))
    );
    assert_eq!(cursor.position, 6);
}

#[test]
fn write_style_writes_what_its_kind_holds() {
    let default = header(CoordinateRange::Default);
    let mut out = Vec::new();
    write_style(&mut out, &default, &Style::FlatColor(FlatColored { color_index: 300 })).unwrap();
    assert_eq!(out, vec![0xAC, 0x02]);

    let gradient = LinearGradient {
        point_0: point(1, 2),
        point_1: point(-3, 4),
        color_index_0: 7,
        color_index_1: 128,
    };
    let mut out = Vec::new();
    write_style(&mut out, &default, &Style::LinearGradient(gradient)).unwrap();
    assert_eq!(out, vec![0x01, 0x00, 0x02, 0x00, 0xFD, 0xFF, 0x04, 0x00, 0x07, 0x80, 0x01]);

    let gradient = RadialGradient {
        point_0: point(1, 2),
        point_1: point(3, 4),
        color_index_0: 0,
        color_index_1: 1,
    };
    let mut out = Vec::new();
    write_style(&mut out, &header(CoordinateRange::Reduced), &Style::RadialGradient(gradient))
        .unwrap();
    assert_eq!(out, vec![0x01, 0x02, 0x03, 0x04, 0x00, 0x01]);
}

#[test]
fn write_style_refuses_points_out_of_range() {
    let gradient = LinearGradient {
        point_0: point(1, 2),
        point_1: point(3, 200),
        color_index_0: 0,
        color_index_1: 1,
    };
    let mut out = vec![0x55];
    assert_eq!(
        write_style(&mut out, &header(CoordinateRange::Reduced), &Style::LinearGradient(gradient)),
        Err(TinyVgParseError::InvalidCommand)
    );
    assert_eq!(out, vec![0x55]);
}

#[test]
fn command_and_style_share_the_tag_byte() {
    let mut out = Vec::new();
    write_command_and_primary_style(&mut out, CommandType::FillPath, StyleType::Linear).unwrap();
    write_command_and_primary_style(&mut out, CommandType::TextHint, StyleType::Flat).unwrap();
    write_command_and_primary_style(&mut out, CommandType::OutlineFillPath, StyleType::Radial)
        .unwrap();
    write_command_and_primary_style(&mut out, CommandType::EndOfDocument, StyleType::Flat)
        .unwrap();
    assert_eq!(out, vec![0x43, 0x0B, 0x8A, 0x00]);
}

#[test]
fn pack_with_style_puts_the_kind_in_the_top_bits() {
    assert_eq!(pack_with_style(0, StyleType::Flat), 0x00);
    assert_eq!(pack_with_style(63, StyleType::Flat), 0x3F);
    assert_eq!(pack_with_style(0, StyleType::Linear), 0x40);
    assert_eq!(pack_with_style(2, StyleType::Linear), 0x42);
    assert_eq!(pack_with_style(63, StyleType::Radial), 0xBF);
    assert_eq!(pack_with_style(64, StyleType::Radial), 0x80);
    assert_eq!(pack_with_style(0xFF, StyleType::Flat), 0x3F);
}

#[test]
fn counts_are_stored_less_one() {
    let mut out = Vec::new();
    write_count(&mut out, 1).unwrap();
    write_count(&mut out, 128).unwrap();
    write_count(&mut out, 129).unwrap();
    assert_eq!(out, vec![0x00, 0x7F, 0x80, 0x01]);
    let mut cursor = ByteCursor::new(&out);
    assert_eq!(read_count(&mut cursor), Ok(1));
    assert_eq!(read_count(&mut cursor), Ok(128));
    assert_eq!(read_count(&mut cursor), Ok(129));
    assert_eq!(read_count(&mut cursor), Err(TinyVgParseError::InvalidCommand));
}

#[test]
fn count_of_zero_cannot_be_written() {
    let mut out = Vec::new();
    assert_eq!(write_count(&mut out, 0), Err(TinyVgParseError::InvalidCommand));
    assert!(out.is_empty());
}

#[test]
fn count_beyond_64_bits_is_refused() {
    let bytes = [0xFF, 0xFF, 0xFF, 0xFF, 0xFF, 0xFF, 0xFF, 0xFF, 0xFF, 0x01];
    let mut cursor = ByteCursor::new(&bytes);
    assert_eq!(read_number(&mut cursor), Ok(u64::MAX));
    let mut cursor = ByteCursor::new(&bytes);
    assert_eq!(read_count(&mut cursor), Err(TinyVgParseError::InvalidCommand));
    assert_eq!(cursor.position, 0);
    let bytes = [0xFE, 0xFF, 0xFF, 0xFF, 0xFF, 0xFF, 0xFF, 0xFF, 0xFF, 0x01];
    let mut cursor = ByteCursor::new(&bytes);
    assert_eq!(read_count(&mut cursor), Ok(u64::MAX));
}

#[test]
fn point_is_x_then_y() {
    let mut out = Vec::new();
    write_point(&point(1, -2), &header(CoordinateRange::Default), &mut out).unwrap();
    assert_eq!(out, vec![0x01, 0x00, 0xFE, 0xFF]);
    let mut cursor = ByteCursor::new(&out);
    assert_eq!(
        Point::read_point(&header(CoordinateRange::Default), &mut cursor),
        Ok(point(1, -2))
    );
    assert_eq!(cursor.position, 4);
}

#[test]
fn point_moves_to_the_given_point() {
    assert_eq!(point(1, 2).move_to(&point(7, -9)), point(7, -9));
}
