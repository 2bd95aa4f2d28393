use tinyvg::commands::{
    ArcCircle, ArcEllipse, CubicBezier, DrawCommand, DrawLineLoopData, DrawLinePathData,
    DrawLineStripData, DrawLinesData, FillPathData, FillPolygonData, FillRectanglesData,
    FlatColored, Line, LinearGradient, OutlineFillPathData, OutlineFillPolygonData,
    OutlineFillRectanglesData, Path, PathCommand, Point, QuadraticBezier, RadialGradient,
    Rectangle, Segment, Style, TextHintData,
};
use tinyvg::common::Unit;
use tinyvg::cursor::ByteCursor;
use tinyvg::header::{ColorEncoding, CoordinateRange, TinyVgHeader};
use tinyvg::stream::{parse_draw_commands, write_draw_commands, write_end};
use tinyvg::TinyVgParseError;

fn header(coordinate_range: CoordinateRange) -> TinyVgHeader {
    TinyVgHeader {
        magic: [0x72, 0x56],
        version: 1,
        scale: 0,
        color_encoding: ColorEncoding::RgbaF32,
        coordinate_range,
        width: 0,
        height: 0,
        color_count: 0,
    }
}

fn reduced() -> TinyVgHeader {
    header(CoordinateRange::Reduced)
}

fn point(x: i64, y: i64) -> Point {
    Point::new(Unit(x), Unit(y))
}

fn rectangle(x: i64, y: i64, width: i64, height: i64) -> Rectangle {
    Rectangle { x: Unit(x), y: Unit(y), width: Unit(width), height: Unit(height) }
}

fn flat(color_index: u64) -> Style {
    Style::FlatColor(FlatColored { color_index })
}

fn linear() -> Style {
    Style::LinearGradient(LinearGradient {
        point_0: point(1, 2),
        point_1: point(3, 4),
        color_index_0: 5,
        color_index_1: 6,
    })
}

fn radial() -> Style {
    Style::RadialGradient(RadialGradient {
        point_0: point(7, 8),
        point_1: point(9, 10),
        color_index_0: 11,
        color_index_1: 12,
    })
}

fn small_path() -> Path {
    Path {
        segments: vec![Segment {
            start: point(1, 1),
            path_commands: vec![PathCommand::Line(point(2, 2), None)],
        }],
    }
}

fn path_of(segment_count: usize) -> Path {
    Path {
        segments: (0..segment_count)
            .map(|i| Segment {
                start: point(i as i64, 0),
                path_commands: vec![PathCommand::ClosePath],
            })
            .collect(),
    }
}

fn read_one(bytes: &[u8]) -> Result<(DrawCommand, usize), TinyVgParseError> {
    let mut cursor = ByteCursor::new(bytes);
    let command = DrawCommand::read(&reduced(), &mut cursor)?;
    Ok((command, cursor.position))
}

fn written(command: &DrawCommand) -> Result<Vec<u8>, TinyVgParseError> {
    let mut out = Vec::new();
    command.write(&reduced(), &mut out)?;
    Ok(out)
}

fn stream(bytes: &[u8]) -> Result<(Vec<DrawCommand>, usize), TinyVgParseError> {
    let mut cursor = ByteCursor::new(bytes);
    let commands = parse_draw_commands(&mut cursor, &reduced())?;
    Ok((commands, cursor.position))
}

fn check(command: DrawCommand, bytes: Vec<u8>) {
    assert_eq!(written(&command), Ok(bytes.clone()));
    assert_eq!(read_one(&bytes), Ok((command, bytes.len())));
    for length in 0..bytes.len() {
        assert_eq!(
            read_one(&bytes[..length]),
            Err(TinyVgParseError::InvalidCommand),
            "length {}",
            length
        );
    }
}

#[test]
fn fill_polygon_bytes() {
    check(
        DrawCommand::FillPolygon(FillPolygonData {
            style: flat(2),
            points: vec![point(0, 0), point(10, 0), point(5, 8)],
        }),
        vec![0x01, 0x02, 0x02, 0, 0, 10, 0, 5, 8],
    );
}

#[test]
fn fill_polygon_with_gradient_bytes() {
    check(
        DrawCommand::FillPolygon(FillPolygonData { style: linear(), points: vec![point(-1, -2)] }),
        vec![0x41, 0x00, 1, 2, 3, 4, 5, 6, 0xFF, 0xFE],
    );
}

#[test]
fn fill_rectangles_bytes() {
    check(
        DrawCommand::FillRectangles(FillRectanglesData {
            style: radial(),
            rectangles: vec![rectangle(1, 2, 3, 4), rectangle(5, 6, 7, 8)],
        }),
        vec![0x82, 0x01, 7, 8, 9, 10, 11, 12, 1, 2, 3, 4, 5, 6, 7, 8],
    );
}

#[test]
fn fill_path_bytes() {
    check(
        DrawCommand::FillPath(FillPathData { style: flat(0), path: small_path() }),
        vec![0x03, 0x00, 0x00, 0x00, 1, 1, 0x00, 2, 2],
    );
}

#[test]
fn draw_lines_bytes() {
    check(
        DrawCommand::DrawLines(DrawLinesData {
            lines: vec![Line { start: point(1, 2), end: point(3, 4) }],
            line_width: Unit(2),
            line_style: flat(3),
        }),
        vec![0x04, 0x00, 0x03, 2, 1, 2, 3, 4],
    );
}

#[test]
fn draw_line_loop_bytes() {
    check(
        DrawCommand::DrawLineLoop(DrawLineLoopData {
            line_style: flat(0),
            line_width: Unit(1),
            points: vec![point(0, 0), point(1, 1)],
        }),
        vec![0x05, 0x01, 0x00, 1, 0, 0, 1, 1],
    );
}

#[test]
fn draw_line_strip_bytes() {
    check(
        DrawCommand::DrawLineStrip(DrawLineStripData {
            style: linear(),
            line_width: Unit(9),
            points: vec![point(0, 0), point(1, 1), point(2, 0)],
        }),
        vec![0x46, 0x02, 1, 2, 3, 4, 5, 6, 9, 0, 0, 1, 1, 2, 0],
    );
}

#[test]
fn draw_line_path_bytes() {
    check(
        DrawCommand::DrawLinePath(DrawLinePathData {
            style: flat(1),
            line_width: Unit(4),
            path: small_path(),
        }),
        vec![0x07, 0x00, 0x01, 4, 0x00, 1, 1, 0x00, 2, 2],
    );
}

#[test]
fn outline_fill_polygon_bytes() {
    check(
        DrawCommand::OutlineFillPolygon(OutlineFillPolygonData {
            fill_style: flat(1),
            line_style: flat(2),
            line_width: Unit(3),
            points: vec![point(0, 0), point(4, 0), point(2, 3)],
        }),
        vec![0x08, 0x02, 0x01, 0x02, 3, 0, 0, 4, 0, 2, 3],
    );
}

#[test]
fn outline_fill_rectangles_bytes() {
    check(
        DrawCommand::OutlineFillRectangles(OutlineFillRectanglesData {
            fill_style: linear(),
            line_style: radial(),
            line_width: Unit(1),
            rectangles: vec![rectangle(1, 2, 3, 4)],
        }),
        vec![0x49, 0x80, 1, 2, 3, 4, 5, 6, 7, 8, 9, 10, 11, 12, 1, 1, 2, 3, 4],
    );
}

#[test]
fn outline_fill_path_bytes() {
    check(
        DrawCommand::OutlineFillPath(OutlineFillPathData {
            path: small_path(),
            fill_style: radial(),
            line_style: flat(0),
            line_width: Unit(2),
        }),
        vec![0x8A, 0x00, 7, 8, 9, 10, 11, 12, 0x00, 2, 0x00, 1, 1, 0x00, 2, 2],
    );
}

#[test]
fn outline_fill_path_packs_line_style_with_segment_count() {
    let command = DrawCommand::OutlineFillPath(OutlineFillPathData {
        path: path_of(3),
        fill_style: flat(4),
        line_style: linear(),
        line_width: Unit(2),
    });
    let bytes = written(&command).unwrap();
    assert_eq!(bytes[0], 0x0A);
    assert_eq!(bytes[1] >> 6, 1);
    assert_eq!(bytes[1] & 0x3F, 3 - 1);
    assert_eq!(bytes[1], 0x42);
    assert_eq!(read_one(&bytes), Ok((command, bytes.len())));
}

#[test]
fn outline_fill_path_takes_1_to_64_segments() {
    for (segment_count, packed) in [(1usize, 0x80u8), (2, 0x81), (63, 0xBE), (64, 0xBF)] {
        let command = DrawCommand::OutlineFillPath(OutlineFillPathData {
            path: path_of(segment_count),
            fill_style: flat(0),
            line_style: radial(),
            line_width: Unit(2),
        });
        let bytes = written(&command).unwrap();
        assert_eq!(bytes[1], packed);
        assert_eq!(read_one(&bytes), Ok((command, bytes.len())));
    }
    for segment_count in [0usize, 65, 130] {
        let command = DrawCommand::OutlineFillPath(OutlineFillPathData {
            path: path_of(segment_count),
            fill_style: flat(0),
            line_style: radial(),
            line_width: Unit(2),
        });
        assert_eq!(written(&command), Err(TinyVgParseError::InvalidCommand));
    }
}

#[test]
fn outline_fill_polygon_takes_at_most_64_points() {
    let points: Vec<Point> = (0..65).map(|i| point(i, i)).collect();
    let command = DrawCommand::OutlineFillPolygon(OutlineFillPolygonData {
        fill_style: flat(1),
        line_style: flat(2),
        line_width: Unit(3),
        points: points.clone(),
    });
    assert_eq!(written(&command), Err(TinyVgParseError::InvalidCommand));
    let command = DrawCommand::OutlineFillPolygon(OutlineFillPolygonData {
        fill_style: flat(1),
        line_style: flat(2),
        line_width: Unit(3),
        points: points[..64].to_vec(),
    });
    let bytes = written(&command).unwrap();
    assert_eq!(bytes[1], 0x3F);
    assert_eq!(read_one(&bytes), Ok((command, bytes.len())));
}

#[test]
fn outlined_command_with_unassigned_line_style_fails() {
    assert_eq!(
        read_one(&[0x08, 0xC0, 0x01, 0x02, 3, 0, 0]),
        Err(TinyVgParseError::InvalidCommand)
    );
}

#[test]
fn fill_polygon_takes_more_than_64_points() {
    let points: Vec<Point> = (0..200).map(|i| point(i % 100, i / 100)).collect();
    let command = DrawCommand::FillPolygon(FillPolygonData { style: flat(2), points });
    let bytes = written(&command).unwrap();
    assert_eq!(&bytes[..4], &[0x01, 0xC7, 0x01, 0x02]);
    assert_eq!(read_one(&bytes), Ok((command, bytes.len())));
}

#[test]
fn empty_lists_cannot_be_written() {
    let commands = vec![
        DrawCommand::FillPolygon(FillPolygonData { style: flat(2), points: vec![] }),
        DrawCommand::FillRectangles(FillRectanglesData { style: flat(2), rectangles: vec![] }),
        DrawCommand::FillPath(FillPathData { style: flat(2), path: path_of(0) }),
        DrawCommand::DrawLines(DrawLinesData {
            lines: vec![],
            line_width: Unit(1),
            line_style: flat(1),
        }),
        DrawCommand::DrawLineLoop(DrawLineLoopData {
            line_style: flat(1),
            line_width: Unit(1),
            points: vec![],
        }),
        DrawCommand::DrawLineStrip(DrawLineStripData {
            style: flat(1),
            line_width: Unit(1),
            points: vec![],
        }),
        DrawCommand::DrawLinePath(DrawLinePathData {
            style: flat(1),
            line_width: Unit(1),
            path: path_of(0),
        }),
        DrawCommand::OutlineFillPolygon(OutlineFillPolygonData {
            fill_style: flat(1),
            line_style: flat(2),
            line_width: Unit(3),
            points: vec![],
        }),
        DrawCommand::OutlineFillRectangles(OutlineFillRectanglesData {
            fill_style: flat(1),
            line_style: flat(2),
            line_width: Unit(3),
            rectangles: vec![],
        }),
    ];
    for command in commands {
        assert_eq!(written(&command), Err(TinyVgParseError::InvalidCommand), "{:?}", command);
    }
}

#[test]
fn failed_write_leaves_the_buffer_as_it_was() {
    let commands = vec![
        DrawCommand::FillPolygon(FillPolygonData {
            style: linear(),
            points: vec![point(0, 0), point(1, 1), point(0, 128)],
        }),
        DrawCommand::DrawLinePath(DrawLinePathData {
            style: radial(),
            line_width: Unit(4),
            path: Path {
                segments: vec![
                    Segment {
                        start: point(1, 1),
                        path_commands: vec![PathCommand::Line(point(2, 2), None)],
                    },
                    Segment {
                        start: point(1, 1),
                        path_commands: vec![
                            PathCommand::ClosePath,
                            PathCommand::HorizontalLine(Unit(-500), None),
                        ],
                    },
                ],
            },
        }),
        DrawCommand::OutlineFillRectangles(OutlineFillRectanglesData {
            fill_style: flat(1),
            line_style: radial(),
            line_width: Unit(300),
            rectangles: vec![rectangle(1, 2, 3, 4)],
        }),
        DrawCommand::TextHint(TextHintData {
            center: point(1, 2),
            rotation: Unit(3),
            height: Unit(4),
            text: "text".to_string(),
            glyph_length: 2,
            glyph_offset: vec![(Unit(0), Unit(1)), (Unit(1), Unit(999))],
        }),
    ];
    for command in commands {
        let mut out = vec![0x11, 0x22, 0x33];
        assert_eq!(
            command.write(&reduced(), &mut out),
            Err(TinyVgParseError::InvalidCommand),
            "{:?}",
            command
        );
        assert_eq!(out, vec![0x11, 0x22, 0x33]);
    }
}

#[test]
fn values_out_of_range_cannot_be_written() {
    let commands = vec![
        DrawCommand::FillPolygon(FillPolygonData { style: flat(2), points: vec![point(0, 128)] }),
        DrawCommand::FillRectangles(FillRectanglesData {
            style: flat(2),
            rectangles: vec![rectangle(0, 0, 200, 1)],
        }),
        DrawCommand::DrawLines(DrawLinesData {
            lines: vec![Line { start: point(1, 2), end: point(3, 4) }],
            line_width: Unit(-200),
            line_style: flat(1),
        }),
        DrawCommand::DrawLineLoop(DrawLineLoopData {
            line_style: Style::LinearGradient(LinearGradient {
                point_0: point(1000, 2),
                point_1: point(3, 4),
                color_index_0: 5,
                color_index_1: 6,
            }),
            line_width: Unit(1),
            points: vec![point(0, 0)],
        }),
    ];
    for command in commands {
        assert_eq!(written(&command), Err(TinyVgParseError::InvalidCommand), "{:?}", command);
    }
}

fn text_hint(text: &str, glyphs: Vec<(i64, i64)>) -> TextHintData {
    TextHintData {
        center: point(1, 2),
        rotation: Unit(3),
        height: Unit(4),
        text: text.to_string(),
        glyph_length: glyphs.len() as u64,
        glyph_offset: glyphs.into_iter().map(|(start, end)| (Unit(start), Unit(end))).collect(),
    }
}

#[test]
fn text_hint_bytes() {
    check(
        DrawCommand::TextHint(text_hint("Hi", vec![(0, 5), (5, 9)])),
        vec![0x0B, 1, 2, 3, 4, 0x02, b'H', b'i', 0x02, 0, 5, 5, 9],
    );
}

#[test]
fn text_hint_text_is_utf8() {
    check(
        DrawCommand::TextHint(text_hint("h\u{e9}\u{20ac}\u{1F600}", vec![])),
        vec![
            0x0B, 1, 2, 3, 4, 0x0A, b'h', 0xC3, 0xA9, 0xE2, 0x82, 0xAC, 0xF0, 0x9F, 0x98, 0x80,
            0x00,
        ],
    );
}

#[test]
fn text_hint_without_text_or_glyphs() {
    check(DrawCommand::TextHint(text_hint("", vec![])), vec![0x0B, 1, 2, 3, 4, 0x00, 0x00]);
}

#[test]
fn text_hint_with_invalid_utf8_fails() {
    for text in [vec![0xFFu8], vec![0xC3], vec![0xE2, 0x82], vec![0x80], vec![0xC0, 0x80]] {
        let mut bytes = vec![0x0B, 1, 2, 3, 4, text.len() as u8];
        bytes.extend_from_slice(&text);
        bytes.push(0x00);
        assert_eq!(read_one(&bytes), Err(TinyVgParseError::InvalidCommand), "{:?}", text);
    }
}

#[test]
fn text_hint_with_text_longer_than_the_data_fails() {
    assert_eq!(
        read_one(&[0x0B, 1, 2, 3, 4, 0x05, b'H', b'i', 0x00]),
        Err(TinyVgParseError::InvalidCommand)
    );
    assert_eq!(
        read_one(&[0x0B, 1, 2, 3, 4, 0xFF, 0xFF, 0xFF, 0xFF, 0xFF, 0xFF, 0xFF, 0xFF, 0xFF, 0x01]),
        Err(TinyVgParseError::InvalidCommand)
    );
}

#[test]
fn text_hint_must_count_its_glyphs() {
    let mut data = text_hint("Hi", vec![(0, 5), (5, 9)]);
    data.glyph_length = 3;
    assert_eq!(
        written(&DrawCommand::TextHint(data)),
        Err(TinyVgParseError::InvalidCommand)
    );
}

#[test]
fn text_hint_ignores_the_style_bits_of_its_tag() {
    let expected = DrawCommand::TextHint(text_hint("", vec![]));
    assert_eq!(read_one(&[0x4B, 1, 2, 3, 4, 0x00, 0x00]), Ok((expected.clone(), 7)));
    assert_eq!(read_one(&[0x8B, 1, 2, 3, 4, 0x00, 0x00]), Ok((expected, 7)));
    assert_eq!(
        read_one(&[0xCB, 1, 2, 3, 4, 0x00, 0x00]),
        Err(TinyVgParseError::InvalidCommand)
    );
}

#[test]
fn tag_that_names_no_command_fails() {
    for tag in [12u8, 13, 63, 0x4C, 0xBF] {
        assert_eq!(read_one(&[tag, 0, 0, 0, 0, 0, 0, 0, 0]), Err(TinyVgParseError::InvalidCommand));
        assert_eq!(stream(&[tag, 0, 0, 0, 0, 0, 0, 0, 0]), Err(TinyVgParseError::InvalidCommand));
    }
}

#[test]
fn tag_that_names_no_style_fails() {
    assert_eq!(
        read_one(&[0xC1, 0x00, 0x02, 0, 0, 0x00]),
        Err(TinyVgParseError::InvalidCommand)
    );
    assert_eq!(
        stream(&[0xC1, 0x00, 0x02, 0, 0, 0x00]),
        Err(TinyVgParseError::InvalidCommand)
    );
}

#[test]
fn end_of_document_is_no_command() {
    assert_eq!(read_one(&[0x00, 0x00]), Err(TinyVgParseError::InvalidCommand));
}

#[test]
fn stream_of_only_the_end_is_empty() {
    assert_eq!(stream(&[0x00]), Ok((vec![], 1)));
    assert_eq!(stream(&[0x00, 0x01, 0x02]), Ok((vec![], 1)));
}

#[test]
fn stream_ends_at_a_tag_with_command_index_zero() {
    assert_eq!(stream(&[0x40, 0x01]), Ok((vec![], 1)));
    assert_eq!(stream(&[0xC0]), Ok((vec![], 1)));
}

#[test]
fn stream_without_end_fails() {
    assert_eq!(stream(&[]), Err(TinyVgParseError::InvalidCommand));
    let bytes = [0x01, 0x00, 0x02, 1, 1];
    assert_eq!(read_one(&bytes).map(|(_, consumed)| consumed), Ok(5));
    let mut cursor = ByteCursor::new(&bytes);
    assert_eq!(
        parse_draw_commands(&mut cursor, &reduced()),
        Err(TinyVgParseError::InvalidCommand)
    );
    assert_eq!(cursor.position, 0);
}

#[test]
fn stream_keeps_the_order_of_the_commands() {
    let commands = vec![
        DrawCommand::FillPolygon(FillPolygonData { style: flat(2), points: vec![point(1, 1)] }),
        DrawCommand::TextHint(text_hint("a", vec![(1, 2)])),
        DrawCommand::FillPolygon(FillPolygonData { style: flat(3), points: vec![point(2, 2)] }),
    ];
    let mut out = Vec::new();
    write_draw_commands(&mut out, &reduced(), &commands).unwrap();
    assert_eq!(
        out,
        vec![
            0x01, 0x00, 0x02, 1, 1, 0x0B, 1, 2, 3, 4, 0x01, b'a', 0x01, 1, 2, 0x01, 0x00, 0x03, 2,
            2
        ]
    );
    write_end(&mut out).unwrap();
    assert_eq!(out.len(), 21);
    assert_eq!(out[20], 0x00);
    out.push(0x01);
    assert_eq!(stream(&out), Ok((commands, 21)));
}

#[test]
fn write_draw_commands_writes_no_end() {
    let mut out = vec![0x33];
    write_draw_commands(&mut out, &reduced(), &vec![]).unwrap();
    assert_eq!(out, vec![0x33]);
    write_end(&mut out).unwrap();
    assert_eq!(out, vec![0x33, 0x00]);
}

#[test]
fn write_draw_commands_fails_on_the_first_command_that_cannot_be_written() {
    let commands = vec![
        DrawCommand::FillPolygon(FillPolygonData { style: flat(2), points: vec![point(1, 1)] }),
        DrawCommand::FillPolygon(FillPolygonData { style: flat(2), points: vec![] }),
    ];
    let mut out = vec![0x33];
    assert_eq!(
        write_draw_commands(&mut out, &reduced(), &commands),
        Err(TinyVgParseError::InvalidCommand)
    );
    assert_eq!(out, vec![0x33]);
}

fn every_kind(width: Option<Unit>) -> Vec<PathCommand> {
    vec![
        PathCommand::Line(point(1, 2), width),
        PathCommand::HorizontalLine(Unit(3), width),
        PathCommand::VerticalLine(Unit(-4), width),
        PathCommand::CubicBezier(
            CubicBezier {
                control_point_0: point(5, 6),
                control_point_1: point(7, 8),
                point_1: point(9, 10),
            },
            width,
        ),
        PathCommand::ArcCircle(
            ArcCircle { large_arc: true, sweep: false, radius: Unit(11), target: point(12, 13) },
            width,
        ),
        PathCommand::ArcEllipse(
            ArcEllipse {
                large_arc: false,
                sweep: true,
                radius_x: Unit(14),
                radius_y: Unit(15),
                rotation: Unit(16),
                target: point(17, 18),
            },
            width,
        ),
        PathCommand::ClosePath,
        PathCommand::QuadraticBezier(
            QuadraticBezier { control_point: point(19, 20), point_1: point(21, 22) },
            width,
        ),
    ]
}

#[test]
fn every_command_round_trips_in_every_range() {
    let path = Path {
        segments: vec![
            Segment { start: point(-1, -2), path_commands: every_kind(None) },
            Segment { start: point(3, 4), path_commands: every_kind(Some(Unit(5))) },
        ],
    };
    let points = vec![point(0, 0), point(10, 0), point(5, -8)];
    let rectangles = vec![rectangle(1, 2, 3, 4), rectangle(-5, -6, 7, 8)];
    let commands = vec![
        DrawCommand::FillPolygon(FillPolygonData { style: flat(2), points: points.clone() }),
        DrawCommand::FillRectangles(FillRectanglesData {
            style: linear(),
            rectangles: rectangles.clone(),
        }),
        DrawCommand::FillPath(FillPathData { style: radial(), path: path.clone() }),
        DrawCommand::DrawLines(DrawLinesData {
            lines: vec![
                Line { start: point(1, 2), end: point(3, 4) },
                Line { start: point(5, 6), end: point(7, 8) },
            ],
            line_width: Unit(2),
            line_style: linear(),
        }),
        DrawCommand::DrawLineLoop(DrawLineLoopData {
            line_style: radial(),
            line_width: Unit(1),
            points: points.clone(),
        }),
        DrawCommand::DrawLineStrip(DrawLineStripData {
            style: flat(300),
            line_width: Unit(1),
            points: points.clone(),
        }),
        DrawCommand::DrawLinePath(DrawLinePathData {
            style: linear(),
            line_width: Unit(4),
            path: path.clone(),
        }),
        DrawCommand::OutlineFillPolygon(OutlineFillPolygonData {
            fill_style: radial(),
            line_style: linear(),
            line_width: Unit(3),
            points,
        }),
        DrawCommand::OutlineFillRectangles(OutlineFillRectanglesData {
            fill_style: flat(u64::MAX),
            line_style: radial(),
            line_width: Unit(1),
            rectangles,
        }),
        DrawCommand::OutlineFillPath(OutlineFillPathData {
            path,
            fill_style: linear(),
            line_style: radial(),
            line_width: Unit(2),
        }),
        DrawCommand::TextHint(text_hint("gr\u{fc}n", vec![(0, 1), (1, 2), (2, 3), (3, 4)])),
    ];
    for range in [CoordinateRange::Reduced, CoordinateRange::Default, CoordinateRange::Enhanced] {
        let mut out = Vec::new();
        write_draw_commands(&mut out, &header(range), &commands).unwrap();
        write_end(&mut out).unwrap();
        let mut cursor = ByteCursor::new(&out);
        assert_eq!(parse_draw_commands(&mut cursor, &header(range)), Ok(commands.clone()));
        assert_eq!(cursor.position, out.len());
    }
}
