//! Draw commands on the wire: the tag byte, what opens the command, and its
//! points, rectangles, lines or path.
use crate::commands::{
    CommandType, DrawCommand, DrawCommandView, DrawLineLoopData, DrawLinePathData,
    DrawLineStripData, DrawLinesData, FillPathData, FillPolygonData, FillRectanglesData,
    OutlineFillPathData, OutlineFillPolygonData, OutlineFillRectanglesData, Path, PathView,
    Point, Style, StyleType, TextHintData,
};
use crate::common::{
    count_bytes, lemma_count_round_trip, lemma_unit_round_trip, lemma_varint_round_trip,
    read_count, read_number, read_unit, spec_read_count, spec_read_unit, spec_read_varint,
    unit_bytes, varint_bytes, write_count, write_unit, write_variable_sized_unsigned_number, Unit,
};
use crate::cursor::ByteCursor;
use crate::geometry::{
    glyphs_bytes, glyphs_fit, lemma_glyphs_round_trip, lemma_lines_round_trip,
    lemma_points_round_trip, lemma_rectangles_round_trip, lines_bytes, lines_fit, points_bytes,
    points_fit, read_glyphs, read_lines, read_points, read_rectangles, rectangles_bytes,
    rectangles_fit, spec_read_glyphs, spec_read_lines, spec_read_points, spec_read_rectangles,
    write_glyphs, write_lines, write_point, write_points, write_rectangles,
};
use crate::header::{CoordinateRange, TinyVgHeader};
use crate::path::write_path;
use crate::style::{
    pack_with_style, packed_with_style, write_command_and_primary_style, write_style,
};
use crate::text::{
    lemma_text_round_trip, read_text, spec_read_text, text_bytes, text_fits, write_text,
};
use crate::wire::{
    holds_at, lemma_holds_at_concat, lemma_holds_at_index, reads, reads_view, undo, writes,
};
use crate::TinyVgParseError;
use vstd::prelude::*;

verus! {

/// What opens a filled shape, behind its tag: the count of its items, then
/// its style, of the kind that the tag named. With it comes the position
/// behind the style.
#[verifier::opaque]
pub open spec fn spec_read_filled_head(
    data: Seq<u8>,
    pos: int,
    range: CoordinateRange,
    style_type: StyleType,
) -> Option<((u64, Style), int)> {
    match spec_read_count(data, pos) {
        Some((count, after_count)) => match Style::spec_read(data, after_count, range, style_type) {
            Some((style, end)) => Some(((count, style), end)),
            None => None,
        },
        None => None,
    }
}

/// The bytes that open a filled shape of `count` items: the count less one,
/// then the style.
pub open spec fn filled_head_bytes(count: nat, style: Style, range: CoordinateRange) -> Seq<u8> {
    count_bytes(count) + style.bytes(range)
}

/// Whether a filled shape of `count` items can be opened: it has an item, and
/// its style fits the width of `range`.
pub open spec fn filled_head_fits(count: nat, style: Style, range: CoordinateRange) -> bool {
    1 <= count <= u64::MAX && style.fits(range)
}

/// What opens a drawn line shape, behind its tag: the count of its items, its
/// style, of the kind that the tag named, and the width of its line. With it
/// comes the position behind the line width.
#[verifier::opaque]
pub open spec fn spec_read_stroked_head(
    data: Seq<u8>,
    pos: int,
    range: CoordinateRange,
    style_type: StyleType,
) -> Option<((u64, Style, Unit), int)> {
    match spec_read_count(data, pos) {
        Some((count, after_count)) => match Style::spec_read(data, after_count, range, style_type) {
            Some((style, after_style)) => match spec_read_unit(data, after_style, range) {
                Some((line_width, end)) => Some(((count, style, line_width), end)),
                None => None,
            },
            None => None,
        },
        None => None,
    }
}

/// The bytes that open a drawn line shape of `count` items: the count less
/// one, the style, the line width.
pub open spec fn stroked_head_bytes(
    count: nat,
    style: Style,
    line_width: Unit,
    range: CoordinateRange,
) -> Seq<u8> {
    count_bytes(count) + style.bytes(range) + unit_bytes(line_width.0 as int, range)
}

/// Whether a drawn line shape of `count` items can be opened: it has an item,
/// and its style and line width fit the width of `range`.
pub open spec fn stroked_head_fits(
    count: nat,
    style: Style,
    line_width: Unit,
    range: CoordinateRange,
) -> bool {
    &&& 1 <= count <= u64::MAX
    &&& style.fits(range)
    &&& range.fits_signed(line_width.0 as int)
}

/// What opens a filled shape with an outline, behind its tag: one byte with
/// the count of its items less one in bits 0 to 5 and the kind of the line
/// style in bits 6 and 7; the fill style, of the kind that the tag named; the
/// line style; the line width. With it comes the position behind the line
/// width.
#[verifier::opaque]
pub open spec fn spec_read_outlined_head(
    data: Seq<u8>,
    pos: int,
    range: CoordinateRange,
    style_type: StyleType,
) -> Option<((u64, Style, Style, Unit), int)> {
    if 0 <= pos < data.len() {
        let packed = data[pos];
        match StyleType::spec_from_u8((packed / 64) as u8) {
            Some(line_type) => match Style::spec_read(data, pos + 1, range, style_type) {
                Some((fill_style, after_fill)) => match Style::spec_read(
                    data,
                    after_fill,
                    range,
                    line_type,
                ) {
                    Some((line_style, after_line)) => match spec_read_unit(
                        data,
                        after_line,
                        range,
                    ) {
                        Some((line_width, end)) => Some(
                            (((packed % 64 + 1) as u64, fill_style, line_style, line_width), end),
                        ),
                        None => None,
                    },
                    None => None,
                },
                None => None,
            },
            None => None,
        }
    } else {
        None
    }
}

/// The bytes that open a filled shape with an outline of `count` items: the
/// byte that packs the count less one with the kind of the line style, the
/// fill style, the line style, the line width.
pub open spec fn outlined_head_bytes(
    count: nat,
    fill_style: Style,
    line_style: Style,
    line_width: Unit,
    range: CoordinateRange,
) -> Seq<u8> {
    seq![packed_with_style(count - 1, StyleType::spec_from_style(line_style))] + fill_style.bytes(
        range,
    ) + line_style.bytes(range) + unit_bytes(line_width.0 as int, range)
}

/// Whether a filled shape with an outline of `count` items can be opened: it
/// has 1 to 64 items, and its styles and line width fit the width of `range`.
pub open spec fn outlined_head_fits(
    count: nat,
    fill_style: Style,
    line_style: Style,
    line_width: Unit,
    range: CoordinateRange,
) -> bool {
    &&& 1 <= count <= 64
    &&& fill_style.fits(range)
    &&& line_style.fits(range)
    &&& range.fits_signed(line_width.0 as int)
}

/// Reads what opens a filled shape.
fn read_filled_head(header: &TinyVgHeader, cursor: &mut ByteCursor, style_type: StyleType) -> (r:
    Result<(u64, Style), TinyVgParseError>)
    ensures
        reads(
            *old(cursor),
            *final(cursor),
            r,
            spec_read_filled_head(
                old(cursor).data@,
                old(cursor).position as int,
                header.coordinate_range,
                style_type,
            ),
            TinyVgParseError::InvalidCommand,
        ),
        r matches Ok((count, style)) ==> filled_head_fits(
            count as nat, style,
            header.coordinate_range,
        ) && StyleType::spec_from_style(style) == style_type,
{
    proof {
        reveal(spec_read_filled_head);
    }
    let mut c = *cursor;
    let count = read_count(&mut c)?;
    let style = Style::read_cursor_using_style_type(header, &mut c, &style_type)?;
    *cursor = c;
    Ok((count, style))
}

/// Reads what opens a drawn line shape.
fn read_stroked_head(header: &TinyVgHeader, cursor: &mut ByteCursor, style_type: StyleType) -> (r:
    Result<(u64, Style, Unit), TinyVgParseError>)
    ensures
        reads(
            *old(cursor),
            *final(cursor),
            r,
            spec_read_stroked_head(
                old(cursor).data@,
                old(cursor).position as int,
                header.coordinate_range,
                style_type,
            ),
            TinyVgParseError::InvalidCommand,
        ),
        r matches Ok((count, style, line_width)) ==> stroked_head_fits(
            count as nat, style, line_width,
            header.coordinate_range,
        ) && StyleType::spec_from_style(style) == style_type,
{
    proof {
        reveal(spec_read_stroked_head);
    }
    let mut c = *cursor;
    let count = read_count(&mut c)?;
    let style = Style::read_cursor_using_style_type(header, &mut c, &style_type)?;
    let line_width = read_unit(&mut c, &header.coordinate_range)?;
    *cursor = c;
    Ok((count, style, line_width))
}

/// Reads what opens a filled shape with an outline.
fn read_outlined_head(header: &TinyVgHeader, cursor: &mut ByteCursor, style_type: StyleType) -> (r:
    Result<(u64, Style, Style, Unit), TinyVgParseError>)
    ensures
        reads(
            *old(cursor),
            *final(cursor),
            r,
            spec_read_outlined_head(
                old(cursor).data@,
                old(cursor).position as int,
                header.coordinate_range,
                style_type,
            ),
            TinyVgParseError::InvalidCommand,
        ),
        r matches Ok((count, fill_style, line_style, line_width)) ==> outlined_head_fits(
            count as nat, fill_style, line_style, line_width,
            header.coordinate_range,
        ) && StyleType::spec_from_style(fill_style) == style_type,
{
    proof {
        reveal(spec_read_outlined_head);
    }
    let mut c = *cursor;
    let packed = match c.read_u8() {
        Some(byte) => byte,
        None => {
            return Err(TinyVgParseError::InvalidCommand);
        },
    };
    proof {
        assert(packed & 0x3F == packed % 64) by (bit_vector);
        assert((packed & 0xC0) >> 6 == packed / 64) by (bit_vector);
    }
    let count = (packed & 0x3F) as u64 + 1;
    let line_type = StyleType::from_u8((packed & 0xC0) >> 6)?;
    let fill_style = Style::read_cursor_using_style_type(header, &mut c, &style_type)?;
    let line_style = Style::read_cursor_using_style_type(header, &mut c, &line_type)?;
    let line_width = read_unit(&mut c, &header.coordinate_range)?;
    *cursor = c;
    Ok((count, fill_style, line_style, line_width))
}

/// Writes what opens a filled shape.
fn write_filled_head(out: &mut Vec<u8>, header: &TinyVgHeader, count: usize, style: &Style) -> (r:
    Result<(), TinyVgParseError>)
    ensures
        writes(
            old(out)@,
            final(out)@,
            r,
            filled_head_fits(count as nat, *style, header.coordinate_range),
            filled_head_bytes(count as nat, *style, header.coordinate_range),
            TinyVgParseError::InvalidCommand,
        ),
{
    let mark = out.len();
    write_count(out, count)?;
    if let Err(e) = write_style(out, header, style) {
        return undo(out, mark, e);
    }
    Ok(())
}

/// Writes what opens a drawn line shape.
fn write_stroked_head(
    out: &mut Vec<u8>,
    header: &TinyVgHeader,
    count: usize,
    style: &Style,
    line_width: Unit,
) -> (r: Result<(), TinyVgParseError>)
    ensures
        writes(
            old(out)@,
            final(out)@,
            r,
            stroked_head_fits(count as nat, *style, line_width, header.coordinate_range),
            stroked_head_bytes(count as nat, *style, line_width, header.coordinate_range),
            TinyVgParseError::InvalidCommand,
        ),
{
    let mark = out.len();
    write_count(out, count)?;
    if let Err(e) = write_style(out, header, style) {
        return undo(out, mark, e);
    }
    if let Err(e) = write_unit(out, &header.coordinate_range, line_width) {
        return undo(out, mark, e);
    }
    Ok(())
}

/// Writes what opens a filled shape with an outline.
fn write_outlined_head(
    out: &mut Vec<u8>,
    header: &TinyVgHeader,
    count: usize,
    fill_style: &Style,
    line_style: &Style,
    line_width: Unit,
) -> (r: Result<(), TinyVgParseError>)
    ensures
        writes(
            old(out)@,
            final(out)@,
            r,
            outlined_head_fits(
                count as nat,
                *fill_style,
                *line_style,
                line_width,
                header.coordinate_range,
            ),
            outlined_head_bytes(
                count as nat,
                *fill_style,
                *line_style,
                line_width,
                header.coordinate_range,
            ),
            TinyVgParseError::InvalidCommand,
        ),
{
    if count < 1 || count > 64 {
        return Err(TinyVgParseError::InvalidCommand);
    }
    let mark = out.len();
    out.push(pack_with_style((count - 1) as u8, StyleType::from_style(line_style)));
    if let Err(e) = write_style(out, header, fill_style) {
        return undo(out, mark, e);
    }
    if let Err(e) = write_style(out, header, line_style) {
        return undo(out, mark, e);
    }
    if let Err(e) = write_unit(out, &header.coordinate_range, line_width) {
        return undo(out, mark, e);
    }
    Ok(())
}

/// What opens a filled shape, once written, is read back as it was.
proof fn lemma_filled_head_round_trip(
    data: Seq<u8>,
    pos: int,
    range: CoordinateRange,
    count: u64,
    style: Style,
)
    requires
        filled_head_fits(count as nat, style, range),
        holds_at(data, pos, filled_head_bytes(count as nat, style, range)),
    ensures
        spec_read_filled_head(data, pos, range, StyleType::spec_from_style(style)) == Some(
            ((count, style), pos + filled_head_bytes(count as nat, style, range).len()),
        ),
{
    reveal(spec_read_filled_head);
    let count_part = count_bytes(count as nat);
    lemma_holds_at_concat(data, pos, count_part, style.bytes(range));
    lemma_count_round_trip(data, pos, count);
    style.lemma_round_trip(data, pos + count_part.len(), range);
}

/// What opens a drawn line shape, once written, is read back as it was.
proof fn lemma_stroked_head_round_trip(
    data: Seq<u8>,
    pos: int,
    range: CoordinateRange,
    count: u64,
    style: Style,
    line_width: Unit,
)
    requires
        stroked_head_fits(count as nat, style, line_width, range),
        holds_at(data, pos, stroked_head_bytes(count as nat, style, line_width, range)),
    ensures
        spec_read_stroked_head(data, pos, range, StyleType::spec_from_style(style)) == Some(
            (
                (count, style, line_width),
                pos + stroked_head_bytes(count as nat, style, line_width, range).len(),
            ),
        ),
{
    reveal(spec_read_stroked_head);
    let count_part = count_bytes(count as nat);
    let style_part = style.bytes(range);
    lemma_holds_at_concat(
        data,
        pos,
        count_part + style_part,
        unit_bytes(line_width.0 as int, range),
    );
    lemma_holds_at_concat(data, pos, count_part, style_part);
    lemma_count_round_trip(data, pos, count);
    style.lemma_round_trip(data, pos + count_part.len(), range);
    lemma_unit_round_trip(data, pos + count_part.len() + style_part.len(), range, line_width);
}

/// What opens a filled shape with an outline, once written, is read back as
/// it was.
proof fn lemma_outlined_head_round_trip(
    data: Seq<u8>,
    pos: int,
    range: CoordinateRange,
    count: u64,
    fill_style: Style,
    line_style: Style,
    line_width: Unit,
)
    requires
        outlined_head_fits(count as nat, fill_style, line_style, line_width, range),
        holds_at(
            data,
            pos,
            outlined_head_bytes(count as nat, fill_style, line_style, line_width, range),
        ),
    ensures
        spec_read_outlined_head(data, pos, range, StyleType::spec_from_style(fill_style)) == Some(
            (
                (count, fill_style, line_style, line_width),
                pos + outlined_head_bytes(
                    count as nat,
                    fill_style,
                    line_style,
                    line_width,
                    range,
                ).len(),
            ),
        ),
{
    reveal(spec_read_outlined_head);
    let packed = seq![packed_with_style(count - 1, StyleType::spec_from_style(line_style))];
    let fill_part = fill_style.bytes(range);
    let line_part = line_style.bytes(range);
    lemma_holds_at_concat(
        data,
        pos,
        packed + fill_part + line_part,
        unit_bytes(line_width.0 as int, range),
    );
    lemma_holds_at_concat(data, pos, packed + fill_part, line_part);
    lemma_holds_at_concat(data, pos, packed, fill_part);
    lemma_holds_at_index(data, pos, packed, 0);
    fill_style.lemma_round_trip(data, pos + 1, range);
    line_style.lemma_round_trip(data, pos + 1 + fill_part.len(), range);
    lemma_unit_round_trip(data, pos + 1 + fill_part.len() + line_part.len(), range, line_width);
}

impl DrawCommandView {
    /// The kind of the command.
    pub open spec fn command_type(self) -> CommandType {
        match self {
            DrawCommandView::FillPolygon { .. } => CommandType::FillPolygon,
            DrawCommandView::FillRectangles { .. } => CommandType::FillRectangles,
            DrawCommandView::FillPath { .. } => CommandType::FillPath,
            DrawCommandView::DrawLines { .. } => CommandType::DrawLines,
            DrawCommandView::DrawLineLoop { .. } => CommandType::DrawLineLoop,
            DrawCommandView::DrawLineStrip { .. } => CommandType::DrawLineStrip,
            DrawCommandView::DrawLinePath { .. } => CommandType::DrawLinePath,
            DrawCommandView::OutlineFillPolygon { .. } => CommandType::OutlineFillPolygon,
            DrawCommandView::OutlineFillRectangles { .. } => CommandType::OutlineFillRectangles,
            DrawCommandView::OutlineFillPath { .. } => CommandType::OutlineFillPath,
            DrawCommandView::TextHint { .. } => CommandType::TextHint,
        }
    }

    /// The kind of style that the tag byte of the command names: that of its
    /// fill where it has one, else that of its line; flat for a text hint, which
    /// has no style.
    pub open spec fn primary_style_type(self) -> StyleType {
        match self {
            DrawCommandView::FillPolygon { style, .. } => StyleType::spec_from_style(style),
            DrawCommandView::FillRectangles { style, .. } => StyleType::spec_from_style(style),
            DrawCommandView::FillPath { style, .. } => StyleType::spec_from_style(style),
            DrawCommandView::DrawLines { line_style, .. } => StyleType::spec_from_style(line_style),
            DrawCommandView::DrawLineLoop { line_style, .. } => StyleType::spec_from_style(
                line_style,
            ),
            DrawCommandView::DrawLineStrip { style, .. } => StyleType::spec_from_style(style),
            DrawCommandView::DrawLinePath { style, .. } => StyleType::spec_from_style(style),
            DrawCommandView::OutlineFillPolygon { fill_style, .. } => StyleType::spec_from_style(
                fill_style,
            ),
            DrawCommandView::OutlineFillRectangles { fill_style, .. } => StyleType::spec_from_style(
                fill_style,
            ),
            DrawCommandView::OutlineFillPath { fill_style, .. } => StyleType::spec_from_style(
                fill_style,
            ),
            DrawCommandView::TextHint { .. } => StyleType::Flat,
        }
    }

    /// The tag byte of the command: its kind in bits 0 to 5, the kind of its
    /// primary style in bits 6 and 7.
    pub open spec fn tag(self) -> u8 {
        packed_with_style(self.command_type().spec_to_u8() as int, self.primary_style_type())
    }

    /// Whether the command can be written in the width of `range`: its lists
    /// are not empty, those of an outlined shape have at most 64 items, every
    /// coordinate fits, and a text hint counts as many glyphs as it has offsets.
    pub open spec fn fits(self, range: CoordinateRange) -> bool {
        match self {
            DrawCommandView::FillPolygon { style, points } => {
                &&& filled_head_fits(points.len(), style, range)
                &&& points_fit(points, range)
            },
            DrawCommandView::FillRectangles { style, rectangles } => {
                &&& filled_head_fits(rectangles.len(), style, range)
                &&& rectangles_fit(rectangles, range)
            },
            DrawCommandView::FillPath { style, path } => {
                &&& filled_head_fits(path.segments.len(), style, range)
                &&& path.fits(range)
            },
            DrawCommandView::DrawLines { line_style, line_width, lines } => {
                &&& stroked_head_fits(lines.len(), line_style, line_width, range)
                &&& lines_fit(lines, range)
            },
            DrawCommandView::DrawLineLoop { line_style, line_width, points } => {
                &&& stroked_head_fits(points.len(), line_style, line_width, range)
                &&& points_fit(points, range)
            },
            DrawCommandView::DrawLineStrip { style, line_width, points } => {
                &&& stroked_head_fits(points.len(), style, line_width, range)
                &&& points_fit(points, range)
            },
            DrawCommandView::DrawLinePath { style, line_width, path } => {
                &&& stroked_head_fits(path.segments.len(), style, line_width, range)
                &&& path.fits(range)
            },
            DrawCommandView::OutlineFillPolygon { fill_style, line_style, line_width, points } => {
                &&& outlined_head_fits(points.len(), fill_style, line_style, line_width, range)
                &&& points_fit(points, range)
            },
            DrawCommandView::OutlineFillRectangles {
                fill_style,
                line_style,
                line_width,
                rectangles,
            } => {
                &&& outlined_head_fits(rectangles.len(), fill_style, line_style, line_width, range)
                &&& rectangles_fit(rectangles, range)
            },
            DrawCommandView::OutlineFillPath { fill_style, line_style, line_width, path } => {
                &&& outlined_head_fits(
                    path.segments.len(),
                    fill_style,
                    line_style,
                    line_width,
                    range,
                )
                &&& path.fits(range)
            },
            DrawCommandView::TextHint {
                center,
                rotation,
                height,
                text,
                glyph_length,
                glyph_offset,
            } => {
                &&& center.fits(range)
                &&& range.fits_signed(rotation.0 as int)
                &&& range.fits_signed(height.0 as int)
                &&& text_fits(text)
                &&& glyph_length == glyph_offset.len()
                &&& glyphs_fit(glyph_offset, range)
            },
        }
    }

    /// The bytes of the command behind its tag byte.
    pub open spec fn body_bytes(self, range: CoordinateRange) -> Seq<u8> {
        match self {
            DrawCommandView::FillPolygon { style, points } => {
                filled_head_bytes(points.len(), style, range)
                    + points_bytes(points, range)
            },
            DrawCommandView::FillRectangles { style, rectangles } => {
                filled_head_bytes(rectangles.len(), style, range)
                    + rectangles_bytes(rectangles, range)
            },
            DrawCommandView::FillPath { style, path } => {
                filled_head_bytes(path.segments.len(), style, range)
                    + path.bytes(range)
            },
            DrawCommandView::DrawLines { line_style, line_width, lines } => {
                stroked_head_bytes(lines.len(), line_style, line_width, range)
                    + lines_bytes(lines, range)
            },
            DrawCommandView::DrawLineLoop { line_style, line_width, points } => {
                stroked_head_bytes(points.len(), line_style, line_width, range)
                    + points_bytes(points, range)
            },
            DrawCommandView::DrawLineStrip { style, line_width, points } => {
                stroked_head_bytes(points.len(), style, line_width, range)
                    + points_bytes(points, range)
            },
            DrawCommandView::DrawLinePath { style, line_width, path } => {
                stroked_head_bytes(path.segments.len(), style, line_width, range)
                    + path.bytes(range)
            },
            DrawCommandView::OutlineFillPolygon { fill_style, line_style, line_width, points } => {
                outlined_head_bytes(points.len(), fill_style, line_style, line_width, range)
                    + points_bytes(points, range)
            },
            DrawCommandView::OutlineFillRectangles {
                fill_style,
                line_style,
                line_width,
                rectangles,
            } => {
                outlined_head_bytes(rectangles.len(), fill_style, line_style, line_width, range)
                    + rectangles_bytes(rectangles, range)
            },
            DrawCommandView::OutlineFillPath { fill_style, line_style, line_width, path } => {
                outlined_head_bytes(path.segments.len(), fill_style, line_style, line_width, range)
                    + path.bytes(range)
            },
            DrawCommandView::TextHint {
                center,
                rotation,
                height,
                text,
                glyph_length,
                glyph_offset,
            } => center.bytes(range) + unit_bytes(rotation.0 as int, range) + unit_bytes(
                height.0 as int,
                range,
            ) + text_bytes(text) + varint_bytes(glyph_length as nat) + glyphs_bytes(
                glyph_offset,
                range,
            ),
        }
    }

    /// The bytes of the command: its tag byte, then its body.
    pub open spec fn bytes(self, range: CoordinateRange) -> Seq<u8> {
        seq![self.tag()] + self.body_bytes(range)
    }

    /// The text hint at `pos`, behind its tag byte, and the position behind
    /// it: centre, rotation, height, the text, the number of glyphs and the
    /// offsets of that many glyphs.
    #[verifier::opaque]
    pub open spec fn spec_read_text_hint(data: Seq<u8>, pos: int, range: CoordinateRange)
        -> Option<(DrawCommandView, int)> {
        match Point::spec_read(data, pos, range) {
            Some((center, after_center)) => match spec_read_unit(data, after_center, range) {
                Some((rotation, after_rotation)) => match spec_read_unit(
                    data,
                    after_rotation,
                    range,
                ) {
                    Some((height, after_height)) => match spec_read_text(data, after_height) {
                        Some((text, after_text)) => match spec_read_varint(data, after_text) {
                            Some((glyph_length, after_length)) => match spec_read_glyphs(
                                data,
                                after_length,
                                range,
                                glyph_length as nat,
                            ) {
                                Some((glyph_offset, end)) => Some(
                                    (
                                        DrawCommandView::TextHint {
                                            center,
                                            rotation,
                                            height,
                                            text,
                                            glyph_length,
                                            glyph_offset,
                                        },
                                        end,
                                    ),
                                ),
                                None => None,
                            },
                            None => None,
                        },
                        None => None,
                    },
                    None => None,
                },
                None => None,
            },
            None => None,
        }
    }

    /// The command of the kind `kind` at `pos`, behind its tag byte, whose
    /// primary style is of the kind `style_type`; and the position behind it.
    pub open spec fn spec_read_body(
        data: Seq<u8>,
        pos: int,
        range: CoordinateRange,
        kind: CommandType,
        style_type: StyleType,
    ) -> Option<(DrawCommandView, int)> {
        match kind {
            CommandType::EndOfDocument => None,
            CommandType::FillPolygon => match spec_read_filled_head(data, pos, range, style_type) {
                Some(((count, style), next)) => match spec_read_points(
                    data,
                    next,
                    range,
                    count as nat,
                ) {
                    Some((points, end)) => Some(
                        (DrawCommandView::FillPolygon { style, points }, end),
                    ),
                    None => None,
                },
                None => None,
            },
            CommandType::FillRectangles => match spec_read_filled_head(
                data,
                pos,
                range,
                style_type,
            ) {
                Some(((count, style), next)) => match spec_read_rectangles(
                    data,
                    next,
                    range,
                    count as nat,
                ) {
                    Some((rectangles, end)) => Some(
                        (DrawCommandView::FillRectangles { style, rectangles }, end),
                    ),
                    None => None,
                },
                None => None,
            },
            CommandType::FillPath => match spec_read_filled_head(data, pos, range, style_type) {
                Some(((count, style), next)) => match PathView::spec_parse(
                    data,
                    next,
                    range,
                    count as nat,
                ) {
                    Some((path, end)) => Some((DrawCommandView::FillPath { style, path }, end)),
                    None => None,
                },
                None => None,
            },
            CommandType::DrawLines => match spec_read_stroked_head(data, pos, range, style_type) {
                Some(((count, line_style, line_width), next)) => match spec_read_lines(
                    data,
                    next,
                    range,
                    count as nat,
                ) {
                    Some((lines, end)) => Some(
                        (DrawCommandView::DrawLines { line_style, line_width, lines }, end),
                    ),
                    None => None,
                },
                None => None,
            },
            CommandType::DrawLineLoop => match spec_read_stroked_head(
                data,
                pos,
                range,
                style_type,
            ) {
                Some(((count, line_style, line_width), next)) => match spec_read_points(
                    data,
                    next,
                    range,
                    count as nat,
                ) {
                    Some((points, end)) => Some(
                        (DrawCommandView::DrawLineLoop { line_style, line_width, points }, end),
                    ),
                    None => None,
                },
                None => None,
            },
            CommandType::DrawLineStrip => match spec_read_stroked_head(
                data,
                pos,
                range,
                style_type,
            ) {
                Some(((count, style, line_width), next)) => match spec_read_points(
                    data,
                    next,
                    range,
                    count as nat,
                ) {
                    Some((points, end)) => Some(
                        (DrawCommandView::DrawLineStrip { style, line_width, points }, end),
                    ),
                    None => None,
                },
                None => None,
            },
            CommandType::DrawLinePath => match spec_read_stroked_head(
                data,
                pos,
                range,
                style_type,
            ) {
                Some(((count, style, line_width), next)) => match PathView::spec_parse(
                    data,
                    next,
                    range,
                    count as nat,
                ) {
                    Some((path, end)) => Some(
                        (DrawCommandView::DrawLinePath { style, line_width, path }, end),
                    ),
                    None => None,
                },
                None => None,
            },
            CommandType::OutlineFillPolygon => match spec_read_outlined_head(
                data,
                pos,
                range,
                style_type,
            ) {
                Some(((count, fill_style, line_style, line_width), next)) => match spec_read_points(
                    data,
                    next,
                    range,
                    count as nat,
                ) {
                    Some((points, end)) => Some(
                        (
                            DrawCommandView::OutlineFillPolygon {
                                fill_style,
                                line_style,
                                line_width,
                                points,
                            },
                            end,
                        ),
                    ),
                    None => None,
                },
                None => None,
            },
            CommandType::OutlineFillRectangles => match spec_read_outlined_head(
                data,
                pos,
                range,
                style_type,
            ) {
                Some(
                    ((count, fill_style, line_style, line_width), next),
                ) => match spec_read_rectangles(data, next, range, count as nat) {
                    Some((rectangles, end)) => Some(
                        (
                            DrawCommandView::OutlineFillRectangles {
                                fill_style,
                                line_style,
                                line_width,
                                rectangles,
                            },
                            end,
                        ),
                    ),
                    None => None,
                },
                None => None,
            },
            CommandType::OutlineFillPath => match spec_read_outlined_head(
                data,
                pos,
                range,
                style_type,
            ) {
                Some(
                    ((count, fill_style, line_style, line_width), next),
                ) => match PathView::spec_parse(data, next, range, count as nat) {
                    Some((path, end)) => Some(
                        (
                            DrawCommandView::OutlineFillPath {
                                fill_style,
                                line_style,
                                line_width,
                                path,
                            },
                            end,
                        ),
                    ),
                    None => None,
                },
                None => None,
            },
            CommandType::TextHint => DrawCommandView::spec_read_text_hint(data, pos, range),
        }
    }

    /// The command at `pos` and the position behind it. Bits 0 to 5 of its
    /// tag byte name its kind, bits 6 and 7 the kind of its primary style. The
    /// end of the document is no command.
    pub open spec fn spec_read(data: Seq<u8>, pos: int, range: CoordinateRange) -> Option<
        (DrawCommandView, int),
    > {
        if 0 <= pos < data.len() {
            let tag = data[pos];
            match (
                CommandType::spec_from_u8((tag % 64) as u8),
                StyleType::spec_from_u8((tag / 64) as u8),
            ) {
                (Some(kind), Some(style_type)) => DrawCommandView::spec_read_body(
                    data,
                    pos + 1,
                    range,
                    kind,
                    style_type,
                ),
                _ => None,
            }
        } else {
            None
        }
    }
}

/// Reads a text hint, behind its tag byte.
fn read_text_hint(header: &TinyVgHeader, cursor: &mut ByteCursor) -> (r: Result<
    DrawCommand,
    TinyVgParseError,
>)
    ensures
        reads_view(
            *old(cursor),
            *final(cursor),
            r,
            DrawCommandView::spec_read_text_hint(
                old(cursor).data@,
                old(cursor).position as int,
                header.coordinate_range,
            ),
            TinyVgParseError::InvalidCommand,
        ),
        r matches Ok(command) ==> command@.fits(header.coordinate_range),
{
    proof {
        reveal(DrawCommandView::spec_read_text_hint);
    }
    let mut c = *cursor;
    let center = Point::read_point(header, &mut c)?;
    let rotation = read_unit(&mut c, &header.coordinate_range)?;
    let height = read_unit(&mut c, &header.coordinate_range)?;
    let text = read_text(&mut c)?;
    let glyph_length = read_number(&mut c)?;
    let glyph_offset = read_glyphs(header, &mut c, glyph_length)?;
    *cursor = c;
    Ok(
        DrawCommand::TextHint(
            TextHintData { center, rotation, height, text, glyph_length, glyph_offset },
        ),
    )
}

impl DrawCommand {
    /// Reads the command of the kind `kind`, behind its tag byte, whose primary
    /// style is of the kind `style_type`. Fails for the end of the document,
    /// which is no command, and where the data ends inside the command or a
    /// part of it cannot be read.
    pub fn read_body(
        header: &TinyVgHeader,
        cursor: &mut ByteCursor,
        kind: CommandType,
        style_type: StyleType,
    ) -> (r: Result<DrawCommand, TinyVgParseError>)
        ensures
            reads_view(
                *old(cursor),
                *final(cursor),
                r,
                DrawCommandView::spec_read_body(
                    old(cursor).data@,
                    old(cursor).position as int,
                    header.coordinate_range,
                    kind,
                    style_type,
                ),
                TinyVgParseError::InvalidCommand,
            ),
            r matches Ok(command) ==> command@.fits(header.coordinate_range),
    {
        let mut c = *cursor;
        let command = match kind {
            CommandType::EndOfDocument => {
                return Err(TinyVgParseError::InvalidCommand);
            },
            CommandType::FillPolygon => {
                let (count, style) = read_filled_head(header, &mut c, style_type)?;
                let points = read_points(header, &mut c, count)?;
                DrawCommand::FillPolygon(FillPolygonData { style, points })
            },
            CommandType::FillRectangles => {
                let (count, style) = read_filled_head(header, &mut c, style_type)?;
                let rectangles = read_rectangles(header, &mut c, count)?;
                DrawCommand::FillRectangles(FillRectanglesData { style, rectangles })
            },
            CommandType::FillPath => {
                let (count, style) = read_filled_head(header, &mut c, style_type)?;
                let path = Path::parse(&mut c, header, count)?;
                DrawCommand::FillPath(FillPathData { style, path })
            },
            CommandType::DrawLines => {
                let (count, line_style, line_width) = read_stroked_head(
                    header,
                    &mut c,
                    style_type,
                )?;
                let lines = read_lines(header, &mut c, count)?;
                DrawCommand::DrawLines(DrawLinesData { lines, line_width, line_style })
            },
            CommandType::DrawLineLoop => {
                let (count, line_style, line_width) = read_stroked_head(
                    header,
                    &mut c,
                    style_type,
                )?;
                let points = read_points(header, &mut c, count)?;
                DrawCommand::DrawLineLoop(DrawLineLoopData { line_style, line_width, points })
            },
            CommandType::DrawLineStrip => {
                let (count, style, line_width) = read_stroked_head(header, &mut c, style_type)?;
                let points = read_points(header, &mut c, count)?;
                DrawCommand::DrawLineStrip(DrawLineStripData { style, line_width, points })
            },
            CommandType::DrawLinePath => {
                let (count, style, line_width) = read_stroked_head(header, &mut c, style_type)?;
                let path = Path::parse(&mut c, header, count)?;
                DrawCommand::DrawLinePath(DrawLinePathData { style, line_width, path })
            },
            CommandType::OutlineFillPolygon => {
                let (count, fill_style, line_style, line_width) = read_outlined_head(
                    header,
                    &mut c,
                    style_type,
                )?;
                let points = read_points(header, &mut c, count)?;
                DrawCommand::OutlineFillPolygon(
                    OutlineFillPolygonData { fill_style, line_style, line_width, points },
                )
            },
            CommandType::OutlineFillRectangles => {
                let (count, fill_style, line_style, line_width) = read_outlined_head(
                    header,
                    &mut c,
                    style_type,
                )?;
                let rectangles = read_rectangles(header, &mut c, count)?;
                DrawCommand::OutlineFillRectangles(
                    OutlineFillRectanglesData { fill_style, line_style, line_width, rectangles },
                )
            },
            CommandType::OutlineFillPath => {
                let (count, fill_style, line_style, line_width) = read_outlined_head(
                    header,
                    &mut c,
                    style_type,
                )?;
                let path = Path::parse(&mut c, header, count)?;
                DrawCommand::OutlineFillPath(
                    OutlineFillPathData { path, fill_style, line_style, line_width },
                )
            },
            CommandType::TextHint => read_text_hint(header, &mut c)?,
        };
        *cursor = c;
        Ok(command)
    }

    /// Reads one command with its tag byte. Fails at the end of the document,
    /// which is no command.
    pub fn read(header: &TinyVgHeader, cursor: &mut ByteCursor) -> (r: Result<
        DrawCommand,
        TinyVgParseError,
    >)
        ensures
            reads_view(
                *old(cursor),
                *final(cursor),
                r,
                DrawCommandView::spec_read(
                    old(cursor).data@,
                    old(cursor).position as int,
                    header.coordinate_range,
                ),
                TinyVgParseError::InvalidCommand,
            ),
            r is Ok ==> old(cursor).position < final(cursor).position,
            r matches Ok(command) ==> command@.fits(header.coordinate_range),
    {
        let mut c = *cursor;
        let tag = match c.read_u8() {
            Some(byte) => byte,
            None => {
                return Err(TinyVgParseError::InvalidCommand);
            },
        };
        proof {
            assert(tag & 0x3F == tag % 64) by (bit_vector);
            assert((tag & 0xC0) >> 6 == tag / 64) by (bit_vector);
        }
        let kind = CommandType::from_u8(tag & 0x3F)?;
        let style_type = StyleType::from_u8((tag & 0xC0) >> 6)?;
        let command = DrawCommand::read_body(header, &mut c, kind, style_type)?;
        *cursor = c;
        Ok(command)
    }

    /// Writes one command: its tag byte, then its body.
    ///
    /// Fails with `InvalidCommand` where a list of the command is empty, where
    /// an outlined shape has more than 64 items, where a coordinate does not fit
    /// the coordinate range, or where a text hint counts another number of
    /// glyphs than it has offsets.
    pub fn write(&self, header: &TinyVgHeader, out: &mut Vec<u8>) -> (r: Result<
        (),
        TinyVgParseError,
    >)
        ensures
            writes(
                old(out)@,
                final(out)@,
                r,
                self@.fits(header.coordinate_range),
                self@.bytes(header.coordinate_range),
                TinyVgParseError::InvalidCommand,
            ),
    {
        match self {
            DrawCommand::FillPolygon(data) => data.write(header, out),
            DrawCommand::FillRectangles(data) => data.write(header, out),
            DrawCommand::FillPath(data) => data.write(header, out),
            DrawCommand::DrawLines(data) => data.write(header, out),
            DrawCommand::DrawLineLoop(data) => data.write(header, out),
            DrawCommand::DrawLineStrip(data) => data.write(header, out),
            DrawCommand::DrawLinePath(data) => data.write(header, out),
            DrawCommand::OutlineFillPolygon(data) => data.write(header, out),
            DrawCommand::OutlineFillRectangles(data) => data.write(header, out),
            DrawCommand::OutlineFillPath(data) => data.write(header, out),
            DrawCommand::TextHint(data) => data.write(header, out),
        }
    }
}

impl FillPolygonData {
    /// Writes the command: its tag byte, what opens it, and its points.
    pub fn write(&self, header: &TinyVgHeader, out: &mut Vec<u8>) -> (r: Result<
        (),
        TinyVgParseError,
    >)
        ensures
            writes(
                old(out)@,
                final(out)@,
                r,
                self@.fits(header.coordinate_range),
                self@.bytes(header.coordinate_range),
                TinyVgParseError::InvalidCommand,
            ),
    {
        let mark = out.len();
        let _ = write_command_and_primary_style(
            out,
            CommandType::FillPolygon,
            StyleType::from_style(&self.style),
        );
        if let Err(e) = write_filled_head(out, header, self.points.len(), &self.style) {
            return undo(out, mark, e);
        }
        if let Err(e) = write_points(out, header, &self.points) {
            return undo(out, mark, e);
        }
        Ok(())
    }
}

impl FillRectanglesData {
    /// Writes the command: its tag byte, what opens it, and its rectangles.
    pub fn write(&self, header: &TinyVgHeader, out: &mut Vec<u8>) -> (r: Result<
        (),
        TinyVgParseError,
    >)
        ensures
            writes(
                old(out)@,
                final(out)@,
                r,
                self@.fits(header.coordinate_range),
                self@.bytes(header.coordinate_range),
                TinyVgParseError::InvalidCommand,
            ),
    {
        let mark = out.len();
        let _ = write_command_and_primary_style(
            out,
            CommandType::FillRectangles,
            StyleType::from_style(&self.style),
        );
        if let Err(e) = write_filled_head(out, header, self.rectangles.len(), &self.style) {
            return undo(out, mark, e);
        }
        if let Err(e) = write_rectangles(out, header, &self.rectangles) {
            return undo(out, mark, e);
        }
        Ok(())
    }
}

impl FillPathData {
    /// Writes the command: its tag byte, what opens it, and its path.
    pub fn write(&self, header: &TinyVgHeader, out: &mut Vec<u8>) -> (r: Result<
        (),
        TinyVgParseError,
    >)
        ensures
            writes(
                old(out)@,
                final(out)@,
                r,
                self@.fits(header.coordinate_range),
                self@.bytes(header.coordinate_range),
                TinyVgParseError::InvalidCommand,
            ),
    {
        let mark = out.len();
        let _ = write_command_and_primary_style(
            out,
            CommandType::FillPath,
            StyleType::from_style(&self.style),
        );
        if let Err(e) = write_filled_head(out, header, self.path.segments.len(), &self.style) {
            return undo(out, mark, e);
        }
        if let Err(e) = write_path(&self.path, out, header) {
            return undo(out, mark, e);
        }
        Ok(())
    }
}

impl DrawLinesData {
    /// Writes the command: its tag byte, what opens it, and its lines.
    pub fn write(&self, header: &TinyVgHeader, out: &mut Vec<u8>) -> (r: Result<
        (),
        TinyVgParseError,
    >)
        ensures
            writes(
                old(out)@,
                final(out)@,
                r,
                self@.fits(header.coordinate_range),
                self@.bytes(header.coordinate_range),
                TinyVgParseError::InvalidCommand,
            ),
    {
        let mark = out.len();
        let _ = write_command_and_primary_style(
            out,
            CommandType::DrawLines,
            StyleType::from_style(&self.line_style),
        );
        if let Err(e) = write_stroked_head(
            out,
            header,
            self.lines.len(),
            &self.line_style,
            self.line_width,
        ) {
            return undo(out, mark, e);
        }
        if let Err(e) = write_lines(out, header, &self.lines) {
            return undo(out, mark, e);
        }
        Ok(())
    }
}

impl DrawLineLoopData {
    /// Writes the command: its tag byte, what opens it, and its points.
    pub fn write(&self, header: &TinyVgHeader, out: &mut Vec<u8>) -> (r: Result<
        (),
        TinyVgParseError,
    >)
        ensures
            writes(
                old(out)@,
                final(out)@,
                r,
                self@.fits(header.coordinate_range),
                self@.bytes(header.coordinate_range),
                TinyVgParseError::InvalidCommand,
            ),
    {
        let mark = out.len();
        let _ = write_command_and_primary_style(
            out,
            CommandType::DrawLineLoop,
            StyleType::from_style(&self.line_style),
        );
        if let Err(e) = write_stroked_head(
            out,
            header,
            self.points.len(),
            &self.line_style,
            self.line_width,
        ) {
            return undo(out, mark, e);
        }
        if let Err(e) = write_points(out, header, &self.points) {
            return undo(out, mark, e);
        }
        Ok(())
    }
}

impl DrawLineStripData {
    /// Writes the command: its tag byte, what opens it, and its points.
    pub fn write(&self, header: &TinyVgHeader, out: &mut Vec<u8>) -> (r: Result<
        (),
        TinyVgParseError,
    >)
        ensures
            writes(
                old(out)@,
                final(out)@,
                r,
                self@.fits(header.coordinate_range),
                self@.bytes(header.coordinate_range),
                TinyVgParseError::InvalidCommand,
            ),
    {
        let mark = out.len();
        let _ = write_command_and_primary_style(
            out,
            CommandType::DrawLineStrip,
            StyleType::from_style(&self.style),
        );
        if let Err(e) = write_stroked_head(
            out,
            header,
            self.points.len(),
            &self.style,
            self.line_width,
        ) {
            return undo(out, mark, e);
        }
        if let Err(e) = write_points(out, header, &self.points) {
            return undo(out, mark, e);
        }
        Ok(())
    }
}

impl DrawLinePathData {
    /// Writes the command: its tag byte, what opens it, and its path.
    pub fn write(&self, header: &TinyVgHeader, out: &mut Vec<u8>) -> (r: Result<
        (),
        TinyVgParseError,
    >)
        ensures
            writes(
                old(out)@,
                final(out)@,
                r,
                self@.fits(header.coordinate_range),
                self@.bytes(header.coordinate_range),
                TinyVgParseError::InvalidCommand,
            ),
    {
        let mark = out.len();
        let _ = write_command_and_primary_style(
            out,
            CommandType::DrawLinePath,
            StyleType::from_style(&self.style),
        );
        if let Err(e) = write_stroked_head(
            out,
            header,
            self.path.segments.len(),
            &self.style,
            self.line_width,
        ) {
            return undo(out, mark, e);
        }
        if let Err(e) = write_path(&self.path, out, header) {
            return undo(out, mark, e);
        }
        Ok(())
    }
}

impl OutlineFillPolygonData {
    /// Writes the command: its tag byte, what opens it, and its points.
    pub fn write(&self, header: &TinyVgHeader, out: &mut Vec<u8>) -> (r: Result<
        (),
        TinyVgParseError,
    >)
        ensures
            writes(
                old(out)@,
                final(out)@,
                r,
                self@.fits(header.coordinate_range),
                self@.bytes(header.coordinate_range),
                TinyVgParseError::InvalidCommand,
            ),
    {
        let mark = out.len();
        let _ = write_command_and_primary_style(
            out,
            CommandType::OutlineFillPolygon,
            StyleType::from_style(&self.fill_style),
        );
        if let Err(e) = write_outlined_head(
            out,
            header,
            self.points.len(),
            &self.fill_style,
            &self.line_style,
            self.line_width,
        ) {
            return undo(out, mark, e);
        }
        if let Err(e) = write_points(out, header, &self.points) {
            return undo(out, mark, e);
        }
        Ok(())
    }
}

impl OutlineFillRectanglesData {
    /// Writes the command: its tag byte, what opens it, and its rectangles.
    pub fn write(&self, header: &TinyVgHeader, out: &mut Vec<u8>) -> (r: Result<
        (),
        TinyVgParseError,
    >)
        ensures
            writes(
                old(out)@,
                final(out)@,
                r,
                self@.fits(header.coordinate_range),
                self@.bytes(header.coordinate_range),
                TinyVgParseError::InvalidCommand,
            ),
    {
        let mark = out.len();
        let _ = write_command_and_primary_style(
            out,
            CommandType::OutlineFillRectangles,
            StyleType::from_style(&self.fill_style),
        );
        if let Err(e) = write_outlined_head(
            out,
            header,
            self.rectangles.len(),
            &self.fill_style,
            &self.line_style,
            self.line_width,
        ) {
            return undo(out, mark, e);
        }
        if let Err(e) = write_rectangles(out, header, &self.rectangles) {
            return undo(out, mark, e);
        }
        Ok(())
    }
}

impl OutlineFillPathData {
    /// Writes the command: its tag byte, what opens it, and its path.
    pub fn write(&self, header: &TinyVgHeader, out: &mut Vec<u8>) -> (r: Result<
        (),
        TinyVgParseError,
    >)
        ensures
            writes(
                old(out)@,
                final(out)@,
                r,
                self@.fits(header.coordinate_range),
                self@.bytes(header.coordinate_range),
                TinyVgParseError::InvalidCommand,
            ),
    {
        let mark = out.len();
        let _ = write_command_and_primary_style(
            out,
            CommandType::OutlineFillPath,
            StyleType::from_style(&self.fill_style),
        );
        if let Err(e) = write_outlined_head(
            out,
            header,
            self.path.segments.len(),
            &self.fill_style,
            &self.line_style,
            self.line_width,
        ) {
            return undo(out, mark, e);
        }
        if let Err(e) = write_path(&self.path, out, header) {
            return undo(out, mark, e);
        }
        Ok(())
    }
}

impl TextHintData {
    /// Writes the text hint: its tag byte, centre, rotation, height, the
    /// text, the number of glyphs and their offsets.
    pub fn write(&self, header: &TinyVgHeader, out: &mut Vec<u8>) -> (r: Result<
        (),
        TinyVgParseError,
    >)
        ensures
            writes(
                old(out)@,
                final(out)@,
                r,
                self@.fits(header.coordinate_range),
                self@.bytes(header.coordinate_range),
                TinyVgParseError::InvalidCommand,
            ),
    {
        if self.glyph_length != self.glyph_offset.len() as u64 {
            return Err(TinyVgParseError::InvalidCommand);
        }
        let mark = out.len();
        let _ = write_command_and_primary_style(out, CommandType::TextHint, StyleType::Flat);
        if let Err(e) = write_point(&self.center, header, out) {
            return undo(out, mark, e);
        }
        if let Err(e) = write_unit(out, &header.coordinate_range, self.rotation) {
            return undo(out, mark, e);
        }
        if let Err(e) = write_unit(out, &header.coordinate_range, self.height) {
            return undo(out, mark, e);
        }
        let _ = write_text(out, &self.text);
        let _ = write_variable_sized_unsigned_number(out, self.glyph_length);
        if let Err(e) = write_glyphs(out, header, &self.glyph_offset) {
            return undo(out, mark, e);
        }
        Ok(())
    }
}

proof fn lemma_fill_polygon_round_trip(
    command: DrawCommandView,
    data: Seq<u8>,
    pos: int,
    range: CoordinateRange,
)
    requires
        command is FillPolygon,
        command.fits(range),
        holds_at(data, pos, command.bytes(range)),
    ensures
        DrawCommandView::spec_read(data, pos, range) == Some(
            (command, pos + command.bytes(range).len()),
        ),
{
    if let DrawCommandView::FillPolygon { style, points } = command {
        let head = filled_head_bytes(points.len(), style, range);
        lemma_holds_at_concat(data, pos, seq![command.tag()], command.body_bytes(range));
        lemma_holds_at_index(data, pos, seq![command.tag()], 0);
        lemma_holds_at_concat(data, pos + 1, head, points_bytes(points, range));
        lemma_filled_head_round_trip(data, pos + 1, range, points.len() as u64, style);
        lemma_points_round_trip(data, pos + 1 + head.len(), range, points);
    }
}

proof fn lemma_fill_rectangles_round_trip(
    command: DrawCommandView,
    data: Seq<u8>,
    pos: int,
    range: CoordinateRange,
)
    requires
        command is FillRectangles,
        command.fits(range),
        holds_at(data, pos, command.bytes(range)),
    ensures
        DrawCommandView::spec_read(data, pos, range) == Some(
            (command, pos + command.bytes(range).len()),
        ),
{
    if let DrawCommandView::FillRectangles { style, rectangles } = command {
        let head = filled_head_bytes(rectangles.len(), style, range);
        lemma_holds_at_concat(data, pos, seq![command.tag()], command.body_bytes(range));
        lemma_holds_at_index(data, pos, seq![command.tag()], 0);
        lemma_holds_at_concat(data, pos + 1, head, rectangles_bytes(rectangles, range));
        lemma_filled_head_round_trip(data, pos + 1, range, rectangles.len() as u64, style);
        lemma_rectangles_round_trip(data, pos + 1 + head.len(), range, rectangles);
    }
}

proof fn lemma_fill_path_round_trip(
    command: DrawCommandView,
    data: Seq<u8>,
    pos: int,
    range: CoordinateRange,
)
    requires
        command is FillPath,
        command.fits(range),
        holds_at(data, pos, command.bytes(range)),
    ensures
        DrawCommandView::spec_read(data, pos, range) == Some(
            (command, pos + command.bytes(range).len()),
        ),
{
    if let DrawCommandView::FillPath { style, path } = command {
        let head = filled_head_bytes(path.segments.len(), style, range);
        lemma_holds_at_concat(data, pos, seq![command.tag()], command.body_bytes(range));
        lemma_holds_at_index(data, pos, seq![command.tag()], 0);
        lemma_holds_at_concat(data, pos + 1, head, path.bytes(range));
        lemma_filled_head_round_trip(data, pos + 1, range, path.segments.len() as u64, style);
        path.lemma_round_trip(data, pos + 1 + head.len(), range);
    }
}

proof fn lemma_draw_lines_round_trip(
    command: DrawCommandView,
    data: Seq<u8>,
    pos: int,
    range: CoordinateRange,
)
    requires
        command is DrawLines,
        command.fits(range),
        holds_at(data, pos, command.bytes(range)),
    ensures
        DrawCommandView::spec_read(data, pos, range) == Some(
            (command, pos + command.bytes(range).len()),
        ),
{
    if let DrawCommandView::DrawLines { line_style, line_width, lines } = command {
        let head = stroked_head_bytes(lines.len(), line_style, line_width, range);
        lemma_holds_at_concat(data, pos, seq![command.tag()], command.body_bytes(range));
        lemma_holds_at_index(data, pos, seq![command.tag()], 0);
        lemma_holds_at_concat(data, pos + 1, head, lines_bytes(lines, range));
        lemma_stroked_head_round_trip(
            data,
            pos + 1,
            range,
            lines.len() as u64,
            line_style,
            line_width,
        );
        lemma_lines_round_trip(data, pos + 1 + head.len(), range, lines);
    }
}

proof fn lemma_draw_line_loop_round_trip(
    command: DrawCommandView,
    data: Seq<u8>,
    pos: int,
    range: CoordinateRange,
)
    requires
        command is DrawLineLoop,
        command.fits(range),
        holds_at(data, pos, command.bytes(range)),
    ensures
        DrawCommandView::spec_read(data, pos, range) == Some(
            (command, pos + command.bytes(range).len()),
        ),
{
    if let DrawCommandView::DrawLineLoop { line_style, line_width, points } = command {
        let head = stroked_head_bytes(points.len(), line_style, line_width, range);
        lemma_holds_at_concat(data, pos, seq![command.tag()], command.body_bytes(range));
        lemma_holds_at_index(data, pos, seq![command.tag()], 0);
        lemma_holds_at_concat(data, pos + 1, head, points_bytes(points, range));
        lemma_stroked_head_round_trip(
            data,
            pos + 1,
            range,
            points.len() as u64,
            line_style,
            line_width,
        );
        lemma_points_round_trip(data, pos + 1 + head.len(), range, points);
    }
}

proof fn lemma_draw_line_strip_round_trip(
    command: DrawCommandView,
    data: Seq<u8>,
    pos: int,
    range: CoordinateRange,
)
    requires
        command is DrawLineStrip,
        command.fits(range),
        holds_at(data, pos, command.bytes(range)),
    ensures
        DrawCommandView::spec_read(data, pos, range) == Some(
            (command, pos + command.bytes(range).len()),
        ),
{
    if let DrawCommandView::DrawLineStrip { style, line_width, points } = command {
        let head = stroked_head_bytes(points.len(), style, line_width, range);
        lemma_holds_at_concat(data, pos, seq![command.tag()], command.body_bytes(range));
        lemma_holds_at_index(data, pos, seq![command.tag()], 0);
        lemma_holds_at_concat(data, pos + 1, head, points_bytes(points, range));
        lemma_stroked_head_round_trip(data, pos + 1, range, points.len() as u64, style, line_width);
        lemma_points_round_trip(data, pos + 1 + head.len(), range, points);
    }
}

proof fn lemma_draw_line_path_round_trip(
    command: DrawCommandView,
    data: Seq<u8>,
    pos: int,
    range: CoordinateRange,
)
    requires
        command is DrawLinePath,
        command.fits(range),
        holds_at(data, pos, command.bytes(range)),
    ensures
        DrawCommandView::spec_read(data, pos, range) == Some(
            (command, pos + command.bytes(range).len()),
        ),
{
    if let DrawCommandView::DrawLinePath { style, line_width, path } = command {
        let head = stroked_head_bytes(path.segments.len(), style, line_width, range);
        lemma_holds_at_concat(data, pos, seq![command.tag()], command.body_bytes(range));
        lemma_holds_at_index(data, pos, seq![command.tag()], 0);
        lemma_holds_at_concat(data, pos + 1, head, path.bytes(range));
        lemma_stroked_head_round_trip(
            data,
            pos + 1,
            range,
            path.segments.len() as u64,
            style,
            line_width,
        );
        path.lemma_round_trip(data, pos + 1 + head.len(), range);
    }
}

proof fn lemma_outline_fill_polygon_round_trip(
    command: DrawCommandView,
    data: Seq<u8>,
    pos: int,
    range: CoordinateRange,
)
    requires
        command is OutlineFillPolygon,
        command.fits(range),
        holds_at(data, pos, command.bytes(range)),
    ensures
        DrawCommandView::spec_read(data, pos, range) == Some(
            (command, pos + command.bytes(range).len()),
        ),
{
    if let DrawCommandView::OutlineFillPolygon {
        fill_style,
        line_style,
        line_width,
        points,
    } = command {
        let head = outlined_head_bytes(points.len(), fill_style, line_style, line_width, range);
        lemma_holds_at_concat(data, pos, seq![command.tag()], command.body_bytes(range));
        lemma_holds_at_index(data, pos, seq![command.tag()], 0);
        lemma_holds_at_concat(data, pos + 1, head, points_bytes(points, range));
        lemma_outlined_head_round_trip(
            data,
            pos + 1,
            range,
            points.len() as u64,
            fill_style,
            line_style,
            line_width,
        );
        lemma_points_round_trip(data, pos + 1 + head.len(), range, points);
    }
}

proof fn lemma_outline_fill_rectangles_round_trip(
    command: DrawCommandView,
    data: Seq<u8>,
    pos: int,
    range: CoordinateRange,
)
    requires
        command is OutlineFillRectangles,
        command.fits(range),
        holds_at(data, pos, command.bytes(range)),
    ensures
        DrawCommandView::spec_read(data, pos, range) == Some(
            (command, pos + command.bytes(range).len()),
        ),
{
    if let DrawCommandView::OutlineFillRectangles {
        fill_style,
        line_style,
        line_width,
        rectangles,
    } = command {
        let head = outlined_head_bytes(rectangles.len(), fill_style, line_style, line_width, range);
        lemma_holds_at_concat(data, pos, seq![command.tag()], command.body_bytes(range));
        lemma_holds_at_index(data, pos, seq![command.tag()], 0);
        lemma_holds_at_concat(data, pos + 1, head, rectangles_bytes(rectangles, range));
        lemma_outlined_head_round_trip(
            data,
            pos + 1,
            range,
            rectangles.len() as u64,
            fill_style,
            line_style,
            line_width,
        );
        lemma_rectangles_round_trip(data, pos + 1 + head.len(), range, rectangles);
    }
}

proof fn lemma_outline_fill_path_round_trip(
    command: DrawCommandView,
    data: Seq<u8>,
    pos: int,
    range: CoordinateRange,
)
    requires
        command is OutlineFillPath,
        command.fits(range),
        holds_at(data, pos, command.bytes(range)),
    ensures
        DrawCommandView::spec_read(data, pos, range) == Some(
            (command, pos + command.bytes(range).len()),
        ),
{
    if let DrawCommandView::OutlineFillPath { fill_style, line_style, line_width, path } = command {
        let head = outlined_head_bytes(
            path.segments.len(),
            fill_style,
            line_style,
            line_width,
            range,
        );
        lemma_holds_at_concat(data, pos, seq![command.tag()], command.body_bytes(range));
        lemma_holds_at_index(data, pos, seq![command.tag()], 0);
        lemma_holds_at_concat(data, pos + 1, head, path.bytes(range));
        lemma_outlined_head_round_trip(
            data,
            pos + 1,
            range,
            path.segments.len() as u64,
            fill_style,
            line_style,
            line_width,
        );
        path.lemma_round_trip(data, pos + 1 + head.len(), range);
    }
}

proof fn lemma_text_hint_round_trip(
    command: DrawCommandView,
    data: Seq<u8>,
    pos: int,
    range: CoordinateRange,
)
    requires
        command is TextHint,
        command.fits(range),
        holds_at(data, pos, command.bytes(range)),
    ensures
        DrawCommandView::spec_read(data, pos, range) == Some(
            (command, pos + command.bytes(range).len()),
        ),
{
    reveal(DrawCommandView::spec_read_text_hint);
    if let DrawCommandView::TextHint {
        center,
        rotation,
        height,
        text,
        glyph_length,
        glyph_offset,
    } = command {
        let a = center.bytes(range);
        let b = unit_bytes(rotation.0 as int, range);
        let c = unit_bytes(height.0 as int, range);
        let d = text_bytes(text);
        let e = varint_bytes(glyph_length as nat);
        let f = glyphs_bytes(glyph_offset, range);
        lemma_holds_at_concat(data, pos, seq![command.tag()], command.body_bytes(range));
        lemma_holds_at_index(data, pos, seq![command.tag()], 0);
        let p = pos + 1;
        lemma_holds_at_concat(data, p, a + b + c + d + e, f);
        lemma_holds_at_concat(data, p, a + b + c + d, e);
        lemma_holds_at_concat(data, p, a + b + c, d);
        lemma_holds_at_concat(data, p, a + b, c);
        lemma_holds_at_concat(data, p, a, b);
        center.lemma_round_trip(data, p, range);
        lemma_unit_round_trip(data, p + a.len(), range, rotation);
        lemma_unit_round_trip(data, p + a.len() + b.len(), range, height);
        lemma_text_round_trip(data, p + a.len() + b.len() + c.len(), text);
        lemma_varint_round_trip(data, p + a.len() + b.len() + c.len() + d.len(), glyph_length);
        lemma_glyphs_round_trip(
            data,
            p + a.len() + b.len() + c.len() + d.len() + e.len(),
            range,
            glyph_offset,
        );
    }
}

impl DrawCommandView {
    /// A command that was written is read back as it was.
    pub proof fn lemma_round_trip(self, data: Seq<u8>, pos: int, range: CoordinateRange)
        requires
            self.fits(range),
            holds_at(data, pos, self.bytes(range)),
        ensures
            DrawCommandView::spec_read(data, pos, range) == Some(
                (self, pos + self.bytes(range).len()),
            ),
            self.bytes(range).len() >= 1,
            self.tag() % 64 != 0,
    {
        match self {
            DrawCommandView::FillPolygon { .. } => {
                lemma_fill_polygon_round_trip(self, data, pos, range);
            },
            DrawCommandView::FillRectangles { .. } => {
                lemma_fill_rectangles_round_trip(self, data, pos, range);
            },
            DrawCommandView::FillPath { .. } => {
                lemma_fill_path_round_trip(self, data, pos, range);
            },
            DrawCommandView::DrawLines { .. } => {
                lemma_draw_lines_round_trip(self, data, pos, range);
            },
            DrawCommandView::DrawLineLoop { .. } => {
                lemma_draw_line_loop_round_trip(self, data, pos, range);
            },
            DrawCommandView::DrawLineStrip { .. } => {
                lemma_draw_line_strip_round_trip(self, data, pos, range);
            },
            DrawCommandView::DrawLinePath { .. } => {
                lemma_draw_line_path_round_trip(self, data, pos, range);
            },
            DrawCommandView::OutlineFillPolygon { .. } => {
                lemma_outline_fill_polygon_round_trip(self, data, pos, range);
            },
            DrawCommandView::OutlineFillRectangles { .. } => {
                lemma_outline_fill_rectangles_round_trip(self, data, pos, range);
            },
            DrawCommandView::OutlineFillPath { .. } => {
                lemma_outline_fill_path_round_trip(self, data, pos, range);
            },
            DrawCommandView::TextHint { .. } => {
                lemma_text_hint_round_trip(self, data, pos, range);
            },
        }
    }
}

/// How a filled path with an outline packs its second style: the byte behind
/// the tag byte holds the kind of the line style in its top two bits and the
/// number of segments less one in its other six bits.
pub proof fn lemma_outline_fill_path_packing(
    fill_style: Style,
    line_style: Style,
    line_width: Unit,
    path: PathView,
    range: CoordinateRange,
)
    requires
        (DrawCommandView::OutlineFillPath { fill_style, line_style, line_width, path }).fits(
            range,
        ),
    ensures
        (DrawCommandView::OutlineFillPath { fill_style, line_style, line_width, path }).bytes(
            range,
        )[1] / 64 == StyleType::spec_from_style(line_style).spec_to_u8(),
        (DrawCommandView::OutlineFillPath { fill_style, line_style, line_width, path }).bytes(
            range,
        )[1] % 64 == path.segments.len() - 1,
{
}

} // verus!
