//! Styles on the wire, and the tag byte that names a command and its style.
use crate::commands::{
    CommandType, FlatColored, LinearGradient, Point, RadialGradient, Style, StyleType,
};
use crate::common::{
    lemma_varint_round_trip, read_number, spec_read_varint, varint_bytes, write_unit,
    write_variable_sized_unsigned_number,
};
use crate::cursor::ByteCursor;
use crate::header::{CoordinateRange, TinyVgHeader};
use crate::wire::{holds_at, lemma_holds_at_concat, reads, undo, writes};
use crate::TinyVgParseError;
use vstd::prelude::*;

verus! {

impl FlatColored {
    /// The bytes of the style: its colour index.
    pub open spec fn bytes(self) -> Seq<u8> {
        varint_bytes(self.color_index as nat)
    }

    /// The flat style at `pos` and the position behind it.
    pub open spec fn spec_read(data: Seq<u8>, pos: int) -> Option<(FlatColored, int)> {
        match spec_read_varint(data, pos) {
            Some((color_index, end)) => Some((FlatColored { color_index }, end)),
            None => None,
        }
    }

    /// Reads a flat style: one colour index.
    pub fn read_from_cursor(cursor: &mut ByteCursor) -> (r: Result<FlatColored, TinyVgParseError>)
        ensures
            reads(
                *old(cursor),
                *final(cursor),
                r,
                FlatColored::spec_read(old(cursor).data@, old(cursor).position as int),
                TinyVgParseError::InvalidCommand,
            ),
    {
        let color_index = read_number(cursor)?;
        Ok(FlatColored { color_index })
    }
}

impl LinearGradient {
    /// Whether both points fit the width of `range`.
    pub open spec fn fits(self, range: CoordinateRange) -> bool {
        self.point_0.fits(range) && self.point_1.fits(range)
    }

    /// The bytes of the gradient: its two points, then its two colour indices.
    pub open spec fn bytes(self, range: CoordinateRange) -> Seq<u8> {
        self.point_0.bytes(range) + self.point_1.bytes(range) + varint_bytes(
            self.color_index_0 as nat,
        ) + varint_bytes(self.color_index_1 as nat)
    }

    /// The gradient at `pos` and the position behind it.
    pub open spec fn spec_read(data: Seq<u8>, pos: int, range: CoordinateRange) -> Option<
        (LinearGradient, int),
    > {
        match Point::spec_read(data, pos, range) {
            Some((point_0, after_0)) => match Point::spec_read(data, after_0, range) {
                Some((point_1, after_1)) => match spec_read_varint(data, after_1) {
                    Some((color_index_0, after_2)) => match spec_read_varint(data, after_2) {
                        Some((color_index_1, end)) => Some(
                            (
                                LinearGradient { point_0, point_1, color_index_0, color_index_1 },
                                end,
                            ),
                        ),
                        None => None,
                    },
                    None => None,
                },
                None => None,
            },
            None => None,
        }
    }

    /// Reads a linear gradient: two points, then two colour indices.
    pub fn read_from_cursor(header: &TinyVgHeader, cursor: &mut ByteCursor) -> (r: Result<
        LinearGradient,
        TinyVgParseError,
    >)
        ensures
            reads(
                *old(cursor),
                *final(cursor),
                r,
                LinearGradient::spec_read(
                    old(cursor).data@,
                    old(cursor).position as int,
                    header.coordinate_range,
                ),
                TinyVgParseError::InvalidCommand,
            ),
            r matches Ok(gradient) ==> gradient.fits(header.coordinate_range),
    {
        let mut c = *cursor;
        let point_0 = Point::read_point(header, &mut c)?;
        let point_1 = Point::read_point(header, &mut c)?;
        let color_index_0 = read_number(&mut c)?;
        let color_index_1 = read_number(&mut c)?;
        *cursor = c;
        Ok(LinearGradient { point_0, point_1, color_index_0, color_index_1 })
    }

    /// Writes a linear gradient: two points, then two colour indices. Fails
    /// where a coordinate does not fit the coordinate range.
    pub fn write(&self, header: &TinyVgHeader, out: &mut Vec<u8>) -> (r: Result<
        (),
        TinyVgParseError,
    >)
        ensures
            writes(
                old(out)@,
                final(out)@,
                r,
                self.fits(header.coordinate_range),
                self.bytes(header.coordinate_range),
                TinyVgParseError::InvalidCommand,
            ),
    {
        let mark = out.len();
        write_unit(out, &header.coordinate_range, self.point_0.x)?;
        if let Err(e) = write_unit(out, &header.coordinate_range, self.point_0.y) {
            return undo(out, mark, e);
        }
        if let Err(e) = write_unit(out, &header.coordinate_range, self.point_1.x) {
            return undo(out, mark, e);
        }
        if let Err(e) = write_unit(out, &header.coordinate_range, self.point_1.y) {
            return undo(out, mark, e);
        }
        let _ = write_variable_sized_unsigned_number(out, self.color_index_0);
        let _ = write_variable_sized_unsigned_number(out, self.color_index_1);
        Ok(())
    }

    /// A linear gradient that was written is read back as it was.
    pub proof fn lemma_round_trip(self, data: Seq<u8>, pos: int, range: CoordinateRange)
        requires
            self.fits(range),
            holds_at(data, pos, self.bytes(range)),
        ensures
            LinearGradient::spec_read(data, pos, range) == Some(
                (self, pos + self.bytes(range).len()),
            ),
    {
        let first = self.point_0.bytes(range);
        let second = self.point_1.bytes(range);
        let index_0 = varint_bytes(self.color_index_0 as nat);
        let index_1 = varint_bytes(self.color_index_1 as nat);
        lemma_holds_at_concat(data, pos, first + second + index_0, index_1);
        lemma_holds_at_concat(data, pos, first + second, index_0);
        lemma_holds_at_concat(data, pos, first, second);
        self.point_0.lemma_round_trip(data, pos, range);
        self.point_1.lemma_round_trip(data, pos + first.len(), range);
        lemma_varint_round_trip(data, pos + first.len() + second.len(), self.color_index_0);
        lemma_varint_round_trip(
            data,
            pos + first.len() + second.len() + index_0.len(),
            self.color_index_1,
        );
    }
}

impl RadialGradient {
    /// Whether both points fit the width of `range`.
    pub open spec fn fits(self, range: CoordinateRange) -> bool {
        self.point_0.fits(range) && self.point_1.fits(range)
    }

    /// The bytes of the gradient: its two points, then its two colour indices.
    pub open spec fn bytes(self, range: CoordinateRange) -> Seq<u8> {
        self.point_0.bytes(range) + self.point_1.bytes(range) + varint_bytes(
            self.color_index_0 as nat,
        ) + varint_bytes(self.color_index_1 as nat)
    }

    /// The gradient at `pos` and the position behind it.
    pub open spec fn spec_read(data: Seq<u8>, pos: int, range: CoordinateRange) -> Option<
        (RadialGradient, int),
    > {
        match Point::spec_read(data, pos, range) {
            Some((point_0, after_0)) => match Point::spec_read(data, after_0, range) {
                Some((point_1, after_1)) => match spec_read_varint(data, after_1) {
                    Some((color_index_0, after_2)) => match spec_read_varint(data, after_2) {
                        Some((color_index_1, end)) => Some(
                            (
                                RadialGradient { point_0, point_1, color_index_0, color_index_1 },
                                end,
                            ),
                        ),
                        None => None,
                    },
                    None => None,
                },
                None => None,
            },
            None => None,
        }
    }

    /// Reads a radial gradient: two points, then two colour indices.
    pub fn read_from_cursor(header: &TinyVgHeader, cursor: &mut ByteCursor) -> (r: Result<
        RadialGradient,
        TinyVgParseError,
    >)
        ensures
            reads(
                *old(cursor),
                *final(cursor),
                r,
                RadialGradient::spec_read(
                    old(cursor).data@,
                    old(cursor).position as int,
                    header.coordinate_range,
                ),
                TinyVgParseError::InvalidCommand,
            ),
            r matches Ok(gradient) ==> gradient.fits(header.coordinate_range),
    {
        let mut c = *cursor;
        let point_0 = Point::read_point(header, &mut c)?;
        let point_1 = Point::read_point(header, &mut c)?;
        let color_index_0 = read_number(&mut c)?;
        let color_index_1 = read_number(&mut c)?;
        *cursor = c;
        Ok(RadialGradient { point_0, point_1, color_index_0, color_index_1 })
    }

    /// Writes a radial gradient: two points, then two colour indices. Fails
    /// where a coordinate does not fit the coordinate range.
    pub fn write(&self, header: &TinyVgHeader, out: &mut Vec<u8>) -> (r: Result<
        (),
        TinyVgParseError,
    >)
        ensures
            writes(
                old(out)@,
                final(out)@,
                r,
                self.fits(header.coordinate_range),
                self.bytes(header.coordinate_range),
                TinyVgParseError::InvalidCommand,
            ),
    {
        let mark = out.len();
        write_unit(out, &header.coordinate_range, self.point_0.x)?;
        if let Err(e) = write_unit(out, &header.coordinate_range, self.point_0.y) {
            return undo(out, mark, e);
        }
        if let Err(e) = write_unit(out, &header.coordinate_range, self.point_1.x) {
            return undo(out, mark, e);
        }
        if let Err(e) = write_unit(out, &header.coordinate_range, self.point_1.y) {
            return undo(out, mark, e);
        }
        let _ = write_variable_sized_unsigned_number(out, self.color_index_0);
        let _ = write_variable_sized_unsigned_number(out, self.color_index_1);
        Ok(())
    }

    /// A radial gradient that was written is read back as it was.
    pub proof fn lemma_round_trip(self, data: Seq<u8>, pos: int, range: CoordinateRange)
        requires
            self.fits(range),
            holds_at(data, pos, self.bytes(range)),
        ensures
            RadialGradient::spec_read(data, pos, range) == Some(
                (self, pos + self.bytes(range).len()),
            ),
    {
        let first = self.point_0.bytes(range);
        let second = self.point_1.bytes(range);
        let index_0 = varint_bytes(self.color_index_0 as nat);
        let index_1 = varint_bytes(self.color_index_1 as nat);
        lemma_holds_at_concat(data, pos, first + second + index_0, index_1);
        lemma_holds_at_concat(data, pos, first + second, index_0);
        lemma_holds_at_concat(data, pos, first, second);
        self.point_0.lemma_round_trip(data, pos, range);
        self.point_1.lemma_round_trip(data, pos + first.len(), range);
        lemma_varint_round_trip(data, pos + first.len() + second.len(), self.color_index_0);
        lemma_varint_round_trip(
            data,
            pos + first.len() + second.len() + index_0.len(),
            self.color_index_1,
        );
    }
}

impl Style {
    /// Whether every coordinate of the style fits the width of `range`.
    pub open spec fn fits(self, range: CoordinateRange) -> bool {
        match self {
            Style::FlatColor(_) => true,
            Style::LinearGradient(gradient) => gradient.fits(range),
            Style::RadialGradient(gradient) => gradient.fits(range),
        }
    }

    /// The bytes of the style, without its kind.
    pub open spec fn bytes(self, range: CoordinateRange) -> Seq<u8> {
        match self {
            Style::FlatColor(flat) => flat.bytes(),
            Style::LinearGradient(gradient) => gradient.bytes(range),
            Style::RadialGradient(gradient) => gradient.bytes(range),
        }
    }

    /// The style of the kind `kind` at `pos` and the position behind it.
    pub open spec fn spec_read(data: Seq<u8>, pos: int, range: CoordinateRange, kind: StyleType)
        -> Option<(Style, int)> {
        match kind {
            StyleType::Flat => match FlatColored::spec_read(data, pos) {
                Some((flat, end)) => Some((Style::FlatColor(flat), end)),
                None => None,
            },
            StyleType::Linear => match LinearGradient::spec_read(data, pos, range) {
                Some((gradient, end)) => Some((Style::LinearGradient(gradient), end)),
                None => None,
            },
            StyleType::Radial => match RadialGradient::spec_read(data, pos, range) {
                Some((gradient, end)) => Some((Style::RadialGradient(gradient), end)),
                None => None,
            },
        }
    }

    /// Reads a style of the kind that the tag byte named.
    pub fn read_cursor_using_style_type(
        header: &TinyVgHeader,
        cursor: &mut ByteCursor,
        style_type: &StyleType,
    ) -> (r: Result<Style, TinyVgParseError>)
        ensures
            reads(
                *old(cursor),
                *final(cursor),
                r,
                Style::spec_read(
                    old(cursor).data@,
                    old(cursor).position as int,
                    header.coordinate_range,
                    *style_type,
                ),
                TinyVgParseError::InvalidCommand,
            ),
            r matches Ok(style) ==> style.fits(header.coordinate_range)
                && StyleType::spec_from_style(style) == *style_type,
    {
        match style_type {
            StyleType::Flat => Ok(Style::FlatColor(FlatColored::read_from_cursor(cursor)?)),
            StyleType::Linear => Ok(
                Style::LinearGradient(LinearGradient::read_from_cursor(header, cursor)?),
            ),
            StyleType::Radial => Ok(
                Style::RadialGradient(RadialGradient::read_from_cursor(header, cursor)?),
            ),
        }
    }

    /// A style that was written is read back as it was, by its kind.
    pub proof fn lemma_round_trip(self, data: Seq<u8>, pos: int, range: CoordinateRange)
        requires
            self.fits(range),
            holds_at(data, pos, self.bytes(range)),
        ensures
            Style::spec_read(data, pos, range, StyleType::spec_from_style(self)) == Some(
                (self, pos + self.bytes(range).len()),
            ),
    {
        match self {
            Style::FlatColor(flat) => lemma_varint_round_trip(data, pos, flat.color_index),
            Style::LinearGradient(gradient) => gradient.lemma_round_trip(data, pos, range),
            Style::RadialGradient(gradient) => gradient.lemma_round_trip(data, pos, range),
        }
    }
}

/// Writes a style, without its kind: a colour index, or two points and two
/// colour indices. Fails where a coordinate does not fit the coordinate range.
pub fn write_style(out: &mut Vec<u8>, header: &TinyVgHeader, style: &Style) -> (r: Result<
    (),
    TinyVgParseError,
>)
    ensures
        writes(
            old(out)@,
            final(out)@,
            r,
            style.fits(header.coordinate_range),
            style.bytes(header.coordinate_range),
            TinyVgParseError::InvalidCommand,
        ),
{
    match style {
        Style::FlatColor(flat) => write_variable_sized_unsigned_number(out, flat.color_index),
        Style::LinearGradient(gradient) => gradient.write(header, out),
        Style::RadialGradient(gradient) => gradient.write(header, out),
    }
}

/// The byte that holds a number below 64 in bits 0 to 5 and the kind of a
/// style in bits 6 and 7.
pub open spec fn packed_with_style(low: int, style_type: StyleType) -> u8
    recommends
        0 <= low < 64,
{
    (low + 64 * style_type.spec_to_u8()) as u8
}

/// Packs the low six bits of `low` with the kind of a style: `low` in bits 0
/// to 5, the kind in bits 6 and 7.
pub fn pack_with_style(low: u8, style_type: StyleType) -> (byte: u8)
    ensures
        byte == packed_with_style(low as int % 64, style_type),
        byte % 64 == low % 64,
        byte / 64 == style_type.spec_to_u8(),
{
    let kind = style_type.to_u8();
    proof {
        assert(kind <= 2 ==> (kind << 6) | (low & 0x3F) == low % 64 + 64 * kind) by (bit_vector);
    }
    (kind << 6) | (low & 0x3F)
}

/// Writes the tag byte of a command: its kind in bits 0 to 5 and the kind of
/// its primary style in bits 6 and 7. This cannot fail.
pub fn write_command_and_primary_style(
    out: &mut Vec<u8>,
    command: CommandType,
    style_type: StyleType,
) -> (r: Result<(), TinyVgParseError>)
    ensures
        r is Ok,
        final(out)@ == old(out)@ + seq![
            packed_with_style(command.spec_to_u8() as int, style_type),
        ],
{
    let byte = pack_with_style(command.to_u8(), style_type);
    out.push(byte);
    assert(out@ =~= old(out)@ + seq![byte]);
    Ok(())
}

} // verus!
