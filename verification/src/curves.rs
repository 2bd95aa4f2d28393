//! Curves and arcs on the wire: what follows the tag byte and the line width
//! of the path commands that draw them.
use crate::commands::{ArcCircle, ArcEllipse, CubicBezier, Point, QuadraticBezier};
use crate::common::{lemma_unit_round_trip, read_unit, spec_read_unit, unit_bytes, write_unit};
use crate::cursor::ByteCursor;
use crate::geometry::write_point;
use crate::header::{CoordinateRange, TinyVgHeader};
use crate::wire::{holds_at, lemma_holds_at_concat, lemma_holds_at_index, reads, undo, writes};
use crate::TinyVgParseError;
use vstd::prelude::*;

verus! {

/// The byte that holds the two flags of an arc: the large arc in bit 0, the
/// sweep in bit 1.
pub open spec fn arc_flags(large_arc: bool, sweep: bool) -> u8 {
    ((if large_arc {
        1int
    } else {
        0int
    }) + (if sweep {
        2int
    } else {
        0int
    })) as u8
}

/// The byte of `arc_flags`.
fn pack_arc_flags(large_arc: bool, sweep: bool) -> (flags: u8)
    ensures
        flags == arc_flags(large_arc, sweep),
{
    let mut flags: u8 = 0;
    if large_arc {
        flags = flags | 0x01;
        assert(0u8 | 0x01 == 1) by (bit_vector);
    }
    if sweep {
        assert(0u8 | 0x02 == 2 && 1u8 | 0x02 == 3) by (bit_vector);
        flags = flags | 0x02;
    }
    flags
}

/// Reads the flags of an arc: bit 0 for the large arc, bit 1 for the sweep.
/// The other bits are not looked at.
fn read_arc_flags(cursor: &mut ByteCursor) -> (r: Result<(bool, bool), TinyVgParseError>)
    ensures
        reads(
            *old(cursor),
            *final(cursor),
            r,
            if old(cursor).position < old(cursor).data@.len() {
                let flags = old(cursor).data@[old(cursor).position as int];
                Some(((flags % 2 == 1, flags / 2 % 2 == 1), old(cursor).position + 1))
            } else {
                None
            },
            TinyVgParseError::InvalidCommand,
        ),
{
    match cursor.read_u8() {
        Some(flags) => {
            proof {
                assert((flags & 0x01 != 0) == (flags % 2 == 1)) by (bit_vector);
                assert((flags & 0x02 != 0) == (flags / 2 % 2 == 1)) by (bit_vector);
            }
            Ok((flags & 0x01 != 0, flags & 0x02 != 0))
        },
        None => Err(TinyVgParseError::InvalidCommand),
    }
}

impl CubicBezier {
    /// Whether the three points fit the width of `range`.
    pub open spec fn fits(self, range: CoordinateRange) -> bool {
        &&& self.control_point_0.fits(range)
        &&& self.control_point_1.fits(range)
        &&& self.point_1.fits(range)
    }

    /// The bytes of the curve: the two control points, then the end point.
    pub open spec fn bytes(self, range: CoordinateRange) -> Seq<u8> {
        self.control_point_0.bytes(range) + self.control_point_1.bytes(range) + self.point_1.bytes(
            range,
        )
    }

    /// The curve at `pos` and the position behind it.
    pub open spec fn spec_read(data: Seq<u8>, pos: int, range: CoordinateRange) -> Option<
        (CubicBezier, int),
    > {
        match Point::spec_read(data, pos, range) {
            Some((control_point_0, after_0)) => match Point::spec_read(data, after_0, range) {
                Some((control_point_1, after_1)) => match Point::spec_read(data, after_1, range) {
                    Some((point_1, end)) => Some(
                        (CubicBezier { control_point_0, control_point_1, point_1 }, end),
                    ),
                    None => None,
                },
                None => None,
            },
            None => None,
        }
    }

    /// Reads a cubic Bezier curve: two control points, then the end point.
    pub fn read(header: &TinyVgHeader, cursor: &mut ByteCursor) -> (r: Result<
        CubicBezier,
        TinyVgParseError,
    >)
        ensures
            reads(
                *old(cursor),
                *final(cursor),
                r,
                CubicBezier::spec_read(
                    old(cursor).data@,
                    old(cursor).position as int,
                    header.coordinate_range,
                ),
                TinyVgParseError::InvalidCommand,
            ),
            r matches Ok(value) ==> value.fits(header.coordinate_range),
    {
        let mut c = *cursor;
        let control_point_0 = Point::read_point(header, &mut c)?;
        let control_point_1 = Point::read_point(header, &mut c)?;
        let point_1 = Point::read_point(header, &mut c)?;
        *cursor = c;
        Ok(CubicBezier { control_point_0, control_point_1, point_1 })
    }

    /// Writes a cubic Bezier curve: two control points, then the end point.
    /// Fails where a coordinate does not fit the coordinate range.
    pub fn write(&self, header: &TinyVgHeader, out: &mut Vec<u8>) -> (r: Result<
        (),
        TinyVgParseError,
    >)
        ensures
            writes(
                old(out)@,
                final(out)@,
                r,
                self.fits(header.coordinate_range),
                self.bytes(header.coordinate_range),
                TinyVgParseError::InvalidCommand,
            ),
    {
        let mark = out.len();
        write_point(&self.control_point_0, header, out)?;
        if let Err(e) = write_point(&self.control_point_1, header, out) {
            return undo(out, mark, e);
        }
        if let Err(e) = write_point(&self.point_1, header, out) {
            return undo(out, mark, e);
        }
        Ok(())
    }

    /// A cubic Bezier curve that was written is read back as it was.
    pub proof fn lemma_round_trip(self, data: Seq<u8>, pos: int, range: CoordinateRange)
        requires
            self.fits(range),
            holds_at(data, pos, self.bytes(range)),
        ensures
            CubicBezier::spec_read(data, pos, range) == Some(
                (self, pos + self.bytes(range).len()),
            ),
    {
        let a = self.control_point_0.bytes(range);
        let b = self.control_point_1.bytes(range);
        lemma_holds_at_concat(data, pos, a + b, self.point_1.bytes(range));
        lemma_holds_at_concat(data, pos, a, b);
        self.control_point_0.lemma_round_trip(data, pos, range);
        self.control_point_1.lemma_round_trip(data, pos + a.len(), range);
        self.point_1.lemma_round_trip(data, pos + a.len() + b.len(), range);
    }
}

impl QuadraticBezier {
    /// Whether the two points fit the width of `range`.
    pub open spec fn fits(self, range: CoordinateRange) -> bool {
        self.control_point.fits(range) && self.point_1.fits(range)
    }

    /// The bytes of the curve: the control point, then the end point.
    pub open spec fn bytes(self, range: CoordinateRange) -> Seq<u8> {
        self.control_point.bytes(range) + self.point_1.bytes(range)
    }

    /// The curve at `pos` and the position behind it.
    pub open spec fn spec_read(data: Seq<u8>, pos: int, range: CoordinateRange) -> Option<
        (QuadraticBezier, int),
    > {
        match Point::spec_read(data, pos, range) {
            Some((control_point, after_control)) => match Point::spec_read(
                data,
                after_control,
                range,
            ) {
                Some((point_1, end)) => Some((QuadraticBezier { control_point, point_1 }, end)),
                None => None,
            },
            None => None,
        }
    }

    /// Reads a quadratic Bezier curve: the control point, then the end point.
    pub fn read(header: &TinyVgHeader, cursor: &mut ByteCursor) -> (r: Result<
        QuadraticBezier,
        TinyVgParseError,
    >)
        ensures
            reads(
                *old(cursor),
                *final(cursor),
                r,
                QuadraticBezier::spec_read(
                    old(cursor).data@,
                    old(cursor).position as int,
                    header.coordinate_range,
                ),
                TinyVgParseError::InvalidCommand,
            ),
            r matches Ok(value) ==> value.fits(header.coordinate_range),
    {
        let mut c = *cursor;
        let control_point = Point::read_point(header, &mut c)?;
        let point_1 = Point::read_point(header, &mut c)?;
        *cursor = c;
        Ok(QuadraticBezier { control_point, point_1 })
    }

    /// Writes a quadratic Bezier curve: the control point, then the end point.
    /// Fails where a coordinate does not fit the coordinate range.
    pub fn write(&self, header: &TinyVgHeader, out: &mut Vec<u8>) -> (r: Result<
        (),
        TinyVgParseError,
    >)
        ensures
            writes(
                old(out)@,
                final(out)@,
                r,
                self.fits(header.coordinate_range),
                self.bytes(header.coordinate_range),
                TinyVgParseError::InvalidCommand,
            ),
    {
        let mark = out.len();
        write_point(&self.control_point, header, out)?;
        if let Err(e) = write_point(&self.point_1, header, out) {
            return undo(out, mark, e);
        }
        Ok(())
    }

    /// A quadratic Bezier curve that was written is read back as it was.
    pub proof fn lemma_round_trip(self, data: Seq<u8>, pos: int, range: CoordinateRange)
        requires
            self.fits(range),
            holds_at(data, pos, self.bytes(range)),
        ensures
            QuadraticBezier::spec_read(data, pos, range) == Some(
                (self, pos + self.bytes(range).len()),
            ),
    {
        let a = self.control_point.bytes(range);
        lemma_holds_at_concat(data, pos, a, self.point_1.bytes(range));
        self.control_point.lemma_round_trip(data, pos, range);
        self.point_1.lemma_round_trip(data, pos + a.len(), range);
    }
}

impl ArcCircle {
    /// Whether radius and target fit the width of `range`.
    pub open spec fn fits(self, range: CoordinateRange) -> bool {
        range.fits_signed(self.radius.0 as int) && self.target.fits(range)
    }

    /// The bytes of the arc: the flags, the radius, the target.
    pub open spec fn bytes(self, range: CoordinateRange) -> Seq<u8> {
        seq![arc_flags(self.large_arc, self.sweep)] + unit_bytes(self.radius.0 as int, range)
            + self.target.bytes(range)
    }

    /// The arc at `pos` and the position behind it. Of the flags, the large
    /// arc is bit 0 and the sweep is bit 1; the other bits are not looked at.
    pub open spec fn spec_read(data: Seq<u8>, pos: int, range: CoordinateRange) -> Option<
        (ArcCircle, int),
    > {
        if 0 <= pos < data.len() {
            let flags = data[pos];
            match spec_read_unit(data, pos + 1, range) {
                Some((radius, after_radius)) => match Point::spec_read(data, after_radius, range) {
                    Some((target, end)) => Some(
                        (
                            ArcCircle {
                                large_arc: flags % 2 == 1,
                                sweep: flags / 2 % 2 == 1,
                                radius,
                                target,
                            },
                            end,
                        ),
                    ),
                    None => None,
                },
                None => None,
            }
        } else {
            None
        }
    }

    /// Reads an arc of a circle: the flags, the radius, the target.
    pub fn read(header: &TinyVgHeader, cursor: &mut ByteCursor) -> (r: Result<
        ArcCircle,
        TinyVgParseError,
    >)
        ensures
            reads(
                *old(cursor),
                *final(cursor),
                r,
                ArcCircle::spec_read(
                    old(cursor).data@,
                    old(cursor).position as int,
                    header.coordinate_range,
                ),
                TinyVgParseError::InvalidCommand,
            ),
            r matches Ok(value) ==> value.fits(header.coordinate_range),
    {
        let mut c = *cursor;
        let (large_arc, sweep) = read_arc_flags(&mut c)?;
        let radius = read_unit(&mut c, &header.coordinate_range)?;
        let target = Point::read_point(header, &mut c)?;
        *cursor = c;
        Ok(ArcCircle { large_arc, sweep, radius, target })
    }

    /// Writes an arc of a circle: the flags, the radius, the target. Fails
    /// where radius or target does not fit the coordinate range.
    pub fn write(&self, header: &TinyVgHeader, out: &mut Vec<u8>) -> (r: Result<
        (),
        TinyVgParseError,
    >)
        ensures
            writes(
                old(out)@,
                final(out)@,
                r,
                self.fits(header.coordinate_range),
                self.bytes(header.coordinate_range),
                TinyVgParseError::InvalidCommand,
            ),
    {
        let mark = out.len();
        out.push(pack_arc_flags(self.large_arc, self.sweep));
        if let Err(e) = write_unit(out, &header.coordinate_range, self.radius) {
            return undo(out, mark, e);
        }
        if let Err(e) = write_point(&self.target, header, out) {
            return undo(out, mark, e);
        }
        Ok(())
    }

    /// An arc of a circle that was written is read back as it was.
    pub proof fn lemma_round_trip(self, data: Seq<u8>, pos: int, range: CoordinateRange)
        requires
            self.fits(range),
            holds_at(data, pos, self.bytes(range)),
        ensures
            ArcCircle::spec_read(data, pos, range) == Some((self, pos + self.bytes(range).len())),
    {
        let flags = seq![arc_flags(self.large_arc, self.sweep)];
        let radius = unit_bytes(self.radius.0 as int, range);
        lemma_holds_at_concat(data, pos, flags + radius, self.target.bytes(range));
        lemma_holds_at_concat(data, pos, flags, radius);
        lemma_holds_at_index(data, pos, flags, 0);
        lemma_unit_round_trip(data, pos + 1, range, self.radius);
        self.target.lemma_round_trip(data, pos + 1 + radius.len(), range);
    }
}

impl ArcEllipse {
    /// Whether radii, rotation and target fit the width of `range`.
    pub open spec fn fits(self, range: CoordinateRange) -> bool {
        &&& range.fits_signed(self.radius_x.0 as int)
        &&& range.fits_signed(self.radius_y.0 as int)
        &&& range.fits_signed(self.rotation.0 as int)
        &&& self.target.fits(range)
    }

    /// The bytes of the arc: the flags, the two radii, the rotation, the
    /// target.
    pub open spec fn bytes(self, range: CoordinateRange) -> Seq<u8> {
        seq![arc_flags(self.large_arc, self.sweep)] + unit_bytes(self.radius_x.0 as int, range)
            + unit_bytes(self.radius_y.0 as int, range) + unit_bytes(
            self.rotation.0 as int,
            range,
        ) + self.target.bytes(range)
    }

    /// The arc at `pos` and the position behind it. Of the flags, the large
    /// arc is bit 0 and the sweep is bit 1; the other bits are not looked at.
    pub open spec fn spec_read(data: Seq<u8>, pos: int, range: CoordinateRange) -> Option<
        (ArcEllipse, int),
    > {
        if 0 <= pos < data.len() {
            let flags = data[pos];
            match spec_read_unit(data, pos + 1, range) {
                Some((radius_x, after_x)) => match spec_read_unit(data, after_x, range) {
                    Some((radius_y, after_y)) => match spec_read_unit(data, after_y, range) {
                        Some((rotation, after_rotation)) => match Point::spec_read(
                            data,
                            after_rotation,
                            range,
                        ) {
                            Some((target, end)) => Some(
                                (
                                    ArcEllipse {
                                        large_arc: flags % 2 == 1,
                                        sweep: flags / 2 % 2 == 1,
                                        radius_x,
                                        radius_y,
                                        rotation,
                                        target,
                                    },
                                    end,
                                ),
                            ),
                            None => None,
                        },
                        None => None,
                    },
                    None => None,
                },
                None => None,
            }
        } else {
            None
        }
    }

    /// Reads an arc of an ellipse: the flags, the two radii, the rotation, the
    /// target.
    pub fn read(header: &TinyVgHeader, cursor: &mut ByteCursor) -> (r: Result<
        ArcEllipse,
        TinyVgParseError,
    >)
        ensures
            reads(
                *old(cursor),
                *final(cursor),
                r,
                ArcEllipse::spec_read(
                    old(cursor).data@,
                    old(cursor).position as int,
                    header.coordinate_range,
                ),
                TinyVgParseError::InvalidCommand,
            ),
            r matches Ok(value) ==> value.fits(header.coordinate_range),
    {
        let mut c = *cursor;
        let (large_arc, sweep) = read_arc_flags(&mut c)?;
        let radius_x = read_unit(&mut c, &header.coordinate_range)?;
        let radius_y = read_unit(&mut c, &header.coordinate_range)?;
        let rotation = read_unit(&mut c, &header.coordinate_range)?;
        let target = Point::read_point(header, &mut c)?;
        *cursor = c;
        Ok(ArcEllipse { large_arc, sweep, radius_x, radius_y, rotation, target })
    }

    /// Writes an arc of an ellipse: the flags, the two radii, the rotation,
    /// the target. Fails where one of them does not fit the coordinate range.
    pub fn write(&self, header: &TinyVgHeader, out: &mut Vec<u8>) -> (r: Result<
        (),
        TinyVgParseError,
    >)
        ensures
            writes(
                old(out)@,
                final(out)@,
                r,
                self.fits(header.coordinate_range),
                self.bytes(header.coordinate_range),
                TinyVgParseError::InvalidCommand,
            ),
    {
        let mark = out.len();
        out.push(pack_arc_flags(self.large_arc, self.sweep));
        if let Err(e) = write_unit(out, &header.coordinate_range, self.radius_x) {
            return undo(out, mark, e);
        }
        if let Err(e) = write_unit(out, &header.coordinate_range, self.radius_y) {
            return undo(out, mark, e);
        }
        if let Err(e) = write_unit(out, &header.coordinate_range, self.rotation) {
            return undo(out, mark, e);
        }
        if let Err(e) = write_point(&self.target, header, out) {
            return undo(out, mark, e);
        }
        Ok(())
    }

    /// An arc of an ellipse that was written is read back as it was.
    pub proof fn lemma_round_trip(self, data: Seq<u8>, pos: int, range: CoordinateRange)
        requires
            self.fits(range),
            holds_at(data, pos, self.bytes(range)),
        ensures
            ArcEllipse::spec_read(data, pos, range) == Some((self, pos + self.bytes(range).len())),
    {
        let flags = seq![arc_flags(self.large_arc, self.sweep)];
        let radius_x = unit_bytes(self.radius_x.0 as int, range);
        let radius_y = unit_bytes(self.radius_y.0 as int, range);
        let rotation = unit_bytes(self.rotation.0 as int, range);
        lemma_holds_at_concat(
            data,
            pos,
            flags + radius_x + radius_y + rotation,
            self.target.bytes(range),
        );
        lemma_holds_at_concat(data, pos, flags + radius_x + radius_y, rotation);
        lemma_holds_at_concat(data, pos, flags + radius_x, radius_y);
        lemma_holds_at_concat(data, pos, flags, radius_x);
        lemma_holds_at_index(data, pos, flags, 0);
        lemma_unit_round_trip(data, pos + 1, range, self.radius_x);
        lemma_unit_round_trip(data, pos + 1 + radius_x.len(), range, self.radius_y);
        lemma_unit_round_trip(
            data,
            pos + 1 + radius_x.len() + radius_y.len(),
            range,
            self.rotation,
        );
        self.target.lemma_round_trip(
            data,
            pos + 1 + radius_x.len() + radius_y.len() + rotation.len(),
            range,
        );
    }
}

} // verus!
