//! Points, rectangles and lines on the wire, alone and in counted lists.
use crate::commands::{Line, Point, Rectangle};
use crate::common::{
    lemma_unit_round_trip, read_unit, spec_read_unit, unit_bytes, write_unit, Unit,
};
use crate::cursor::ByteCursor;
use crate::header::{CoordinateRange, TinyVgHeader};
use crate::wire::{
    all_of, concat_all, holds_at, lemma_concat_all_push, lemma_holds_at_concat,
    lemma_parse_n_none, lemma_parse_n_round_trip, lemma_parse_n_step, parse_n, reads,
    reads_back, reads_view, undo, writes,
};
use crate::TinyVgParseError;
use vstd::prelude::*;

verus! {

impl Point {
    /// Whether both coordinates fit the width of `range`.
    pub open spec fn fits(self, range: CoordinateRange) -> bool {
        range.fits_signed(self.x.0 as int) && range.fits_signed(self.y.0 as int)
    }

    /// The bytes of the point: x, then y.
    pub open spec fn bytes(self, range: CoordinateRange) -> Seq<u8> {
        unit_bytes(self.x.0 as int, range) + unit_bytes(self.y.0 as int, range)
    }

    /// The point at `pos` and the position behind it.
    pub open spec fn spec_read(data: Seq<u8>, pos: int, range: CoordinateRange) -> Option<
        (Point, int),
    > {
        match spec_read_unit(data, pos, range) {
            Some((x, after_x)) => match spec_read_unit(data, after_x, range) {
                Some((y, end)) => Some((Point { x, y }, end)),
                None => None,
            },
            None => None,
        }
    }

    /// Reads a point: x, then y.
    pub fn read_point(header: &TinyVgHeader, cursor: &mut ByteCursor) -> (r: Result<
        Point,
        TinyVgParseError,
    >)
        ensures
            reads(
                *old(cursor),
                *final(cursor),
                r,
                Point::spec_read(
                    old(cursor).data@,
                    old(cursor).position as int,
                    header.coordinate_range,
                ),
                TinyVgParseError::InvalidCommand,
            ),
            r matches Ok(value) ==> value.fits(header.coordinate_range),
    {
        let mut c = *cursor;
        let x = read_unit(&mut c, &header.coordinate_range)?;
        let y = read_unit(&mut c, &header.coordinate_range)?;
        *cursor = c;
        Ok(Point { x, y })
    }

    /// A point that was written is read back as it was.
    pub proof fn lemma_round_trip(self, data: Seq<u8>, pos: int, range: CoordinateRange)
        requires
            self.fits(range),
            holds_at(data, pos, self.bytes(range)),
        ensures
            self.bytes(range).len() == 2 * range.spec_width(),
            Point::spec_read(data, pos, range) == Some((self, pos + self.bytes(range).len())),
    {
        let x = unit_bytes(self.x.0 as int, range);
        let y = unit_bytes(self.y.0 as int, range);
        lemma_holds_at_concat(data, pos, x, y);
        lemma_unit_round_trip(data, pos, range, self.x);
        lemma_unit_round_trip(data, pos + x.len(), range, self.y);
    }
}

/// Writes a point: x, then y. Fails where a coordinate does not fit the
/// coordinate range.
pub fn write_point(point: &Point, header: &TinyVgHeader, out: &mut Vec<u8>) -> (r: Result<
    (),
    TinyVgParseError,
>)
    ensures
        writes(
            old(out)@,
            final(out)@,
            r,
            point.fits(header.coordinate_range),
            point.bytes(header.coordinate_range),
            TinyVgParseError::InvalidCommand,
        ),
{
    let mark = out.len();
    write_unit(out, &header.coordinate_range, point.x)?;
    if let Err(e) = write_unit(out, &header.coordinate_range, point.y) {
        return undo(out, mark, e);
    }
    Ok(())
}

impl Rectangle {
    /// Whether all four numbers fit the width of `range`.
    pub open spec fn fits(self, range: CoordinateRange) -> bool {
        &&& range.fits_signed(self.x.0 as int)
        &&& range.fits_signed(self.y.0 as int)
        &&& range.fits_signed(self.width.0 as int)
        &&& range.fits_signed(self.height.0 as int)
    }

    /// The bytes of the rectangle: x, y, width, height.
    pub open spec fn bytes(self, range: CoordinateRange) -> Seq<u8> {
        unit_bytes(self.x.0 as int, range) + unit_bytes(self.y.0 as int, range) + unit_bytes(
            self.width.0 as int,
            range,
        ) + unit_bytes(self.height.0 as int, range)
    }

    /// The rectangle at `pos` and the position behind it.
    pub open spec fn spec_read(data: Seq<u8>, pos: int, range: CoordinateRange) -> Option<
        (Rectangle, int),
    > {
        match spec_read_unit(data, pos, range) {
            Some((x, after_x)) => match spec_read_unit(data, after_x, range) {
                Some((y, after_y)) => match spec_read_unit(data, after_y, range) {
                    Some((width, after_width)) => match spec_read_unit(data, after_width, range) {
                        Some((height, end)) => Some((Rectangle { x, y, width, height }, end)),
                        None => None,
                    },
                    None => None,
                },
                None => None,
            },
            None => None,
        }
    }

    /// Reads a rectangle: x, y, width, height.
    pub fn read_rectangle(header: &TinyVgHeader, cursor: &mut ByteCursor) -> (r: Result<
        Rectangle,
        TinyVgParseError,
    >)
        ensures
            reads(
                *old(cursor),
                *final(cursor),
                r,
                Rectangle::spec_read(
                    old(cursor).data@,
                    old(cursor).position as int,
                    header.coordinate_range,
                ),
                TinyVgParseError::InvalidCommand,
            ),
            r matches Ok(value) ==> value.fits(header.coordinate_range),
    {
        let mut c = *cursor;
        let x = read_unit(&mut c, &header.coordinate_range)?;
        let y = read_unit(&mut c, &header.coordinate_range)?;
        let width = read_unit(&mut c, &header.coordinate_range)?;
        let height = read_unit(&mut c, &header.coordinate_range)?;
        *cursor = c;
        Ok(Rectangle { x, y, width, height })
    }

    /// Writes a rectangle: x, y, width, height. Fails where one of them does
    /// not fit the coordinate range.
    pub fn write_rectangle(&self, header: &TinyVgHeader, out: &mut Vec<u8>) -> (r: Result<
        (),
        TinyVgParseError,
    >)
        ensures
            writes(
                old(out)@,
                final(out)@,
                r,
                self.fits(header.coordinate_range),
                self.bytes(header.coordinate_range),
                TinyVgParseError::InvalidCommand,
            ),
    {
        let mark = out.len();
        write_unit(out, &header.coordinate_range, self.x)?;
        if let Err(e) = write_unit(out, &header.coordinate_range, self.y) {
            return undo(out, mark, e);
        }
        if let Err(e) = write_unit(out, &header.coordinate_range, self.width) {
            return undo(out, mark, e);
        }
        if let Err(e) = write_unit(out, &header.coordinate_range, self.height) {
            return undo(out, mark, e);
        }
        Ok(())
    }

    /// A rectangle that was written is read back as it was.
    pub proof fn lemma_round_trip(self, data: Seq<u8>, pos: int, range: CoordinateRange)
        requires
            self.fits(range),
            holds_at(data, pos, self.bytes(range)),
        ensures
            Rectangle::spec_read(data, pos, range) == Some(
                (self, pos + self.bytes(range).len()),
            ),
    {
        let x = unit_bytes(self.x.0 as int, range);
        let y = unit_bytes(self.y.0 as int, range);
        let width = unit_bytes(self.width.0 as int, range);
        let height = unit_bytes(self.height.0 as int, range);
        lemma_holds_at_concat(data, pos, x + y + width, height);
        lemma_holds_at_concat(data, pos, x + y, width);
        lemma_holds_at_concat(data, pos, x, y);
        lemma_unit_round_trip(data, pos, range, self.x);
        lemma_unit_round_trip(data, pos + x.len(), range, self.y);
        lemma_unit_round_trip(data, pos + x.len() + y.len(), range, self.width);
        lemma_unit_round_trip(data, pos + x.len() + y.len() + width.len(), range, self.height);
    }
}

impl Line {
    /// Whether both end points fit the width of `range`.
    pub open spec fn fits(self, range: CoordinateRange) -> bool {
        self.start.fits(range) && self.end.fits(range)
    }

    /// The bytes of the line: its start, then its end.
    pub open spec fn bytes(self, range: CoordinateRange) -> Seq<u8> {
        self.start.bytes(range) + self.end.bytes(range)
    }

    /// The line at `pos` and the position behind it.
    pub open spec fn spec_read(data: Seq<u8>, pos: int, range: CoordinateRange) -> Option<
        (Line, int),
    > {
        match Point::spec_read(data, pos, range) {
            Some((start, after_start)) => match Point::spec_read(data, after_start, range) {
                Some((end, behind)) => Some((Line { start, end }, behind)),
                None => None,
            },
            None => None,
        }
    }

    /// Reads a line: its start, then its end.
    pub fn read_line(header: &TinyVgHeader, cursor: &mut ByteCursor) -> (r: Result<
        Line,
        TinyVgParseError,
    >)
        ensures
            reads(
                *old(cursor),
                *final(cursor),
                r,
                Line::spec_read(
                    old(cursor).data@,
                    old(cursor).position as int,
                    header.coordinate_range,
                ),
                TinyVgParseError::InvalidCommand,
            ),
            r matches Ok(value) ==> value.fits(header.coordinate_range),
    {
        let mut c = *cursor;
        let start = Point::read_point(header, &mut c)?;
        let end = Point::read_point(header, &mut c)?;
        *cursor = c;
        Ok(Line { start, end })
    }

    /// Writes a line: its start, then its end. Fails where a coordinate does
    /// not fit the coordinate range.
    pub fn write_line(&self, header: &TinyVgHeader, out: &mut Vec<u8>) -> (r: Result<
        (),
        TinyVgParseError,
    >)
        ensures
            writes(
                old(out)@,
                final(out)@,
                r,
                self.fits(header.coordinate_range),
                self.bytes(header.coordinate_range),
                TinyVgParseError::InvalidCommand,
            ),
    {
        let mark = out.len();
        write_point(&self.start, header, out)?;
        if let Err(e) = write_point(&self.end, header, out) {
            return undo(out, mark, e);
        }
        Ok(())
    }

    /// A line that was written is read back as it was.
    pub proof fn lemma_round_trip(self, data: Seq<u8>, pos: int, range: CoordinateRange)
        requires
            self.fits(range),
            holds_at(data, pos, self.bytes(range)),
        ensures
            Line::spec_read(data, pos, range) == Some((self, pos + self.bytes(range).len())),
    {
        lemma_holds_at_concat(data, pos, self.start.bytes(range), self.end.bytes(range));
        self.start.lemma_round_trip(data, pos, range);
        self.end.lemma_round_trip(data, pos + self.start.bytes(range).len(), range);
    }
}

/// How one point is read in the width of `range`.
pub open spec fn point_reader(range: CoordinateRange) -> spec_fn(Seq<u8>, int) -> Option<
    (Point, int),
> {
    |data: Seq<u8>, pos: int| Point::spec_read(data, pos, range)
}

/// How one point is written in the width of `range`.
pub open spec fn point_writer(range: CoordinateRange) -> spec_fn(Point) -> Seq<u8> {
    |point: Point| point.bytes(range)
}

/// Which points fit the width of `range`.
pub open spec fn point_fits(range: CoordinateRange) -> spec_fn(Point) -> bool {
    |point: Point| point.fits(range)
}

/// `count` points read from `pos` on, and the position behind them.
pub open spec fn spec_read_points(data: Seq<u8>, pos: int, range: CoordinateRange, count: nat)
    -> Option<(Seq<Point>, int)> {
    parse_n(point_reader(range), data, pos, count)
}

/// The bytes of the points, one behind the other.
pub open spec fn points_bytes(points: Seq<Point>, range: CoordinateRange) -> Seq<u8> {
    concat_all(point_writer(range), points)
}

/// Whether every point fits the width of `range`.
pub open spec fn points_fit(points: Seq<Point>, range: CoordinateRange) -> bool {
    all_of(point_fits(range), points)
}

/// Reads `count` points.
pub fn read_points(header: &TinyVgHeader, cursor: &mut ByteCursor, count: u64) -> (r: Result<
    Vec<Point>,
    TinyVgParseError,
>)
    ensures
        reads_view(
            *old(cursor),
            *final(cursor),
            r,
            spec_read_points(
                old(cursor).data@,
                old(cursor).position as int,
                header.coordinate_range,
                count as nat,
            ),
            TinyVgParseError::InvalidCommand,
        ),
        r matches Ok(points) ==> points@.len() == count && points_fit(
            points@,
            header.coordinate_range,
        ),
{
    let mut c = *cursor;
    let mut points: Vec<Point> = Vec::new();
    let mut i: u64 = 0;
    let ghost one = point_reader(header.coordinate_range);
    let ghost data = cursor.data@;
    let ghost start = cursor.position as int;
    while i < count
        invariant
            i <= count,
            *cursor == *old(cursor),
            data == old(cursor).data@,
            start == old(cursor).position,
            one == point_reader(header.coordinate_range),
            c.data@ == data,
            old(cursor).position <= c.position,
            points@.len() == i,
            points_fit(points@, header.coordinate_range),
            parse_n(one, data, start, i as nat) == Some((points@, c.position as int)),
        decreases count - i,
    {
        proof {
            lemma_parse_n_step(one, data, start, i as nat);
        }
        match Point::read_point(header, &mut c) {
            Ok(point) => points.push(point),
            Err(e) => {
                proof {
                    lemma_parse_n_none(one, data, start, (i + 1) as nat, count as nat);
                }
                return Err(e);
            },
        }
        i = i + 1;
    }
    *cursor = c;
    Ok(points)
}

/// Writes the points one behind the other. Fails where a coordinate does not
/// fit the coordinate range.
pub fn write_points(out: &mut Vec<u8>, header: &TinyVgHeader, points: &Vec<Point>) -> (r: Result<
    (),
    TinyVgParseError,
>)
    ensures
        writes(
            old(out)@,
            final(out)@,
            r,
            points_fit(points@, header.coordinate_range),
            points_bytes(points@, header.coordinate_range),
            TinyVgParseError::InvalidCommand,
        ),
{
    let ghost range = header.coordinate_range;
    let mark = out.len();
    let mut i: usize = 0;
    while i < points.len()
        invariant
            i <= points.len(),
            range == header.coordinate_range,
            mark == old(out)@.len(),
            points_fit(points@.take(i as int), range),
            out@ == old(out)@ + points_bytes(points@.take(i as int), range),
        decreases points.len() - i,
    {
        if let Err(e) = write_point(&points[i], header, out) {
            return undo(out, mark, e);
        }
        proof {
            assert(points@.take(i + 1) =~= points@.take(i as int).push(points@[i as int]));
            lemma_concat_all_push(point_writer(range), points@.take(i as int), points@[i as int]);
        }
        i = i + 1;
    }
    assert(points@.take(points.len() as int) =~= points@);
    Ok(())
}

/// Points that were written are read back as they were.
pub proof fn lemma_points_round_trip(
    data: Seq<u8>,
    pos: int,
    range: CoordinateRange,
    points: Seq<Point>,
)
    requires
        points_fit(points, range),
        holds_at(data, pos, points_bytes(points, range)),
    ensures
        spec_read_points(data, pos, range, points.len()) == Some(
            (points, pos + points_bytes(points, range).len()),
        ),
{
    assert(reads_back(point_reader(range), point_writer(range), point_fits(range))) by {
        assert forall|item: Point, d: Seq<u8>, p: int|
            point_fits(range)(item) && #[trigger] holds_at(
                d,
                p,
                point_writer(range)(item),
            ) implies point_reader(range)(d, p) == Some(
            (item, p + point_writer(range)(item).len()),
        ) by {
            item.lemma_round_trip(d, p, range);
        }
    }
    lemma_parse_n_round_trip(
        point_reader(range),
        point_writer(range),
        point_fits(range),
        data,
        pos,
        points,
    );
}

/// How one rectangle is read in the width of `range`.
pub open spec fn rectangle_reader(range: CoordinateRange) -> spec_fn(Seq<u8>, int) -> Option<
    (Rectangle, int),
> {
    |data: Seq<u8>, pos: int| Rectangle::spec_read(data, pos, range)
}

/// How one rectangle is written in the width of `range`.
pub open spec fn rectangle_writer(range: CoordinateRange) -> spec_fn(Rectangle) -> Seq<u8> {
    |rectangle: Rectangle| rectangle.bytes(range)
}

/// Which rectangles fit the width of `range`.
pub open spec fn rectangle_fits(range: CoordinateRange) -> spec_fn(Rectangle) -> bool {
    |rectangle: Rectangle| rectangle.fits(range)
}

/// `count` rectangles read from `pos` on, and the position behind them.
pub open spec fn spec_read_rectangles(data: Seq<u8>, pos: int, range: CoordinateRange, count: nat)
    -> Option<(Seq<Rectangle>, int)> {
    parse_n(rectangle_reader(range), data, pos, count)
}

/// The bytes of the rectangles, one behind the other.
pub open spec fn rectangles_bytes(rectangles: Seq<Rectangle>, range: CoordinateRange) -> Seq<u8> {
    concat_all(rectangle_writer(range), rectangles)
}

/// Whether every rectangle fits the width of `range`.
pub open spec fn rectangles_fit(rectangles: Seq<Rectangle>, range: CoordinateRange) -> bool {
    all_of(rectangle_fits(range), rectangles)
}

/// Reads `count` rectangles.
pub fn read_rectangles(header: &TinyVgHeader, cursor: &mut ByteCursor, count: u64) -> (r: Result<
    Vec<Rectangle>,
    TinyVgParseError,
>)
    ensures
        reads_view(
            *old(cursor),
            *final(cursor),
            r,
            spec_read_rectangles(
                old(cursor).data@,
                old(cursor).position as int,
                header.coordinate_range,
                count as nat,
            ),
            TinyVgParseError::InvalidCommand,
        ),
        r matches Ok(rectangles) ==> rectangles@.len() == count && rectangles_fit(
            rectangles@,
            header.coordinate_range,
        ),
{
    let mut c = *cursor;
    let mut rectangles: Vec<Rectangle> = Vec::new();
    let mut i: u64 = 0;
    let ghost one = rectangle_reader(header.coordinate_range);
    let ghost data = cursor.data@;
    let ghost start = cursor.position as int;
    while i < count
        invariant
            i <= count,
            *cursor == *old(cursor),
            data == old(cursor).data@,
            start == old(cursor).position,
            one == rectangle_reader(header.coordinate_range),
            c.data@ == data,
            old(cursor).position <= c.position,
            rectangles@.len() == i,
            rectangles_fit(rectangles@, header.coordinate_range),
            parse_n(one, data, start, i as nat) == Some((rectangles@, c.position as int)),
        decreases count - i,
    {
        proof {
            lemma_parse_n_step(one, data, start, i as nat);
        }
        match Rectangle::read_rectangle(header, &mut c) {
            Ok(rectangle) => rectangles.push(rectangle),
            Err(e) => {
                proof {
                    lemma_parse_n_none(one, data, start, (i + 1) as nat, count as nat);
                }
                return Err(e);
            },
        }
        i = i + 1;
    }
    *cursor = c;
    Ok(rectangles)
}

/// Writes the rectangles one behind the other. Fails where a number does not fit
/// the coordinate range.
pub fn write_rectangles(
    out: &mut Vec<u8>,
    header: &TinyVgHeader,
    rectangles: &Vec<Rectangle>,
) -> (r: Result<
    (),
    TinyVgParseError,
>)
    ensures
        writes(
            old(out)@,
            final(out)@,
            r,
            rectangles_fit(rectangles@, header.coordinate_range),
            rectangles_bytes(rectangles@, header.coordinate_range),
            TinyVgParseError::InvalidCommand,
        ),
{
    let ghost range = header.coordinate_range;
    let mark = out.len();
    let mut i: usize = 0;
    while i < rectangles.len()
        invariant
            i <= rectangles.len(),
            range == header.coordinate_range,
            mark == old(out)@.len(),
            rectangles_fit(rectangles@.take(i as int), range),
            out@ == old(out)@ + rectangles_bytes(rectangles@.take(i as int), range),
        decreases rectangles.len() - i,
    {
        if let Err(e) = rectangles[i].write_rectangle(header, out) {
            return undo(out, mark, e);
        }
        proof {
            assert(
                rectangles@.take(i + 1) =~= rectangles@.take(i as int).push(rectangles@[i as int])
            );
            lemma_concat_all_push(
                rectangle_writer(range),
                rectangles@.take(i as int),
                rectangles@[i as int],
            );
        }
        i = i + 1;
    }
    assert(rectangles@.take(rectangles.len() as int) =~= rectangles@);
    Ok(())
}

/// Rectangles that were written are read back as they were.
pub proof fn lemma_rectangles_round_trip(
    data: Seq<u8>,
    pos: int,
    range: CoordinateRange,
    rectangles: Seq<Rectangle>,
)
    requires
        rectangles_fit(rectangles, range),
        holds_at(data, pos, rectangles_bytes(rectangles, range)),
    ensures
        spec_read_rectangles(data, pos, range, rectangles.len()) == Some(
            (rectangles, pos + rectangles_bytes(rectangles, range).len()),
        ),
{
    assert(reads_back(rectangle_reader(range), rectangle_writer(range), rectangle_fits(range))) by {
        assert forall|item: Rectangle, d: Seq<u8>, p: int|
            rectangle_fits(range)(item) && #[trigger] holds_at(
                d,
                p,
                rectangle_writer(range)(item),
            ) implies rectangle_reader(range)(d, p) == Some(
            (item, p + rectangle_writer(range)(item).len()),
        ) by {
            item.lemma_round_trip(d, p, range);
        }
    }
    lemma_parse_n_round_trip(
        rectangle_reader(range),
        rectangle_writer(range),
        rectangle_fits(range),
        data,
        pos,
        rectangles,
    );
}

/// How one line is read in the width of `range`.
pub open spec fn line_reader(range: CoordinateRange) -> spec_fn(Seq<u8>, int) -> Option<
    (Line, int),
> {
    |data: Seq<u8>, pos: int| Line::spec_read(data, pos, range)
}

/// How one line is written in the width of `range`.
pub open spec fn line_writer(range: CoordinateRange) -> spec_fn(Line) -> Seq<u8> {
    |line: Line| line.bytes(range)
}

/// Which lines fit the width of `range`.
pub open spec fn line_fits(range: CoordinateRange) -> spec_fn(Line) -> bool {
    |line: Line| line.fits(range)
}

/// `count` lines read from `pos` on, and the position behind them.
pub open spec fn spec_read_lines(data: Seq<u8>, pos: int, range: CoordinateRange, count: nat)
    -> Option<(Seq<Line>, int)> {
    parse_n(line_reader(range), data, pos, count)
}

/// The bytes of the lines, one behind the other.
pub open spec fn lines_bytes(lines: Seq<Line>, range: CoordinateRange) -> Seq<u8> {
    concat_all(line_writer(range), lines)
}

/// Whether every line fits the width of `range`.
pub open spec fn lines_fit(lines: Seq<Line>, range: CoordinateRange) -> bool {
    all_of(line_fits(range), lines)
}

/// Reads `count` lines.
pub fn read_lines(header: &TinyVgHeader, cursor: &mut ByteCursor, count: u64) -> (r: Result<
    Vec<Line>,
    TinyVgParseError,
>)
    ensures
        reads_view(
            *old(cursor),
            *final(cursor),
            r,
            spec_read_lines(
                old(cursor).data@,
                old(cursor).position as int,
                header.coordinate_range,
                count as nat,
            ),
            TinyVgParseError::InvalidCommand,
        ),
        r matches Ok(lines) ==> lines@.len() == count && lines_fit(
            lines@,
            header.coordinate_range,
        ),
{
    let mut c = *cursor;
    let mut lines: Vec<Line> = Vec::new();
    let mut i: u64 = 0;
    let ghost one = line_reader(header.coordinate_range);
    let ghost data = cursor.data@;
    let ghost start = cursor.position as int;
    while i < count
        invariant
            i <= count,
            *cursor == *old(cursor),
            data == old(cursor).data@,
            start == old(cursor).position,
            one == line_reader(header.coordinate_range),
            c.data@ == data,
            old(cursor).position <= c.position,
            lines@.len() == i,
            lines_fit(lines@, header.coordinate_range),
            parse_n(one, data, start, i as nat) == Some((lines@, c.position as int)),
        decreases count - i,
    {
        proof {
            lemma_parse_n_step(one, data, start, i as nat);
        }
        match Line::read_line(header, &mut c) {
            Ok(line) => lines.push(line),
            Err(e) => {
                proof {
                    lemma_parse_n_none(one, data, start, (i + 1) as nat, count as nat);
                }
                return Err(e);
            },
        }
        i = i + 1;
    }
    *cursor = c;
    Ok(lines)
}

/// Writes the lines one behind the other. Fails where a coordinate does not
/// fit the coordinate range.
pub fn write_lines(out: &mut Vec<u8>, header: &TinyVgHeader, lines: &Vec<Line>) -> (r: Result<
    (),
    TinyVgParseError,
>)
    ensures
        writes(
            old(out)@,
            final(out)@,
            r,
            lines_fit(lines@, header.coordinate_range),
            lines_bytes(lines@, header.coordinate_range),
            TinyVgParseError::InvalidCommand,
        ),
{
    let ghost range = header.coordinate_range;
    let mark = out.len();
    let mut i: usize = 0;
    while i < lines.len()
        invariant
            i <= lines.len(),
            range == header.coordinate_range,
            mark == old(out)@.len(),
            lines_fit(lines@.take(i as int), range),
            out@ == old(out)@ + lines_bytes(lines@.take(i as int), range),
        decreases lines.len() - i,
    {
        if let Err(e) = lines[i].write_line(header, out) {
            return undo(out, mark, e);
        }
        proof {
            assert(lines@.take(i + 1) =~= lines@.take(i as int).push(lines@[i as int]));
            lemma_concat_all_push(line_writer(range), lines@.take(i as int), lines@[i as int]);
        }
        i = i + 1;
    }
    assert(lines@.take(lines.len() as int) =~= lines@);
    Ok(())
}

/// Lines that were written are read back as they were.
pub proof fn lemma_lines_round_trip(
    data: Seq<u8>,
    pos: int,
    range: CoordinateRange,
    lines: Seq<Line>,
)
    requires
        lines_fit(lines, range),
        holds_at(data, pos, lines_bytes(lines, range)),
    ensures
        spec_read_lines(data, pos, range, lines.len()) == Some(
            (lines, pos + lines_bytes(lines, range).len()),
        ),
{
    assert(reads_back(line_reader(range), line_writer(range), line_fits(range))) by {
        assert forall|item: Line, d: Seq<u8>, p: int|
            line_fits(range)(item) && #[trigger] holds_at(
                d,
                p,
                line_writer(range)(item),
            ) implies line_reader(range)(d, p) == Some(
            (item, p + line_writer(range)(item).len()),
        ) by {
            item.lemma_round_trip(d, p, range);
        }
    }
    lemma_parse_n_round_trip(
        line_reader(range),
        line_writer(range),
        line_fits(range),
        data,
        pos,
        lines,
    );
}

/// Whether both offsets of a glyph fit the width of `range`.
pub open spec fn offsets_fit(offsets: (Unit, Unit), range: CoordinateRange) -> bool {
    let (start, end) = offsets;
    range.fits_signed(start.0 as int) && range.fits_signed(end.0 as int)
}

/// The bytes of the offsets of a glyph: its start, then its end.
pub open spec fn offsets_bytes(offsets: (Unit, Unit), range: CoordinateRange) -> Seq<u8> {
    let (start, end) = offsets;
    unit_bytes(start.0 as int, range) + unit_bytes(end.0 as int, range)
}

/// The offsets of a glyph at `pos` and the position behind them.
pub open spec fn spec_read_offsets(data: Seq<u8>, pos: int, range: CoordinateRange) -> Option<
    ((Unit, Unit), int),
> {
    match spec_read_unit(data, pos, range) {
        Some((start, after_start)) => match spec_read_unit(data, after_start, range) {
            Some((end, behind)) => Some(((start, end), behind)),
            None => None,
        },
        None => None,
    }
}

/// Reads the offsets of a glyph: its start, then its end.
pub fn read_offsets(header: &TinyVgHeader, cursor: &mut ByteCursor) -> (r: Result<
    (Unit, Unit),
    TinyVgParseError,
>)
    ensures
        reads(
            *old(cursor),
            *final(cursor),
            r,
            spec_read_offsets(
                old(cursor).data@,
                old(cursor).position as int,
                header.coordinate_range,
            ),
            TinyVgParseError::InvalidCommand,
        ),
        r matches Ok(offsets) ==> offsets_fit(offsets, header.coordinate_range),
{
    let mut c = *cursor;
    let start = read_unit(&mut c, &header.coordinate_range)?;
    let end = read_unit(&mut c, &header.coordinate_range)?;
    *cursor = c;
    Ok((start, end))
}

/// Writes the offsets of a glyph: its start, then its end. Fails where one
/// does not fit the coordinate range.
pub fn write_offsets(offsets: &(Unit, Unit), header: &TinyVgHeader, out: &mut Vec<u8>) -> (r:
    Result<(), TinyVgParseError>)
    ensures
        writes(
            old(out)@,
            final(out)@,
            r,
            offsets_fit(*offsets, header.coordinate_range),
            offsets_bytes(*offsets, header.coordinate_range),
            TinyVgParseError::InvalidCommand,
        ),
{
    let mark = out.len();
    write_unit(out, &header.coordinate_range, offsets.0)?;
    if let Err(e) = write_unit(out, &header.coordinate_range, offsets.1) {
        return undo(out, mark, e);
    }
    Ok(())
}

/// The offsets of a glyph that were written are read back as they were.
pub proof fn lemma_offsets_round_trip(
    offsets: (Unit, Unit),
    data: Seq<u8>,
    pos: int,
    range: CoordinateRange,
)
    requires
        offsets_fit(offsets, range),
        holds_at(data, pos, offsets_bytes(offsets, range)),
    ensures
        spec_read_offsets(data, pos, range) == Some(
            (offsets, pos + offsets_bytes(offsets, range).len()),
        ),
{
    let (start, end) = offsets;
    let start_bytes = unit_bytes(start.0 as int, range);
    lemma_holds_at_concat(data, pos, start_bytes, unit_bytes(end.0 as int, range));
    lemma_unit_round_trip(data, pos, range, start);
    lemma_unit_round_trip(data, pos + start_bytes.len(), range, end);
}

/// How the offsets of one glyph are read in the width of `range`.
pub open spec fn glyph_reader(range: CoordinateRange) -> spec_fn(Seq<u8>, int) -> Option<
    ((Unit, Unit), int),
> {
    |data: Seq<u8>, pos: int| spec_read_offsets(data, pos, range)
}

/// How the offsets of one glyph are written in the width of `range`.
pub open spec fn glyph_writer(range: CoordinateRange) -> spec_fn((Unit, Unit)) -> Seq<u8> {
    |glyph: (Unit, Unit)| offsets_bytes(glyph, range)
}

/// Which glyph offsets fit the width of `range`.
pub open spec fn glyph_fits(range: CoordinateRange) -> spec_fn((Unit, Unit)) -> bool {
    |glyph: (Unit, Unit)| offsets_fit(glyph, range)
}

/// `count` glyph offsets read from `pos` on, and the position behind them.
pub open spec fn spec_read_glyphs(data: Seq<u8>, pos: int, range: CoordinateRange, count: nat)
    -> Option<(Seq<(Unit, Unit)>, int)> {
    parse_n(glyph_reader(range), data, pos, count)
}

/// The bytes of the glyph offsets, one behind the other.
pub open spec fn glyphs_bytes(glyphs: Seq<(Unit, Unit)>, range: CoordinateRange) -> Seq<u8> {
    concat_all(glyph_writer(range), glyphs)
}

/// Whether the offsets of every glyph fit the width of `range`.
pub open spec fn glyphs_fit(glyphs: Seq<(Unit, Unit)>, range: CoordinateRange) -> bool {
    all_of(glyph_fits(range), glyphs)
}

/// Reads `count` glyph offsets.
pub fn read_glyphs(header: &TinyVgHeader, cursor: &mut ByteCursor, count: u64) -> (r: Result<
    Vec<(Unit, Unit)>,
    TinyVgParseError,
>)
    ensures
        reads_view(
            *old(cursor),
            *final(cursor),
            r,
            spec_read_glyphs(
                old(cursor).data@,
                old(cursor).position as int,
                header.coordinate_range,
                count as nat,
            ),
            TinyVgParseError::InvalidCommand,
        ),
        r matches Ok(glyphs) ==> glyphs@.len() == count && glyphs_fit(
            glyphs@,
            header.coordinate_range,
        ),
{
    let mut c = *cursor;
    let mut glyphs: Vec<(Unit, Unit)> = Vec::new();
    let mut i: u64 = 0;
    let ghost one = glyph_reader(header.coordinate_range);
    let ghost data = cursor.data@;
    let ghost start = cursor.position as int;
    while i < count
        invariant
            i <= count,
            *cursor == *old(cursor),
            data == old(cursor).data@,
            start == old(cursor).position,
            one == glyph_reader(header.coordinate_range),
            c.data@ == data,
            old(cursor).position <= c.position,
            glyphs@.len() == i,
            glyphs_fit(glyphs@, header.coordinate_range),
            parse_n(one, data, start, i as nat) == Some((glyphs@, c.position as int)),
        decreases count - i,
    {
        proof {
            lemma_parse_n_step(one, data, start, i as nat);
        }
        match read_offsets(header, &mut c) {
            Ok(glyph) => glyphs.push(glyph),
            Err(e) => {
                proof {
                    lemma_parse_n_none(one, data, start, (i + 1) as nat, count as nat);
                }
                return Err(e);
            },
        }
        i = i + 1;
    }
    *cursor = c;
    Ok(glyphs)
}

/// Writes the glyph offsets one behind the other. Fails where an offset does not fit
/// the coordinate range.
pub fn write_glyphs(
    out: &mut Vec<u8>,
    header: &TinyVgHeader,
    glyphs: &Vec<(Unit, Unit)>,
) -> (r: Result<
    (),
    TinyVgParseError,
>)
    ensures
        writes(
            old(out)@,
            final(out)@,
            r,
            glyphs_fit(glyphs@, header.coordinate_range),
            glyphs_bytes(glyphs@, header.coordinate_range),
            TinyVgParseError::InvalidCommand,
        ),
{
    let ghost range = header.coordinate_range;
    let mark = out.len();
    let mut i: usize = 0;
    while i < glyphs.len()
        invariant
            i <= glyphs.len(),
            range == header.coordinate_range,
            mark == old(out)@.len(),
            glyphs_fit(glyphs@.take(i as int), range),
            out@ == old(out)@ + glyphs_bytes(glyphs@.take(i as int), range),
        decreases glyphs.len() - i,
    {
        if let Err(e) = write_offsets(&glyphs[i], header, out) {
            return undo(out, mark, e);
        }
        proof {
            assert(glyphs@.take(i + 1) =~= glyphs@.take(i as int).push(glyphs@[i as int]));
            lemma_concat_all_push(glyph_writer(range), glyphs@.take(i as int), glyphs@[i as int]);
        }
        i = i + 1;
    }
    assert(glyphs@.take(glyphs.len() as int) =~= glyphs@);
    Ok(())
}

/// Glyph offsets that were written are read back as they were.
pub proof fn lemma_glyphs_round_trip(
    data: Seq<u8>,
    pos: int,
    range: CoordinateRange,
    glyphs: Seq<(Unit, Unit)>,
)
    requires
        glyphs_fit(glyphs, range),
        holds_at(data, pos, glyphs_bytes(glyphs, range)),
    ensures
        spec_read_glyphs(data, pos, range, glyphs.len()) == Some(
            (glyphs, pos + glyphs_bytes(glyphs, range).len()),
        ),
{
    assert(reads_back(glyph_reader(range), glyph_writer(range), glyph_fits(range))) by {
        assert forall|item: (Unit, Unit), d: Seq<u8>, p: int|
            glyph_fits(range)(item) && #[trigger] holds_at(
                d,
                p,
                glyph_writer(range)(item),
            ) implies glyph_reader(range)(d, p) == Some(
            (item, p + glyph_writer(range)(item).len()),
        ) by {
            lemma_offsets_round_trip(item, d, p, range);
        }
    }
    lemma_parse_n_round_trip(
        glyph_reader(range),
        glyph_writer(range),
        glyph_fits(range),
        data,
        pos,
        glyphs,
    );
}

} // verus!
