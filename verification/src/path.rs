//! Paths on the wire: the lengths of all segments first, then each segment as
//! its start point and its commands.
use crate::commands::{
    ArcCircle, ArcEllipse, CubicBezier, Path, PathCommand, PathCommandType, PathView, Point,
    QuadraticBezier, Segment, SegmentView, segment_views,
};
use crate::common::{
    count_bytes, lemma_count_round_trip, lemma_unit_round_trip, read_count, read_unit,
    spec_read_count, spec_read_unit, unit_bytes, write_count, write_unit, Unit,
};
use crate::cursor::ByteCursor;
use crate::geometry::write_point;
use crate::header::{CoordinateRange, TinyVgHeader};
use crate::wire::{
    all_of, concat_all, holds_at, lemma_concat_all_push, lemma_holds_at_concat,
    lemma_holds_at_index, lemma_parse_n_none, lemma_parse_n_round_trip, lemma_parse_n_step,
    parse_n, reads, reads_back, reads_view, undo, writes,
};
use crate::TinyVgParseError;
use vstd::prelude::*;

verus! {

/// The line width that may follow the tag of a path command, and the position
/// behind it: a coordinate where the tag announced one, nothing where not.
pub open spec fn spec_read_width(data: Seq<u8>, pos: int, range: CoordinateRange, present: bool)
    -> Option<(Option<Unit>, int)> {
    if present {
        match spec_read_unit(data, pos, range) {
            Some((width, end)) => Some((Some(width), end)),
            None => None,
        }
    } else {
        Some((None, pos))
    }
}

/// The bytes of the line width of a path command: none where it has none.
pub open spec fn width_bytes(width: Option<Unit>, range: CoordinateRange) -> Seq<u8> {
    match width {
        Some(width) => unit_bytes(width.0 as int, range),
        None => Seq::empty(),
    }
}

/// Whether the line width of a path command, where it has one, fits the width
/// of `range`.
pub open spec fn width_fits(width: Option<Unit>, range: CoordinateRange) -> bool {
    match width {
        Some(width) => range.fits_signed(width.0 as int),
        None => true,
    }
}

impl PathCommand {
    /// The line width that the command carries.
    pub open spec fn line_width(self) -> Option<Unit> {
        match self {
            PathCommand::Line(_, width) => width,
            PathCommand::HorizontalLine(_, width) => width,
            PathCommand::VerticalLine(_, width) => width,
            PathCommand::CubicBezier(_, width) => width,
            PathCommand::ArcCircle(_, width) => width,
            PathCommand::ArcEllipse(_, width) => width,
            PathCommand::ClosePath => None,
            PathCommand::QuadraticBezier(_, width) => width,
        }
    }

    /// The tag byte of the command: its kind in bits 0 to 2, and bit 4 set
    /// where a line width follows.
    pub open spec fn tag(self) -> u8 {
        (PathCommandType::spec_from_command(self).spec_to_u8() + (if self.line_width() is Some {
            16int
        } else {
            0int
        })) as u8
    }

    /// Whether what follows tag and line width fits the width of `range`.
    pub open spec fn payload_fits(self, range: CoordinateRange) -> bool {
        match self {
            PathCommand::Line(point, _) => point.fits(range),
            PathCommand::HorizontalLine(x, _) => range.fits_signed(x.0 as int),
            PathCommand::VerticalLine(y, _) => range.fits_signed(y.0 as int),
            PathCommand::CubicBezier(curve, _) => curve.fits(range),
            PathCommand::ArcCircle(arc, _) => arc.fits(range),
            PathCommand::ArcEllipse(arc, _) => arc.fits(range),
            PathCommand::ClosePath => true,
            PathCommand::QuadraticBezier(curve, _) => curve.fits(range),
        }
    }

    /// Whether the command can be written in the width of `range`.
    pub open spec fn fits(self, range: CoordinateRange) -> bool {
        width_fits(self.line_width(), range) && self.payload_fits(range)
    }

    /// The bytes that follow tag and line width.
    pub open spec fn payload_bytes(self, range: CoordinateRange) -> Seq<u8> {
        match self {
            PathCommand::Line(point, _) => point.bytes(range),
            PathCommand::HorizontalLine(x, _) => unit_bytes(x.0 as int, range),
            PathCommand::VerticalLine(y, _) => unit_bytes(y.0 as int, range),
            PathCommand::CubicBezier(curve, _) => curve.bytes(range),
            PathCommand::ArcCircle(arc, _) => arc.bytes(range),
            PathCommand::ArcEllipse(arc, _) => arc.bytes(range),
            PathCommand::ClosePath => Seq::empty(),
            PathCommand::QuadraticBezier(curve, _) => curve.bytes(range),
        }
    }

    /// The bytes of the command: tag, line width where it has one, payload.
    pub open spec fn bytes(self, range: CoordinateRange) -> Seq<u8> {
        seq![self.tag()] + width_bytes(self.line_width(), range) + self.payload_bytes(range)
    }

    /// What follows tag and line width of a command of the kind `kind`, made
    /// into the command, and the position behind it.
    pub open spec fn spec_read_payload(
        data: Seq<u8>,
        pos: int,
        range: CoordinateRange,
        kind: PathCommandType,
        width: Option<Unit>,
    ) -> Option<(PathCommand, int)> {
        match kind {
            PathCommandType::Line => match Point::spec_read(data, pos, range) {
                Some((point, end)) => Some((PathCommand::Line(point, width), end)),
                None => None,
            },
            PathCommandType::HorizontalLine => match spec_read_unit(data, pos, range) {
                Some((x, end)) => Some((PathCommand::HorizontalLine(x, width), end)),
                None => None,
            },
            PathCommandType::VerticalLine => match spec_read_unit(data, pos, range) {
                Some((y, end)) => Some((PathCommand::VerticalLine(y, width), end)),
                None => None,
            },
            PathCommandType::CubicBezier => match CubicBezier::spec_read(data, pos, range) {
                Some((curve, end)) => Some((PathCommand::CubicBezier(curve, width), end)),
                None => None,
            },
            PathCommandType::ArcCircle => match ArcCircle::spec_read(data, pos, range) {
                Some((arc, end)) => Some((PathCommand::ArcCircle(arc, width), end)),
                None => None,
            },
            PathCommandType::ArcEllipse => match ArcEllipse::spec_read(data, pos, range) {
                Some((arc, end)) => Some((PathCommand::ArcEllipse(arc, width), end)),
                None => None,
            },
            PathCommandType::ClosePath => Some((PathCommand::ClosePath, pos)),
            PathCommandType::QuadraticBezier => match QuadraticBezier::spec_read(
                data,
                pos,
                range,
            ) {
                Some((curve, end)) => Some((PathCommand::QuadraticBezier(curve, width), end)),
                None => None,
            },
        }
    }

    /// The path command at `pos` and the position behind it. Bits 0 to 2 of
    /// its tag byte name its kind; bit 4 says whether a line width follows the
    /// tag; the other bits are not looked at. A line width in front of the
    /// payload of `ClosePath` is read and dropped.
    pub open spec fn spec_read(data: Seq<u8>, pos: int, range: CoordinateRange) -> Option<
        (PathCommand, int),
    > {
        if 0 <= pos < data.len() {
            let tag = data[pos];
            match (
                PathCommandType::spec_from_u8((tag % 8) as u8),
                spec_read_width(data, pos + 1, range, tag / 16 % 2 == 1),
            ) {
                (Some(kind), Some((width, after_width))) => PathCommand::spec_read_payload(
                    data,
                    after_width,
                    range,
                    kind,
                    width,
                ),
                _ => None,
            }
        } else {
            None
        }
    }

    /// Reads what follows tag and line width of a path command.
    fn read_payload(
        header: &TinyVgHeader,
        cursor: &mut ByteCursor,
        kind: PathCommandType,
        width: Option<Unit>,
    ) -> (r: Result<PathCommand, TinyVgParseError>)
        ensures
            reads(
                *old(cursor),
                *final(cursor),
                r,
                PathCommand::spec_read_payload(
                    old(cursor).data@,
                    old(cursor).position as int,
                    header.coordinate_range,
                    kind,
                    width,
                ),
                TinyVgParseError::InvalidCommand,
            ),
            r matches Ok(command) ==> command.payload_fits(header.coordinate_range) && (
            command.line_width() is Some ==> command.line_width() == width),
    {
        match kind {
            PathCommandType::Line => Ok(
                PathCommand::Line(Point::read_point(header, cursor)?, width),
            ),
            PathCommandType::HorizontalLine => Ok(
                PathCommand::HorizontalLine(read_unit(cursor, &header.coordinate_range)?, width),
            ),
            PathCommandType::VerticalLine => Ok(
                PathCommand::VerticalLine(read_unit(cursor, &header.coordinate_range)?, width),
            ),
            PathCommandType::CubicBezier => Ok(
                PathCommand::CubicBezier(CubicBezier::read(header, cursor)?, width),
            ),
            PathCommandType::ArcCircle => Ok(
                PathCommand::ArcCircle(ArcCircle::read(header, cursor)?, width),
            ),
            PathCommandType::ArcEllipse => Ok(
                PathCommand::ArcEllipse(ArcEllipse::read(header, cursor)?, width),
            ),
            PathCommandType::ClosePath => Ok(PathCommand::ClosePath),
            PathCommandType::QuadraticBezier => Ok(
                PathCommand::QuadraticBezier(QuadraticBezier::read(header, cursor)?, width),
            ),
        }
    }

    /// Reads one path command: its tag byte, the line width where the tag
    /// announces one, and what its kind asks for.
    pub fn read(header: &TinyVgHeader, cursor: &mut ByteCursor) -> (r: Result<
        PathCommand,
        TinyVgParseError,
    >)
        ensures
            reads(
                *old(cursor),
                *final(cursor),
                r,
                PathCommand::spec_read(
                    old(cursor).data@,
                    old(cursor).position as int,
                    header.coordinate_range,
                ),
                TinyVgParseError::InvalidCommand,
            ),
            r matches Ok(command) ==> command.fits(header.coordinate_range),
    {
        let mut c = *cursor;
        let tag = match c.read_u8() {
            Some(byte) => byte,
            None => {
                return Err(TinyVgParseError::InvalidCommand);
            },
        };
        proof {
            assert(tag & 0x07 == tag % 8) by (bit_vector);
            assert((tag & 0x10 != 0) == (tag / 16 % 2 == 1)) by (bit_vector);
        }
        let kind = PathCommandType::from_u8(tag & 0x07)?;
        let width = if tag & 0x10 != 0 {
            Some(read_unit(&mut c, &header.coordinate_range)?)
        } else {
            None
        };
        let command = PathCommand::read_payload(header, &mut c, kind, width)?;
        *cursor = c;
        Ok(command)
    }

    /// Writes what follows tag and line width of the command.
    fn write_payload(&self, header: &TinyVgHeader, out: &mut Vec<u8>) -> (r: Result<
        (),
        TinyVgParseError,
    >)
        ensures
            writes(
                old(out)@,
                final(out)@,
                r,
                self.payload_fits(header.coordinate_range),
                self.payload_bytes(header.coordinate_range),
                TinyVgParseError::InvalidCommand,
            ),
    {
        match self {
            PathCommand::Line(point, _) => write_point(point, header, out),
            PathCommand::HorizontalLine(x, _) => write_unit(out, &header.coordinate_range, *x),
            PathCommand::VerticalLine(y, _) => write_unit(out, &header.coordinate_range, *y),
            PathCommand::CubicBezier(curve, _) => curve.write(header, out),
            PathCommand::ArcCircle(arc, _) => arc.write(header, out),
            PathCommand::ArcEllipse(arc, _) => arc.write(header, out),
            PathCommand::ClosePath => Ok(()),
            PathCommand::QuadraticBezier(curve, _) => curve.write(header, out),
        }
    }

    /// Writes one path command: tag, line width where it has one, payload.
    /// Fails where a coordinate does not fit the coordinate range.
    pub fn write(&self, header: &TinyVgHeader, out: &mut Vec<u8>) -> (r: Result<
        (),
        TinyVgParseError,
    >)
        ensures
            writes(
                old(out)@,
                final(out)@,
                r,
                self.fits(header.coordinate_range),
                self.bytes(header.coordinate_range),
                TinyVgParseError::InvalidCommand,
            ),
    {
        let mark = out.len();
        let (kind, width) = match self {
            PathCommand::Line(_, width) => (PathCommandType::Line, *width),
            PathCommand::HorizontalLine(_, width) => (PathCommandType::HorizontalLine, *width),
            PathCommand::VerticalLine(_, width) => (PathCommandType::VerticalLine, *width),
            PathCommand::CubicBezier(_, width) => (PathCommandType::CubicBezier, *width),
            PathCommand::ArcCircle(_, width) => (PathCommandType::ArcCircle, *width),
            PathCommand::ArcEllipse(_, width) => (PathCommandType::ArcEllipse, *width),
            PathCommand::ClosePath => (PathCommandType::ClosePath, None),
            PathCommand::QuadraticBezier(_, width) => (PathCommandType::QuadraticBezier, *width),
        };
        let base = kind.to_u8();
        proof {
            assert(base <= 7 ==> (base & 0x07) | 0x10 == base + 16 && base & 0x07 == base)
                by (bit_vector);
        }
        let mut tag = base & 0x07;
        if width.is_some() {
            tag = tag | 0x10;
        }
        out.push(tag);
        if let Some(unit) = width {
            if let Err(e) = write_unit(out, &header.coordinate_range, unit) {
                return undo(out, mark, e);
            }
        }
        if let Err(e) = self.write_payload(header, out) {
            return undo(out, mark, e);
        }
        Ok(())
    }

    /// What follows tag and line width, once written, is read back as the
    /// command it came from.
    pub proof fn lemma_payload_round_trip(self, data: Seq<u8>, pos: int, range: CoordinateRange)
        requires
            self.payload_fits(range),
            holds_at(data, pos, self.payload_bytes(range)),
        ensures
            PathCommand::spec_read_payload(
                data,
                pos,
                range,
                PathCommandType::spec_from_command(self),
                self.line_width(),
            ) == Some((self, pos + self.payload_bytes(range).len())),
    {
        match self {
            PathCommand::Line(point, _) => point.lemma_round_trip(data, pos, range),
            PathCommand::HorizontalLine(x, _) => lemma_unit_round_trip(data, pos, range, x),
            PathCommand::VerticalLine(y, _) => lemma_unit_round_trip(data, pos, range, y),
            PathCommand::CubicBezier(curve, _) => curve.lemma_round_trip(data, pos, range),
            PathCommand::ArcCircle(arc, _) => arc.lemma_round_trip(data, pos, range),
            PathCommand::ArcEllipse(arc, _) => arc.lemma_round_trip(data, pos, range),
            PathCommand::ClosePath => {},
            PathCommand::QuadraticBezier(curve, _) => curve.lemma_round_trip(data, pos, range),
        }
    }

    /// A path command that was written is read back as it was.
    pub proof fn lemma_round_trip(self, data: Seq<u8>, pos: int, range: CoordinateRange)
        requires
            self.fits(range),
            holds_at(data, pos, self.bytes(range)),
        ensures
            PathCommand::spec_read(data, pos, range) == Some(
                (self, pos + self.bytes(range).len()),
            ),
    {
        let head = seq![self.tag()];
        let width = width_bytes(self.line_width(), range);
        let payload = self.payload_bytes(range);
        lemma_holds_at_concat(data, pos, head + width, payload);
        lemma_holds_at_concat(data, pos, head, width);
        lemma_holds_at_index(data, pos, head, 0);
        match self.line_width() {
            Some(unit) => lemma_unit_round_trip(data, pos + 1, range, unit),
            None => {},
        }
        self.lemma_payload_round_trip(data, pos + 1 + width.len(), range);
    }
}

/// How one path command is read in the width of `range`.
pub open spec fn command_reader(range: CoordinateRange) -> spec_fn(Seq<u8>, int) -> Option<
    (PathCommand, int),
> {
    |data: Seq<u8>, pos: int| PathCommand::spec_read(data, pos, range)
}

/// How one path command is written in the width of `range`.
pub open spec fn command_writer(range: CoordinateRange) -> spec_fn(PathCommand) -> Seq<u8> {
    |command: PathCommand| command.bytes(range)
}

/// Which path commands fit the width of `range`.
pub open spec fn command_fits(range: CoordinateRange) -> spec_fn(PathCommand) -> bool {
    |command: PathCommand| command.fits(range)
}

/// How the length of one segment is read.
pub open spec fn count_reader() -> spec_fn(Seq<u8>, int) -> Option<(u64, int)> {
    |data: Seq<u8>, pos: int| spec_read_count(data, pos)
}

/// How the length of one segment is written.
pub open spec fn count_writer() -> spec_fn(u64) -> Seq<u8> {
    |count: u64| count_bytes(count as nat)
}

/// Which lengths can be written: those of at least one.
pub open spec fn count_positive() -> spec_fn(u64) -> bool {
    |count: u64| count >= 1
}

impl SegmentView {
    /// Whether the start point and every command fit the width of `range`.
    pub open spec fn content_fits(self, range: CoordinateRange) -> bool {
        self.start.fits(range) && all_of(command_fits(range), self.path_commands)
    }

    /// Whether the segment can be written: it has a command, and all of it
    /// fits the width of `range`.
    pub open spec fn fits(self, range: CoordinateRange) -> bool {
        1 <= self.path_commands.len() <= u64::MAX && self.content_fits(range)
    }

    /// The bytes of the segment, without its length: the start point, then
    /// the commands.
    pub open spec fn bytes(self, range: CoordinateRange) -> Seq<u8> {
        self.start.bytes(range) + concat_all(command_writer(range), self.path_commands)
    }

    /// The segment of `count` commands at `pos` and the position behind it.
    pub open spec fn spec_read(data: Seq<u8>, pos: int, range: CoordinateRange, count: nat)
        -> Option<(SegmentView, int)> {
        match Point::spec_read(data, pos, range) {
            Some((start, after_start)) => match parse_n(
                command_reader(range),
                data,
                after_start,
                count,
            ) {
                Some((path_commands, end)) => Some((SegmentView { start, path_commands }, end)),
                None => None,
            },
            None => None,
        }
    }

    /// A segment that was written is read back as it was, by its length.
    pub proof fn lemma_round_trip(self, data: Seq<u8>, pos: int, range: CoordinateRange)
        requires
            self.content_fits(range),
            holds_at(data, pos, self.bytes(range)),
        ensures
            SegmentView::spec_read(data, pos, range, self.path_commands.len()) == Some(
                (self, pos + self.bytes(range).len()),
            ),
    {
        let start = self.start.bytes(range);
        lemma_holds_at_concat(
            data,
            pos,
            start,
            concat_all(command_writer(range), self.path_commands),
        );
        self.start.lemma_round_trip(data, pos, range);
        assert(reads_back(command_reader(range), command_writer(range), command_fits(range))) by {
            assert forall|item: PathCommand, d: Seq<u8>, p: int|
                command_fits(range)(item) && #[trigger] holds_at(
                    d,
                    p,
                    command_writer(range)(item),
                ) implies command_reader(range)(d, p) == Some(
                (item, p + command_writer(range)(item).len()),
            ) by {
                item.lemma_round_trip(d, p, range);
            }
        }
        lemma_parse_n_round_trip(
            command_reader(range),
            command_writer(range),
            command_fits(range),
            data,
            pos + start.len(),
            self.path_commands,
        );
    }
}

impl Segment {
    /// Reads a segment of `count` commands: its start point, then the commands.
    pub fn read(header: &TinyVgHeader, cursor: &mut ByteCursor, count: u64) -> (r: Result<
        Segment,
        TinyVgParseError,
    >)
        ensures
            reads_view(
                *old(cursor),
                *final(cursor),
                r,
                SegmentView::spec_read(
                    old(cursor).data@,
                    old(cursor).position as int,
                    header.coordinate_range,
                    count as nat,
                ),
                TinyVgParseError::InvalidCommand,
            ),
            r matches Ok(segment) ==> segment@.content_fits(header.coordinate_range)
                && segment.path_commands@.len() == count,
    {
        let mut c = *cursor;
        let start = Point::read_point(header, &mut c)?;
        let mut path_commands: Vec<PathCommand> = Vec::new();
        let mut i: u64 = 0;
        let ghost one = command_reader(header.coordinate_range);
        let ghost data = cursor.data@;
        let ghost first = c.position as int;
        while i < count
            invariant
                i <= count,
                *cursor == *old(cursor),
                data == old(cursor).data@,
                one == command_reader(header.coordinate_range),
                c.data@ == data,
                old(cursor).position <= c.position,
                start.fits(header.coordinate_range),
                path_commands@.len() == i,
                all_of(command_fits(header.coordinate_range), path_commands@),
                Point::spec_read(data, old(cursor).position as int, header.coordinate_range)
                    == Some((start, first)),
                parse_n(one, data, first, i as nat) == Some((path_commands@, c.position as int)),
            decreases count - i,
        {
            proof {
                lemma_parse_n_step(one, data, first, i as nat);
            }
            match PathCommand::read(header, &mut c) {
                Ok(command) => path_commands.push(command),
                Err(e) => {
                    proof {
                        lemma_parse_n_none(one, data, first, (i + 1) as nat, count as nat);
                    }
                    return Err(e);
                },
            }
            i = i + 1;
        }
        *cursor = c;
        Ok(Segment { start, path_commands })
    }

    /// Writes a segment, without its length: the start point, then the
    /// commands. Fails where a coordinate does not fit the coordinate range.
    pub fn write(&self, header: &TinyVgHeader, out: &mut Vec<u8>) -> (r: Result<
        (),
        TinyVgParseError,
    >)
        ensures
            writes(
                old(out)@,
                final(out)@,
                r,
                self@.content_fits(header.coordinate_range),
                self@.bytes(header.coordinate_range),
                TinyVgParseError::InvalidCommand,
            ),
    {
        let ghost range = header.coordinate_range;
        let ghost commands = self.path_commands@;
        let mark = out.len();
        write_point(&self.start, header, out)?;
        let mut i: usize = 0;
        while i < self.path_commands.len()
            invariant
                i <= self.path_commands.len(),
                mark == old(out)@.len(),
                range == header.coordinate_range,
                commands == self.path_commands@,
                self.start.fits(range),
                all_of(command_fits(range), commands.take(i as int)),
                out@ == old(out)@ + (self.start.bytes(range) + concat_all(
                    command_writer(range),
                    commands.take(i as int),
                )),
            decreases self.path_commands.len() - i,
        {
            if let Err(e) = self.path_commands[i].write(header, out) {
                return undo(out, mark, e);
            }
            proof {
                assert(commands.take(i + 1) =~= commands.take(i as int).push(commands[i as int]));
                lemma_concat_all_push(
                    command_writer(range),
                    commands.take(i as int),
                    commands[i as int],
                );
            }
            i = i + 1;
        }
        assert(commands.take(self.path_commands.len() as int) =~= commands);
        Ok(())
    }
}

/// How one segment is written in the width of `range`, without its length.
pub open spec fn segment_writer(range: CoordinateRange) -> spec_fn(SegmentView) -> Seq<u8> {
    |segment: SegmentView| segment.bytes(range)
}

/// Which segments can be written in the width of `range`.
pub open spec fn segment_fits(range: CoordinateRange) -> spec_fn(SegmentView) -> bool {
    |segment: SegmentView| segment.fits(range)
}

/// The number of commands of each segment.
pub open spec fn segment_lengths(segments: Seq<SegmentView>) -> Seq<u64> {
    Seq::new(segments.len(), |i: int| segments[i].path_commands.len() as u64)
}

/// The segments at `pos`, one for each of `lengths` with that many commands,
/// and the position behind the last.
pub open spec fn spec_read_segments(
    data: Seq<u8>,
    pos: int,
    range: CoordinateRange,
    lengths: Seq<u64>,
) -> Option<(Seq<SegmentView>, int)>
    decreases lengths.len(),
{
    if lengths.len() == 0 {
        Some((Seq::empty(), pos))
    } else {
        match spec_read_segments(data, pos, range, lengths.drop_last()) {
            Some((segments, next)) => match SegmentView::spec_read(
                data,
                next,
                range,
                lengths.last() as nat,
            ) {
                Some((segment, end)) => Some((segments.push(segment), end)),
                None => None,
            },
            None => None,
        }
    }
}

impl PathView {
    /// Whether the path can be written: every segment has a command, and all
    /// of it fits the width of `range`.
    pub open spec fn fits(self, range: CoordinateRange) -> bool {
        all_of(segment_fits(range), self.segments)
    }

    /// The bytes of the path, without the number of its segments: the length
    /// of every segment, less one, then the segments.
    pub open spec fn bytes(self, range: CoordinateRange) -> Seq<u8> {
        concat_all(count_writer(), segment_lengths(self.segments)) + concat_all(
            segment_writer(range),
            self.segments,
        )
    }

    /// The path of `segment_count` segments at `pos` and the position behind
    /// it: first the length of every segment, then the segments.
    pub open spec fn spec_parse(
        data: Seq<u8>,
        pos: int,
        range: CoordinateRange,
        segment_count: nat,
    ) -> Option<(PathView, int)> {
        match parse_n(count_reader(), data, pos, segment_count) {
            Some((lengths, after_lengths)) => match spec_read_segments(
                data,
                after_lengths,
                range,
                lengths,
            ) {
                Some((segments, end)) => Some((PathView { segments }, end)),
                None => None,
            },
            None => None,
        }
    }
}

/// Where the first segments cannot be read, all of them cannot be read either.
proof fn lemma_read_segments_none(
    data: Seq<u8>,
    pos: int,
    range: CoordinateRange,
    lengths: Seq<u64>,
    few: int,
)
    requires
        0 <= few <= lengths.len(),
        spec_read_segments(data, pos, range, lengths.take(few)) is None,
    ensures
        spec_read_segments(data, pos, range, lengths) is None,
    decreases lengths.len(),
{
    if few < lengths.len() {
        assert(lengths.drop_last().take(few) =~= lengths.take(few));
        lemma_read_segments_none(data, pos, range, lengths.drop_last(), few);
    } else {
        assert(lengths.take(few) =~= lengths);
    }
}

/// Reads the lengths of `count` segments.
fn read_counts(cursor: &mut ByteCursor, count: u64) -> (r: Result<Vec<u64>, TinyVgParseError>)
    ensures
        reads_view(
            *old(cursor),
            *final(cursor),
            r,
            parse_n(count_reader(), old(cursor).data@, old(cursor).position as int, count as nat),
            TinyVgParseError::InvalidCommand,
        ),
        r matches Ok(lengths) ==> lengths@.len() == count && all_of(count_positive(), lengths@),
{
    let mut c = *cursor;
    let mut lengths: Vec<u64> = Vec::new();
    let mut i: u64 = 0;
    let ghost data = cursor.data@;
    let ghost start = cursor.position as int;
    while i < count
        invariant
            i <= count,
            *cursor == *old(cursor),
            data == old(cursor).data@,
            start == old(cursor).position,
            c.data@ == data,
            old(cursor).position <= c.position,
            lengths@.len() == i,
            all_of(count_positive(), lengths@),
            parse_n(count_reader(), data, start, i as nat) == Some(
                (lengths@, c.position as int),
            ),
        decreases count - i,
    {
        proof {
            lemma_parse_n_step(count_reader(), data, start, i as nat);
        }
        match read_count(&mut c) {
            Ok(length) => lengths.push(length),
            Err(e) => {
                proof {
                    lemma_parse_n_none(count_reader(), data, start, (i + 1) as nat, count as nat);
                }
                return Err(e);
            },
        }
        i = i + 1;
    }
    *cursor = c;
    Ok(lengths)
}

impl Path {
    /// Reads a path of `segment_count` segments.
    ///
    /// The lengths of all segments come first, each stored less one; then, for
    /// each segment, its start point and as many commands as its length says.
    /// Fails where the data ends inside the path or a command cannot be read.
    pub fn parse(cursor: &mut ByteCursor, header: &TinyVgHeader, segment_count: u64) -> (r: Result<
        Path,
        TinyVgParseError,
    >)
        ensures
            reads_view(
                *old(cursor),
                *final(cursor),
                r,
                PathView::spec_parse(
                    old(cursor).data@,
                    old(cursor).position as int,
                    header.coordinate_range,
                    segment_count as nat,
                ),
                TinyVgParseError::InvalidCommand,
            ),
            r matches Ok(path) ==> path@.fits(header.coordinate_range) && path.segments@.len()
                == segment_count,
    {
        let mut c = *cursor;
        let lengths = read_counts(&mut c, segment_count)?;
        let mut segments: Vec<Segment> = Vec::new();
        let mut i: usize = 0;
        let ghost range = header.coordinate_range;
        let ghost data = cursor.data@;
        let ghost first = c.position as int;
        while i < lengths.len()
            invariant
                i <= lengths.len(),
                *cursor == *old(cursor),
                data == old(cursor).data@,
                range == header.coordinate_range,
                c.data@ == data,
                old(cursor).position <= c.position,
                lengths@.len() == segment_count,
                all_of(count_positive(), lengths@),
                segments@.len() == i,
                all_of(segment_fits(range), segment_views(segments@)),
                parse_n(
                    count_reader(),
                    data,
                    old(cursor).position as int,
                    segment_count as nat,
                ) == Some((lengths@, first)),
                spec_read_segments(data, first, range, lengths@.take(i as int)) == Some(
                    (segment_views(segments@), c.position as int),
                ),
            decreases lengths.len() - i,
        {
            proof {
                assert(lengths@.take(i + 1).drop_last() =~= lengths@.take(i as int));
            }
            let ghost before = segment_views(segments@);
            match Segment::read(header, &mut c, lengths[i]) {
                Ok(segment) => {
                    segments.push(segment);
                    proof {
                        assert(segment_views(segments@) =~= before.push(segment@));
                        assert(count_positive()(lengths@[i as int]));
                    }
                },
                Err(e) => {
                    proof {
                        lemma_read_segments_none(data, first, range, lengths@, i + 1);
                    }
                    return Err(e);
                },
            }
            i = i + 1;
        }
        assert(lengths@.take(lengths.len() as int) =~= lengths@);
        *cursor = c;
        Ok(Path { segments })
    }
}

/// Writes a path, without the number of its segments: the length of every
/// segment, less one, then each segment as its start point and its commands.
///
/// Fails with `InvalidCommand` where a segment has no command or a coordinate
/// does not fit the coordinate range.
pub fn write_path(path: &Path, out: &mut Vec<u8>, header: &TinyVgHeader) -> (r: Result<
    (),
    TinyVgParseError,
>)
    ensures
        writes(
            old(out)@,
            final(out)@,
            r,
            path@.fits(header.coordinate_range),
            path@.bytes(header.coordinate_range),
            TinyVgParseError::InvalidCommand,
        ),
{
    let ghost range = header.coordinate_range;
    let ghost views = segment_views(path.segments@);
    let ghost lengths = segment_lengths(views);
    let mark = out.len();
    let mut i: usize = 0;
    while i < path.segments.len()
        invariant
            i <= path.segments.len(),
            mark == old(out)@.len(),
            views == segment_views(path.segments@),
            lengths == segment_lengths(views),
            forall|j: int|
                0 <= j < i ==> 1 <= (#[trigger] views[j]).path_commands.len() <= u64::MAX,
            out@ == old(out)@ + concat_all(count_writer(), lengths.take(i as int)),
        decreases path.segments.len() - i,
    {
        if let Err(e) = write_count(out, path.segments[i].path_commands.len()) {
            return undo(out, mark, e);
        }
        proof {
            assert(lengths.take(i + 1) =~= lengths.take(i as int).push(lengths[i as int]));
            lemma_concat_all_push(count_writer(), lengths.take(i as int), lengths[i as int]);
        }
        i = i + 1;
    }
    assert(lengths.take(path.segments.len() as int) =~= lengths);
    let ghost head = concat_all(count_writer(), lengths);
    let mut k: usize = 0;
    while k < path.segments.len()
        invariant
            k <= path.segments.len(),
            mark == old(out)@.len(),
            range == header.coordinate_range,
            views == segment_views(path.segments@),
            head == concat_all(count_writer(), segment_lengths(views)),
            forall|j: int|
                0 <= j < path.segments.len() ==> 1 <= (#[trigger] views[j]).path_commands.len()
                    <= u64::MAX,
            forall|j: int| 0 <= j < k ==> (#[trigger] views[j]).content_fits(range),
            out@ == old(out)@ + (head + concat_all(segment_writer(range), views.take(k as int))),
        decreases path.segments.len() - k,
    {
        if let Err(e) = path.segments[k].write(header, out) {
            return undo(out, mark, e);
        }
        proof {
            assert(views.take(k + 1) =~= views.take(k as int).push(views[k as int]));
            lemma_concat_all_push(segment_writer(range), views.take(k as int), views[k as int]);
            assert(out@ =~= old(out)@ + (head + concat_all(
                segment_writer(range),
                views.take(k + 1),
            )));
        }
        k = k + 1;
    }
    proof {
        assert(views.take(path.segments.len() as int) =~= views);
        assert forall|j: int| 0 <= j < views.len() implies segment_fits(range)(
            #[trigger] views[j],
        ) by {}
    }
    Ok(())
}

/// Segments that were written are read back as they were, by their lengths.
proof fn lemma_segments_round_trip(
    data: Seq<u8>,
    pos: int,
    range: CoordinateRange,
    segments: Seq<SegmentView>,
)
    requires
        all_of(segment_fits(range), segments),
        holds_at(data, pos, concat_all(segment_writer(range), segments)),
    ensures
        spec_read_segments(data, pos, range, segment_lengths(segments)) == Some(
            (segments, pos + concat_all(segment_writer(range), segments).len()),
        ),
    decreases segments.len(),
{
    let lengths = segment_lengths(segments);
    if segments.len() > 0 {
        let front = segments.drop_last();
        let front_bytes = concat_all(segment_writer(range), front);
        assert(lengths.drop_last() =~= segment_lengths(front));
        lemma_holds_at_concat(data, pos, front_bytes, segments.last().bytes(range));
        lemma_segments_round_trip(data, pos, range, front);
        segments.last().lemma_round_trip(data, pos + front_bytes.len(), range);
    }
}

impl PathView {
    /// A path that was written is read back as it was, by the number of its
    /// segments.
    pub proof fn lemma_round_trip(self, data: Seq<u8>, pos: int, range: CoordinateRange)
        requires
            self.fits(range),
            holds_at(data, pos, self.bytes(range)),
        ensures
            PathView::spec_parse(data, pos, range, self.segments.len()) == Some(
                (self, pos + self.bytes(range).len()),
            ),
    {
        let lengths = segment_lengths(self.segments);
        let head = concat_all(count_writer(), lengths);
        lemma_holds_at_concat(data, pos, head, concat_all(segment_writer(range), self.segments));
        assert(reads_back(count_reader(), count_writer(), count_positive())) by {
            assert forall|item: u64, d: Seq<u8>, p: int|
                count_positive()(item) && #[trigger] holds_at(
                    d,
                    p,
                    count_writer()(item),
                ) implies count_reader()(d, p) == Some((item, p + count_writer()(item).len())) by {
                lemma_count_round_trip(d, p, item);
            }
        }
        assert forall|i: int| 0 <= i < lengths.len() implies count_positive()(
            #[trigger] lengths[i],
        ) by {}
        lemma_parse_n_round_trip(
            count_reader(),
            count_writer(),
            count_positive(),
            data,
            pos,
            lengths,
        );
        lemma_segments_round_trip(data, pos + head.len(), range, self.segments);
    }
}

} // verus!
