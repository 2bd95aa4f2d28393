//! The document model: styles, geometry, paths and draw commands.
use crate::common::Unit;
use crate::TinyVgParseError;
use vstd::prelude::*;

verus! {

/// The kind of a style, as two bits of a tag byte name it.
#[derive(Debug, Clone, Copy, PartialEq, Eq, Structural)]
pub enum StyleType {
    /// One colour.
    Flat,
    /// A linear gradient between two colours.
    Linear,
    /// A radial gradient between two colours.
    Radial,
}

/// A style of one colour.
#[derive(Debug, Clone, Copy, PartialEq, Eq, Structural)]
pub struct FlatColored {
    /// The index of the colour in the colour table.
    pub color_index: u64,
}

/// A gradient along the line from `point_0` to `point_1`.
#[derive(Debug, Clone, Copy, PartialEq, Eq, Structural)]
pub struct LinearGradient {
    pub point_0: Point,
    pub point_1: Point,
    /// The index of the colour at `point_0`.
    pub color_index_0: u64,
    /// The index of the colour at `point_1`.
    pub color_index_1: u64,
}

/// A gradient around `point_0` that reaches its second colour at the distance
/// of `point_1`.
#[derive(Debug, Clone, Copy, PartialEq, Eq, Structural)]
pub struct RadialGradient {
    pub point_0: Point,
    pub point_1: Point,
    /// The index of the colour at `point_0`.
    pub color_index_0: u64,
    /// The index of the colour on the circle through `point_1`.
    pub color_index_1: u64,
}

/// How a shape is filled or a line is drawn.
#[derive(Debug, Clone, Copy, PartialEq, Eq, Structural)]
pub enum Style {
    FlatColor(FlatColored),
    LinearGradient(LinearGradient),
    RadialGradient(RadialGradient),
}

impl StyleType {
    /// The kind that the 2-bit field `value` names.
    pub open spec fn spec_from_u8(value: u8) -> Option<StyleType> {
        if value == 0 {
            Some(StyleType::Flat)
        } else if value == 1 {
            Some(StyleType::Linear)
        } else if value == 2 {
            Some(StyleType::Radial)
        } else {
            None
        }
    }

    /// The 2-bit field that names this kind.
    pub open spec fn spec_to_u8(self) -> u8 {
        match self {
            StyleType::Flat => 0,
            StyleType::Linear => 1,
            StyleType::Radial => 2,
        }
    }

    /// The kind of `style`.
    pub open spec fn spec_from_style(style: Style) -> StyleType {
        match style {
            Style::FlatColor(_) => StyleType::Flat,
            Style::LinearGradient(_) => StyleType::Linear,
            Style::RadialGradient(_) => StyleType::Radial,
        }
    }

    /// The kind that `value` names; 3 and above name none.
    pub fn from_u8(value: u8) -> (r: Result<StyleType, TinyVgParseError>)
        ensures
            r == match StyleType::spec_from_u8(value) {
                Some(kind) => Ok::<StyleType, TinyVgParseError>(kind),
                None => Err(TinyVgParseError::InvalidCommand),
            },
    {
        match value {
            0 => Ok(StyleType::Flat),
            1 => Ok(StyleType::Linear),
            2 => Ok(StyleType::Radial),
            _ => Err(TinyVgParseError::InvalidCommand),
        }
    }

    /// The 2-bit field that names this kind.
    pub fn to_u8(self) -> (value: u8)
        ensures
            value == self.spec_to_u8(),
            value <= 2,
            StyleType::spec_from_u8(value) == Some(self),
    {
        match self {
            StyleType::Flat => 0,
            StyleType::Linear => 1,
            StyleType::Radial => 2,
        }
    }

    /// The kind of `style`.
    pub fn from_style(style: &Style) -> (kind: StyleType)
        ensures
            kind == StyleType::spec_from_style(*style),
    {
        match style {
            Style::FlatColor(_) => StyleType::Flat,
            Style::LinearGradient(_) => StyleType::Linear,
            Style::RadialGradient(_) => StyleType::Radial,
        }
    }
}

/// The kind of a draw command, as the low six bits of its tag byte name it.
#[derive(Debug, Clone, Copy, PartialEq, Eq, Structural)]
pub enum CommandType {
    /// Ends the document.
    EndOfDocument,
    /// Fills an N-gon.
    FillPolygon,
    /// Fills a set of rectangles.
    FillRectangles,
    /// Fills a free-form path.
    FillPath,
    /// Draws a set of lines.
    DrawLines,
    /// Draws the outline of a polygon.
    DrawLineLoop,
    /// Draws a list of end-to-end lines.
    DrawLineStrip,
    /// Draws a free-form path.
    DrawLinePath,
    /// Draws a filled polygon with an outline.
    OutlineFillPolygon,
    /// Draws several filled rectangles with an outline.
    OutlineFillRectangles,
    /// Fills a free-form path and draws its outline.
    OutlineFillPath,
    /// Gives the contents and glyph positions of text.
    TextHint,
}

impl CommandType {
    /// The kind that the 6-bit field `value` names.
    pub open spec fn spec_from_u8(value: u8) -> Option<CommandType> {
        if value == 0 {
            Some(CommandType::EndOfDocument)
        } else if value == 1 {
            Some(CommandType::FillPolygon)
        } else if value == 2 {
            Some(CommandType::FillRectangles)
        } else if value == 3 {
            Some(CommandType::FillPath)
        } else if value == 4 {
            Some(CommandType::DrawLines)
        } else if value == 5 {
            Some(CommandType::DrawLineLoop)
        } else if value == 6 {
            Some(CommandType::DrawLineStrip)
        } else if value == 7 {
            Some(CommandType::DrawLinePath)
        } else if value == 8 {
            Some(CommandType::OutlineFillPolygon)
        } else if value == 9 {
            Some(CommandType::OutlineFillRectangles)
        } else if value == 10 {
            Some(CommandType::OutlineFillPath)
        } else if value == 11 {
            Some(CommandType::TextHint)
        } else {
            None
        }
    }

    /// The 6-bit field that names this kind.
    pub open spec fn spec_to_u8(self) -> u8 {
        match self {
            CommandType::EndOfDocument => 0,
            CommandType::FillPolygon => 1,
            CommandType::FillRectangles => 2,
            CommandType::FillPath => 3,
            CommandType::DrawLines => 4,
            CommandType::DrawLineLoop => 5,
            CommandType::DrawLineStrip => 6,
            CommandType::DrawLinePath => 7,
            CommandType::OutlineFillPolygon => 8,
            CommandType::OutlineFillRectangles => 9,
            CommandType::OutlineFillPath => 10,
            CommandType::TextHint => 11,
        }
    }

    /// The kind that `value` names; 12 and above name none.
    pub fn from_u8(value: u8) -> (r: Result<CommandType, TinyVgParseError>)
        ensures
            r == match CommandType::spec_from_u8(value) {
                Some(kind) => Ok::<CommandType, TinyVgParseError>(kind),
                None => Err(TinyVgParseError::InvalidCommand),
            },
    {
        match value {
            0 => Ok(CommandType::EndOfDocument),
            1 => Ok(CommandType::FillPolygon),
            2 => Ok(CommandType::FillRectangles),
            3 => Ok(CommandType::FillPath),
            4 => Ok(CommandType::DrawLines),
            5 => Ok(CommandType::DrawLineLoop),
            6 => Ok(CommandType::DrawLineStrip),
            7 => Ok(CommandType::DrawLinePath),
            8 => Ok(CommandType::OutlineFillPolygon),
            9 => Ok(CommandType::OutlineFillRectangles),
            10 => Ok(CommandType::OutlineFillPath),
            11 => Ok(CommandType::TextHint),
            _ => Err(TinyVgParseError::InvalidCommand),
        }
    }

    /// The 6-bit field that names this kind.
    pub fn to_u8(self) -> (value: u8)
        ensures
            value == self.spec_to_u8(),
            value <= 11,
            CommandType::spec_from_u8(value) == Some(self),
    {
        match self {
            CommandType::EndOfDocument => 0,
            CommandType::FillPolygon => 1,
            CommandType::FillRectangles => 2,
            CommandType::FillPath => 3,
            CommandType::DrawLines => 4,
            CommandType::DrawLineLoop => 5,
            CommandType::DrawLineStrip => 6,
            CommandType::DrawLinePath => 7,
            CommandType::OutlineFillPolygon => 8,
            CommandType::OutlineFillRectangles => 9,
            CommandType::OutlineFillPath => 10,
            CommandType::TextHint => 11,
        }
    }
}

/// A point of the plane.
#[derive(Debug, Clone, Copy, PartialEq, Eq, Structural)]
pub struct Point {
    pub x: Unit,
    pub y: Unit,
}

impl Point {
    /// The point with the coordinates `x` and `y`.
    pub fn new(x: Unit, y: Unit) -> (point: Point)
        ensures
            point == (Point { x, y }),
    {
        Point { x, y }
    }

    /// The place of a pen that stood at this point and was moved to `point`.
    pub fn move_to(&self, point: &Point) -> (moved: Point)
        ensures
            moved == *point,
    {
        *point
    }
}

/// A rectangle with sides along the axes.
#[derive(Debug, Clone, Copy, PartialEq, Eq, Structural)]
pub struct Rectangle {
    /// The distance of the left side from the origin.
    pub x: Unit,
    /// The distance of the upper side from the origin.
    pub y: Unit,
    pub width: Unit,
    pub height: Unit,
}

/// A straight line between two points.
#[derive(Debug, Clone, Copy, PartialEq, Eq, Structural)]
pub struct Line {
    pub start: Point,
    pub end: Point,
}

/// The kind of a path command, as the low three bits of its tag byte name it.
#[derive(Debug, Clone, Copy, PartialEq, Eq, Structural)]
pub enum PathCommandType {
    /// A straight line to a point.
    Line,
    /// A horizontal line to an x coordinate.
    HorizontalLine,
    /// A vertical line to a y coordinate.
    VerticalLine,
    /// A cubic Bezier curve.
    CubicBezier,
    /// An arc of a circle.
    ArcCircle,
    /// An arc of an ellipse.
    ArcEllipse,
    /// A straight line back to the start of the segment.
    ClosePath,
    /// A quadratic Bezier curve.
    QuadraticBezier,
}

impl PathCommandType {
    /// The kind that the 3-bit field `value` names.
    pub open spec fn spec_from_u8(value: u8) -> Option<PathCommandType> {
        if value == 0 {
            Some(PathCommandType::Line)
        } else if value == 1 {
            Some(PathCommandType::HorizontalLine)
        } else if value == 2 {
            Some(PathCommandType::VerticalLine)
        } else if value == 3 {
            Some(PathCommandType::CubicBezier)
        } else if value == 4 {
            Some(PathCommandType::ArcCircle)
        } else if value == 5 {
            Some(PathCommandType::ArcEllipse)
        } else if value == 6 {
            Some(PathCommandType::ClosePath)
        } else if value == 7 {
            Some(PathCommandType::QuadraticBezier)
        } else {
            None
        }
    }

    /// The 3-bit field that names this kind.
    pub open spec fn spec_to_u8(self) -> u8 {
        match self {
            PathCommandType::Line => 0,
            PathCommandType::HorizontalLine => 1,
            PathCommandType::VerticalLine => 2,
            PathCommandType::CubicBezier => 3,
            PathCommandType::ArcCircle => 4,
            PathCommandType::ArcEllipse => 5,
            PathCommandType::ClosePath => 6,
            PathCommandType::QuadraticBezier => 7,
        }
    }

    /// The kind of `command`.
    pub open spec fn spec_from_command(command: PathCommand) -> PathCommandType {
        match command {
            PathCommand::Line(_, _) => PathCommandType::Line,
            PathCommand::HorizontalLine(_, _) => PathCommandType::HorizontalLine,
            PathCommand::VerticalLine(_, _) => PathCommandType::VerticalLine,
            PathCommand::CubicBezier(_, _) => PathCommandType::CubicBezier,
            PathCommand::ArcCircle(_, _) => PathCommandType::ArcCircle,
            PathCommand::ArcEllipse(_, _) => PathCommandType::ArcEllipse,
            PathCommand::ClosePath => PathCommandType::ClosePath,
            PathCommand::QuadraticBezier(_, _) => PathCommandType::QuadraticBezier,
        }
    }

    /// The kind that `value` names; 8 and above name none.
    pub fn from_u8(value: u8) -> (r: Result<PathCommandType, TinyVgParseError>)
        ensures
            r == match PathCommandType::spec_from_u8(value) {
                Some(kind) => Ok::<PathCommandType, TinyVgParseError>(kind),
                None => Err(TinyVgParseError::InvalidCommand),
            },
    {
        match value {
            0 => Ok(PathCommandType::Line),
            1 => Ok(PathCommandType::HorizontalLine),
            2 => Ok(PathCommandType::VerticalLine),
            3 => Ok(PathCommandType::CubicBezier),
            4 => Ok(PathCommandType::ArcCircle),
            5 => Ok(PathCommandType::ArcEllipse),
            6 => Ok(PathCommandType::ClosePath),
            7 => Ok(PathCommandType::QuadraticBezier),
            _ => Err(TinyVgParseError::InvalidCommand),
        }
    }

    /// The 3-bit field that names this kind.
    pub fn to_u8(self) -> (value: u8)
        ensures
            value == self.spec_to_u8(),
            value <= 7,
            PathCommandType::spec_from_u8(value) == Some(self),
    {
        match self {
            PathCommandType::Line => 0,
            PathCommandType::HorizontalLine => 1,
            PathCommandType::VerticalLine => 2,
            PathCommandType::CubicBezier => 3,
            PathCommandType::ArcCircle => 4,
            PathCommandType::ArcEllipse => 5,
            PathCommandType::ClosePath => 6,
            PathCommandType::QuadraticBezier => 7,
        }
    }
}

/// A cubic Bezier curve from the current point to `point_1`.
#[derive(Debug, Clone, Copy, PartialEq, Eq, Structural)]
pub struct CubicBezier {
    pub control_point_0: Point,
    pub control_point_1: Point,
    pub point_1: Point,
}

/// An arc of a circle from the current point to `target`.
#[derive(Debug, Clone, Copy, PartialEq, Eq, Structural)]
pub struct ArcCircle {
    pub large_arc: bool,
    pub sweep: bool,
    pub radius: Unit,
    pub target: Point,
}

/// An arc of an ellipse from the current point to `target`.
#[derive(Debug, Clone, Copy, PartialEq, Eq, Structural)]
pub struct ArcEllipse {
    pub large_arc: bool,
    pub sweep: bool,
    pub radius_x: Unit,
    pub radius_y: Unit,
    pub rotation: Unit,
    pub target: Point,
}

/// A quadratic Bezier curve from the current point to `point_1`.
#[derive(Debug, Clone, Copy, PartialEq, Eq, Structural)]
pub struct QuadraticBezier {
    pub control_point: Point,
    pub point_1: Point,
}

/// One step of a path. Every step but `ClosePath` may carry a line width of
/// its own.
#[derive(Debug, Clone, Copy, PartialEq, Eq, Structural)]
pub enum PathCommand {
    Line(Point, Option<Unit>),
    HorizontalLine(Unit, Option<Unit>),
    VerticalLine(Unit, Option<Unit>),
    CubicBezier(CubicBezier, Option<Unit>),
    ArcCircle(ArcCircle, Option<Unit>),
    ArcEllipse(ArcEllipse, Option<Unit>),
    ClosePath,
    QuadraticBezier(QuadraticBezier, Option<Unit>),
}

/// A start point and the steps that are taken from it.
#[derive(Debug, Clone, PartialEq, Eq)]
pub struct Segment {
    pub start: Point,
    pub path_commands: Vec<PathCommand>,
}

/// A segment as a mathematical value.
pub struct SegmentView {
    pub start: Point,
    pub path_commands: Seq<PathCommand>,
}

impl View for Segment {
    type V = SegmentView;

    open spec fn view(&self) -> SegmentView {
        SegmentView { start: self.start, path_commands: self.path_commands@ }
    }
}

/// A list of segments.
#[derive(Debug, Clone, PartialEq, Eq)]
pub struct Path {
    pub segments: Vec<Segment>,
}

/// A path as a mathematical value.
pub struct PathView {
    pub segments: Seq<SegmentView>,
}

/// The segments of a list as mathematical values.
pub open spec fn segment_views(segments: Seq<Segment>) -> Seq<SegmentView> {
    Seq::new(segments.len(), |i: int| segments[i]@)
}

impl View for Path {
    type V = PathView;

    open spec fn view(&self) -> PathView {
        PathView { segments: segment_views(self.segments@) }
    }
}

/// A filled polygon.
#[derive(Debug, Clone, PartialEq, Eq)]
pub struct FillPolygonData {
    pub style: Style,
    pub points: Vec<Point>,
}

/// A set of filled rectangles.
#[derive(Debug, Clone, PartialEq, Eq)]
pub struct FillRectanglesData {
    pub style: Style,
    pub rectangles: Vec<Rectangle>,
}

/// A filled path.
#[derive(Debug, Clone, PartialEq, Eq)]
pub struct FillPathData {
    pub style: Style,
    pub path: Path,
}

/// A set of lines, each drawn on its own.
#[derive(Debug, Clone, PartialEq, Eq)]
pub struct DrawLinesData {
    pub lines: Vec<Line>,
    pub line_width: Unit,
    pub line_style: Style,
}

/// The outline of a polygon: its points joined in order, the last to the first.
#[derive(Debug, Clone, PartialEq, Eq)]
pub struct DrawLineLoopData {
    pub line_style: Style,
    pub line_width: Unit,
    pub points: Vec<Point>,
}

/// A line through the points in order.
#[derive(Debug, Clone, PartialEq, Eq)]
pub struct DrawLineStripData {
    pub style: Style,
    pub line_width: Unit,
    pub points: Vec<Point>,
}

/// A path drawn as a line.
#[derive(Debug, Clone, PartialEq, Eq)]
pub struct DrawLinePathData {
    pub style: Style,
    pub line_width: Unit,
    pub path: Path,
}

/// A filled polygon with an outline; it has at most 64 points.
#[derive(Debug, Clone, PartialEq, Eq)]
pub struct OutlineFillPolygonData {
    pub fill_style: Style,
    pub line_style: Style,
    pub line_width: Unit,
    pub points: Vec<Point>,
}

/// A set of filled rectangles with outlines; at most 64 of them.
#[derive(Debug, Clone, PartialEq, Eq)]
pub struct OutlineFillRectanglesData {
    pub fill_style: Style,
    pub line_style: Style,
    pub line_width: Unit,
    pub rectangles: Vec<Rectangle>,
}

/// A filled path with an outline; it has at most 64 segments.
#[derive(Debug, Clone, PartialEq, Eq)]
pub struct OutlineFillPathData {
    pub path: Path,
    pub fill_style: Style,
    pub line_style: Style,
    pub line_width: Unit,
}

/// Where a text stands and what it says; of no effect on the drawing.
#[derive(Debug, Clone, PartialEq, Eq)]
pub struct TextHintData {
    /// The centre of the descender line of the text.
    pub center: Point,
    /// The rotation of the text in degrees.
    pub rotation: Unit,
    /// The distance from the ascender line to the descender line.
    pub height: Unit,
    pub text: String,
    /// The number of glyphs of the text.
    pub glyph_length: u64,
    /// For each glyph, where it starts and ends on the descender line,
    /// measured from the centre.
    pub glyph_offset: Vec<(Unit, Unit)>,
}

/// One command of a document.
#[derive(Debug, Clone, PartialEq, Eq)]
pub enum DrawCommand {
    FillPolygon(FillPolygonData),
    FillRectangles(FillRectanglesData),
    FillPath(FillPathData),
    DrawLines(DrawLinesData),
    DrawLineLoop(DrawLineLoopData),
    DrawLineStrip(DrawLineStripData),
    DrawLinePath(DrawLinePathData),
    OutlineFillPolygon(OutlineFillPolygonData),
    OutlineFillRectangles(OutlineFillRectanglesData),
    OutlineFillPath(OutlineFillPathData),
    TextHint(TextHintData),
}

/// A draw command as a mathematical value.
pub enum DrawCommandView {
    FillPolygon { style: Style, points: Seq<Point> },
    FillRectangles { style: Style, rectangles: Seq<Rectangle> },
    FillPath { style: Style, path: PathView },
    DrawLines { line_style: Style, line_width: Unit, lines: Seq<Line> },
    DrawLineLoop { line_style: Style, line_width: Unit, points: Seq<Point> },
    DrawLineStrip { style: Style, line_width: Unit, points: Seq<Point> },
    DrawLinePath { style: Style, line_width: Unit, path: PathView },
    OutlineFillPolygon {
        fill_style: Style,
        line_style: Style,
        line_width: Unit,
        points: Seq<Point>,
    },
    OutlineFillRectangles {
        fill_style: Style,
        line_style: Style,
        line_width: Unit,
        rectangles: Seq<Rectangle>,
    },
    OutlineFillPath { fill_style: Style, line_style: Style, line_width: Unit, path: PathView },
    TextHint {
        center: Point,
        rotation: Unit,
        height: Unit,
        text: Seq<char>,
        glyph_length: u64,
        glyph_offset: Seq<(Unit, Unit)>,
    },
}

impl View for FillPolygonData {
    type V = DrawCommandView;

    open spec fn view(&self) -> DrawCommandView {
        DrawCommandView::FillPolygon {
            style: self.style,
            points: self.points@,
        }
    }
}

impl View for FillRectanglesData {
    type V = DrawCommandView;

    open spec fn view(&self) -> DrawCommandView {
        DrawCommandView::FillRectangles {
            style: self.style,
            rectangles: self.rectangles@,
        }
    }
}

impl View for FillPathData {
    type V = DrawCommandView;

    open spec fn view(&self) -> DrawCommandView {
        DrawCommandView::FillPath {
            style: self.style,
            path: self.path@,
        }
    }
}

impl View for DrawLinesData {
    type V = DrawCommandView;

    open spec fn view(&self) -> DrawCommandView {
        DrawCommandView::DrawLines {
            line_style: self.line_style,
            line_width: self.line_width,
            lines: self.lines@,
        }
    }
}

impl View for DrawLineLoopData {
    type V = DrawCommandView;

    open spec fn view(&self) -> DrawCommandView {
        DrawCommandView::DrawLineLoop {
            line_style: self.line_style,
            line_width: self.line_width,
            points: self.points@,
        }
    }
}

impl View for DrawLineStripData {
    type V = DrawCommandView;

    open spec fn view(&self) -> DrawCommandView {
        DrawCommandView::DrawLineStrip {
            style: self.style,
            line_width: self.line_width,
            points: self.points@,
        }
    }
}

impl View for DrawLinePathData {
    type V = DrawCommandView;

    open spec fn view(&self) -> DrawCommandView {
        DrawCommandView::DrawLinePath {
            style: self.style,
            line_width: self.line_width,
            path: self.path@,
        }
    }
}

impl View for OutlineFillPolygonData {
    type V = DrawCommandView;

    open spec fn view(&self) -> DrawCommandView {
        DrawCommandView::OutlineFillPolygon {
            fill_style: self.fill_style,
            line_style: self.line_style,
            line_width: self.line_width,
            points: self.points@,
        }
    }
}

impl View for OutlineFillRectanglesData {
    type V = DrawCommandView;

    open spec fn view(&self) -> DrawCommandView {
        DrawCommandView::OutlineFillRectangles {
            fill_style: self.fill_style,
            line_style: self.line_style,
            line_width: self.line_width,
            rectangles: self.rectangles@,
        }
    }
}

impl View for OutlineFillPathData {
    type V = DrawCommandView;

    open spec fn view(&self) -> DrawCommandView {
        DrawCommandView::OutlineFillPath {
            fill_style: self.fill_style,
            line_style: self.line_style,
            line_width: self.line_width,
            path: self.path@,
        }
    }
}

impl View for TextHintData {
    type V = DrawCommandView;

    open spec fn view(&self) -> DrawCommandView {
        DrawCommandView::TextHint {
            center: self.center,
            rotation: self.rotation,
            height: self.height,
            text: self.text@,
            glyph_length: self.glyph_length,
            glyph_offset: self.glyph_offset@,
        }
    }
}

impl View for DrawCommand {
    type V = DrawCommandView;

    open spec fn view(&self) -> DrawCommandView {
        match *self {
            DrawCommand::FillPolygon(data) => data@,
            DrawCommand::FillRectangles(data) => data@,
            DrawCommand::FillPath(data) => data@,
            DrawCommand::DrawLines(data) => data@,
            DrawCommand::DrawLineLoop(data) => data@,
            DrawCommand::DrawLineStrip(data) => data@,
            DrawCommand::DrawLinePath(data) => data@,
            DrawCommand::OutlineFillPolygon(data) => data@,
            DrawCommand::OutlineFillRectangles(data) => data@,
            DrawCommand::OutlineFillPath(data) => data@,
            DrawCommand::TextHint(data) => data@,
        }
    }
}

/// The commands of a list as mathematical values.
pub open spec fn command_views(commands: Seq<DrawCommand>) -> Seq<DrawCommandView> {
    Seq::new(commands.len(), |i: int| commands[i]@)
}

} // verus!
