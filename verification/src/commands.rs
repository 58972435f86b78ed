use vstd::prelude::*;

verus! {

/// The two paint colors a board ever uses: black for content and
/// boundaries, light grey for decorations and soft separators.
#[derive(Clone, Copy, Debug, PartialEq, Eq, Structural)]
pub enum Color {
    Black,
    Grey,
}

/// The three fixed text styles: bold 24pt for board content, normal 36pt
/// for the error headline, normal 12pt for error body lines.
#[derive(Clone, Copy, Debug, PartialEq, Eq, Structural)]
pub enum FontKind {
    Body,
    ErrorHeadline,
    ErrorBody,
}

/// One drawing instruction of the display list a render produces. The
/// drawing backend executes them in order on a white canvas.
///
/// * `Segment` is a straight stroke between two points.
/// * `Row` is one departure row: the line label drawn at `(x, y)` over a
///   light-grey oval matching its measured bounds, the destination at the
///   label's measured right edge on the same baseline, and the time string
///   right-aligned so it ends at `right_edge`, all in the body font.
/// * `Text` is a plain black string anchored at `(x, y)`.
#[derive(Clone, Debug, PartialEq)]
pub enum DrawCmd {
    Segment { x1: i64, y1: i64, x2: i64, y2: i64, color: Color },
    Row { x: i64, y: i64, label: String, destination: String, times: String, right_edge: i64 },
    Text { x: i64, y: i64, text: String, font: FontKind },
}

/// Mathematical image of a `DrawCmd`.
pub ghost enum DrawCmdV {
    Segment { x1: int, y1: int, x2: int, y2: int, color: Color },
    Row { x: int, y: int, label: Seq<char>, destination: Seq<char>, times: Seq<char>, right_edge: int },
    Text { x: int, y: int, text: Seq<char>, font: FontKind },
}

impl DeepView for DrawCmd {
    type V = DrawCmdV;

    open spec fn deep_view(&self) -> DrawCmdV {
        match self {
            DrawCmd::Segment { x1, y1, x2, y2, color } => DrawCmdV::Segment {
                x1: *x1 as int,
                y1: *y1 as int,
                x2: *x2 as int,
                y2: *y2 as int,
                color: *color,
            },
            DrawCmd::Row { x, y, label, destination, times, right_edge } => DrawCmdV::Row {
                x: *x as int,
                y: *y as int,
                label: label@,
                destination: destination@,
                times: times@,
                right_edge: *right_edge as int,
            },
            DrawCmd::Text { x, y, text, font } => DrawCmdV::Text {
                x: *x as int,
                y: *y as int,
                text: text@,
                font: *font,
            },
        }
    }
}

/// The failure taxonomy of a render call. Every variant is fatal to the
/// call: the canvas could not be allocated, the typeface could not be
/// constructed, a text blob or shape could not be drawn, or the finished
/// buffer could not be encoded.
#[derive(Clone, Copy, Debug, PartialEq, Eq, Structural)]
pub enum RenderError {
    Allocation,
    Typeface,
    Draw,
    Encoding,
}

} // verus!
