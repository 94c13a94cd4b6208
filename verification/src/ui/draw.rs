//! What is drawn, as plain values: boxes, lines and texts with their places and colours.
use crate::geometry::{Point, Rectangle, Size};
use vstd::prelude::*;

verus! {

/// The colours of the screens, by their CSS names.
#[derive(Clone, Copy, Debug, PartialEq, Eq, Structural)]
pub enum UiColor {
    Black,
    DarkGreen,
    DarkOrange,
    Gray,
    Green,
    LightCyan,
    LightGray,
    Red,
    SteelBlue,
    Wheat,
    White,
    Yellow,
}

/// The colour of ordinary text.
pub const TEXT_LIGHT: UiColor = UiColor::LightGray;

/// The fonts of the screens.
#[derive(Clone, Copy, Debug, PartialEq, Eq, Structural)]
pub enum UiFont {
    Wqy12,
    Wqy16,
    Logisoso24,
    Logisoso78,
}

/// How a text is written: its font and colour, and how far below its line it stands.
#[derive(Clone, Copy, Debug, PartialEq, Eq, Structural)]
pub struct TextStyle {
    pub font: UiFont,
    pub color: UiColor,
    pub vertical_offset: i32,
}

/// How a text is set in an area: its lines' height and the space between its paragraphs,
/// and whether its lines are centred or start at the left.
#[derive(Clone, Copy, Debug, PartialEq, Eq, Structural)]
pub struct AreaStyle {
    pub centered: bool,
    pub line_height: u32,
    pub paragraph_spacing: i32,
}

/// One thing that is drawn.
#[derive(Clone, Debug)]
pub enum DrawOp {
    /// Everything in one colour.
    Clear(UiColor),
    /// A box with a border of some width, a filling, or both.
    Box { rect: Rectangle, stroke: Option<(UiColor, u32)>, fill: Option<UiColor> },
    /// A line of some width.
    Line { from: Point, to: Point, color: UiColor, width: u32 },
    /// One line of text, centred at a point.
    Text { text: String, at: Point, style: TextStyle },
    /// Text in an area.
    TextBox { text: String, area: Rectangle, style: TextStyle, set: AreaStyle },
}

/// What a thing that is drawn shows.
pub enum DrawView {
    Clear(UiColor),
    Box { rect: Rectangle, stroke: Option<(UiColor, u32)>, fill: Option<UiColor> },
    Line { from: Point, to: Point, color: UiColor, width: u32 },
    Text { text: Seq<char>, at: Point, style: TextStyle },
    TextBox { text: Seq<char>, area: Rectangle, style: TextStyle, set: AreaStyle },
}

impl View for DrawOp {
    type V = DrawView;

    open spec fn view(&self) -> DrawView {
        match *self {
            DrawOp::Clear(color) => DrawView::Clear(color),
            DrawOp::Box { rect, stroke, fill } => DrawView::Box { rect, stroke, fill },
            DrawOp::Line { from, to, color, width } => DrawView::Line { from, to, color, width },
            DrawOp::Text { text, at, style } => DrawView::Text { text: text@, at, style },
            DrawOp::TextBox { text, area, style, set } => DrawView::TextBox {
                text: text@,
                area,
                style,
                set,
            },
        }
    }
}

/// What a list of things that are drawn shows.
pub open spec fn shown(ops: Seq<DrawOp>) -> Seq<DrawView> {
    ops.map_values(|op: DrawOp| op@)
}

pub proof fn lemma_shown_push(ops: Seq<DrawOp>, op: DrawOp)
    ensures
        shown(ops.push(op)) == shown(ops).push(op@),
{
    assert(shown(ops.push(op)) =~= shown(ops).push(op@));
}

/// Adds one thing to a list of things that are drawn.
pub fn draw(ops: &mut Vec<DrawOp>, op: DrawOp)
    ensures
        shown(final(ops)@) == shown(old(ops)@).push(op@),
{
    proof {
        lemma_shown_push(ops@, op);
    }
    ops.push(op);
}

/// A point of these coordinates.
pub open spec fn point(x: int, y: int) -> Point {
    Point { x: x as i32, y: y as i32 }
}

/// A rectangle of these coordinates.
pub open spec fn rect(x: int, y: int, width: int, height: int) -> Rectangle {
    Rectangle {
        top_left: point(x, y),
        size: Size { width: width as u32, height: height as u32 },
    }
}

/// Half of an extent, as it counts from a rectangle's edge to its middle pixel.
pub open spec fn half(extent: int) -> int {
    if extent <= 0 {
        0
    } else {
        (extent - 1) / 2
    }
}

/// The pixel in the middle of a rectangle.
pub open spec fn center(r: Rectangle) -> Point {
    point(r.top_left.x + half(r.size.width as int), r.top_left.y + half(r.size.height as int))
}

/// The pixel in the middle of a rectangle.
pub fn center_of(r: Rectangle) -> (p: Point)
    requires
        r.top_left.x + half(r.size.width as int) <= i32::MAX,
        r.top_left.y + half(r.size.height as int) <= i32::MAX,
    ensures
        p == center(r),
{
    let half_width: u32 = r.size.width.saturating_sub(1) / 2;
    let half_height: u32 = r.size.height.saturating_sub(1) / 2;
    let x: i64 = r.top_left.x as i64 + half_width as i64;
    let y: i64 = r.top_left.y as i64 + half_height as i64;
    Point { x: x as i32, y: y as i32 }
}

/// The middle of a rectangle lies in it, as far from its first as from its last pixel, or one
/// pixel nearer to the first.
pub proof fn law_middle_is_in_the_middle(left: int, extent: int)
    requires
        extent > 0,
    ensures
        ({
            let m = left + half(extent);
            let before = m - left;
            let behind = left + extent - 1 - m;
            &&& left <= m < left + extent
            &&& before == behind || before + 1 == behind
        }),
{
}

} // verus!
