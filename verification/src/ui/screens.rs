//! The screens that are not lists: what is drawn of the clock, the speech editor, the loading
//! notice, the corner overlays and the status page.
use crate::calendar::{civil_from_days, day_number, floor_div, is_date};
use crate::geometry::{Point, Rectangle, Size};
use crate::app::{in_asr_area, in_backspace_corner, in_menu_corner};
use crate::lcd::TouchPoint;
use crate::remote::editor::{hint_words, top_action, AsrHint, TopAsrAction};
use crate::text::{
    dec, dec2_string, law_decimal_reads_back, law_two_digits_read_back, same_text, unsigned_value,
    year_string, year_text, zero_padded,
};
use crate::ui::draw::{
    center_of, draw, point, rect, shown, AreaStyle, DrawOp, DrawView, TextStyle, UiColor, UiFont,
    TEXT_LIGHT,
};
use crate::ui::framebuffer::{DISPLAY_HEIGHT, DISPLAY_WIDTH};
use vstd::prelude::*;

verus! {

/// The offset of the local time that a clock starts with, in seconds.
pub const DEFAULT_CLOCK_UTC_OFFSET_SECS: i32 = 28_800;

/// The date and the time of day, in hours and minutes, so many seconds after the start of
/// 1970, where the local time is off by so many seconds.
pub fn clock_parts(secs: i64, offset_secs: i32) -> (r: (i64, u64, u64, u64, u64))
    requires
        secs >= 0,
        secs + offset_secs <= i64::MAX,
    ensures
        is_date(r.0 as int, r.1 as int, r.2 as int),
        day_number(r.0 as int, r.1 as int, r.2 as int) == (secs + offset_secs) / 86_400,
        r.3 == (secs + offset_secs) % 86_400 / 3600,
        r.4 == (secs + offset_secs) % 86_400 / 60 % 60,
        r.3 < 24,
        r.4 < 60,
        0 <= secs + offset_secs - (day_number(r.0 as int, r.1 as int, r.2 as int) * 86_400 + r.3
            * 3600 + r.4 * 60) < 60,
{
    let local_secs: i64 = secs + offset_secs as i64;
    let days: i64 = floor_div(local_secs, 86_400);
    let day_secs: u64 = (local_secs - days * 86_400) as u64;
    let (year, month, day) = civil_from_days(days);
    (year, month, day, day_secs / 3600, day_secs / 60 % 60)
}

/// The text of a date: year, month and day, with dashes between them.
pub open spec fn date_text(year: int, month: int, day: int) -> Seq<char> {
    year_text(year) + seq!['-'] + zero_padded(dec(month as nat), 2) + seq!['-'] + zero_padded(
        dec(day as nat),
        2,
    )
}

fn date_string(year: i64, month: u64, day: u64) -> (r: String)
    ensures
        r@ == date_text(year as int, month as int, day as int),
{
    let mut out: String = year_string(year);
    out.push('-');
    out.append(dec2_string(month).as_str());
    out.push('-');
    out.append(dec2_string(day).as_str());
    assert(out@ =~= date_text(year as int, month as int, day as int));
    out
}

/// What is drawn of the clock: the date, and below it hours and minutes with a colon of two
/// dots between them.
pub open spec fn clock_drawing(year: int, month: int, day: int, hours: int, minutes: int) -> Seq<
    DrawView,
> {
    let small = TextStyle {
        font: UiFont::Logisoso24,
        color: UiColor::DarkGreen,
        vertical_offset: 0,
    };
    let large = TextStyle { font: UiFont::Logisoso78, ..small };
    seq![
        DrawView::Clear(UiColor::Black),
        DrawView::Text { text: date_text(year, month, day), at: point(205, 125), style: small },
        DrawView::Text {
            text: zero_padded(dec(hours as nat), 2),
            at: point(133, 289),
            style: large,
        },
        DrawView::Text {
            text: zero_padded(dec(minutes as nat), 2),
            at: point(277, 289),
            style: large,
        },
        DrawView::Box {
            rect: rect(200, 237, 10, 10),
            stroke: None,
            fill: Some(UiColor::DarkGreen),
        },
        DrawView::Box {
            rect: rect(200, 271, 10, 10),
            stroke: None,
            fill: Some(UiColor::DarkGreen),
        },
    ]
}

/// Lays out the clock.
pub fn show_clock(parts: (i64, u64, u64, u64, u64)) -> (r: Vec<DrawOp>)
    ensures
        shown(r@) == clock_drawing(
            parts.0 as int,
            parts.1 as int,
            parts.2 as int,
            parts.3 as int,
            parts.4 as int,
        ),
{
    let (year, month, day, hours, minutes) = parts;
    let color = UiColor::DarkGreen;
    let middle: i32 = DISPLAY_WIDTH as i32 / 2;
    let baseline: i32 = DISPLAY_HEIGHT as i32 / 2 + 38;
    let large = TextStyle { font: UiFont::Logisoso78, color, vertical_offset: 0 };
    let mut ops: Vec<DrawOp> = Vec::new();
    draw(&mut ops, DrawOp::Clear(UiColor::Black));
    draw(
        &mut ops,
        DrawOp::Text {
            text: date_string(year, month, day),
            at: Point::new(middle, DISPLAY_HEIGHT as i32 / 4),
            style: TextStyle { font: UiFont::Logisoso24, color, vertical_offset: 0 },
        },
    );
    draw(
        &mut ops,
        DrawOp::Text {
            text: dec2_string(hours),
            at: Point::new(middle - 72, baseline),
            style: large,
        },
    );
    draw(
        &mut ops,
        DrawOp::Text {
            text: dec2_string(minutes),
            at: Point::new(middle + 72, baseline),
            style: large,
        },
    );
    let dot = Size::new(10, 10);
    let upper = Rectangle::new(Point::new(middle - 5, baseline - 52), dot);
    let lower = Rectangle::new(Point::new(middle - 5, baseline - 18), dot);
    draw(&mut ops, DrawOp::Box { rect: upper, stroke: None, fill: Some(color) });
    draw(&mut ops, DrawOp::Box { rect: lower, stroke: None, fill: Some(color) });
    assert(shown(ops@) =~= clock_drawing(
        parts.0 as int,
        parts.1 as int,
        parts.2 as int,
        parts.3 as int,
        parts.4 as int,
    ));
    ops
}

// ---------------------------------------------------------------------------------------
// The speech editor
// ---------------------------------------------------------------------------------------

/// The colour that tells how the recording stands.
pub open spec fn record_color(hint: Seq<char>) -> UiColor {
    if hint == "Connecting..."@ {
        UiColor::Yellow
    } else if hint == "Listening..."@ {
        UiColor::Green
    } else {
        UiColor::Wheat
    }
}

/// The style of a button's or a hint's text.
pub open spec fn small_text(color: UiColor) -> TextStyle {
    TextStyle { font: UiFont::Wqy12, color, vertical_offset: 3 }
}

/// What is drawn of a button at the top of the editor.
pub open spec fn button_drawing(place: Rectangle, label: Seq<char>, at: Point) -> Seq<DrawView> {
    seq![
        DrawView::Box { rect: place, stroke: Some((UiColor::Wheat, 3u32)), fill: None },
        DrawView::Text { text: label, at, style: small_text(UiColor::Wheat) },
    ]
}

/// What is drawn of the editor: a border, three buttons, the text, and the button to record
/// with its hint.
pub open spec fn editor_drawing(text: Seq<char>, hint: Seq<char>) -> Seq<DrawView> {
    let color = record_color(hint);
    seq![
        DrawView::Clear(UiColor::Black),
        DrawView::Box { rect: rect(2, 2, 406, 498), stroke: Some((color, 3u32)), fill: None },
    ] + button_drawing(rect(6, 10, 124, 54), "Left"@, point(67, 42)) + button_drawing(
        rect(142, 10, 124, 54),
        "Del"@,
        point(203, 42),
    ) + button_drawing(rect(278, 10, 126, 54), "Right"@, point(340, 42)) + seq![
        DrawView::TextBox {
            text,
            area: rect(12, 80, 386, 334),
            style: TextStyle { font: UiFont::Wqy16, color: TEXT_LIGHT, vertical_offset: 3 },
            set: AreaStyle { centered: false, line_height: 24, paragraph_spacing: 12 },
        },
        DrawView::Box { rect: rect(12, 430, 386, 60), stroke: Some((color, 3u32)), fill: None },
        DrawView::TextBox {
            text: "Record  "@ + hint,
            area: rect(12, 444, 386, 32),
            style: small_text(color),
            set: AreaStyle { centered: true, line_height: 20, paragraph_spacing: 0 },
        },
    ]
}

fn draw_button(ops: &mut Vec<DrawOp>, third: i32, width: u32, label: &str)
    requires
        0 <= third <= 1000,
        12 <= width <= 1000,
    ensures
        shown(final(ops)@) == shown(old(ops)@) + button_drawing(
            rect(third + 6, 10, width - 12, 54),
            label@,
            point(third + 6 + crate::ui::draw::half(width - 12), 42),
        ),
{
    let ghost before = shown(ops@);
    let place = Rectangle::new(Point::new(third + 6, 10), Size::new(width - 12, 54));
    let middle = center_of(place);
    draw(ops, DrawOp::Box { rect: place, stroke: Some((UiColor::Wheat, 3)), fill: None });
    draw(
        ops,
        DrawOp::Text {
            text: label.to_string(),
            at: Point::new(middle.x, middle.y + 6),
            style: TextStyle { font: UiFont::Wqy12, color: UiColor::Wheat, vertical_offset: 3 },
        },
    );
    assert(shown(ops@) =~= before + button_drawing(
        rect(third + 6, 10, width - 12, 54),
        label@,
        point(third + 6 + crate::ui::draw::half(width - 12), 42),
    ));
}

/// Lays out the speech editor with its text and a hint.
pub fn show_asr_editor(text: &str, hint: &str) -> (r: Vec<DrawOp>)
    ensures
        shown(r@) == editor_drawing(text@, hint@),
{
    let color = if same_text(hint, "Connecting...") {
        UiColor::Yellow
    } else if same_text(hint, "Listening...") {
        UiColor::Green
    } else {
        UiColor::Wheat
    };
    let width: u32 = DISPLAY_WIDTH as u32;
    let height: u32 = DISPLAY_HEIGHT as u32;
    let mut ops: Vec<DrawOp> = Vec::new();
    draw(&mut ops, DrawOp::Clear(UiColor::Black));
    let outer = Rectangle::new(Point::new(2, 2), Size::new(width - 4, height - 4));
    draw(&mut ops, DrawOp::Box { rect: outer, stroke: Some((color, 3)), fill: None });
    let third: u32 = width / 3;
    draw_button(&mut ops, 0, third, "Left");
    draw_button(&mut ops, third as i32, third, "Del");
    draw_button(&mut ops, third as i32 * 2, width - third * 2, "Right");
    let top: i32 = 80;
    let bottom: i32 = height as i32 - 80;
    draw(
        &mut ops,
        DrawOp::TextBox {
            text: text.to_string(),
            area: Rectangle::new(
                Point::new(12, top),
                Size::new(width - 24, (bottom - top - 8) as u32),
            ),
            style: TextStyle { font: UiFont::Wqy16, color: TEXT_LIGHT, vertical_offset: 3 },
            set: AreaStyle { centered: false, line_height: 24, paragraph_spacing: 12 },
        },
    );
    let record = Rectangle::new(Point::new(12, bottom + 8), Size::new(width - 24, 60));
    draw(&mut ops, DrawOp::Box { rect: record, stroke: Some((color, 3)), fill: None });
    let mut label: String = "Record  ".to_string();
    label.append(hint);
    draw(
        &mut ops,
        DrawOp::TextBox {
            text: label,
            area: Rectangle::new(Point::new(12, bottom + 22), Size::new(width - 24, 32)),
            style: TextStyle { font: UiFont::Wqy12, color, vertical_offset: 3 },
            set: AreaStyle { centered: true, line_height: 20, paragraph_spacing: 0 },
        },
    );
    assert(shown(ops@) =~= editor_drawing(text@, hint@));
    ops
}

// ---------------------------------------------------------------------------------------
// Notices and overlays
// ---------------------------------------------------------------------------------------

/// Lays out the loading notice: what to draw, and the place of it.
pub fn show_loading_modal() -> (r: (Vec<DrawOp>, Rectangle))
    ensures
        shown(r.0@) == seq![
            DrawView::Box {
                rect: rect(85, 207, 240, 88),
                stroke: Some((UiColor::Wheat, 4u32)),
                fill: Some(UiColor::Black),
            },
            DrawView::Text {
                text: "Loading..."@,
                at: point(204, 256),
                style: TextStyle {
                    font: UiFont::Wqy16,
                    color: UiColor::LightCyan,
                    vertical_offset: 3,
                },
            },
        ],
        r.1 == rect(85, 207, 240, 88),
{
    let width: u32 = DISPLAY_WIDTH as u32;
    let height: u32 = DISPLAY_HEIGHT as u32;
    let room: u32 = width - 80;
    let modal_w: u32 = if room < 240 {
        room
    } else {
        240
    };
    let modal_h: u32 = 88;
    let place = Rectangle::new(
        Point::new(((width - modal_w) / 2) as i32, ((height - modal_h) / 2) as i32),
        Size::new(modal_w, modal_h),
    );
    let middle = center_of(place);
    let mut ops: Vec<DrawOp> = Vec::new();
    draw(
        &mut ops,
        DrawOp::Box {
            rect: place,
            stroke: Some((UiColor::Wheat, 4)),
            fill: Some(UiColor::Black),
        },
    );
    draw(
        &mut ops,
        DrawOp::Text {
            text: "Loading...".to_string(),
            at: Point::new(middle.x, middle.y + 6),
            style: TextStyle { font: UiFont::Wqy16, color: UiColor::LightCyan, vertical_offset: 3 },
        },
    );
    assert(shown(ops@) =~= seq![
        DrawView::Box {
            rect: rect(85, 207, 240, 88),
            stroke: Some((UiColor::Wheat, 4u32)),
            fill: Some(UiColor::Black),
        },
        DrawView::Text {
            text: "Loading..."@,
            at: point(204, 256),
            style: TextStyle { font: UiFont::Wqy16, color: UiColor::LightCyan, vertical_offset: 3 },
        },
    ]);
    (ops, place)
}

/// The place of an overlay in the left, the middle or the right third of the top edge.
pub open spec fn overlay_place(third: int) -> Rectangle {
    rect(third * 136, 0, if third == 2 { 138 } else { 136 }, 80)
}

/// The box of an overlay.
pub open spec fn overlay_box(third: int) -> Rectangle {
    rect(third * 136 + 8, 8, if third == 2 { 122 } else { 120 }, 64)
}

/// What is drawn of an overlay's ground.
pub open spec fn overlay_drawing(third: int) -> Seq<DrawView> {
    seq![
        DrawView::Box { rect: overlay_place(third), stroke: None, fill: Some(UiColor::Black) },
        DrawView::Box {
            rect: overlay_box(third),
            stroke: Some((UiColor::Wheat, 3u32)),
            fill: Some(UiColor::Black),
        },
    ]
}

/// A line of an overlay's icon.
pub open spec fn icon_line(x0: int, y0: int, x1: int, y1: int) -> DrawView {
    DrawView::Line {
        from: point(x0, y0),
        to: point(x1, y1),
        color: UiColor::Wheat,
        width: 4,
    }
}

fn draw_session_top_overlay_box(ops: &mut Vec<DrawOp>, third: usize) -> (r: (Rectangle, Rectangle))
    requires
        third < 3,
    ensures
        shown(final(ops)@) == shown(old(ops)@) + overlay_drawing(third as int),
        r.0 == overlay_place(third as int),
        r.1 == overlay_box(third as int),
{
    let ghost before = shown(ops@);
    let x: i32 = third as i32 * 136;
    let w: usize = if third == 2 {
        DISPLAY_WIDTH - DISPLAY_WIDTH / 3 * 2
    } else {
        DISPLAY_WIDTH / 3
    };
    let place = Rectangle::new(Point::new(x, 0), Size::new(w as u32, 80));
    let inner = Rectangle::new(Point::new(x + 8, 8), Size::new(w.saturating_sub(16) as u32, 64));
    draw(ops, DrawOp::Box { rect: place, stroke: None, fill: Some(UiColor::Black) });
    draw(
        ops,
        DrawOp::Box {
            rect: inner,
            stroke: Some((UiColor::Wheat, 3)),
            fill: Some(UiColor::Black),
        },
    );
    assert(shown(ops@) =~= before + overlay_drawing(third as int));
    (place, inner)
}

fn draw_icon_line(ops: &mut Vec<DrawOp>, x0: i32, y0: i32, x1: i32, y1: i32)
    ensures
        shown(final(ops)@) == shown(old(ops)@).push(
            icon_line(x0 as int, y0 as int, x1 as int, y1 as int),
        ),
{
    draw(
        ops,
        DrawOp::Line {
            from: Point::new(x0, y0),
            to: Point::new(x1, y1),
            color: UiColor::Wheat,
            width: 4,
        },
    )
}

/// The lines of a backspace key: an arrow to the left with a cross in it.
pub open spec fn backspace_icon() -> Seq<DrawView> {
    seq![
        icon_line(26, 40, 50, 24),
        icon_line(50, 24, 110, 24),
        icon_line(110, 24, 110, 56),
        icon_line(110, 56, 50, 56),
        icon_line(50, 56, 26, 40),
        icon_line(74, 38, 90, 42),
        icon_line(90, 38, 74, 42),
    ]
}

/// Lays out the backspace overlay: what to draw, and the place of it.
pub fn show_session_backspace_overlay() -> (r: (Vec<DrawOp>, Rectangle))
    ensures
        shown(r.0@) == overlay_drawing(0) + backspace_icon(),
        r.1 == overlay_place(0),
{
    let mut ops: Vec<DrawOp> = Vec::new();
    let (place, inner) = draw_session_top_overlay_box(&mut ops, 0);
    let x0: i32 = inner.top_left.x + 18;
    let x1: i32 = inner.top_left.x + 42;
    let x2: i32 = inner.top_left.x + inner.size.width as i32 - 18;
    let y0: i32 = inner.top_left.y + 16;
    let y1: i32 = inner.top_left.y + inner.size.height as i32 / 2;
    let y2: i32 = inner.top_left.y + inner.size.height as i32 - 16;
    draw_icon_line(&mut ops, x0, y1, x1, y0);
    draw_icon_line(&mut ops, x1, y0, x2, y0);
    draw_icon_line(&mut ops, x2, y0, x2, y2);
    draw_icon_line(&mut ops, x2, y2, x1, y2);
    draw_icon_line(&mut ops, x1, y2, x0, y1);
    draw_icon_line(&mut ops, x1 + 24, y0 + 14, x2 - 20, y2 - 14);
    draw_icon_line(&mut ops, x2 - 20, y0 + 14, x1 + 24, y2 - 14);
    assert(shown(ops@) =~= overlay_drawing(0) + backspace_icon());
    (ops, place)
}

/// The lines of a menu: three, one below the other.
pub open spec fn menu_icon() -> Seq<DrawView> {
    seq![
        icon_line(308, 26, 374, 26),
        icon_line(308, 40, 374, 40),
        icon_line(308, 54, 374, 54),
    ]
}

/// Lays out the menu overlay: what to draw, and the place of it.
pub fn show_session_menu_overlay() -> (r: (Vec<DrawOp>, Rectangle))
    ensures
        shown(r.0@) == overlay_drawing(2) + menu_icon(),
        r.1 == overlay_place(2),
{
    let mut ops: Vec<DrawOp> = Vec::new();
    let (place, inner) = draw_session_top_overlay_box(&mut ops, 2);
    let x0: i32 = inner.top_left.x + 28;
    let x1: i32 = inner.top_left.x + inner.size.width as i32 - 28;
    let middle: i32 = inner.top_left.y + inner.size.height as i32 / 2;
    draw_icon_line(&mut ops, x0, middle - 14, x1, middle - 14);
    draw_icon_line(&mut ops, x0, middle, x1, middle);
    draw_icon_line(&mut ops, x0, middle + 14, x1, middle + 14);
    assert(shown(ops@) =~= overlay_drawing(2) + menu_icon());
    (ops, place)
}

// ---------------------------------------------------------------------------------------
// The status page
// ---------------------------------------------------------------------------------------

/// The place of the status page's headline.
pub fn state_area() -> (r: Rectangle)
    ensures
        r == rect(54, 400, 300, 30),
{
    let middle = center_of(
        Rectangle::new(
            Point::new(0, 0),
            Size::new(DISPLAY_WIDTH as u32, DISPLAY_HEIGHT as u32),
        ),
    );
    Rectangle::new(Point::new(middle.x - 150, middle.y + 150), Size::new(300, 30))
}

/// The place of the status page's text.
pub fn text_area() -> (r: Rectangle)
    ensures
        r == rect(54, 300, 300, 100),
{
    let middle = center_of(
        Rectangle::new(
            Point::new(0, 0),
            Size::new(DISPLAY_WIDTH as u32, DISPLAY_HEIGHT as u32),
        ),
    );
    Rectangle::new(Point::new(middle.x - 150, middle.y + 50), Size::new(300, 100))
}

/// What is written on the status page, over its background.
pub open spec fn status_drawing(state: Seq<char>, text: Seq<char>) -> Seq<DrawView> {
    seq![
        DrawView::Text {
            text: state,
            at: point(203, 414),
            style: TextStyle { font: UiFont::Wqy12, color: UiColor::LightCyan, vertical_offset: 0 },
        },
        DrawView::TextBox {
            text,
            area: rect(54, 300, 300, 100),
            style: TextStyle { font: UiFont::Wqy16, color: UiColor::Wheat, vertical_offset: 0 },
            set: AreaStyle { centered: true, line_height: 20, paragraph_spacing: 20 },
        },
    ]
}

/// Lays out what is written on the status page.
pub fn show_status(state: &str, text: &str) -> (r: Vec<DrawOp>)
    ensures
        shown(r@) == status_drawing(state@, text@),
{
    let mut ops: Vec<DrawOp> = Vec::new();
    draw(
        &mut ops,
        DrawOp::Text {
            text: state.to_string(),
            at: center_of(state_area()),
            style: TextStyle { font: UiFont::Wqy12, color: UiColor::LightCyan, vertical_offset: 0 },
        },
    );
    draw(
        &mut ops,
        DrawOp::TextBox {
            text: text.to_string(),
            area: text_area(),
            style: TextStyle { font: UiFont::Wqy16, color: UiColor::Wheat, vertical_offset: 0 },
            set: AreaStyle { centered: true, line_height: 20, paragraph_spacing: 20 },
        },
    );
    assert(shown(ops@) =~= status_drawing(state@, text@));
    ops
}

/// Whether the status page is sent to the display once more, after so many attempts of which
/// the last one ended with this code.
pub fn status_flush_again(attempts: u32, code: i32) -> (r: bool)
    ensures
        r == (code != 0 && attempts < 5),
{
    code != 0 && attempts < 5
}

/// How long a frame of a moving picture is shown, in milliseconds, from hundredths of a
/// second.
pub fn frame_delay_ms(centis: u16) -> (r: u64)
    requires
        centis <= 6553,
    ensures
        r == centis * 10,
{
    (centis * 10) as u64
}

// ---------------------------------------------------------------------------------------
// Laws
// ---------------------------------------------------------------------------------------

/// A shown date reads back as its year, its month and its day, in this order.
pub proof fn law_shown_date_reads_back(year: int, month: int, day: int)
    requires
        1000 <= year <= 9999,
        1 <= month <= 12,
        1 <= day <= 31,
    ensures
        ({
            let s = date_text(year, month, day);
            &&& s.len() == 10
            &&& unsigned_value(s.take(4)) == Some(year as nat)
            &&& s[4] == '-'
            &&& unsigned_value(s.subrange(5, 7)) == Some(month as nat)
            &&& s[7] == '-'
            &&& unsigned_value(s.skip(8)) == Some(day as nat)
        }),
{
    let s = date_text(year, month, day);
    let y = dec(year as nat);
    let m = zero_padded(dec(month as nat), 2);
    let d = zero_padded(dec(day as nat), 2);
    law_decimal_reads_back(year as nat);
    law_two_digits_read_back(month as nat);
    law_two_digits_read_back(day as nat);
    assert(y.len() == 4) by {
        reveal_with_fuel(dec, 4);
    }
    assert(year_text(year) == y);
    assert(s.take(4) =~= y);
    assert(s.subrange(5, 7) =~= m);
    assert(s.skip(8) =~= d);
}

/// The clock shows the date above the time, and of the time the hours to the left of the
/// minutes, in two digits each on one line, with two dots one above the other between them.
pub proof fn law_clock_shows_hours_before_minutes(
    year: int,
    month: int,
    day: int,
    hours: int,
    minutes: int,
)
    requires
        0 <= hours < 24,
        0 <= minutes < 60,
    ensures
        ({
            let d = clock_drawing(year, month, day, hours, minutes);
            &&& d.len() == 6 && d[0] == DrawView::Clear(UiColor::Black)
            &&& d[1] matches DrawView::Text { text: date, at: above, .. }
                && d[2] matches DrawView::Text { text: left, at: a, style: sa }
                && d[3] matches DrawView::Text { text: right, at: b, style: sb }
                && d[4] matches DrawView::Box { rect: upper, .. }
                && d[5] matches DrawView::Box { rect: lower, .. } && {
                &&& date == date_text(year, month, day)
                &&& unsigned_value(left) == Some(hours as nat) && left.len() == 2
                &&& unsigned_value(right) == Some(minutes as nat) && right.len() == 2
                &&& above.y < a.y && a.y == b.y && sa == sb
                &&& a.x < upper.top_left.x && upper.right() < b.x
                &&& lower.top_left.x == upper.top_left.x && upper.bottom() < lower.top_left.y
                &&& a.x + b.x == 410
            }
        }),
{
    law_two_digits_read_back(hours as nat);
    law_two_digits_read_back(minutes as nat);
}

/// The buttons of the speech editor are drawn where a touch presses them: each button lies in
/// the area of what its label says. Below them stand the text, whole, and at the bottom edge the
/// button to record, with the hint.
pub proof fn law_editor_buttons_are_where_they_are_drawn(
    text: Seq<char>,
    hint: Seq<char>,
    p: TouchPoint,
)
    ensures
        ({
            let d = editor_drawing(text, hint);
            let (x, y) = (p.x as int, p.y as int);
            &&& d.len() == 11
            &&& d[2] matches DrawView::Box { rect, .. } && (rect.holds(x, y) ==> top_action(p)
                == Some(TopAsrAction::Left))
            &&& d[3] matches DrawView::Text { text: label, .. } && label == "Left"@
            &&& d[4] matches DrawView::Box { rect, .. } && (rect.holds(x, y) ==> top_action(p)
                == Some(TopAsrAction::Delete))
            &&& d[5] matches DrawView::Text { text: label, .. } && label == "Del"@
            &&& d[6] matches DrawView::Box { rect, .. } && (rect.holds(x, y) ==> top_action(p)
                == Some(TopAsrAction::Right))
            &&& d[7] matches DrawView::Text { text: label, .. } && label == "Right"@
            &&& d[8] matches DrawView::TextBox { text: shown, area, .. } && shown == text && (
            area.holds(x, y) ==> top_action(p) is None && !in_asr_area(p))
            &&& d[9] matches DrawView::Box { rect, .. } && (rect.holds(x, y) ==> in_asr_area(p))
            &&& d[10] matches DrawView::TextBox { text: label, area, .. } && label == "Record  "@
                + hint && (area.holds(x, y) ==> in_asr_area(p))
        }),
{
}

/// The colour of the editor tells apart whether it connects, listens, or does neither.
pub proof fn law_editor_color_tells_the_recording(hint: AsrHint)
    ensures
        record_color(hint_words(hint)) == UiColor::Yellow <==> hint == AsrHint::Connecting,
        record_color(hint_words(hint)) == UiColor::Green <==> hint == AsrHint::Listening,
{
    reveal_strlit("Hold Record");
    reveal_strlit("Connecting...");
    reveal_strlit("Listening...");
    reveal_strlit("(empty)");
    reveal_strlit("ASR error");
    assert("Hold Record"@[0] == 'H' && "Connecting..."@[0] == 'C' && "Listening..."@[0] == 'L');
    assert("(empty)"@[0] == '(' && "ASR error"@[0] == 'A');
}

/// The overlays stand over the corners that show them: that of the backspace key on the left,
/// that of the menu on the right.
pub proof fn law_overlays_stand_over_their_corners(p: TouchPoint)
    ensures
        overlay_box(0).holds(p.x as int, p.y as int) ==> in_backspace_corner(p),
        overlay_box(2).holds(p.x as int, p.y as int) ==> in_menu_corner(p),
        overlay_place(0).top_left == point(0, 0),
        overlay_place(2).right() == 410 && overlay_place(2).top_left.y == 0,
        in_backspace_corner(p) ==> overlay_place(0).holds(p.x as int, p.y as int),
        in_menu_corner(p) && p.x < 410 ==> overlay_place(2).holds(p.x as int, p.y as int),
{
}

/// The status page shows its headline and its text, each once, in places that do not overlap.
pub proof fn law_status_page_shows_both(state: Seq<char>, text: Seq<char>)
    ensures
        ({
            let d = status_drawing(state, text);
            &&& d.len() == 2
            &&& d[0] matches DrawView::Text { text: headline, at, .. }
                && d[1] matches DrawView::TextBox { text: body, area, .. } && {
                &&& headline == state
                &&& body == text
                &&& area.bottom() < at.y
            }
        }),
{
}

} // verus!
