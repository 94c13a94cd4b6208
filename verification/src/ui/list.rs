//! Lists: where their entries stand, what they show, and which entry a touch hits.
use crate::geometry::{Point, Rectangle, Size};
use crate::lcd::TouchPoint;
use crate::text::{
    chars_of, dec, find_first, first_place, is_digit, law_decimal_reads_back,
    parse_u8, stands_at, string_of, unsigned_value,
};
use crate::ui::draw::{
    center, center_of, draw, half, point, rect, shown, DrawOp, DrawView, TextStyle, UiColor,
    UiFont, TEXT_LIGHT,
};
use vstd::prelude::*;

verus! {

/// Whether a touch lies on an entry's rectangle. An extent that exceeds a 32-bit position
/// is no area to hit.
pub open spec fn touch_hits(rect: Rectangle, touch: TouchPoint) -> bool {
    &&& rect.size.width <= i32::MAX
    &&& rect.size.height <= i32::MAX
    &&& rect.holds(touch.x as int, touch.y as int)
}

/// The entry that a touch hits: the first one whose rectangle holds it.
pub open spec fn touch_index(touch: TouchPoint, rects: Seq<Rectangle>) -> Option<int>
    decreases rects.len(),
{
    if rects.len() == 0 {
        None
    } else {
        match touch_index(touch, rects.drop_last()) {
            Some(i) => Some(i),
            None => if touch_hits(rects.last(), touch) {
                Some(rects.len() - 1)
            } else {
                None
            },
        }
    }
}

fn hits(rect: &Rectangle, touch: TouchPoint) -> (r: bool)
    ensures
        r == touch_hits(*rect, touch),
{
    if rect.size.width > i32::MAX as u32 || rect.size.height > i32::MAX as u32 {
        return false;
    }
    let left: i64 = rect.top_left.x as i64;
    let top: i64 = rect.top_left.y as i64;
    let right: i64 = left + rect.size.width as i64;
    let bottom: i64 = top + rect.size.height as i64;
    let x: i64 = touch.x as i64;
    let y: i64 = touch.y as i64;
    x >= left && x < right && y >= top && y < bottom
}

/// Finds the first rectangle that holds the touch.
pub fn list_touch_index(touch: TouchPoint, item_rects: &[Rectangle]) -> (r: Option<usize>)
    ensures
        match r {
            Some(i) => touch_index(touch, item_rects@) == Some(i as int) && i < item_rects@.len(),
            None => touch_index(touch, item_rects@) is None,
        },
{
    let mut i: usize = 0;
    while i < item_rects.len()
        invariant
            i <= item_rects@.len(),
            touch_index(touch, item_rects@.take(i as int)) is None,
        decreases item_rects@.len() - i,
    {
        assert(item_rects@.take(i + 1).drop_last() =~= item_rects@.take(i as int));
        if hits(&item_rects[i], touch) {
            proof {
                lemma_hit_stays(touch, item_rects@, i + 1);
            }
            return Some(i);
        }
        i = i + 1;
    }
    assert(item_rects@.take(i as int) =~= item_rects@);
    None
}

proof fn lemma_hit_stays(touch: TouchPoint, rects: Seq<Rectangle>, n: int)
    requires
        0 <= n <= rects.len(),
        touch_index(touch, rects.take(n)) is Some,
    ensures
        touch_index(touch, rects) == touch_index(touch, rects.take(n)),
    decreases rects.len() - n,
{
    if n == rects.len() {
        assert(rects.take(n) =~= rects);
    } else {
        assert(rects.take(n + 1).drop_last() =~= rects.take(n));
        lemma_hit_stays(touch, rects, n + 1);
    }
}

/// The entry that a touch hits holds it, and no earlier entry does; a touch that hits no
/// entry lies on none.
pub proof fn law_touch_index_is_first_hit(touch: TouchPoint, rects: Seq<Rectangle>)
    ensures
        match touch_index(touch, rects) {
            Some(i) => {
                &&& 0 <= i < rects.len()
                &&& touch_hits(rects[i], touch)
                &&& forall|j: int| 0 <= j < i ==> !touch_hits(#[trigger] rects[j], touch)
            },
            None => forall|j: int| 0 <= j < rects.len() ==> !touch_hits(#[trigger] rects[j], touch),
        },
    decreases rects.len(),
{
    if rects.len() > 0 {
        let init = rects.drop_last();
        law_touch_index_is_first_hit(touch, init);
        assert forall|j: int| 0 <= j < init.len() implies rects[j] == init[j] by {}
    }
}


// ---------------------------------------------------------------------------------------
// Places
// ---------------------------------------------------------------------------------------

pub const MENU_START_Y: u16 = 30;
pub const MENU_COLUMNS: usize = 2;
pub const MENU_FONT_H: u16 = 17;
/// The height of a menu entry: a quarter of what the title and the footer leave.
pub const MENU_ITEM_H: u32 = 112;
/// The width of a menu entry: half of what the gap between the columns leaves.
pub const MENU_ITEM_W: u32 = 203;

/// A list entry: its place, its text and its colours, where it has any.
#[derive(Clone, Debug)]
pub struct ListItem {
    pub rect: Rectangle,
    pub text: String,
    pub fg_color: Option<UiColor>,
    pub border_color: Option<UiColor>,
}

impl ListItem {
    pub fn new(
        rect: Rectangle,
        text: String,
        border_color: Option<UiColor>,
        fg_color: Option<UiColor>,
    ) -> (r: Self)
        ensures
            r == (ListItem { rect, text, fg_color, border_color }),
    {
        ListItem { rect, text, fg_color, border_color }
    }
}

/// The place of a menu entry among so many: a single one takes the whole width, others stand
/// in two columns of four rows; there is no place for more.
pub open spec fn menu_place(index: int, count: int) -> Option<Rectangle> {
    if count == 1 {
        Some(rect(0, 30, 410, 112))
    } else if index >= 8 {
        None
    } else {
        Some(rect(index % 2 * 207, 30 + index / 2 * 112, 203, 112))
    }
}

/// The place of a menu entry.
pub fn menu_item_rect(index: usize) -> (r: Option<Rectangle>)
    ensures
        r == menu_place(index as int, 2),
{
    menu_item_rect_for_count(index, MENU_COLUMNS)
}

/// The place of a menu entry among so many.
pub fn menu_item_rect_for_count(index: usize, item_count: usize) -> (r: Option<Rectangle>)
    ensures
        r == menu_place(index as int, item_count as int),
{
    if item_count == 1 {
        return Some(
            Rectangle::new(Point::new(0, MENU_START_Y as i32), Size::new(410, MENU_ITEM_H)),
        );
    }
    if index >= 8 {
        return None;
    }
    let col: i32 = (index % MENU_COLUMNS) as i32;
    let row: i32 = (index / MENU_COLUMNS) as i32;
    Some(
        Rectangle::new(
            Point::new(col * 207, MENU_START_Y as i32 + row * 112),
            Size::new(MENU_ITEM_W, MENU_ITEM_H),
        ),
    )
}

/// The places of menu entries lie on the display, between the title and the footer, and no
/// pixel belongs to two of them.
pub proof fn law_menu_places_are_apart(i: int, j: int, x: int, y: int)
    requires
        0 <= i < 8,
        0 <= j < 8,
        menu_place(i, 2)->0.holds(x, y),
        menu_place(j, 2)->0.holds(x, y),
    ensures
        i == j,
        0 <= x < 410,
        30 <= y < 478,
{
    let a = i / 2;
    let b = j / 2;
    let c = i % 2;
    let d = j % 2;
    assert(30 + a * 112 <= y < 30 + a * 112 + 112);
    assert(30 + b * 112 <= y < 30 + b * 112 + 112);
    assert(a == b);
    assert(c * 207 <= x < c * 207 + 203);
    assert(d * 207 <= x < d * 207 + 203);
}

// ---------------------------------------------------------------------------------------
// Texts
// ---------------------------------------------------------------------------------------

/// The width of a character: eight pixels for an ASCII one, sixteen for any other.
pub open spec fn char_width(c: char) -> int {
    if c as u32 <= 127 {
        8
    } else {
        16
    }
}

/// How many characters at the start of a text fit into so many pixels.
pub open spec fn fit_count(s: Seq<char>, room: int) -> int
    decreases s.len(),
{
    if s.len() == 0 || char_width(s[0]) > room {
        0
    } else {
        1 + fit_count(s.drop_first(), room - char_width(s[0]))
    }
}

/// A text as it is shown in an entry of some width: as much of it as fits beside twelve
/// pixels on either side, followed by three dots where that is not all.
pub open spec fn fitted_text(s: Seq<char>, width: int) -> Seq<char> {
    let room = if width < 24 {
        0
    } else {
        width - 24
    };
    let n = fit_count(s, room);
    if n < s.len() {
        s.take(n) + seq!['.', '.', '.']
    } else {
        s
    }
}

/// The text as it is shown in an entry of some width.
pub fn list_display_text(text: &str, width: u32) -> (r: String)
    ensures
        r@ == fitted_text(text@, width as int),
{
    let chars = chars_of(text);
    let max_width: u32 = width.saturating_sub(24);
    let mut used: u32 = 0;
    let mut i: usize = 0;
    assert(chars@.skip(0) =~= chars@);
    while i < chars.len()
        invariant
            chars@ == text@,
            i <= chars@.len(),
            max_width <= u32::MAX - 24,
            used <= max_width,
            max_width == (if width < 24 {
                0
            } else {
                width - 24
            }),
            fit_count(text@, max_width as int) == i + fit_count(
                chars@.skip(i as int),
                max_width - used,
            ),
        decreases chars@.len() - i,
    {
        let c: char = chars[i];
        let ch_width: u32 = if c as u32 <= 127 {
            8
        } else {
            16
        };
        assert(chars@.skip(i as int)[0] == c);
        assert(chars@.skip(i as int).drop_first() =~= chars@.skip(i + 1));
        if used + ch_width > max_width {
            let mut out: String = string_of(&chars.as_slice()[0..i]);
            out.push('.');
            out.push('.');
            out.push('.');
            assert(out@ =~= fitted_text(text@, width as int));
            return out;
        }
        used = used + ch_width;
        i = i + 1;
    }
    string_of(chars.as_slice())
}

/// A text is shown whole where there is room for its characters at their widest.
pub proof fn law_short_text_is_shown_whole(s: Seq<char>, width: int)
    requires
        16 * s.len() + 24 <= width,
    ensures
        fitted_text(s, width) == s,
{
    lemma_fit_all(s, width - 24);
}

proof fn lemma_fit_all(s: Seq<char>, room: int)
    requires
        16 * s.len() <= room,
    ensures
        fit_count(s, room) == s.len(),
    decreases s.len(),
{
    if s.len() > 0 {
        lemma_fit_all(s.drop_first(), room - char_width(s[0]));
    }
}

/// The word that introduces the battery's charge in a title.
pub open spec fn battery_word() -> Seq<char> {
    "Battery "@
}

/// The charge that a title names: the number between `Battery ` and the next percent sign,
/// or the next `Battery `, or the end.
pub open spec fn titled_percent(title: Seq<char>) -> Option<nat> {
    let word = battery_word();
    let start = first_place(title, word, 0);
    if start >= title.len() {
        None
    } else {
        let rest = title.subrange(
            start + word.len(),
            first_place(title, word, start + word.len()),
        );
        let number = rest.take(first_place(rest, seq!['%'], 0));
        match unsigned_value(number) {
            Some(v) => if v <= 255 {
                Some(v)
            } else {
                None
            },
            None => None,
        }
    }
}

/// The colour of a title: by the charge that it names, red up to twenty percent, orange up
/// to sixty, green above; that of ordinary text where it names none.
pub open spec fn title_color(title: Seq<char>) -> UiColor {
    match titled_percent(title) {
        Some(percent) => if percent <= 20 {
            UiColor::Red
        } else if percent <= 60 {
            UiColor::DarkOrange
        } else {
            UiColor::DarkGreen
        },
        None => TEXT_LIGHT,
    }
}

/// The colour of a title.
pub fn list_title_color(title: &str) -> (r: UiColor)
    ensures
        r == title_color(title@),
{
    proof {
        reveal_strlit("Battery ");
        assert(battery_word().len() == 8);
    }
    let chars = chars_of(title);
    let word = chars_of("Battery ");
    let start: usize = find_first(&chars, &word, 0);
    if start >= chars.len() {
        return TEXT_LIGHT;
    }
    let behind: usize = start + word.len();
    let end: usize = find_first(&chars, &word, behind);
    let rest = string_of(&chars.as_slice()[behind..end]);
    let rest_chars = chars_of(rest.as_str());
    let mut sign: Vec<char> = Vec::new();
    sign.push('%');
    assert(sign@ =~= seq!['%']);
    let number_end: usize = find_first(&rest_chars, &sign, 0);
    let number = &rest_chars.as_slice()[0..number_end];
    assert(rest@ =~= title@.subrange(behind as int, end as int));
    assert(number@ =~= rest@.take(number_end as int));
    match parse_u8(number) {
        Some(percent) => if percent <= 20 {
            UiColor::Red
        } else if percent <= 60 {
            UiColor::DarkOrange
        } else {
            UiColor::DarkGreen
        },
        None => TEXT_LIGHT,
    }
}

proof fn lemma_place_is(s: Seq<char>, pattern: Seq<char>, from: int, at: int)
    requires
        0 <= from <= at <= s.len(),
        forall|k: int| from <= k < at ==> !stands_at(s, pattern, k),
        at < s.len() ==> stands_at(s, pattern, at),
    ensures
        first_place(s, pattern, from) == at,
    decreases at - from,
{
    if from < at {
        lemma_place_is(s, pattern, from + 1, at);
    }
}

/// The colour of a title that ends with the battery's charge follows the charge, whatever
/// stands before it, so long as no capital B does.
pub proof fn law_title_color_follows_charge(label: Seq<char>, percent: u8)
    requires
        forall|i: int| 0 <= i < label.len() ==> #[trigger] label[i] != 'B',
    ensures
        titled_percent(label + battery_word() + dec(percent as nat) + seq!['%']) == Some(
            percent as nat,
        ),
{
    reveal_strlit("Battery ");
    law_decimal_reads_back(percent as nat);
    let word = battery_word();
    let number = dec(percent as nat);
    let title = label + word + number + seq!['%'];
    let start = label.len() as int;
    let behind = start + word.len();
    assert(word.len() == 8 && word[0] == 'B');
    assert forall|k: int| 0 <= k < start implies !stands_at(title, word, k) by {
        assert(title[k] == label[k]);
        if stands_at(title, word, k) {
            assert(title.subrange(k, k + word.len())[0] == title[k]);
        }
    }
    assert(title.subrange(start, start + word.len()) =~= word);
    lemma_place_is(title, word, 0, start);
    assert forall|k: int| behind <= k < title.len() implies !stands_at(title, word, k) by {
        if stands_at(title, word, k) {
            assert(title.subrange(k, k + word.len())[0] == title[k]);
            if k < title.len() - 1 {
                assert(title[k] == number[k - behind]);
                assert(is_digit(number[k - behind]));
            }
        }
    }
    lemma_place_is(title, word, behind, title.len() as int);
    let rest = title.subrange(behind, title.len() as int);
    assert(rest =~= number.push('%'));
    assert forall|k: int| 0 <= k < number.len() implies !stands_at(rest, seq!['%'], k) by {
        assert(is_digit(number[k]));
        if stands_at(rest, seq!['%'], k) {
            assert(rest.subrange(k, k + 1)[0] == rest[k]);
        }
    }
    assert(rest.subrange(number.len() as int, number.len() as int + 1) =~= seq!['%']);
    lemma_place_is(rest, seq!['%'], 0, number.len() as int);
    assert(rest.take(number.len() as int) =~= number);
}

// ---------------------------------------------------------------------------------------
// Drawing
// ---------------------------------------------------------------------------------------

/// The style of a title or a footer.
pub open spec fn title_style(color: UiColor) -> TextStyle {
    TextStyle { font: UiFont::Wqy16, color, vertical_offset: 0 }
}

/// Whether the positions that an entry's drawing takes can be counted: that of its box, and
/// where it has a text, that of the text, which is centred in the box.
pub open spec fn is_drawable(item: ListItem) -> bool {
    let r = item.rect;
    &&& r.top_left.x + 4 <= i32::MAX
    &&& item.fg_color is Some ==> {
        &&& r.top_left.x + 4 + half(r.size.width - 8) <= i32::MAX
        &&& r.size.height + 11 <= i32::MAX
    }
}

/// Whether the entries of a list can be laid out: those that are drawn can be, and they and
/// the first one that is not have a height that can be counted.
pub open spec fn can_be_listed(items: Seq<ListItem>) -> bool {
    &&& forall|i: int| 0 <= i < drawn_count(items) ==> is_drawable(#[trigger] items[i])
    &&& forall|i: int|
        0 <= i < items.len() && i <= drawn_count(items) ==> (#[trigger] items[i]).rect.size.height
            <= i32::MAX
}

/// The box of an entry, inside its place.
pub open spec fn inner_box(r: Rectangle) -> Rectangle {
    rect(
        r.top_left.x + 4,
        r.top_left.y + 3,
        if r.size.width < 8 {
            0
        } else {
            r.size.width - 8
        },
        if r.size.height < 6 {
            0
        } else {
            r.size.height - 6
        },
    )
}

/// What is drawn of an entry: a box with a border, and in it its text where it has a colour.
pub open spec fn item_drawing(item: ListItem) -> Seq<DrawView> {
    let inner = inner_box(item.rect);
    let boxed = seq![
        DrawView::Box {
            rect: inner,
            stroke: Some(
                (
                    match item.border_color {
                        Some(color) => color,
                        None => UiColor::Black,
                    },
                    8u32,
                ),
            ),
            fill: Some(UiColor::Black),
        },
    ];
    match item.fg_color {
        Some(color) => boxed.push(
            DrawView::Text {
                text: fitted_text(item.text@, inner.size.width as int),
                at: point(
                    center(inner).x as int,
                    inner.top_left.y + (inner.size.height + 17) / 2,
                ),
                style: TextStyle { font: UiFont::Wqy16, color, vertical_offset: 3 },
            },
        ),
        None => boxed,
    }
}

/// The number of entries that are drawn: those before the first one that leaves the display
/// at the bottom.
pub open spec fn drawn_count(items: Seq<ListItem>) -> int
    decreases items.len(),
{
    if items.len() == 0 || items[0].rect.bottom() > 502 {
        0
    } else {
        1 + drawn_count(items.drop_first())
    }
}

/// What is drawn of some entries, one after the other.
pub open spec fn items_drawing(items: Seq<ListItem>) -> Seq<DrawView>
    decreases items.len(),
{
    if items.len() == 0 {
        Seq::empty()
    } else {
        items_drawing(items.drop_last()) + item_drawing(items.last())
    }
}

/// What is drawn of a list: the title, the version at the bottom, and the entries.
pub open spec fn list_drawing(title: Seq<char>, version: Seq<char>, items: Seq<ListItem>) -> Seq<
    DrawView,
> {
    seq![
        DrawView::Clear(UiColor::Black),
        DrawView::Text {
            text: title,
            at: point(205, 18),
            style: title_style(title_color(title)),
        },
        DrawView::Text {
            text: version,
            at: point(205, 496),
            style: title_style(UiColor::Gray),
        },
    ] + items_drawing(items.take(drawn_count(items)))
}

proof fn lemma_drawn_count(items: Seq<ListItem>)
    ensures
        0 <= drawn_count(items) <= items.len(),
    decreases items.len(),
{
    if items.len() > 0 {
        lemma_drawn_count(items.drop_first());
    }
}

fn draw_item(ops: &mut Vec<DrawOp>, item: &ListItem)
    requires
        is_drawable(*item),
        item.rect.size.height <= i32::MAX,
        item.rect.bottom() <= 502,
    ensures
        shown(final(ops)@) == shown(old(ops)@) + item_drawing(*item),
{
    let ghost before = shown(ops@);
    let inner = Rectangle::new(
        Point::new(item.rect.top_left.x + 4, item.rect.top_left.y + 3),
        Size::new(item.rect.size.width.saturating_sub(8), item.rect.size.height.saturating_sub(6)),
    );
    assert(inner == inner_box(item.rect));
    let border = match item.border_color {
        Some(color) => color,
        None => UiColor::Black,
    };
    draw(ops, DrawOp::Box { rect: inner, stroke: Some((border, 8)), fill: Some(UiColor::Black) });
    if let Some(color) = item.fg_color {
        let text_y: i32 = inner.top_left.y + (inner.size.height as i32 + MENU_FONT_H as i32) / 2;
        let text = list_display_text(item.text.as_str(), inner.size.width);
        draw(
            ops,
            DrawOp::Text {
                text,
                at: Point::new(center_of(inner).x, text_y),
                style: TextStyle { font: UiFont::Wqy16, color, vertical_offset: 3 },
            },
        );
    }
    assert(shown(ops@) =~= before + item_drawing(*item));
}

/// Lays out a list: what to draw, and where the entries that are drawn stand.
pub fn display_list(title: &str, version: &str, items: &[ListItem]) -> (r: (
    Vec<DrawOp>,
    Vec<Rectangle>,
))
    requires
        can_be_listed(items@),
    ensures
        shown(r.0@) == list_drawing(title@, version@, items@),
        r.1@ == items@.take(drawn_count(items@)).map_values(|item: ListItem| item.rect),
{
    let mut ops: Vec<DrawOp> = Vec::new();
    draw(&mut ops, DrawOp::Clear(UiColor::Black));
    draw(
        &mut ops,
        DrawOp::Text {
            text: title.to_string(),
            at: Point::new(205, 18),
            style: TextStyle {
                font: UiFont::Wqy16,
                color: list_title_color(title),
                vertical_offset: 0,
            },
        },
    );
    draw(
        &mut ops,
        DrawOp::Text {
            text: version.to_string(),
            at: Point::new(205, 496),
            style: TextStyle { font: UiFont::Wqy16, color: UiColor::Gray, vertical_offset: 0 },
        },
    );
    let ghost header = list_drawing(title@, version@, items@).take(3);
    proof {
        lemma_drawn_count(items@);
        assert(shown(ops@) =~= header);
        assert(header + Seq::<DrawView>::empty() =~= header);
        assert(items@.take(0) =~= Seq::empty());
        assert(items@.skip(0) =~= items@);
    }
    let mut item_rects: Vec<Rectangle> = Vec::new();
    let mut i: usize = 0;
    while i < items.len() && items[i].rect.top_left.y as i64 + items[i].rect.size.height as i64
        <= 502
        invariant
            i <= items@.len(),
            can_be_listed(items@),
            drawn_count(items@) == i + drawn_count(items@.skip(i as int)),
            shown(ops@) == header + items_drawing(items@.take(i as int)),
            item_rects@ == items@.take(i as int).map_values(|item: ListItem| item.rect),
        decreases items@.len() - i,
    {
        item_rects.push(items[i].rect);
        proof {
            lemma_drawn_count(items@.skip(i as int).drop_first());
            assert(items@.skip(i as int)[0] == items@[i as int]);
        }
        draw_item(&mut ops, &items[i]);
        proof {
            let next = items@.take(i + 1);
            assert(next.drop_last() =~= items@.take(i as int));
            assert(next.last() == items@[i as int]);
            assert(shown(ops@) =~= header + items_drawing(next));
            assert(item_rects@ =~= next.map_values(|item: ListItem| item.rect));
            assert(items@.skip(i as int).drop_first() =~= items@.skip(i + 1));
        }
        i = i + 1;
    }
    proof {
        assert(drawn_count(items@.skip(i as int)) == 0);
        assert(list_drawing(title@, version@, items@) =~= header + items_drawing(
            items@.take(i as int),
        ));
    }
    (ops, item_rects)
}

/// A touch hits an entry of a drawn list only where the entry is drawn.
pub proof fn law_touch_hits_only_drawn_entries(items: Seq<ListItem>, touch: TouchPoint)
    ensures
        ({
            let rects = items.take(drawn_count(items)).map_values(|item: ListItem| item.rect);
            touch_index(touch, rects) matches Some(i) ==> {
                &&& 0 <= i < drawn_count(items) <= items.len()
                &&& touch_hits(items[i].rect, touch)
                &&& items[i].rect.bottom() <= 502
            }
        }),
{
    let rects = items.take(drawn_count(items)).map_values(|item: ListItem| item.rect);
    lemma_drawn_count(items);
    law_touch_index_is_first_hit(touch, rects);
    match touch_index(touch, rects) {
        Some(i) => {
            lemma_drawn_above_bottom(items, i);
        },
        None => {},
    }
}

proof fn lemma_drawn_above_bottom(items: Seq<ListItem>, i: int)
    requires
        0 <= i < drawn_count(items),
    ensures
        i < items.len(),
        items[i].rect.bottom() <= 502,
    decreases items.len(),
{
    if i > 0 {
        lemma_drawn_above_bottom(items.drop_first(), i - 1);
    }
}

/// The entries of a menu: as many as there are places for, with a blue border for those that
/// are marked and an orange one for the others.
pub open spec fn menu_items(items: Seq<(String, bool)>) -> Seq<ListItem> {
    Seq::new(
        if items.len() <= 8 {
            items.len()
        } else {
            8
        },
        |i: int|
            ListItem {
                rect: menu_place(i, items.len() as int)->0,
                text: items[i].0,
                fg_color: Some(TEXT_LIGHT),
                border_color: Some(
                    if items[i].1 {
                        UiColor::SteelBlue
                    } else {
                        UiColor::DarkOrange
                    },
                ),
            },
    )
}

/// Lays out a menu: what to draw, and where its entries stand.
pub fn display_menu_list(title: &str, version: &str, items: &[(String, bool)]) -> (r: (
    Vec<DrawOp>,
    Vec<Rectangle>,
))
    ensures
        shown(r.0@) == list_drawing(title@, version@, menu_items(items@)),
        r.1@ == menu_items(items@).map_values(|item: ListItem| item.rect),
{
    let mut list_items: Vec<ListItem> = Vec::new();
    let mut i: usize = 0;
    while i < items.len()
        invariant
            i <= items@.len(),
            list_items@ == menu_items(items@).take(
                if i <= 8 {
                    i as int
                } else {
                    8
                },
            ),
        decreases items@.len() - i,
    {
        if let Some(rect) = menu_item_rect_for_count(i, items.len()) {
            let border_color = if items[i].1 {
                UiColor::SteelBlue
            } else {
                UiColor::DarkOrange
            };
            list_items.push(
                ListItem::new(rect, items[i].0.clone(), Some(border_color), Some(TEXT_LIGHT)),
            );
            assert(list_items@ =~= menu_items(items@).take(i + 1));
        }
        i = i + 1;
    }
    proof {
        let all = menu_items(items@);
        assert(list_items@ =~= all);
        lemma_all_drawn(all);
        assert(all.take(all.len() as int) =~= all);
    }
    display_list(title, version, list_items.as_slice())
}

proof fn lemma_all_drawn(items: Seq<ListItem>)
    requires
        forall|i: int| 0 <= i < items.len() ==> (#[trigger] items[i]).rect.bottom() <= 502,
    ensures
        drawn_count(items) == items.len(),
    decreases items.len(),
{
    if items.len() > 0 {
        assert(items[0].rect.bottom() <= 502);
        let rest = items.drop_first();
        assert forall|i: int| 0 <= i < rest.len() implies (#[trigger] rest[i]).rect.bottom()
            <= 502 by {
            assert(rest[i] == items[i + 1]);
        }
        lemma_all_drawn(rest);
    }
}

/// What is drawn of a new title over a list.
pub open spec fn title_drawing(title: Seq<char>) -> Seq<DrawView> {
    seq![
        DrawView::Box { rect: rect(0, 0, 410, 30), stroke: None, fill: Some(UiColor::Black) },
        DrawView::Text {
            text: title,
            at: point(205, 18),
            style: title_style(title_color(title)),
        },
    ]
}

/// Lays out a new title over a list: what to draw, and the place of it.
pub fn refresh_list_title(title: &str) -> (r: (Vec<DrawOp>, Rectangle))
    ensures
        shown(r.0@) == title_drawing(title@),
        r.1 == rect(0, 0, 410, 30),
{
    let title_rect = Rectangle::new(Point::new(0, 0), Size::new(410, MENU_START_Y as u32));
    let mut ops: Vec<DrawOp> = Vec::new();
    draw(&mut ops, DrawOp::Box { rect: title_rect, stroke: None, fill: Some(UiColor::Black) });
    draw(
        &mut ops,
        DrawOp::Text {
            text: title.to_string(),
            at: Point::new(205, 18),
            style: TextStyle {
                font: UiFont::Wqy16,
                color: list_title_color(title),
                vertical_offset: 0,
            },
        },
    );
    assert(shown(ops@) =~= seq![
        DrawView::Box { rect: rect(0, 0, 410, 30), stroke: None, fill: Some(UiColor::Black) },
        DrawView::Text {
            text: title@,
            at: point(205, 18),
            style: title_style(title_color(title@)),
        },
    ]);
    (ops, title_rect)
}

// ---------------------------------------------------------------------------------------
// Laws of lists
// ---------------------------------------------------------------------------------------

/// The width of a text in pixels.
pub open spec fn text_width(s: Seq<char>) -> int
    decreases s.len(),
{
    if s.len() == 0 {
        0
    } else {
        char_width(s[0]) + text_width(s.drop_first())
    }
}

/// A text is shown whole if and only if it fits beside twelve pixels on either side; otherwise
/// as many of its first characters as fit are, with three dots behind them.
pub proof fn law_text_is_shown_as_far_as_it_fits(s: Seq<char>, width: int)
    requires
        width >= 24,
    ensures
        ({
            let n = fit_count(s, width - 24);
            &&& 0 <= n <= s.len()
            &&& text_width(s.take(n)) + 24 <= width
            &&& n < s.len() ==> text_width(s.take(n + 1)) + 24 > width
            &&& n == s.len() ==> fitted_text(s, width) == s
            &&& n < s.len() ==> fitted_text(s, width) == s.take(n) + seq!['.', '.', '.']
        }),
        text_width(s) + 24 <= width <==> fitted_text(s, width) == s && fit_count(s, width - 24)
            == s.len(),
{
    lemma_fit(s, width - 24);
    if fit_count(s, width - 24) == s.len() {
        assert(s.take(s.len() as int) =~= s);
    } else if text_width(s) + 24 <= width {
        let n = fit_count(s, width - 24);
        lemma_width_grows(s, n + 1);
    }
}

proof fn lemma_fit(s: Seq<char>, room: int)
    requires
        room >= 0,
    ensures
        0 <= fit_count(s, room) <= s.len(),
        text_width(s.take(fit_count(s, room))) <= room,
        fit_count(s, room) < s.len() ==> text_width(s.take(fit_count(s, room) + 1)) > room,
    decreases s.len(),
{
    let n = fit_count(s, room);
    if s.len() == 0 {
        assert(s.take(0) =~= Seq::<char>::empty());
    } else if char_width(s[0]) > room {
        assert(s.take(0) =~= Seq::<char>::empty());
        assert(s.take(1).drop_first() =~= Seq::<char>::empty());
        assert(s.take(1)[0] == s[0]);
    } else {
        let t = s.drop_first();
        lemma_fit(t, room - char_width(s[0]));
        assert(s.take(n).drop_first() =~= t.take(n - 1));
        if n < s.len() {
            assert(s.take(n + 1).drop_first() =~= t.take(n));
        }
    }
}

proof fn lemma_width_grows(s: Seq<char>, n: int)
    requires
        0 <= n <= s.len(),
    ensures
        text_width(s.take(n)) <= text_width(s),
        text_width(s) >= 0,
    decreases s.len(),
{
    if s.len() > 0 {
        let t = s.drop_first();
        if n > 0 {
            lemma_width_grows(t, n - 1);
            assert(s.take(n).drop_first() =~= t.take(n - 1));
        } else {
            lemma_width_grows(t, 0);
            assert(s.take(0) =~= Seq::<char>::empty());
        }
    } else {
        assert(s.take(n) =~= s);
    }
}

/// A title with a charge is red up to a fifth, green above three fifths and orange between; a
/// higher charge never has a worse colour.
pub proof fn law_title_color_tells_the_charge(label: Seq<char>, percent: u8)
    requires
        forall|i: int| 0 <= i < label.len() ==> #[trigger] label[i] != 'B',
        percent <= 100,
    ensures
        ({
            let c = title_color(label + battery_word() + dec(percent as nat) + seq!['%']);
            &&& c == UiColor::Red <==> 5 * percent <= 100
            &&& c == UiColor::DarkGreen <==> 5 * percent > 3 * 100
            &&& c == UiColor::DarkOrange <==> 100 < 5 * percent <= 3 * 100
        }),
{
    law_title_color_follows_charge(label, percent);
}

/// The entries that are drawn are those before the first one that would leave the display at
/// its bottom, and all of those.
pub proof fn law_list_is_drawn_down_to_the_bottom(items: Seq<ListItem>)
    ensures
        0 <= drawn_count(items) <= items.len(),
        forall|i: int|
            0 <= i < drawn_count(items) ==> (#[trigger] items[i]).rect.bottom() <= 502,
        drawn_count(items) < items.len() ==> items[drawn_count(items)].rect.bottom() > 502,
    decreases items.len(),
{
    if items.len() > 0 && items[0].rect.bottom() <= 502 {
        let rest = items.drop_first();
        law_list_is_drawn_down_to_the_bottom(rest);
        assert forall|i: int| 0 <= i < drawn_count(items) implies (
        #[trigger] items[i]).rect.bottom() <= 502 by {
            if i > 0 {
                assert(rest[i - 1] == items[i]);
            }
        }
    }
}

/// An entry is drawn inside its place, in its border's colour, and with its text in the text's
/// colour, centred in it, as far as that fits; without a text colour there is no text.
pub proof fn law_entry_is_drawn_in_its_place(item: ListItem)
    requires
        item.rect.size.width >= 8,
        item.rect.size.height >= 23,
        item.rect.size.height <= 502,
        item.rect.size.width <= 410,
        0 <= item.rect.top_left.x <= 410,
        0 <= item.rect.top_left.y <= 502,
    ensures
        ({
            let d = item_drawing(item);
            let r = item.rect;
            &&& d.len() == (if item.fg_color is Some {
                2int
            } else {
                1
            })
            &&& d[0] matches DrawView::Box { rect, stroke, fill } && {
                &&& r.top_left.x <= rect.top_left.x && rect.right() <= r.right()
                &&& r.top_left.y <= rect.top_left.y && rect.bottom() <= r.bottom()
                &&& fill == Some(UiColor::Black)
                &&& stroke is Some
                &&& item.border_color matches Some(c) ==> (stroke matches Some(border) && border.0
                    == c)
            }
            &&& item.fg_color matches Some(c) ==> (d[1] matches DrawView::Text {
                text,
                at,
                style,
            } && {
                &&& style.color == c
                &&& text == fitted_text(item.text@, item.rect.size.width - 8)
                &&& r.top_left.x <= at.x <= r.right()
                &&& r.top_left.y <= at.y <= r.bottom()
            })
        }),
{
}

/// A list shows its title and the version, each once, and then its entries one after the other;
/// a new title is drawn where the old one stood, in the same way.
pub proof fn law_list_shows_title_and_entries(
    title: Seq<char>,
    version: Seq<char>,
    items: Seq<ListItem>,
    more: ListItem,
)
    ensures
        ({
            let d = list_drawing(title, version, items);
            &&& d.len() >= 3 && d[0] is Clear
            &&& d[1] matches DrawView::Text { text, at, .. } && text == title && 0 <= at.y < 30
            &&& d[2] matches DrawView::Text { text, at, .. } && text == version && 478 <= at.y
                < 502
            &&& d.skip(3) == items_drawing(items.take(drawn_count(items)))
            &&& title_drawing(title)[1] == d[1]
            &&& title_drawing(title)[0] matches DrawView::Box { rect, .. } && rect.holds(205, 18)
                && rect.bottom() == 30 && rect.right() == 410
        }),
        items_drawing(items.push(more)) == items_drawing(items) + item_drawing(more),
        items_drawing(Seq::empty()).len() == 0,
{
    let d = list_drawing(title, version, items);
    assert(d.skip(3) =~= items_drawing(items.take(drawn_count(items))));
    assert(items.push(more).drop_last() =~= items);
}

/// A menu has an entry for each of its first eight labels, with that label, blue where it is
/// marked and orange where it is not; the entries stand from left to right and then from top to
/// bottom, in two columns.
pub proof fn law_menu_shows_its_labels_in_order(items: Seq<(String, bool)>, i: int)
    requires
        0 <= i < items.len(),
        i < 8,
    ensures
        menu_items(items).len() <= 8 && menu_items(items).len() <= items.len(),
        i < menu_items(items).len(),
        menu_items(items)[i].text == items[i].0,
        items[i].1 <==> menu_items(items)[i].border_color == Some(UiColor::SteelBlue),
        !items[i].1 <==> menu_items(items)[i].border_color == Some(UiColor::DarkOrange),
        items.len() > 1 ==> ({
            let r = menu_items(items)[i].rect;
            &&& r.top_left.x == 0 <==> i % 2 == 0
            &&& i % 2 == 1 ==> r.right() == 410
            &&& r.size.height == 112 && r.top_left.y == 30 + (i / 2) * r.size.height
        }),
        items.len() == 1 ==> menu_items(items)[i].rect.size.width == 410,
{
}

} // verus!
