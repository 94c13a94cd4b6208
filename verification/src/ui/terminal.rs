//! The terminal view: what a text frame does to the terminal, and when it is drawn.
use crate::geometry::Rectangle;
use crate::ui::framebuffer::{DISPLAY_HEIGHT, DISPLAY_WIDTH};
use embedded_graphics::geometry::Size;
use embedded_graphics::pixelcolor::{Rgb565, RgbColor};
use embedded_graphics_terminal::TerminalRenderer;
use u8g2_fonts::fonts::u8g2_font_unifont_t_gb2312;
use vstd::prelude::*;

verus! {

/// The rows that a terminal keeps above its screen.
pub const TERMINAL_SCROLLBACK_ROWS: usize = 16;
/// How long appended text may wait to be drawn, in microseconds.
pub const APPEND_RENDER_MICROS: i64 = 300_000;
/// How long appended text may wait to be drawn, in nanoseconds.
pub const TERMINAL_APPEND_RENDER_TIMEOUT: u64 = 300_000_000;

/// A terminal: the screen that `vt100::Parser` makes of the bytes it was given.
#[verifier::external_body]
pub struct Terminal {
    parser: vt100::Parser,
}

/// The screen of a `vt100::Parser`, as it is drawn.
#[verifier::external_type_specification]
#[verifier::external_body]
pub struct ExScreen(vt100::Screen);

/// The bytes that a terminal was given, in order.
pub uninterp spec fn terminal_input(terminal: Terminal) -> Seq<u8>;

/// The rows and columns of a terminal's screen, and the rows that it keeps above it.
pub uninterp spec fn terminal_size(terminal: Terminal) -> (u16, u16, usize);

/// The bytes that a screen shows: those that its parser was given, in order.
pub uninterp spec fn screen_input(screen: vt100::Screen) -> Seq<u8>;

/// The rows and columns of a screen, and the rows that are kept above it.
pub uninterp spec fn screen_size(screen: vt100::Screen) -> (u16, u16, usize);

impl Terminal {
    /// `vt100::Parser::new` makes a blank screen that was given nothing yet. A screen has to
    /// have two rows and three columns at least: with fewer, wrapping text or a character
    /// three columns wide runs out of the screen. It has at most 65,527 columns: with more, a
    /// tab at its right edge leaves the range of a column's number.
    #[verifier::external_body]
    fn blank(rows: u16, cols: u16, scrollback: usize) -> (r: Terminal)
        requires
            rows >= 2,
            3 <= cols <= 65_527,
        ensures
            terminal_input(r) == Seq::<u8>::empty(),
            terminal_size(r) == (rows, cols, scrollback),
    {
        Terminal { parser: vt100::Parser::new(rows, cols, scrollback) }
    }

    /// `vt100::Parser::process` takes more bytes, behind those it was given before; what the
    /// screen shows follows from all of them. The screen keeps its size, which is one that a
    /// screen may have.
    #[verifier::external_body]
    fn process(&mut self, bytes: &[u8])
        requires
            terminal_size(*old(self)).0 >= 2,
            3 <= terminal_size(*old(self)).1 <= 65_527,
        ensures
            terminal_input(*final(self)) == terminal_input(*old(self)) + bytes@,
            terminal_size(*final(self)) == terminal_size(*old(self)),
    {
        self.parser.process(bytes)
    }

    /// `vt100::Parser::screen` lends the screen that the bytes made.
    #[verifier::external_body]
    fn shown(&self) -> (r: &vt100::Screen)
        ensures
            screen_input(*r) == terminal_input(*self),
            screen_size(*r) == terminal_size(*self),
    {
        self.parser.screen()
    }
}

/// `TerminalRenderer::cols` and `TerminalRenderer::rows` tell how many columns and rows of the
/// terminal's font fit into so many pixels. A cell of the font is eight pixels wide and
/// seventeen high: the advance of its letters, and one more than the height of its box.
#[verifier::external_body]
fn renderer_cells(width: u32, height: u32) -> (r: (u16, u16))
    requires
        width <= 65_535,
        height <= 65_535,
    ensures
        r.0 == width as int / 8,
        r.1 == height as int / 17,
{
    let font = u8g2_font_unifont_t_gb2312;
    let size = Size::new(width, height);
    let renderer = TerminalRenderer::new(size, font, Rgb565::WHITE, Rgb565::BLACK);
    (renderer.cols(), renderer.rows())
}

/// The columns and rows of text that fit on the display.
pub fn terminal_text_cells() -> (r: (u16, u16))
    ensures
        r == (51u16, 29u16),
{
    renderer_cells(DISPLAY_WIDTH as u32, DISPLAY_HEIGHT as u32)
}

/// What becomes of the renderer that draws the terminal.
#[derive(Debug, Clone, Copy, PartialEq, Eq, Structural)]
pub enum RendererStep {
    /// It stays.
    Keep,
    /// A new one takes its place.
    Renew,
    /// A new one takes its place, and draws everything anew.
    RenewInvalidated,
}

/// What follows a text frame.
#[derive(Debug, Clone, Copy, PartialEq, Eq, Structural)]
pub enum FrameNext {
    /// It is no frame.
    Ignored,
    /// It is drawn later.
    Buffered { renderer: RendererStep },
    /// It is drawn, the whole screen or what changed, after waiting so long.
    Render { full: bool, renderer: RendererStep, wait_us: u64 },
}

/// What is sent to the display after the terminal was drawn.
#[derive(Debug, Clone, Copy, PartialEq, Eq, Structural)]
pub enum TerminalFlush {
    Full,
    Rect(Rectangle),
    Nothing,
}

/// The terminal view. `last_render_us` is in microseconds, the deadline in nanoseconds.
pub struct TerminalState {
    pub cols: u16,
    pub rows: u16,
    pub session: Option<Terminal>,
    pub last_render_us: i64,
    pub append_render_deadline: Option<u64>,
}

/// What the terminal was given, after one more frame: a full frame starts it over, a delta
/// frame adds to it, anything else leaves it.
pub open spec fn input_after(input: Option<Seq<u8>>, payload: Seq<u8>) -> Option<Seq<u8>> {
    if payload.len() > 0 && payload[0] == 0 {
        Some(payload.drop_first())
    } else if payload.len() > 0 && payload[0] == 1 {
        match input {
            Some(bytes) => Some(bytes + payload.drop_first()),
            None => Some(payload.drop_first()),
        }
    } else {
        input
    }
}

/// How long a delta frame waits: until three tenths of a second after the last drawing, if
/// there was one.
pub open spec fn append_wait(last_render_us: int, now_us: int) -> int {
    if last_render_us > 0 && 0 <= now_us - last_render_us < 300_000 {
        300_000 - (now_us - last_render_us)
    } else {
        0
    }
}

/// What is sent to the display after a frame was drawn, where `dirty` is what changed.
pub open spec fn flush_of(full: bool, dirty: Option<Rectangle>) -> TerminalFlush {
    match dirty {
        Some(rect) => if full {
            TerminalFlush::Full
        } else {
            TerminalFlush::Rect(rect)
        },
        None => TerminalFlush::Nothing,
    }
}

impl TerminalState {
    /// What the terminal was given, if there is one.
    pub open spec fn input(self) -> Option<Seq<u8>> {
        match self.session {
            Some(t) => Some(terminal_input(t)),
            None => None,
        }
    }

    /// The view has the columns and rows that fit on the display, and the terminal fills it.
    pub open spec fn wf(self) -> bool {
        &&& self.cols == 51
        &&& self.rows == 29
        &&& self.session matches Some(t) ==> terminal_size(t) == (
            self.rows,
            self.cols,
            TERMINAL_SCROLLBACK_ROWS,
        )
    }

    /// The screen of the terminal, if there is one.
    pub fn screen(&self) -> (r: Option<&vt100::Screen>)
        requires
            self.wf(),
        ensures
            match r {
                Some(screen) => {
                    &&& self.input() == Some(screen_input(*screen))
                    &&& screen_size(*screen) == (29u16, 51u16, TERMINAL_SCROLLBACK_ROWS)
                },
                None => self.input() is None,
            },
    {
        match &self.session {
            Some(terminal) => Some(terminal.shown()),
            None => None,
        }
    }

    /// No terminal yet.
    pub fn new() -> (r: Self)
        ensures
            r.cols == 51,
            r.rows == 29,
            r.session is None,
            r.last_render_us == 0,
            r.append_render_deadline is None,
            r.wf(),
    {
        let (cols, rows) = terminal_text_cells();
        TerminalState { cols, rows, session: None, last_render_us: 0, append_render_deadline: None }
    }

    /// Starts over with a blank terminal that fills the display.
    pub fn reset_session(&mut self)
        ensures
            final(self).input() == Some(Seq::<u8>::empty()),
            *final(self) == (TerminalState {
                cols: 51,
                rows: 29,
                session: final(self).session,
                ..*old(self)
            }),
            final(self).wf(),
    {
        let (cols, rows) = terminal_text_cells();
        self.cols = cols;
        self.rows = rows;
        self.session = Some(Terminal::blank(rows, cols, TERMINAL_SCROLLBACK_ROWS));
    }

    /// Gives the terminal more bytes; a blank one is made where there is none.
    fn feed(&mut self, bytes: &[u8]) -> (r: RendererStep)
        requires
            old(self).wf(),
        ensures
            match old(self).session {
                Some(t) => {
                    &&& final(self).input() == Some(terminal_input(t) + bytes@)
                    &&& r == RendererStep::Keep
                    &&& *final(self) == (TerminalState {
                        session: final(self).session,
                        ..*old(self)
                    })
                },
                None => {
                    &&& final(self).input() == Some(bytes@)
                    &&& r == RendererStep::RenewInvalidated
                    &&& *final(self) == (TerminalState {
                        cols: 51,
                        rows: 29,
                        session: final(self).session,
                        ..*old(self)
                    })
                },
            },
            final(self).wf(),
    {
        let mut step = RendererStep::Keep;
        let mut terminal: Terminal = match self.session.take() {
            Some(t) => t,
            None => {
                let (cols, rows) = terminal_text_cells();
                self.cols = cols;
                self.rows = rows;
                step = RendererStep::RenewInvalidated;
                Terminal::blank(rows, cols, TERMINAL_SCROLLBACK_ROWS)
            },
        };
        assert(Seq::<u8>::empty() + bytes@ =~= bytes@);
        terminal.process(bytes);
        self.session = Some(terminal);
        step
    }

    /// What becomes of the renderer when a frame arrives.
    pub open spec fn renderer_step(self, payload: Seq<u8>) -> RendererStep {
        if payload[0] == 0 {
            RendererStep::Renew
        } else if self.session is None {
            RendererStep::RenewInvalidated
        } else {
            RendererStep::Keep
        }
    }

    /// Whether a frame sets the terminal's size anew.
    pub open spec fn is_resized(self, payload: Seq<u8>) -> bool {
        payload.len() > 0 && (payload[0] == 0 || (payload[0] == 1 && self.session is None))
    }

    /// The size of the view after a frame.
    pub open spec fn size_after(self, payload: Seq<u8>) -> (u16, u16) {
        if self.is_resized(payload) {
            (51, 29)
        } else {
            (self.cols, self.rows)
        }
    }

    /// What follows a text frame that is to be drawn at once.
    pub open spec fn shown_next(self, payload: Seq<u8>, now_us: int) -> FrameNext {
        if payload.len() == 0 || payload[0] > 1 {
            FrameNext::Ignored
        } else if payload[0] == 0 {
            FrameNext::Render { full: true, renderer: RendererStep::Renew, wait_us: 0 }
        } else {
            FrameNext::Render {
                full: false,
                renderer: self.renderer_step(payload),
                wait_us: append_wait(self.last_render_us as int, now_us) as u64,
            }
        }
    }

    /// What follows a text frame that may wait to be drawn.
    pub open spec fn buffered_next(self, payload: Seq<u8>) -> FrameNext {
        if payload.len() == 0 || payload[0] > 1 {
            FrameNext::Ignored
        } else if payload[0] == 0 {
            FrameNext::Render { full: true, renderer: RendererStep::Renew, wait_us: 0 }
        } else {
            FrameNext::Buffered { renderer: self.renderer_step(payload) }
        }
    }

    /// When waiting text is drawn, after a frame that may wait.
    pub open spec fn deadline_after(self, payload: Seq<u8>, now: u64) -> Option<u64> {
        if payload.len() > 0 && payload[0] == 0 {
            None
        } else if payload.len() > 0 && payload[0] == 1 && self.append_render_deadline is None {
            Some((now + 300_000_000) as u64)
        } else {
            self.append_render_deadline
        }
    }

    /// Takes a text frame that is to be drawn at once. The first byte tells a full frame
    /// from a delta frame; the rest goes to the terminal.
    pub fn show_terminal_text_frame(&mut self, payload: &[u8], now_us: i64) -> (r: FrameNext)
        requires
            payload@.len() > 0 && payload@[0] == 1 && old(self).last_render_us > 0 ==> now_us
                - old(self).last_render_us >= i64::MIN,
            old(self).wf(),
        ensures
            final(self).input() == input_after(old(self).input(), payload@),
            *final(self) == (TerminalState {
                cols: old(self).size_after(payload@).0,
                rows: old(self).size_after(payload@).1,
                session: final(self).session,
                append_render_deadline: if payload@.len() > 0 && payload@[0] == 0 {
                    None
                } else {
                    old(self).append_render_deadline
                },
                ..*old(self)
            }),
            payload@.len() == 0 || payload@[0] > 1 ==> {
                &&& r == FrameNext::Ignored
                &&& final(self).session == old(self).session
            },
            r == old(self).shown_next(payload@, now_us as int),
            final(self).wf(),
    {
        if payload.len() == 0 {
            return FrameNext::Ignored;
        }
        let tag: u8 = payload[0];
        let bytes = &payload[1..payload.len()];
        assert(bytes@ =~= payload@.drop_first());
        if tag == 0x00 {
            self.reset_session();
            self.append_render_deadline = None;
            let _ = self.feed(bytes);
            assert(Seq::<u8>::empty() + bytes@ =~= bytes@);
            FrameNext::Render { full: true, renderer: RendererStep::Renew, wait_us: 0 }
        } else if tag == 0x01 {
            let renderer = self.feed(bytes);
            let mut wait_us: u64 = 0;
            if self.last_render_us > 0 {
                let elapsed: i64 = now_us - self.last_render_us;
                if elapsed >= 0 && elapsed < APPEND_RENDER_MICROS {
                    wait_us = (APPEND_RENDER_MICROS - elapsed) as u64;
                }
            }
            FrameNext::Render { full: false, renderer, wait_us }
        } else {
            FrameNext::Ignored
        }
    }

    /// Takes a text frame that may wait to be drawn. A delta frame is drawn at the deadline,
    /// which the first one since the last drawing sets; a full frame is drawn at once.
    pub fn buffer_terminal_text_frame(
        &mut self,
        payload: &[u8],
        now: u64,
        now_us: i64,
    ) -> (r: FrameNext)
        requires
            now + TERMINAL_APPEND_RENDER_TIMEOUT <= u64::MAX,
            old(self).wf(),
        ensures
            final(self).input() == input_after(old(self).input(), payload@),
            *final(self) == (TerminalState {
                cols: old(self).size_after(payload@).0,
                rows: old(self).size_after(payload@).1,
                session: final(self).session,
                append_render_deadline: old(self).deadline_after(payload@, now),
                ..*old(self)
            }),
            payload@.len() == 0 || payload@[0] > 1 ==> {
                &&& r == FrameNext::Ignored
                &&& final(self).session == old(self).session
            },
            r == old(self).buffered_next(payload@),
            final(self).wf(),
    {
        if payload.len() == 0 {
            return FrameNext::Ignored;
        }
        if payload[0] != 0x01 {
            return self.show_terminal_text_frame(payload, now_us);
        }
        let bytes = &payload[1..payload.len()];
        assert(bytes@ =~= payload@.drop_first());
        let renderer = self.feed(bytes);
        if self.append_render_deadline.is_none() {
            self.append_render_deadline = Some(now + TERMINAL_APPEND_RENDER_TIMEOUT);
        }
        FrameNext::Buffered { renderer }
    }

    /// Whether text waits to be drawn on a terminal that there is.
    pub open spec fn has_waiting_text(self) -> bool {
        self.append_render_deadline is Some && self.session is Some
    }

    /// The view once no text waits any more.
    pub open spec fn after_drawing(self) -> Self {
        TerminalState { append_render_deadline: None, ..self }
    }

    /// The view once it was drawn and sent to the display.
    pub open spec fn after_rendered(self, now_us: i64) -> Self {
        TerminalState { last_render_us: now_us, ..self }
    }

    /// What becomes of the renderer when the theme changes.
    pub open spec fn theme_step(self) -> RendererStep {
        if self.session is Some {
            RendererStep::RenewInvalidated
        } else {
            RendererStep::Keep
        }
    }

    /// What is sent to the display after a frame was drawn, where `dirty` is what changed.
    pub fn frame_flush(full: bool, dirty: Option<Rectangle>) -> (r: TerminalFlush)
        ensures
            r == flush_of(full, dirty),
    {
        match dirty {
            Some(rect) => if full {
                TerminalFlush::Full
            } else {
                TerminalFlush::Rect(rect)
            },
            None => TerminalFlush::Nothing,
        }
    }

    /// Takes note that the terminal was drawn and sent to the display.
    pub fn rendered(&mut self, now_us: i64)
        ensures
            *final(self) == old(self).after_rendered(now_us),
            old(self).wf() ==> final(self).wf(),
    {
        self.last_render_us = now_us;
    }

    /// When waiting text is drawn, if any waits.
    pub fn terminal_append_render_deadline(&self) -> (r: Option<u64>)
        ensures
            r == self.append_render_deadline,
    {
        self.append_render_deadline
    }

    /// Lets waiting text wait for another occasion.
    pub fn cancel_pending_terminal_append(&mut self)
        ensures
            *final(self) == old(self).after_drawing(),
            old(self).wf() ==> final(self).wf(),
    {
        self.append_render_deadline = None;
    }

    /// The deadline has come: tells whether there is something to draw.
    pub fn render_pending_terminal_append(&mut self) -> (r: bool)
        ensures
            r == old(self).has_waiting_text(),
            *final(self) == old(self).after_drawing(),
            old(self).wf() ==> final(self).wf(),
    {
        if self.append_render_deadline.is_none() {
            return false;
        }
        self.append_render_deadline = None;
        self.session.is_some()
    }

    /// Tells whether there is a terminal to draw again; waiting text is then drawn with it.
    pub fn redraw_cached_terminal_text(&mut self) -> (r: bool)
        ensures
            r == (old(self).session is Some),
            *final(self) == (if r {
                old(self).after_drawing()
            } else {
                *old(self)
            }),
            old(self).wf() ==> final(self).wf(),
    {
        if self.session.is_none() {
            return false;
        }
        self.append_render_deadline = None;
        true
    }

    /// What becomes of the renderer when the theme changes.
    pub fn set_theme(&self) -> (r: RendererStep)
        ensures
            r == self.theme_step(),
    {
        if self.session.is_some() {
            RendererStep::RenewInvalidated
        } else {
            RendererStep::Keep
        }
    }
}

// ---------------------------------------------------------------------------------------
// Laws
// ---------------------------------------------------------------------------------------

/// What the terminal was given, after a run of frames.
pub open spec fn input_after_all(input: Option<Seq<u8>>, payloads: Seq<Seq<u8>>) -> Option<Seq<u8>>
    decreases payloads.len(),
{
    if payloads.len() == 0 {
        input
    } else {
        input_after(input_after_all(input, payloads.drop_last()), payloads.last())
    }
}

/// The bytes of a run of frames without their tags, one behind the other.
pub open spec fn joined(payloads: Seq<Seq<u8>>) -> Seq<u8>
    decreases payloads.len(),
{
    if payloads.len() == 0 {
        Seq::empty()
    } else {
        joined(payloads.drop_last()) + payloads.last().drop_first()
    }
}

/// Whatever the terminal was given before, after a full frame and any number of delta frames
/// it holds the bytes of these frames and nothing else.
pub proof fn law_full_frame_starts_over(input: Option<Seq<u8>>, payloads: Seq<Seq<u8>>)
    requires
        payloads.len() > 0,
        payloads[0].len() > 0 && payloads[0][0] == 0,
        forall|i: int|
            0 < i < payloads.len() ==> (#[trigger] payloads[i]).len() > 0 && payloads[i][0] == 1,
    ensures
        input_after_all(input, payloads) == Some(joined(payloads)),
    decreases payloads.len(),
{
    let init = payloads.drop_last();
    if payloads.len() == 1 {
        assert(joined(init) =~= Seq::empty());
        assert(joined(payloads) =~= payloads[0].drop_first());
        assert(input_after_all(input, init) == input);
    } else {
        assert forall|i: int| 0 < i < init.len() implies (#[trigger] init[i]).len() > 0
            && init[i][0] == 1 by {
            assert(init[i] == payloads[i]);
        }
        law_full_frame_starts_over(input, init);
        assert(payloads.last() == payloads[payloads.len() - 1]);
    }
}

/// A full frame is drawn at once and in full by a new renderer, whether or not it may wait; a
/// delta frame is drawn where it changed, and by the renderer that there is, if there is one.
/// What is neither is not drawn.
pub proof fn law_frames_are_drawn(s: TerminalState, payload: Seq<u8>, now_us: int)
    ensures
        ({
            let shown = s.shown_next(payload, now_us);
            let buffered = s.buffered_next(payload);
            let changed = input_after(Some(Seq::empty()), payload) != Some(Seq::<u8>::empty());
            &&& (shown is Ignored) == (buffered is Ignored)
            &&& changed ==> !(shown is Ignored)
            &&& (shown is Render && shown->full) == (buffered is Render)
            &&& shown is Render && shown->full ==> payload[0] == 0 && shown->wait_us == 0 && shown
                == buffered && shown->Render_renderer == RendererStep::Renew
            &&& shown is Render && !shown->full ==> payload[0] == 1 && buffered is Buffered
                && buffered->Buffered_renderer == shown->Render_renderer && (
            shown->Render_renderer == RendererStep::Keep <==> s.session is Some)
        }),
{
}

/// Delta frames that are drawn at once are drawn three tenths of a second after the last
/// drawing at the earliest, and not later than that on their account; without a drawing before
/// they do not wait.
pub proof fn law_delta_frames_are_drawn_slowly(last: int, now: int)
    requires
        0 <= last <= now,
    ensures
        0 <= append_wait(last, now) <= 300_000,
        last > 0 ==> now + append_wait(last, now) >= last + 300_000,
        append_wait(last, now) > 0 ==> now + append_wait(last, now) == last + 300_000,
        append_wait(0, now) == 0,
{
}

/// Text that may wait is drawn three tenths of a second after the first of it came: more text
/// does not put it off, and a full frame leaves nothing to wait.
pub proof fn law_waiting_text_has_one_deadline(
    s: TerminalState,
    first: Seq<u8>,
    more: Seq<u8>,
    now: u64,
    later: u64,
)
    requires
        s.append_render_deadline is None,
        first.len() > 0 && first[0] == 1,
        more.len() > 0,
        now + TERMINAL_APPEND_RENDER_TIMEOUT <= u64::MAX,
    ensures
        ({
            let waiting = TerminalState {
                append_render_deadline: s.deadline_after(first, now),
                ..s
            };
            &&& waiting.append_render_deadline == Some((now + 300 * 1_000_000) as u64)
            &&& more[0] == 1 ==> waiting.deadline_after(more, later)
                == waiting.append_render_deadline
            &&& more[0] == 0 ==> waiting.deadline_after(more, later) is None
        }),
        s.deadline_after(Seq::empty(), now) is None,
{
}

/// What changed on the terminal is sent to the display: all of it after a full frame, else the
/// part that changed, and nothing where nothing did.
pub proof fn law_what_changed_is_sent(full: bool, dirty: Option<Rectangle>)
    ensures
        flush_of(full, dirty) == TerminalFlush::Nothing <==> dirty is None,
        dirty is Some && full ==> flush_of(full, dirty) == TerminalFlush::Full,
        dirty is Some && !full ==> flush_of(full, dirty) == TerminalFlush::Rect(dirty->0),
{
}

/// Text that waits is drawn when its time has come, once; drawing changes nothing that the
/// terminal was given, and the next delta frame waits from the time of the drawing on. A new
/// theme draws a terminal that there is anew.
pub proof fn law_waiting_text_is_drawn_once(s: TerminalState, payload: Seq<u8>, now: u64, us: i64)
    requires
        s.session is Some,
        payload.len() > 0 && payload[0] == 1,
        0 < us <= i64::MAX - 300_000,
    ensures
        ({
            let waiting = TerminalState {
                append_render_deadline: s.deadline_after(payload, now),
                ..s
            };
            &&& waiting.has_waiting_text()
            &&& !waiting.after_drawing().has_waiting_text()
            &&& waiting.after_drawing().session == s.session
            &&& s.after_rendered(us).session == s.session
            &&& s.after_rendered(us).append_render_deadline == s.append_render_deadline
            &&& s.after_rendered(us).shown_next(payload, us as int)->wait_us == 300_000
            &&& s.theme_step() == RendererStep::RenewInvalidated
        }),
{
}

} // verus!
