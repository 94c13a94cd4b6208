//! The screens' shared state: events go in, a new state and effects come out.
use crate::geometry::Rectangle;
use crate::lcd::{TouchPoint, LCD_HEIGHT, LCD_WIDTH};
use crate::mqtt::MqttEvent;
use crate::protocol::{ImageFormat, ScreenImageChunk};
use crate::touch::{SwipeDirection, TouchGesture, DEFAULT_SWIPE_THRESHOLD_PX};
use crate::ui::list::{law_touch_index_is_first_hit, list_touch_index, touch_hits, touch_index};
use crate::ui::terminal::input_after;
use crate::ui::MENU_TITLE_REFRESH_DELAY;
use vstd::prelude::*;

verus! {

/// Long presses in a row on the session list that open the boot menu.
pub const SESSION_PICKER_BOOT_LONG_PRESS_COUNT: u8 = 5;
/// The least time between two backspaces of one held finger, in nanoseconds.
pub const BACKSPACE_REPEAT_DELAY: u64 = 500_000_000;
/// Rows that one swipe scrolls a session's screen.
pub const SCROLL_ROWS: u16 = 15;

/// The screen that is shown.
#[derive(Debug, Clone, Copy, PartialEq, Eq, Structural)]
pub enum Route {
    MainMenu,
    Settings,
    SessionPicker,
    ActiveSession,
    BootMenu,
    ThemePicker,
    Ota,
}

impl Default for Route {
    fn default() -> (r: Self)
        ensures
            r == Route::MainMenu,
    {
        Route::MainMenu
    }
}

#[derive(Debug)]
pub struct AppState {
    pub route: Route,
    pub sessions: SessionListState,
    pub active_session: ActiveSessionState,
    pub boot_menu: BootMenuState,
    pub settings: SettingsState,
    pub asr: AsrState,
    pub power: PowerState,
}

#[derive(Debug)]
pub struct SessionListState {
    pub title: String,
    pub items: Vec<SessionPickerItem>,
    pub scroll_offset: usize,
    pub loading: bool,
    pub boot_long_press_count: u8,
}

#[derive(Debug, Clone)]
pub struct SessionPickerItem {
    pub prefix: String,
    pub label: String,
    pub active: bool,
    pub working: bool,
}

#[derive(Debug)]
pub struct ActiveSessionState {
    pub terminal: TerminalViewState,
    pub jpeg_screen: JpegScreenState,
    pub loading: bool,
    pub backspace_overlay: bool,
    pub menu_overlay: bool,
    pub clear_overlay: bool,
    pub backspace_hold_sent: bool,
    pub last_backspace_sent_at: Option<u64>,
    pub pending_text_frame: Option<Vec<u8>>,
    pub pending_screen_chunk: Option<ScreenImageChunk>,
}

/// What is cached of a terminal view.
#[derive(Debug, Clone, Copy, PartialEq, Eq, Structural)]
pub struct TerminalViewState {
    pub has_parser: bool,
    pub has_renderer: bool,
    pub last_render_us: i64,
}

/// Whether a picture of the screen is cached.
#[derive(Debug, Clone, Copy, PartialEq, Eq, Structural)]
pub struct JpegScreenState {
    pub has_screen: bool,
}

#[derive(Debug, Clone, Copy, PartialEq, Eq, Structural)]
pub struct BootMenuState {
    pub waiting_release: bool,
    pub selected_index: Option<usize>,
}

#[derive(Debug, Clone, Copy, PartialEq, Eq, Structural)]
pub struct SettingsState {
    pub selected_index: Option<usize>,
}

#[derive(Debug)]
pub struct AsrState {
    pub connecting: bool,
    pub listening: bool,
    pub text: String,
}

#[derive(Debug, Clone, Copy, PartialEq, Eq, Structural)]
pub struct PowerState {
    pub backlight: BacklightState,
    pub charging: Option<bool>,
    pub battery_percent: Option<u8>,
}

#[derive(Debug, Clone, Copy, PartialEq, Eq, Structural)]
pub enum BacklightState {
    Normal,
    Off,
}

impl Default for BacklightState {
    fn default() -> (r: Self)
        ensures
            r == BacklightState::Normal,
    {
        BacklightState::Normal
    }
}

#[derive(Debug, Clone)]
pub enum AppEvent {
    Touch(TouchGesture),
    Mqtt(MqttEvent),
    Timer(TimerEvent),
    Ui(UiEvent),
}

/// What an event is read against: where the visible list entries were drawn, and the time.
#[derive(Clone, Copy)]
pub struct AppEventContext<'a> {
    pub session_item_rects: &'a [Rectangle],
    pub now: u64,
}

#[derive(Debug, Clone, Copy, PartialEq, Eq, Structural)]
pub enum TimerEvent {
    IdleShutdownCheck,
    BackspaceRepeat,
    RenderThrottleExpired,
}

#[derive(Debug, Clone, PartialEq, Eq)]
pub enum UiEvent {
    SessionClicked(String),
    SessionRefreshRequested,
    BackspacePressed,
    BackspaceHeld,
    ScreenMenuRequested,
    ThemeSelected(usize),
    ScreenOffRequested,
    PowerOffRequested,
    RebootRequested,
}

#[derive(Debug, Clone, PartialEq, Eq)]
pub enum Effect {
    MqttPublish(MqttCommand),
    MqttSubscribe(String),
    MqttUnsubscribe(String),
    SetBacklight(BacklightState),
    PlayAudio(AudioCue),
    SelectSession(String),
    ClearActiveSession,
    OpenBootMenu,
    OpenScreenMenu,
    OpenAsrEditor,
    SelectTheme(usize),
    PowerOff,
    Reboot,
}

#[derive(Debug, Clone, PartialEq, Eq)]
pub enum MqttCommand {
    SendSync { close: bool },
    SendKey { key: String },
    SendScrollUp { rows: u16 },
    SendScrollDown { rows: u16 },
    Publish { topic: String, payload: Vec<u8> },
}

#[derive(Debug, Clone, Copy, PartialEq, Eq, Structural)]
pub enum AudioCue {
    Prompt,
}

/// What an event comes to: whether to draw, and what else to do, in order.
#[derive(Debug)]
pub struct AppEventResult {
    pub render: bool,
    pub effects: Vec<Effect>,
}

impl AppEventResult {
    /// Nothing to draw and nothing to do.
    pub open spec fn is_none(self) -> bool {
        !self.render && self.effects@.len() == 0
    }

    /// Only to draw.
    pub open spec fn is_render(self) -> bool {
        self.render && self.effects@.len() == 0
    }

    /// Just the one effect, and drawing where `render` says so.
    pub open spec fn is_effect(self, render: bool, effect: Effect) -> bool {
        self.render == render && self.effects@ == seq![effect]
    }

    /// Just one backspace key to send, and drawing where `render` says so.
    pub open spec fn is_backspace(self, render: bool) -> bool {
        &&& self.render == render
        &&& self.effects@.len() == 1
        &&& sends_backspace(self.effects@[0])
    }

    pub fn none() -> (r: Self)
        ensures
            r.is_none(),
    {
        AppEventResult { render: false, effects: Vec::new() }
    }

    pub fn render() -> (r: Self)
        ensures
            r.is_render(),
    {
        AppEventResult { render: true, effects: Vec::new() }
    }

    pub fn effect(effect: Effect) -> (r: Self)
        ensures
            r.is_effect(false, effect),
    {
        let mut effects: Vec<Effect> = Vec::new();
        effects.push(effect);
        assert(effects@ =~= seq![effect]);
        AppEventResult { render: false, effects }
    }

    pub fn render_with_effect(effect: Effect) -> (r: Self)
        ensures
            r.is_effect(true, effect),
    {
        let mut effects: Vec<Effect> = Vec::new();
        effects.push(effect);
        assert(effects@ =~= seq![effect]);
        AppEventResult { render: true, effects }
    }
}

/// Whether an effect sends one backspace key.
pub open spec fn sends_backspace(effect: Effect) -> bool {
    effect matches Effect::MqttPublish(MqttCommand::SendKey { key }) && key@ == seq!['\x7f']
}

fn backspace_effect() -> (r: Effect)
    ensures
        sends_backspace(r),
{
    proof {
        reveal_strlit("\x7f");
    }
    let key: String = "\x7f".to_string();
    assert(key@ =~= seq!['\x7f']);
    Effect::MqttPublish(MqttCommand::SendKey { key })
}

/// The two effects that open a session: it is selected first, and only afterwards asked
/// for its screen.
pub open spec fn opens_session(effects: Seq<Effect>, prefix: Seq<char>) -> bool {
    &&& effects.len() == 2
    &&& effects[0] matches Effect::SelectSession(p) && p@ == prefix
    &&& effects[1] == Effect::MqttPublish(MqttCommand::SendSync { close: false })
}

fn open_session_effects(prefix: String) -> (r: Vec<Effect>)
    ensures
        opens_session(r@, prefix@),
{
    let mut effects: Vec<Effect> = Vec::new();
    effects.push(Effect::SelectSession(prefix));
    effects.push(Effect::MqttPublish(MqttCommand::SendSync { close: false }));
    effects
}

/// Where the entries of the session list were drawn last, and when its title is due.
#[derive(Debug)]
pub struct AppRenderState {
    pub session_item_rects: Vec<Rectangle>,
    pub next_title_refresh: u64,
}

impl AppRenderState {
    /// Nothing drawn yet; the title is due a minute from now.
    pub fn new(now: u64) -> (r: Self)
        requires
            now + MENU_TITLE_REFRESH_DELAY <= u64::MAX,
        ensures
            r.session_item_rects@.len() == 0,
            r.next_title_refresh == now + 60_000_000_000,
    {
        AppRenderState {
            session_item_rects: Vec::new(),
            next_title_refresh: now + MENU_TITLE_REFRESH_DELAY,
        }
    }

    /// Takes note that the session list was drawn, with its entries at `rects`.
    pub fn session_list_drawn(&mut self, rects: Vec<Rectangle>, now: u64)
        requires
            now + MENU_TITLE_REFRESH_DELAY <= u64::MAX,
        ensures
            final(self).session_item_rects == rects,
            final(self).next_title_refresh == now + 60_000_000_000,
    {
        self.session_item_rects = rects;
        self.next_title_refresh = now + MENU_TITLE_REFRESH_DELAY;
    }
}

#[derive(Debug, Clone, Copy, PartialEq, Eq, Structural)]
pub struct SessionSyncResult {
    pub render: bool,
    pub play_prompt: bool,
}

/// The session list as it is to be drawn.
#[derive(Debug)]
pub enum SessionPickerFrame {
    /// There is no session.
    Empty,
    /// The title, and the labels from the scroll position on with their working state.
    List { title: String, items: Vec<(String, bool)> },
}

/// How far the drawing of an active session has come.
#[derive(Debug, Clone, Copy, PartialEq, Eq, Structural)]
pub enum RenderStage {
    Chunk,
    Text,
    Loading,
    Clear,
    Cleared,
    Backspace,
    Menu,
    Done,
}

/// One thing to draw of an active session.
#[derive(Debug)]
pub enum RenderStep {
    /// A picture.
    ShowChunk(ScreenImageChunk),
    /// A text frame, at once.
    ShowText(Vec<u8>),
    /// A text frame that may wait for more.
    BufferText(Vec<u8>),
    ShowLoading,
    /// What was shown before an overlay covered it.
    RedrawCached,
    ShowBackspaceOverlay,
    ShowMenuOverlay,
    Finished,
}

/// Whether a session that was seen working is reported idle.
pub open spec fn some_session_stopped(
    items: Seq<SessionPickerItem>,
    labels: Seq<(String, String, bool, bool)>,
) -> bool {
    exists|i: int|
        0 <= i < labels.len() && !(#[trigger] labels[i]).3 && was_working(items, labels[i].0@)
}

/// Whether an entry with this prefix was working.
pub open spec fn was_working(items: Seq<SessionPickerItem>, prefix: Seq<char>) -> bool {
    exists|j: int|
        0 <= j < items.len() && (#[trigger] items[j]).prefix@ == prefix && items[j].working
}

/// The list entry that a label describes.
pub open spec fn label_item(label: (String, String, bool, bool)) -> SessionPickerItem {
    SessionPickerItem { prefix: label.0, label: label.1, active: label.2, working: label.3 }
}

pub open spec fn max0(v: int) -> int {
    if v < 0 {
        0
    } else {
        v
    }
}

/// The scroll position nearest to `offset` at which `visible` of `total` entries fit.
pub open spec fn clamped_offset(offset: int, total: int, visible: int) -> int {
    if offset <= max0(total - visible) {
        offset
    } else {
        max0(total - visible)
    }
}

/// The scroll position after a step by `delta`: never below zero, and a step forward
/// never past the last full page.
pub open spec fn scrolled_offset(offset: int, total: int, visible: int, delta: int) -> int {
    if delta > 0 {
        clamped_offset(offset + delta, total, visible)
    } else {
        max0(offset + delta)
    }
}

/// The step that a vertical swipe scrolls a list by: back for an upward one, forward for a
/// downward one, none where it is too short or drifts sideways.
pub open spec fn scroll_delta(start: TouchPoint, end: TouchPoint) -> Option<int> {
    if is_vertical(start, end) {
        Some(
            if end.y < start.y {
                -1int
            } else {
                1int
            },
        )
    } else {
        None
    }
}

/// Whether a movement is vertical: at least forty pixels down or up, at most forty aside.
pub open spec fn is_vertical(start: TouchPoint, end: TouchPoint) -> bool {
    &&& -40 <= end.x - start.x <= 40
    &&& (end.y - start.y >= 40 || start.y - end.y >= 40)
}

/// Whether a movement goes back: at least forty pixels to the right, at most forty up or
/// down.
pub open spec fn goes_back(start: TouchPoint, end: TouchPoint) -> bool {
    &&& end.x - start.x >= 40
    &&& -40 <= end.y - start.y <= 40
}

/// The upper right corner of a session's screen.
pub open spec fn in_menu_corner(p: TouchPoint) -> bool {
    p.y < 80 && p.x >= 273
}

/// The upper left corner of a session's screen.
pub open spec fn in_backspace_corner(p: TouchPoint) -> bool {
    p.y < 80 && p.x < 136
}

/// The bottom edge of a session's screen.
pub open spec fn in_asr_area(p: TouchPoint) -> bool {
    p.y > 422
}

/// The nearest scroll position at which the entries fit.
pub fn clamp_scroll_offset(offset: usize, total_items: usize, visible_count: usize) -> (r: usize)
    ensures
        r == clamped_offset(offset as int, total_items as int, visible_count as int),
{
    let max_offset: usize = total_items.saturating_sub(visible_count);
    if offset <= max_offset {
        offset
    } else {
        max_offset
    }
}

/// The scroll position after a step by `delta`.
pub fn apply_scroll_delta(
    offset: usize,
    total_items: usize,
    visible_count: usize,
    delta: isize,
) -> (r: usize)
    requires
        delta > isize::MIN,
    ensures
        r == scrolled_offset(
            offset as int,
            total_items as int,
            visible_count as int,
            delta as int,
        ),
{
    if delta > 0 {
        clamp_scroll_offset(offset.saturating_add(delta as usize), total_items, visible_count)
    } else {
        offset.saturating_sub((-delta) as usize)
    }
}

fn moved_vertically(start: TouchPoint, end: TouchPoint) -> (r: bool)
    ensures
        r == is_vertical(start, end),
{
    let dx: i32 = end.x as i32 - start.x as i32;
    let dy: i32 = end.y as i32 - start.y as i32;
    dx <= DEFAULT_SWIPE_THRESHOLD_PX && dx >= -DEFAULT_SWIPE_THRESHOLD_PX && (dy
        >= DEFAULT_SWIPE_THRESHOLD_PX || dy <= -DEFAULT_SWIPE_THRESHOLD_PX)
}

/// The step that a swipe over a list scrolls it by.
pub fn list_scroll_delta(start: TouchPoint, end: TouchPoint) -> (r: Option<isize>)
    ensures
        r matches Some(d) ==> scroll_delta(start, end) == Some(d as int),
        r is None ==> scroll_delta(start, end) is None,
{
    if !moved_vertically(start, end) {
        return None;
    }
    if end.y < start.y {
        Some(-1)
    } else {
        Some(1)
    }
}

/// Whether a swipe leaves the session.
pub fn is_back_swipe(start: TouchPoint, end: TouchPoint) -> (r: bool)
    ensures
        r == goes_back(start, end),
{
    let dx: i32 = end.x as i32 - start.x as i32;
    let dy: i32 = end.y as i32 - start.y as i32;
    dx >= DEFAULT_SWIPE_THRESHOLD_PX && dy <= DEFAULT_SWIPE_THRESHOLD_PX && dy
        >= -DEFAULT_SWIPE_THRESHOLD_PX
}

/// Whether a touch lies in the upper right corner.
pub fn is_screen_menu_point(touch: TouchPoint) -> (r: bool)
    ensures
        r == in_menu_corner(touch),
{
    touch.y < 80 && touch.x >= LCD_WIDTH * 2 / 3
}

/// Whether a touch lies in the upper left corner.
pub fn is_screen_backspace_point(touch: TouchPoint) -> (r: bool)
    ensures
        r == in_backspace_corner(touch),
{
    touch.y < 80 && touch.x < LCD_WIDTH / 3
}

/// Whether a touch lies at the bottom edge.
pub fn is_asr_touch(touch: TouchPoint) -> (r: bool)
    ensures
        r == in_asr_area(touch),
{
    touch.y > LCD_HEIGHT.saturating_sub(80)
}

/// The scroll request of a swipe over a session's screen.
pub open spec fn scroll_command(start: TouchPoint, end: TouchPoint) -> Option<MqttCommand> {
    if is_vertical(start, end) {
        Some(
            if end.y < start.y {
                MqttCommand::SendScrollDown { rows: 15 }
            } else {
                MqttCommand::SendScrollUp { rows: 15 }
            },
        )
    } else {
        None
    }
}

/// The scroll request of a swipe over a session's screen: an upward swipe scrolls down, a
/// downward one up.
pub fn scroll_swipe_message(start: TouchPoint, end: TouchPoint) -> (r: Option<MqttCommand>)
    ensures
        r == scroll_command(start, end),
{
    if !moved_vertically(start, end) {
        return None;
    }
    if end.y < start.y {
        Some(MqttCommand::SendScrollDown { rows: SCROLL_ROWS })
    } else {
        Some(MqttCommand::SendScrollUp { rows: SCROLL_ROWS })
    }
}

/// The kinds of text frame, told apart by their first byte.
#[derive(Debug, Clone, Copy, PartialEq, Eq, Structural)]
pub enum ScreenTextFrameKind {
    Full,
    Append,
}

pub open spec fn frame_kind(frame: Seq<u8>) -> Option<ScreenTextFrameKind> {
    if frame.len() > 0 && frame[0] == 0 {
        Some(ScreenTextFrameKind::Full)
    } else if frame.len() > 0 && frame[0] == 1 {
        Some(ScreenTextFrameKind::Append)
    } else {
        None
    }
}

/// The kind of a text frame, if its first byte names one.
pub fn screen_text_frame_kind(frame: &[u8]) -> (r: Option<ScreenTextFrameKind>)
    ensures
        r == frame_kind(frame@),
{
    if frame.len() == 0 {
        return None;
    }
    if frame[0] == 0x00 {
        Some(ScreenTextFrameKind::Full)
    } else if frame[0] == 0x01 {
        Some(ScreenTextFrameKind::Append)
    } else {
        None
    }
}

/// The JPEG bytes of a picture: all but the four bytes at its end.
pub open spec fn jpeg_bytes(data: Seq<u8>) -> Seq<u8> {
    if data.len() >= 4 {
        data.take(data.len() - 4)
    } else {
        data
    }
}

/// The JPEG bytes to decode of a picture, if it is a JPEG at all. A picture carries four
/// bytes of its own behind the JPEG.
pub fn screen_chunk_jpeg(chunk: &ScreenImageChunk) -> (r: Option<&[u8]>)
    ensures
        match r {
            Some(jpeg) => chunk.format == ImageFormat::Jpeg && jpeg@ == jpeg_bytes(chunk.data@),
            None => chunk.format != ImageFormat::Jpeg,
        },
{
    if chunk.format != ImageFormat::Jpeg {
        return None;
    }
    let data: &[u8] = chunk.data.as_slice();
    if data.len() >= 4 {
        let jpeg = &data[0..data.len() - 4];
        assert(jpeg@ =~= data@.take(data@.len() - 4));
        Some(jpeg)
    } else {
        Some(data)
    }
}


impl AppState {
    /// The scroll position lies inside the session list, and the count of long presses
    /// starts over before it reaches the one that opens the boot menu.
    pub open spec fn wf(self) -> bool {
        &&& self.sessions.scroll_offset == 0 || self.sessions.scroll_offset
            < self.sessions.items@.len()
        &&& self.sessions.boot_long_press_count < SESSION_PICKER_BOOT_LONG_PRESS_COUNT
    }

    /// Nothing listed, nothing shown, nothing pending, on the given screen.
    pub open spec fn is_fresh(self, route: Route) -> bool {
        &&& self.route == route
        &&& self.sessions.title@.len() == 0
        &&& self.sessions.items@.len() == 0
        &&& self.sessions.scroll_offset == 0
        &&& !self.sessions.loading
        &&& self.sessions.boot_long_press_count == 0
        &&& self.active_session == (ActiveSessionState {
            terminal: TerminalViewState {
                has_parser: false,
                has_renderer: false,
                last_render_us: 0,
            },
            jpeg_screen: JpegScreenState { has_screen: false },
            loading: false,
            backspace_overlay: false,
            menu_overlay: false,
            clear_overlay: false,
            backspace_hold_sent: false,
            last_backspace_sent_at: None,
            pending_text_frame: None,
            pending_screen_chunk: None,
        })
        &&& self.boot_menu == (BootMenuState { waiting_release: false, selected_index: None })
        &&& self.settings == (SettingsState { selected_index: None })
        &&& !self.asr.connecting && !self.asr.listening && self.asr.text@.len() == 0
        &&& self.power == (PowerState {
            backlight: BacklightState::Normal,
            charging: None,
            battery_percent: None,
        })
    }
}

impl Default for AppState {
    fn default() -> (r: Self)
        ensures
            r.is_fresh(Route::MainMenu),
            r.wf(),
    {
        AppState {
            route: Route::default(),
            sessions: SessionListState {
                title: String::new(),
                items: Vec::new(),
                scroll_offset: 0,
                loading: false,
                boot_long_press_count: 0,
            },
            active_session: ActiveSessionState {
                terminal: TerminalViewState {
                    has_parser: false,
                    has_renderer: false,
                    last_render_us: 0,
                },
                jpeg_screen: JpegScreenState { has_screen: false },
                loading: false,
                backspace_overlay: false,
                menu_overlay: false,
                clear_overlay: false,
                backspace_hold_sent: false,
                last_backspace_sent_at: None,
                pending_text_frame: None,
                pending_screen_chunk: None,
            },
            boot_menu: BootMenuState { waiting_release: false, selected_index: None },
            settings: SettingsState { selected_index: None },
            asr: AsrState { connecting: false, listening: false, text: String::new() },
            power: PowerState {
                backlight: BacklightState::default(),
                charging: None,
                battery_percent: None,
            },
        }
    }
}

fn item_was_working(items: &Vec<SessionPickerItem>, prefix: &String) -> (r: bool)
    ensures
        r == was_working(items@, prefix@),
{
    let mut j: usize = 0;
    while j < items.len()
        invariant
            j <= items@.len(),
            forall|k: int|
                0 <= k < j ==> !((#[trigger] items@[k]).prefix@ == prefix@ && items@[k].working),
        decreases items@.len() - j,
    {
        if items[j].prefix == *prefix && items[j].working {
            assert(items@[j as int].prefix@ == prefix@ && items@[j as int].working);
            return true;
        }
        j = j + 1;
    }
    false
}

fn any_session_stopped(
    items: &Vec<SessionPickerItem>,
    labels: &Vec<(String, String, bool, bool)>,
) -> (r: bool)
    ensures
        r == some_session_stopped(items@, labels@),
{
    let mut i: usize = 0;
    while i < labels.len()
        invariant
            i <= labels@.len(),
            forall|k: int|
                0 <= k < i ==> (#[trigger] labels@[k]).3 || !was_working(items@, labels@[k].0@),
        decreases labels@.len() - i,
    {
        if !labels[i].3 && item_was_working(items, &labels[i].0) {
            assert(!labels@[i as int].3 && was_working(items@, labels@[i as int].0@));
            return true;
        }
        i = i + 1;
    }
    false
}

fn items_of(labels: &Vec<(String, String, bool, bool)>) -> (r: Vec<SessionPickerItem>)
    ensures
        r@ == labels@.map_values(|l: (String, String, bool, bool)| label_item(l)),
{
    let mut items: Vec<SessionPickerItem> = Vec::new();
    let mut i: usize = 0;
    while i < labels.len()
        invariant
            i <= labels@.len(),
            items@.len() == i,
            forall|k: int| 0 <= k < i ==> #[trigger] items@[k] == label_item(labels@[k]),
        decreases labels@.len() - i,
    {
        items.push(
            SessionPickerItem {
                prefix: labels[i].0.clone(),
                label: labels[i].1.clone(),
                active: labels[i].2,
                working: labels[i].3,
            },
        );
        i = i + 1;
    }
    assert(items@ =~= labels@.map_values(|l: (String, String, bool, bool)| label_item(l)));
    items
}

/// Whether a state is the one after a new list of sessions was taken over: the title and the
/// entries are the new ones, the scroll position stays inside the list, and all else stays.
pub open spec fn is_synced(
    before: AppState,
    title: String,
    labels: Seq<(String, String, bool, bool)>,
    after: AppState,
) -> bool {
    &&& after.sessions.title == title
    &&& after.sessions.items@ == labels.map_values(
        |l: (String, String, bool, bool)| label_item(l),
    )
    &&& after.sessions.scroll_offset == clamped_offset(
        before.sessions.scroll_offset as int,
        labels.len() as int,
        1,
    )
    &&& after == (AppState {
        sessions: SessionListState {
            title: after.sessions.title,
            items: after.sessions.items,
            scroll_offset: after.sessions.scroll_offset,
            ..before.sessions
        },
        ..before
    })
}

/// Whether the prompt is due for a new list of sessions: the list is shown, and a session that
/// was working is now idle.
pub open spec fn prompt_is_due(
    before: AppState,
    labels: Seq<(String, String, bool, bool)>,
) -> bool {
    before.route == Route::SessionPicker && some_session_stopped(before.sessions.items@, labels)
}

impl AppState {
    /// A fresh state that shows the session list.
    pub fn session_picker() -> (r: Self)
        ensures
            r.is_fresh(Route::SessionPicker),
            r.wf(),
    {
        let mut state = AppState::default();
        state.route = Route::SessionPicker;
        state
    }

    /// Takes over a new list of sessions. The scroll position stays inside it. The prompt
    /// is due when the list is shown and a session that was working is now idle.
    pub fn sync_sessions(
        &mut self,
        title: String,
        labels: Vec<(String, String, bool, bool)>,
    ) -> (r: SessionSyncResult)
        ensures
            is_synced(*old(self), title, labels@, *final(self)),
            r.render == (old(self).route == Route::SessionPicker),
            r.play_prompt == prompt_is_due(*old(self), labels@),
            old(self).wf() ==> final(self).wf(),
    {
        let play_prompt = self.route == Route::SessionPicker && any_session_stopped(
            &self.sessions.items,
            &labels,
        );
        self.sessions.title = title;
        self.sessions.items = items_of(&labels);
        self.sessions.scroll_offset = clamp_scroll_offset(
            self.sessions.scroll_offset,
            self.sessions.items.len(),
            1,
        );
        SessionSyncResult { render: self.route == Route::SessionPicker, play_prompt }
    }

    /// Takes over a new title; tells whether the list is to be drawn for it.
    pub fn set_session_title(&mut self, title: String) -> (r: bool)
        ensures
            final(self).sessions.title@ == title@,
            *final(self) == (AppState {
                sessions: SessionListState {
                    title: final(self).sessions.title,
                    ..old(self).sessions
                },
                ..*old(self)
            }),
            r == (old(self).sessions.title@ != title@ && old(self).route == Route::SessionPicker),
            old(self).wf() ==> final(self).wf(),
    {
        if self.sessions.title == title {
            return false;
        }
        self.sessions.title = title;
        self.route == Route::SessionPicker
    }

    /// Whether the current screen draws itself when the display wakes.
    pub fn wake_screen(&self) -> (r: bool)
        ensures
            r == (self.route == Route::SessionPicker || self.route == Route::ActiveSession),
    {
        matches!(self.route, Route::SessionPicker | Route::ActiveSession)
    }

    /// Whether the current screen draws itself on request.
    pub fn request_render_for_current_route(&self) -> (r: bool)
        ensures
            r == (self.route == Route::SessionPicker || self.route == Route::ActiveSession),
    {
        matches!(self.route, Route::SessionPicker | Route::ActiveSession)
    }

    /// Whether no listed session is working.
    pub fn all_sessions_idle(&self) -> (r: bool)
        ensures
            r == (forall|i: int|
                0 <= i < self.sessions.items@.len() ==> !(
                #[trigger] self.sessions.items@[i]).working),
    {
        let mut i: usize = 0;
        while i < self.sessions.items.len()
            invariant
                i <= self.sessions.items@.len(),
                forall|k: int| 0 <= k < i ==> !(#[trigger] self.sessions.items@[k]).working,
            decreases self.sessions.items@.len() - i,
        {
            if self.sessions.items[i].working {
                assert(self.sessions.items@[i as int].working);
                return false;
            }
            i = i + 1;
        }
        true
    }

    /// The session that a gesture on the list selects: the one whose entry was pressed
    /// and released.
    pub open spec fn selected_session(self, gesture: TouchGesture, rects: Seq<Rectangle>) -> Option<
        int,
    > {
        match gesture {
            TouchGesture::Click { start, end } => match touch_index(start, rects) {
                Some(visible) => if touch_index(end, rects) == Some(visible)
                    && self.sessions.scroll_offset + visible < self.sessions.items@.len() {
                    Some(self.sessions.scroll_offset + visible)
                } else {
                    None
                },
                None => None,
            },
            _ => None,
        }
    }

    /// The scroll position that a gesture on the list leads to.
    pub open spec fn scroll_after(self, gesture: TouchGesture, rects: Seq<Rectangle>) -> int {
        let here = self.sessions.scroll_offset as int;
        match gesture {
            TouchGesture::Swipe { start, end, direction, .. } => if direction == SwipeDirection::Up
                || direction == SwipeDirection::Down {
                match scroll_delta(start, end) {
                    Some(delta) => scrolled_offset(
                        here,
                        self.sessions.items@.len() as int,
                        if rects.len() == 0 {
                            1
                        } else {
                            rects.len() as int
                        },
                        delta,
                    ),
                    None => here,
                }
            } else {
                here
            },
            _ => here,
        }
    }

    /// Whether this gesture completes the row of long presses that opens the boot menu.
    pub open spec fn opens_boot_menu(self, gesture: TouchGesture) -> bool {
        gesture is LongPress && self.sessions.boot_long_press_count + 1
            >= SESSION_PICKER_BOOT_LONG_PRESS_COUNT
    }

    /// The state after a gesture on the session list.
    pub open spec fn after_picker_touch(self, gesture: TouchGesture, rects: Seq<Rectangle>) -> Self {
        let sessions = SessionListState {
            boot_long_press_count: if gesture is LongPress && !self.opens_boot_menu(gesture) {
                (self.sessions.boot_long_press_count + 1) as u8
            } else {
                0
            },
            scroll_offset: self.scroll_after(gesture, rects) as usize,
            ..self.sessions
        };
        if self.selected_session(gesture, rects) is Some {
            AppState {
                route: Route::ActiveSession,
                active_session: ActiveSessionState { loading: true, ..self.active_session },
                sessions,
                ..self
            }
        } else {
            AppState { sessions, ..self }
        }
    }

    /// What a gesture on the session list comes to.
    pub open spec fn picker_touch_answer(
        self,
        gesture: TouchGesture,
        rects: Seq<Rectangle>,
        r: AppEventResult,
    ) -> bool {
        match self.selected_session(gesture, rects) {
            Some(i) => r.render && opens_session(r.effects@, self.sessions.items@[i].prefix@),
            None => if self.opens_boot_menu(gesture) {
                r.is_effect(false, Effect::OpenBootMenu)
            } else if gesture matches TouchGesture::Swipe { direction: SwipeDirection::Right, .. } {
                r.is_render()
            } else if self.scroll_after(gesture, rects) != self.sessions.scroll_offset {
                r.is_render()
            } else {
                r.is_none()
            },
        }
    }

    /// Takes a gesture on the session list: a click on an entry opens its session, a row
    /// of long presses opens the boot menu, a swipe to the right refreshes, a vertical
    /// swipe scrolls.
    pub fn handle_session_picker_touch(
        &mut self,
        gesture: TouchGesture,
        context: &AppEventContext<'_>,
    ) -> (r: AppEventResult)
        ensures
            *final(self) == old(self).after_picker_touch(gesture, context.session_item_rects@),
            old(self).picker_touch_answer(gesture, context.session_item_rects@, r),
            old(self).wf() ==> final(self).wf(),
    {
        match gesture {
            TouchGesture::Press { .. } => {
                self.sessions.boot_long_press_count = 0;
                AppEventResult::none()
            },
            TouchGesture::Click { start, end } => {
                self.sessions.boot_long_press_count = 0;
                let press_index = list_touch_index(start, context.session_item_rects);
                let release_index = list_touch_index(end, context.session_item_rects);
                let visible_index: usize = match press_index {
                    Some(i) => i,
                    None => return AppEventResult::none(),
                };
                match release_index {
                    Some(i) => if i != visible_index {
                        return AppEventResult::none();
                    },
                    None => return AppEventResult::none(),
                }
                let total: usize = self.sessions.items.len();
                let index: usize = match self.sessions.scroll_offset.checked_add(visible_index) {
                    Some(i) => i,
                    None => return AppEventResult::none(),
                };
                if index >= total {
                    return AppEventResult::none();
                }
                let prefix: String = self.sessions.items[index].prefix.clone();
                self.route = Route::ActiveSession;
                self.active_session.loading = true;
                AppEventResult { render: true, effects: open_session_effects(prefix) }
            },
            TouchGesture::LongPress { .. } => {
                self.sessions.boot_long_press_count =
                self.sessions.boot_long_press_count.saturating_add(1);
                if self.sessions.boot_long_press_count >= SESSION_PICKER_BOOT_LONG_PRESS_COUNT {
                    self.sessions.boot_long_press_count = 0;
                    AppEventResult::effect(Effect::OpenBootMenu)
                } else {
                    AppEventResult::none()
                }
            },
            TouchGesture::Swipe { start, end, direction, .. } => {
                self.sessions.boot_long_press_count = 0;
                match direction {
                    SwipeDirection::Right => AppEventResult::render(),
                    SwipeDirection::Up | SwipeDirection::Down => {
                        let delta: isize = match list_scroll_delta(start, end) {
                            Some(delta) => delta,
                            None => return AppEventResult::none(),
                        };
                        let rects: usize = context.session_item_rects.len();
                        let visible_count: usize = if rects == 0 {
                            1
                        } else {
                            rects
                        };
                        let next_offset: usize = apply_scroll_delta(
                            self.sessions.scroll_offset,
                            self.sessions.items.len(),
                            visible_count,
                            delta,
                        );
                        if next_offset == self.sessions.scroll_offset {
                            return AppEventResult::none();
                        }
                        self.sessions.scroll_offset = next_offset;
                        AppEventResult::render()
                    },
                    SwipeDirection::Left => AppEventResult::none(),
                }
            },
        }
    }

    /// Whether an overlay covers part of the active session's screen.
    pub open spec fn has_overlay(self) -> bool {
        self.active_session.backspace_overlay || self.active_session.menu_overlay
    }

    /// Whether a held finger has sent a backspace less than half a second ago.
    pub open spec fn backspace_too_soon(self, now: u64) -> bool {
        match self.active_session.last_backspace_sent_at {
            Some(sent_at) => now - sent_at < BACKSPACE_REPEAT_DELAY,
            None => false,
        }
    }

    /// The state after a gesture on an active session's screen.
    pub open spec fn after_session_touch(self, gesture: TouchGesture, now: u64) -> Self {
        let a = self.active_session;
        let uncovered = ActiveSessionState {
            backspace_overlay: false,
            menu_overlay: false,
            clear_overlay: self.has_overlay(),
            ..a
        };
        match gesture {
            TouchGesture::Press { point } => if in_backspace_corner(point) {
                AppState {
                    active_session: ActiveSessionState {
                        backspace_overlay: true,
                        menu_overlay: false,
                        backspace_hold_sent: false,
                        last_backspace_sent_at: None,
                        ..a
                    },
                    ..self
                }
            } else if in_menu_corner(point) {
                AppState {
                    active_session: ActiveSessionState {
                        menu_overlay: true,
                        backspace_overlay: false,
                        ..a
                    },
                    ..self
                }
            } else {
                self
            },
            TouchGesture::Click { start, end } => if in_backspace_corner(start)
                && in_backspace_corner(end) {
                AppState {
                    active_session: ActiveSessionState {
                        backspace_hold_sent: false,
                        last_backspace_sent_at: None,
                        ..uncovered
                    },
                    ..self
                }
            } else {
                AppState { active_session: uncovered, ..self }
            },
            TouchGesture::LongPress { start, end, .. } => if in_backspace_corner(start)
                && in_backspace_corner(end) && !self.backspace_too_soon(now) {
                AppState {
                    active_session: ActiveSessionState {
                        backspace_overlay: true,
                        backspace_hold_sent: true,
                        last_backspace_sent_at: Some(now),
                        ..a
                    },
                    ..self
                }
            } else {
                self
            },
            TouchGesture::Swipe { start, end, .. } => AppState {
                route: if goes_back(start, end) {
                    Route::SessionPicker
                } else {
                    self.route
                },
                active_session: ActiveSessionState {
                    loading: if goes_back(start, end) {
                        false
                    } else {
                        a.loading
                    },
                    backspace_hold_sent: false,
                    last_backspace_sent_at: None,
                    ..uncovered
                },
                ..self
            },
        }
    }

    /// What a gesture on an active session's screen comes to.
    pub open spec fn session_touch_answer(
        self,
        gesture: TouchGesture,
        now: u64,
        r: AppEventResult,
    ) -> bool {
        match gesture {
            TouchGesture::Press { point } => if in_backspace_corner(point) || in_menu_corner(
                point,
            ) {
                r.is_render()
            } else {
                r.is_none()
            },
            TouchGesture::Click { start, end } => if in_backspace_corner(start)
                && in_backspace_corner(end) {
                if self.active_session.backspace_hold_sent {
                    r.is_render()
                } else {
                    r.is_backspace(true)
                }
            } else if in_menu_corner(start) && in_menu_corner(end) {
                r.is_effect(true, Effect::OpenScreenMenu)
            } else if in_asr_area(start) && in_asr_area(end) {
                r.is_effect(false, Effect::OpenAsrEditor)
            } else if self.has_overlay() {
                r.is_render()
            } else {
                r.is_none()
            },
            TouchGesture::LongPress { start, end, .. } => if in_backspace_corner(start)
                && in_backspace_corner(end) && !self.backspace_too_soon(now) {
                r.is_backspace(false)
            } else {
                r.is_none()
            },
            TouchGesture::Swipe { start, end, .. } => if goes_back(start, end) {
                &&& r.render
                &&& r.effects@ == seq![
                    Effect::MqttPublish(MqttCommand::SendSync { close: true }),
                    Effect::ClearActiveSession,
                ]
            } else {
                match scroll_command(start, end) {
                    Some(msg) => r.is_effect(self.has_overlay(), Effect::MqttPublish(msg)),
                    None => if self.has_overlay() {
                        r.is_render()
                    } else {
                        r.is_none()
                    },
                }
            },
        }
    }

    /// Takes a gesture on an active session's screen: the upper left corner is a backspace
    /// key that repeats while held, the upper right one opens a menu, the bottom edge the
    /// speech editor; a swipe to the right leaves, a vertical one scrolls.
    pub fn handle_active_session_touch(&mut self, gesture: TouchGesture, now: u64) -> (r:
        AppEventResult)
        ensures
            *final(self) == old(self).after_session_touch(gesture, now),
            old(self).session_touch_answer(gesture, now, r),
            old(self).wf() ==> final(self).wf(),
    {
        match gesture {
            TouchGesture::Press { point } => {
                if is_screen_backspace_point(point) {
                    self.active_session.backspace_overlay = true;
                    self.active_session.menu_overlay = false;
                    self.active_session.backspace_hold_sent = false;
                    self.active_session.last_backspace_sent_at = None;
                    AppEventResult::render()
                } else if is_screen_menu_point(point) {
                    self.active_session.menu_overlay = true;
                    self.active_session.backspace_overlay = false;
                    AppEventResult::render()
                } else {
                    AppEventResult::none()
                }
            },
            TouchGesture::Click { start, end } => {
                let had_overlay = self.active_session.backspace_overlay
                    || self.active_session.menu_overlay;
                self.active_session.backspace_overlay = false;
                self.active_session.menu_overlay = false;
                self.active_session.clear_overlay = had_overlay;
                if is_screen_backspace_point(start) && is_screen_backspace_point(end) {
                    let send_click = !self.active_session.backspace_hold_sent;
                    self.active_session.backspace_hold_sent = false;
                    self.active_session.last_backspace_sent_at = None;
                    if send_click {
                        AppEventResult::render_with_effect(backspace_effect())
                    } else {
                        AppEventResult::render()
                    }
                } else if is_screen_menu_point(start) && is_screen_menu_point(end) {
                    AppEventResult::render_with_effect(Effect::OpenScreenMenu)
                } else if is_asr_touch(start) && is_asr_touch(end) {
                    AppEventResult::effect(Effect::OpenAsrEditor)
                } else if had_overlay {
                    AppEventResult::render()
                } else {
                    AppEventResult::none()
                }
            },
            TouchGesture::LongPress { start, end, .. } => {
                if is_screen_backspace_point(start) && is_screen_backspace_point(end) {
                    let too_soon = match self.active_session.last_backspace_sent_at {
                        Some(sent_at) => now.saturating_sub(sent_at) < BACKSPACE_REPEAT_DELAY,
                        None => false,
                    };
                    if too_soon {
                        return AppEventResult::none();
                    }
                    self.active_session.backspace_overlay = true;
                    self.active_session.backspace_hold_sent = true;
                    self.active_session.last_backspace_sent_at = Some(now);
                    AppEventResult::effect(backspace_effect())
                } else {
                    AppEventResult::none()
                }
            },
            TouchGesture::Swipe { start, end, .. } => {
                let had_overlay = self.active_session.backspace_overlay
                    || self.active_session.menu_overlay;
                self.active_session.backspace_overlay = false;
                self.active_session.menu_overlay = false;
                self.active_session.clear_overlay = had_overlay;
                self.active_session.backspace_hold_sent = false;
                self.active_session.last_backspace_sent_at = None;
                if is_back_swipe(start, end) {
                    self.route = Route::SessionPicker;
                    self.active_session.loading = false;
                    let mut effects: Vec<Effect> = Vec::new();
                    effects.push(Effect::MqttPublish(MqttCommand::SendSync { close: true }));
                    effects.push(Effect::ClearActiveSession);
                    assert(effects@ =~= seq![
                        Effect::MqttPublish(MqttCommand::SendSync { close: true }),
                        Effect::ClearActiveSession,
                    ]);
                    AppEventResult { render: true, effects }
                } else {
                    match scroll_swipe_message(start, end) {
                        Some(msg) => if had_overlay {
                            AppEventResult::render_with_effect(Effect::MqttPublish(msg))
                        } else {
                            AppEventResult::effect(Effect::MqttPublish(msg))
                        },
                        None => if had_overlay {
                            AppEventResult::render()
                        } else {
                            AppEventResult::none()
                        },
                    }
                }
            },
        }
    }

    /// The state after a gesture, on whatever screen is shown.
    pub open spec fn after_touch(
        self,
        gesture: TouchGesture,
        rects: Seq<Rectangle>,
        now: u64,
    ) -> Self {
        match self.route {
            Route::SessionPicker => self.after_picker_touch(gesture, rects),
            Route::ActiveSession => self.after_session_touch(gesture, now),
            _ => self,
        }
    }

    /// What a gesture comes to, on whatever screen is shown.
    pub open spec fn touch_answer(
        self,
        gesture: TouchGesture,
        rects: Seq<Rectangle>,
        now: u64,
        r: AppEventResult,
    ) -> bool {
        match self.route {
            Route::SessionPicker => self.picker_touch_answer(gesture, rects, r),
            Route::ActiveSession => self.session_touch_answer(gesture, now, r),
            _ => r.is_none(),
        }
    }

    fn handle_touch_event(
        &mut self,
        gesture: TouchGesture,
        context: &AppEventContext<'_>,
    ) -> (r: AppEventResult)
        ensures
            *final(self) == old(self).after_touch(
                gesture,
                context.session_item_rects@,
                context.now,
            ),
            old(self).touch_answer(gesture, context.session_item_rects@, context.now, r),
            old(self).wf() ==> final(self).wf(),
    {
        match self.route {
            Route::SessionPicker => self.handle_session_picker_touch(gesture, context),
            Route::ActiveSession => self.handle_active_session_touch(gesture, context.now),
            _ => AppEventResult::none(),
        }
    }

    /// The state after a message.
    pub open spec fn after_mqtt(self, event: MqttEvent) -> Self {
        match event {
            MqttEvent::ActiveScreen(chunk) => AppState {
                route: Route::ActiveSession,
                active_session: ActiveSessionState {
                    loading: false,
                    pending_screen_chunk: Some(chunk),
                    ..self.active_session
                },
                ..self
            },
            MqttEvent::ActiveText(frame) => AppState {
                route: Route::ActiveSession,
                active_session: ActiveSessionState {
                    loading: false,
                    pending_text_frame: Some(frame),
                    ..self.active_session
                },
                ..self
            },
            MqttEvent::Presence { online, was_active, .. } => if !online && was_active {
                AppState {
                    route: Route::SessionPicker,
                    active_session: ActiveSessionState { loading: false, ..self.active_session },
                    ..self
                }
            } else {
                self
            },
        }
    }

    /// What a message comes to.
    pub open spec fn mqtt_answer(event: MqttEvent, r: AppEventResult) -> bool {
        match event {
            MqttEvent::ActiveScreen(_) | MqttEvent::ActiveText(_) => r.is_render(),
            MqttEvent::Presence { online, list_changed, was_active, .. } => if (!online
                && was_active) || list_changed {
                r.is_effect(true, Effect::SetBacklight(BacklightState::Normal))
            } else {
                r.is_none()
            },
        }
    }

    fn handle_mqtt_event(&mut self, event: MqttEvent) -> (r: AppEventResult)
        ensures
            *final(self) == old(self).after_mqtt(event),
            AppState::mqtt_answer(event, r),
            old(self).wf() ==> final(self).wf(),
    {
        match event {
            MqttEvent::ActiveScreen(chunk) => {
                self.route = Route::ActiveSession;
                self.active_session.loading = false;
                self.active_session.pending_screen_chunk = Some(chunk);
                AppEventResult::render()
            },
            MqttEvent::ActiveText(frame) => {
                self.route = Route::ActiveSession;
                self.active_session.loading = false;
                self.active_session.pending_text_frame = Some(frame);
                AppEventResult::render()
            },
            MqttEvent::Presence { online, list_changed, was_active, .. } => {
                if !online && was_active {
                    self.route = Route::SessionPicker;
                    self.active_session.loading = false;
                    return AppEventResult::render_with_effect(
                        Effect::SetBacklight(BacklightState::Normal),
                    );
                }
                if list_changed {
                    return AppEventResult::render_with_effect(
                        Effect::SetBacklight(BacklightState::Normal),
                    );
                }
                AppEventResult::none()
            },
        }
    }

    fn handle_timer_event(&self, event: TimerEvent) -> (r: AppEventResult)
        ensures
            event == TimerEvent::IdleShutdownCheck ==> r.is_effect(
                false,
                Effect::SetBacklight(BacklightState::Off),
            ),
            event != TimerEvent::IdleShutdownCheck ==> r.is_none(),
    {
        match event {
            TimerEvent::IdleShutdownCheck => AppEventResult::effect(
                Effect::SetBacklight(BacklightState::Off),
            ),
            TimerEvent::BackspaceRepeat | TimerEvent::RenderThrottleExpired => {
                AppEventResult::none()
            },
        }
    }

    /// The state after a request of the user interface.
    pub open spec fn after_ui(self, event: UiEvent) -> Self {
        match event {
            UiEvent::SessionClicked(_) => AppState {
                route: Route::ActiveSession,
                active_session: ActiveSessionState { loading: true, ..self.active_session },
                ..self
            },
            _ => self,
        }
    }

    /// What a request of the user interface comes to.
    pub open spec fn ui_answer(event: UiEvent, r: AppEventResult) -> bool {
        match event {
            UiEvent::SessionRefreshRequested => r.is_render(),
            UiEvent::ScreenOffRequested => r.is_effect(
                false,
                Effect::SetBacklight(BacklightState::Off),
            ),
            UiEvent::PowerOffRequested => r.is_effect(false, Effect::PowerOff),
            UiEvent::RebootRequested => r.is_effect(false, Effect::Reboot),
            UiEvent::SessionClicked(prefix) => r.render && opens_session(r.effects@, prefix@),
            UiEvent::BackspacePressed | UiEvent::BackspaceHeld => r.is_backspace(false),
            UiEvent::ScreenMenuRequested => r.is_effect(false, Effect::OpenScreenMenu),
            UiEvent::ThemeSelected(index) => r.is_effect(false, Effect::SelectTheme(index)),
        }
    }

    fn handle_ui_event(&mut self, event: UiEvent) -> (r: AppEventResult)
        ensures
            *final(self) == old(self).after_ui(event),
            AppState::ui_answer(event, r),
            old(self).wf() ==> final(self).wf(),
    {
        match event {
            UiEvent::SessionRefreshRequested => AppEventResult::render(),
            UiEvent::ScreenOffRequested => AppEventResult::effect(
                Effect::SetBacklight(BacklightState::Off),
            ),
            UiEvent::PowerOffRequested => AppEventResult::effect(Effect::PowerOff),
            UiEvent::RebootRequested => AppEventResult::effect(Effect::Reboot),
            UiEvent::SessionClicked(prefix) => {
                self.route = Route::ActiveSession;
                self.active_session.loading = true;
                AppEventResult { render: true, effects: open_session_effects(prefix) }
            },
            UiEvent::BackspacePressed | UiEvent::BackspaceHeld => {
                AppEventResult::effect(backspace_effect())
            },
            UiEvent::ScreenMenuRequested => AppEventResult::effect(Effect::OpenScreenMenu),
            UiEvent::ThemeSelected(index) => AppEventResult::effect(Effect::SelectTheme(index)),
        }
    }

    /// The state after an event.
    pub open spec fn after_event(self, event: AppEvent, rects: Seq<Rectangle>, now: u64) -> Self {
        match event {
            AppEvent::Touch(gesture) => self.after_touch(gesture, rects, now),
            AppEvent::Mqtt(event) => self.after_mqtt(event),
            AppEvent::Timer(_) => self,
            AppEvent::Ui(event) => self.after_ui(event),
        }
    }

    /// What an event comes to.
    pub open spec fn event_answer(
        self,
        event: AppEvent,
        rects: Seq<Rectangle>,
        now: u64,
        r: AppEventResult,
    ) -> bool {
        match event {
            AppEvent::Touch(gesture) => self.touch_answer(gesture, rects, now, r),
            AppEvent::Mqtt(event) => AppState::mqtt_answer(event, r),
            AppEvent::Timer(TimerEvent::IdleShutdownCheck) => r.is_effect(
                false,
                Effect::SetBacklight(BacklightState::Off),
            ),
            AppEvent::Timer(_) => r.is_none(),
            AppEvent::Ui(event) => AppState::ui_answer(event, r),
        }
    }

    /// Takes an event.
    pub fn handle_event(&mut self, event: AppEvent, context: &AppEventContext<'_>) -> (r:
        AppEventResult)
        ensures
            *final(self) == old(self).after_event(event, context.session_item_rects@, context.now),
            old(self).event_answer(event, context.session_item_rects@, context.now, r),
            old(self).wf() ==> final(self).wf(),
    {
        match event {
            AppEvent::Touch(gesture) => self.handle_touch_event(gesture, context),
            AppEvent::Mqtt(event) => self.handle_mqtt_event(event),
            AppEvent::Timer(event) => self.handle_timer_event(event),
            AppEvent::Ui(event) => self.handle_ui_event(event),
        }
    }

    /// What to draw of the session list, where `visible` entries were drawn last. The
    /// scroll position comes back to where as many fit.
    pub fn render_session_picker(&mut self, visible: usize) -> (r: SessionPickerFrame)
        ensures
            old(self).sessions.items@.len() == 0 ==> r is Empty && *final(self) == *old(self),
            old(self).sessions.items@.len() > 0 ==> {
                let offset = clamped_offset(
                    old(self).sessions.scroll_offset as int,
                    old(self).sessions.items@.len() as int,
                    if visible == 0 {
                        1
                    } else {
                        visible as int
                    },
                );
                &&& *final(self) == (AppState {
                    sessions: SessionListState {
                        scroll_offset: offset as usize,
                        ..old(self).sessions
                    },
                    ..*old(self)
                })
                &&& r matches SessionPickerFrame::List { title, items } && title@ == old(
                    self,
                ).sessions.title@ && items@ == listed_from(old(self).sessions.items@, offset)
            },
            old(self).wf() ==> final(self).wf(),
    {
        if self.sessions.items.is_empty() {
            return SessionPickerFrame::Empty;
        }
        let visible_hint: usize = if visible == 0 {
            1
        } else {
            visible
        };
        self.sessions.scroll_offset = clamp_scroll_offset(
            self.sessions.scroll_offset,
            self.sessions.items.len(),
            visible_hint,
        );
        let offset: usize = self.sessions.scroll_offset;
        let mut items: Vec<(String, bool)> = Vec::new();
        let mut i: usize = offset;
        while i < self.sessions.items.len()
            invariant
                offset <= i <= self.sessions.items@.len(),
                items@.len() == i - offset,
                forall|k: int|
                    0 <= k < items@.len() ==> #[trigger] items@[k] == (
                        self.sessions.items@[offset + k].label,
                        self.sessions.items@[offset + k].working,
                    ),
            decreases self.sessions.items@.len() - i,
        {
            items.push((self.sessions.items[i].label.clone(), self.sessions.items[i].working));
            i = i + 1;
        }
        assert(items@ =~= self.sessions.items@.skip(offset as int).map_values(
            |item: SessionPickerItem| (item.label, item.working),
        ));
        SessionPickerFrame::List { title: self.sessions.title.clone(), items }
    }
}


impl AppState {
    /// The first thing that is left to draw of an active session from a stage on, as the
    /// stage at which it stands.
    pub open spec fn pending_stage(self, stage: RenderStage) -> RenderStage {
        let a = self.active_session;
        match stage {
            RenderStage::Chunk => if a.pending_screen_chunk is Some {
                RenderStage::Chunk
            } else if a.pending_text_frame is Some {
                RenderStage::Text
            } else {
                self.pending_cover(true)
            },
            RenderStage::Text => if a.pending_text_frame is Some {
                RenderStage::Text
            } else {
                self.pending_cover(true)
            },
            RenderStage::Loading => self.pending_cover(true),
            RenderStage::Clear => self.pending_cover(false),
            RenderStage::Cleared => self.pending_overlay(true),
            RenderStage::Backspace => self.pending_overlay(true),
            RenderStage::Menu => self.pending_overlay(false),
            RenderStage::Done => RenderStage::Done,
        }
    }

    /// As [`Self::pending_stage`], once the contents are drawn.
    pub open spec fn pending_cover(self, loading: bool) -> RenderStage {
        if loading && self.active_session.loading {
            RenderStage::Loading
        } else if self.active_session.clear_overlay {
            RenderStage::Clear
        } else {
            self.pending_overlay(true)
        }
    }

    /// As [`Self::pending_stage`], once only overlays are left.
    pub open spec fn pending_overlay(self, backspace: bool) -> RenderStage {
        if backspace && self.active_session.backspace_overlay {
            RenderStage::Backspace
        } else if self.active_session.menu_overlay {
            RenderStage::Menu
        } else {
            RenderStage::Done
        }
    }

    /// The state once the drawing has come to `stage`, and what stands there was taken up.
    /// Contents are taken out of the state when they are drawn; that an overlay is to be
    /// cleared is forgotten once the screen under it was redrawn.
    pub open spec fn after_stage(self, from: RenderStage, stage: RenderStage) -> Self {
        let a = self.active_session;
        AppState {
            active_session: ActiveSessionState {
                pending_screen_chunk: if stage == RenderStage::Chunk {
                    None
                } else {
                    a.pending_screen_chunk
                },
                pending_text_frame: if stage == RenderStage::Text {
                    None
                } else {
                    a.pending_text_frame
                },
                clear_overlay: if from == RenderStage::Cleared {
                    false
                } else {
                    a.clear_overlay
                },
                ..a
            },
            ..self
        }
    }

    /// The next thing to draw of an active session from a stage on, and the stage to go on
    /// from once it is drawn.
    pub open spec fn render_step(self, stage: RenderStage) -> (RenderStep, RenderStage) {
        let a = self.active_session;
        match self.pending_stage(stage) {
            RenderStage::Chunk => (
                RenderStep::ShowChunk(a.pending_screen_chunk->0),
                RenderStage::Text,
            ),
            RenderStage::Text => (
                if frame_kind(a.pending_text_frame->0@) == Some(ScreenTextFrameKind::Append) {
                    RenderStep::BufferText(a.pending_text_frame->0)
                } else {
                    RenderStep::ShowText(a.pending_text_frame->0)
                },
                RenderStage::Loading,
            ),
            RenderStage::Loading => (RenderStep::ShowLoading, RenderStage::Clear),
            RenderStage::Clear => (RenderStep::RedrawCached, RenderStage::Cleared),
            RenderStage::Backspace => (RenderStep::ShowBackspaceOverlay, RenderStage::Menu),
            RenderStage::Menu => (RenderStep::ShowMenuOverlay, RenderStage::Done),
            _ => (RenderStep::Finished, RenderStage::Done),
        }
    }

    /// The next thing to draw of an active session, and the stage to go on from once it
    /// is drawn. Drawing starts at [`RenderStage::Chunk`]; where a step fails, it ends.
    pub fn render_active_session(&mut self, stage: RenderStage) -> (r: (RenderStep, RenderStage))
        ensures
            *final(self) == old(self).after_stage(stage, old(self).pending_stage(stage)),
            r == old(self).render_step(stage),
            old(self).wf() ==> final(self).wf(),
    {
        if stage == RenderStage::Cleared {
            self.active_session.clear_overlay = false;
        }
        if stage == RenderStage::Chunk {
            if let Some(chunk) = self.active_session.pending_screen_chunk.take() {
                return (RenderStep::ShowChunk(chunk), RenderStage::Text);
            }
        }
        if stage == RenderStage::Chunk || stage == RenderStage::Text {
            if let Some(frame) = self.active_session.pending_text_frame.take() {
                let step = match screen_text_frame_kind(frame.as_slice()) {
                    Some(ScreenTextFrameKind::Append) => RenderStep::BufferText(frame),
                    _ => RenderStep::ShowText(frame),
                };
                return (step, RenderStage::Loading);
            }
        }
        let contents = stage == RenderStage::Chunk || stage == RenderStage::Text || stage
            == RenderStage::Loading;
        if contents && self.active_session.loading {
            return (RenderStep::ShowLoading, RenderStage::Clear);
        }
        if (contents || stage == RenderStage::Clear) && self.active_session.clear_overlay {
            return (RenderStep::RedrawCached, RenderStage::Cleared);
        }
        if stage != RenderStage::Menu && stage != RenderStage::Done
            && self.active_session.backspace_overlay {
            return (RenderStep::ShowBackspaceOverlay, RenderStage::Menu);
        }
        if stage != RenderStage::Done && self.active_session.menu_overlay {
            return (RenderStep::ShowMenuOverlay, RenderStage::Done);
        }
        (RenderStep::Finished, RenderStage::Done)
    }

    /// Which part of the state the current screen draws.
    pub fn render(&self) -> (r: RenderTarget)
        ensures
            r == render_target(self.route),
    {
        match self.route {
            Route::SessionPicker => RenderTarget::SessionPicker,
            Route::ActiveSession => RenderTarget::ActiveSession,
            _ => RenderTarget::Nothing,
        }
    }
}

/// Which part of the state a screen draws.
pub open spec fn render_target(route: Route) -> RenderTarget {
    match route {
        Route::SessionPicker => RenderTarget::SessionPicker,
        Route::ActiveSession => RenderTarget::ActiveSession,
        _ => RenderTarget::Nothing,
    }
}

/// The labels and working states of the entries from a scroll position on.
pub open spec fn listed_from(items: Seq<SessionPickerItem>, offset: int) -> Seq<(String, bool)> {
    items.skip(offset).map_values(|item: SessionPickerItem| (item.label, item.working))
}

/// What is to be drawn.
#[derive(Debug, Clone, Copy, PartialEq, Eq, Structural)]
pub enum RenderTarget {
    SessionPicker,
    ActiveSession,
    Nothing,
}

/// What is tried to bring back the screen under an overlay.
#[derive(Debug, Clone, Copy, PartialEq, Eq, Structural)]
pub enum CachedRedraw {
    /// Redraw the cached terminal.
    Terminal,
    /// Redraw the cached picture.
    Jpeg,
    /// Something was redrawn, or nothing is cached.
    Done { redrawn: bool },
}

/// The cached screen that a session shows, by its kind.
pub open spec fn cached_screen(uses_text_screen: bool) -> CachedRedraw {
    if uses_text_screen {
        CachedRedraw::Terminal
    } else {
        CachedRedraw::Jpeg
    }
}

/// The cached screen that a session shows, by its kind.
pub fn session_redraw(uses_text_screen: bool) -> (r: CachedRedraw)
    ensures
        r == cached_screen(uses_text_screen),
{
    if uses_text_screen {
        CachedRedraw::Terminal
    } else {
        CachedRedraw::Jpeg
    }
}

/// The next attempt to bring back the screen under an overlay, after the last attempt with
/// what came of it.
pub open spec fn next_redraw(last: Option<(CachedRedraw, bool)>) -> CachedRedraw {
    match last {
        None => CachedRedraw::Terminal,
        Some((CachedRedraw::Terminal, false)) => CachedRedraw::Jpeg,
        Some((_, redrawn)) => CachedRedraw::Done { redrawn },
    }
}

/// The next attempt to bring back the screen under an overlay: the terminal, and the
/// picture where no terminal is cached. `last` is the last attempt with what came of it.
pub fn redraw_active_cached_screen(last: Option<(CachedRedraw, bool)>) -> (r: CachedRedraw)
    ensures
        r == next_redraw(last),
{
    match last {
        None => CachedRedraw::Terminal,
        Some((attempt, redrawn)) => if attempt == CachedRedraw::Terminal && !redrawn {
            CachedRedraw::Jpeg
        } else {
            CachedRedraw::Done { redrawn }
        },
    }
}

// ---------------------------------------------------------------------------------------
// Laws
// ---------------------------------------------------------------------------------------

/// Taking over the same list of sessions once more changes nothing, and no prompt is due for
/// it where the list does not call one session both working and idle.
pub proof fn law_syncing_again_changes_nothing(
    before: AppState,
    title: String,
    labels: Seq<(String, String, bool, bool)>,
    once: AppState,
    twice: AppState,
)
    requires
        is_synced(before, title, labels, once),
        is_synced(once, title, labels, twice),
    ensures
        twice.sessions.title == once.sessions.title,
        twice.sessions.items@ == once.sessions.items@,
        twice.sessions.scroll_offset == once.sessions.scroll_offset,
        twice == (AppState {
            sessions: SessionListState { items: twice.sessions.items, ..once.sessions },
            ..once
        }),
        (forall|i: int, j: int|
            0 <= i < labels.len() && 0 <= j < labels.len() && (#[trigger] labels[i]).0@ == (
            #[trigger] labels[j]).0@ ==> labels[i].3 == labels[j].3) ==> !prompt_is_due(
            once,
            labels,
        ),
{
    let items = once.sessions.items@;
    if (forall|i: int, j: int|
        0 <= i < labels.len() && 0 <= j < labels.len() && (#[trigger] labels[i]).0@ == (
        #[trigger] labels[j]).0@ ==> labels[i].3 == labels[j].3) && some_session_stopped(
        items,
        labels,
    ) {
        let i = choose|i: int|
            0 <= i < labels.len() && !(#[trigger] labels[i]).3 && was_working(items, labels[i].0@);
        let j = choose|j: int|
            0 <= j < items.len() && (#[trigger] items[j]).prefix@ == labels[i].0@
                && items[j].working;
        assert(items[j] == label_item(labels[j]));
        assert(labels[i].3 == labels[j].3);
    }
}

/// The state after `n` long presses in a row on the session list.
pub open spec fn after_long_presses(s: AppState, g: TouchGesture, rects: Seq<Rectangle>, n: nat) -> AppState
    decreases n,
{
    if n == 0 {
        s
    } else {
        after_long_presses(s, g, rects, (n - 1) as nat).after_picker_touch(g, rects)
    }
}

/// On the session list, of the long presses that follow a press every fifth one opens the
/// boot menu, and no other does; nothing else of the state changes.
pub proof fn law_every_fifth_long_press_opens_boot_menu(
    s: AppState,
    g: TouchGesture,
    rects: Seq<Rectangle>,
    n: nat,
)
    requires
        s.wf(),
        s.sessions.boot_long_press_count == 0,
        g is LongPress,
    ensures
        after_long_presses(s, g, rects, n).opens_boot_menu(g) <==> (n + 1) % 5 == 0,
        after_long_presses(s, g, rects, n) == (AppState {
            sessions: SessionListState {
                boot_long_press_count: (n % 5) as u8,
                ..s.sessions
            },
            ..s
        }),
    decreases n,
{
    if n > 0 {
        law_every_fifth_long_press_opens_boot_menu(s, g, rects, (n - 1) as nat);
    }
}

/// Opening a session from the list and leaving it by a swipe back leads to the list as it
/// was, nothing loading and nothing covered.
pub proof fn law_swipe_back_undoes_selection(
    s: AppState,
    click: TouchGesture,
    swipe: TouchGesture,
    rects: Seq<Rectangle>,
    now: u64,
)
    requires
        s.route == Route::SessionPicker,
        s.selected_session(click, rects) is Some,
        swipe matches TouchGesture::Swipe { start, end, .. } && goes_back(start, end),
    ensures
        ({
            let opened = s.after_touch(click, rects, now);
            let back = opened.after_touch(swipe, rects, now);
            &&& opened.route == Route::ActiveSession && opened.active_session.loading
            &&& back.route == Route::SessionPicker && !back.active_session.loading
            &&& !back.has_overlay()
            &&& back.sessions == (SessionListState { boot_long_press_count: 0, ..s.sessions })
        }),
{
}

/// On the screens that have no touch areas of their own here, a gesture changes nothing and
/// comes to nothing.
pub proof fn law_other_routes_ignore_touches(
    s: AppState,
    g: TouchGesture,
    rects: Seq<Rectangle>,
    now: u64,
    r: AppEventResult,
)
    requires
        s.route != Route::SessionPicker,
        s.route != Route::ActiveSession,
        s.event_answer(AppEvent::Touch(g), rects, now, r),
    ensures
        s.after_event(AppEvent::Touch(g), rects, now) == s,
        r.is_none(),
{
}

/// When the active session goes offline, whatever was shown, the session list is shown,
/// nothing is loading and the backlight is on.
pub proof fn law_offline_session_returns_to_list(
    s: AppState,
    event: MqttEvent,
    rects: Seq<Rectangle>,
    now: u64,
    r: AppEventResult,
)
    requires
        event matches MqttEvent::Presence { online, was_active, .. } && !online && was_active,
        s.event_answer(AppEvent::Mqtt(event), rects, now, r),
    ensures
        s.after_event(AppEvent::Mqtt(event), rects, now).route == Route::SessionPicker,
        !s.after_event(AppEvent::Mqtt(event), rects, now).active_session.loading,
        r.is_effect(true, Effect::SetBacklight(BacklightState::Normal)),
{
}

/// A finger that rests in the backspace corner sends its next key half a second after its
/// last one at the earliest: until then long presses change nothing and send nothing.
pub proof fn law_held_backspace_repeats_slowly(
    s: AppState,
    first: TouchGesture,
    second: TouchGesture,
    t1: u64,
    t2: u64,
    r: AppEventResult,
)
    requires
        first is LongPress,
        second is LongPress,
        in_backspace_corner(first->LongPress_start) && in_backspace_corner(first->LongPress_end),
        !s.backspace_too_soon(t1),
        t1 <= t2,
        s.after_session_touch(first, t1).session_touch_answer(second, t2, r),
    ensures
        r.effects@.len() > 0 ==> t2 - t1 >= 500_000_000,
        t2 - t1 < 500_000_000 ==> s.after_session_touch(first, t1).after_session_touch(second, t2)
            == s.after_session_touch(first, t1),
{
}

/// A key held in the backspace corner sends nothing more when it is lifted; one that was
/// only tapped sends exactly one backspace.
pub proof fn law_tap_sends_one_backspace(
    s: AppState,
    press: TouchGesture,
    click: TouchGesture,
    now: u64,
    r: AppEventResult,
)
    requires
        press matches TouchGesture::Press { point } && in_backspace_corner(point),
        click matches TouchGesture::Click { start, end } && in_backspace_corner(start)
            && in_backspace_corner(end),
        s.after_session_touch(press, now).session_touch_answer(click, now, r),
    ensures
        r.is_backspace(true),
        !s.after_session_touch(press, now).after_session_touch(click, now).has_overlay(),
        s.after_session_touch(press, now).after_session_touch(
            click,
            now,
        ).active_session.clear_overlay,
{
}

/// The areas of a session's screen by the display's 410 columns and 502 rows: the corners are
/// the left and the right third of the first eighty rows, the bottom edge the last seventy-nine.
/// No point lies in two of them.
pub proof fn law_touch_areas_share_the_display(p: TouchPoint)
    ensures
        in_backspace_corner(p) <==> p.y < 80 && 3 * (p.x + 1) <= 410,
        in_menu_corner(p) <==> p.y < 80 && 3 * (p.x + 1) > 2 * 410,
        in_asr_area(p) <==> p.y + 80 > 502,
        !(in_backspace_corner(p) && in_menu_corner(p)),
        !(in_asr_area(p) && (in_backspace_corner(p) || in_menu_corner(p))),
{
}

/// A movement is vertical whichever end it starts from, as long as it has forty rows and no
/// more than forty columns; only one that ends to the right of its start goes back. The two
/// are told apart but for a movement of exactly forty columns and rows.
pub proof fn law_movements_are_told_apart(start: TouchPoint, end: TouchPoint)
    ensures
        is_vertical(start, end) == is_vertical(end, start),
        is_vertical(start, end) ==> start.y != end.y,
        goes_back(start, end) ==> start.x + 40 <= end.x && !goes_back(end, start),
        start.x + 40 <= end.x && start.y == end.y ==> goes_back(start, end),
        start.x == end.x && start.y + 40 <= end.y ==> is_vertical(start, end),
        goes_back(start, end) && is_vertical(start, end) ==> end.x - start.x == 40 && (end.y
            - start.y == 40 || start.y - end.y == 40),
{
}

/// A vertical swipe scrolls a session up if and only if the finger ended below its start; the
/// swipe back scrolls by as many rows the other way. A list is stepped forward by the same
/// swipes that scroll a session up.
pub proof fn law_swipe_keeps_its_direction(start: TouchPoint, end: TouchPoint)
    ensures
        scroll_command(start, end) is Some <==> is_vertical(start, end),
        scroll_command(start, end) matches Some(MqttCommand::SendScrollUp { rows }) ==> start.y
            < end.y && rows > 0 && scroll_command(end, start) == Some(
            MqttCommand::SendScrollDown { rows },
        ),
        scroll_command(start, end) matches Some(MqttCommand::SendScrollDown { rows }) ==> end.y
            < start.y && rows > 0 && scroll_command(end, start) == Some(
            MqttCommand::SendScrollUp { rows },
        ),
        scroll_command(start, end) matches Some(c) ==> c is SendScrollUp || c is SendScrollDown,
        scroll_delta(start, end) is Some <==> is_vertical(start, end),
        scroll_delta(start, end) matches Some(d) ==> (d == 1 || d == -1) && (d > 0 <==> start.y
            < end.y) && scroll_delta(end, start) == Some(-d),
        scroll_command(start, end) is Some && scroll_command(start, end)->0 is SendScrollUp
            <==> scroll_delta(start, end) == Some(1int),
{
}

/// The nearest scroll position is one from which a full page is shown, or the first one; it
/// is the last such position that is not behind the given one.
pub proof fn law_scroll_position_shows_a_full_page(offset: int, total: int, visible: int)
    requires
        0 <= offset,
        0 <= total,
        0 <= visible,
    ensures
        ({
            let r = clamped_offset(offset, total, visible);
            &&& 0 <= r <= offset
            &&& r == 0 || r + visible <= total
            &&& forall|p: int|
                0 <= p <= offset && (p == 0 || #[trigger] (p + visible) <= total) ==> p <= r
        }),
{
}

/// A step moves a list by one entry at most: forward by one while a full page is left, back by
/// one while an entry stands above. A step forward and one back lead to where it was.
pub proof fn law_step_moves_one_entry(offset: int, total: int, visible: int)
    requires
        0 <= offset,
        1 <= visible,
        offset == 0 || offset + visible <= total,
    ensures
        scrolled_offset(offset, total, visible, 1) == (if offset + visible < total {
            offset + 1
        } else {
            offset
        }),
        offset > 0 ==> scrolled_offset(offset, total, visible, -1) + 1 == offset,
        scrolled_offset(0, total, visible, -1) == 0,
        offset + visible < total ==> scrolled_offset(
            scrolled_offset(offset, total, visible, 1),
            total,
            visible,
            -1,
        ) == offset,
{
}

/// The JPEG of a picture is what stood before the four bytes that were put behind it.
pub proof fn law_jpeg_is_what_was_framed(jpeg: Seq<u8>, tail: Seq<u8>)
    requires
        tail.len() == 4,
    ensures
        jpeg_bytes(jpeg + tail) == jpeg,
{
    assert((jpeg + tail).take(jpeg.len() as int) =~= jpeg);
}

/// A text frame is a full one or one to append by its first byte alone, and both kinds are
/// told apart as the terminal does: a full frame makes its bytes all that the terminal was
/// given, an appended one adds them, anything else leaves the terminal.
pub proof fn law_frame_kinds_are_those_of_the_terminal(
    given: Seq<u8>,
    tag: u8,
    bytes: Seq<u8>,
)
    ensures
        ({
            let frame = seq![tag] + bytes;
            let kind = frame_kind(frame);
            let after = input_after(Some(given), frame);
            &&& kind == Some(ScreenTextFrameKind::Full) <==> tag == 0
            &&& kind == Some(ScreenTextFrameKind::Append) <==> tag == 1
            &&& kind == Some(ScreenTextFrameKind::Full) ==> after == Some(bytes)
            &&& kind == Some(ScreenTextFrameKind::Append) ==> after == Some(given + bytes)
            &&& kind is None ==> after == Some(given)
        }),
        frame_kind(Seq::empty()) is None,
{
    let frame = seq![tag] + bytes;
    assert(frame.drop_first() =~= bytes);
}

/// Taking over a list of sessions lists each of them in its place, with its own name, label and
/// state; the prompt is due if and only if the list is shown and a session that was listed as
/// working is reported idle.
pub proof fn law_sessions_are_listed_in_order(
    before: AppState,
    title: String,
    labels: Seq<(String, String, bool, bool)>,
    after: AppState,
)
    requires
        is_synced(before, title, labels, after),
    ensures
        after.sessions.items@.len() == labels.len(),
        forall|i: int|
            0 <= i < labels.len() ==> (#[trigger] after.sessions.items@[i]).prefix == labels[i].0
                && after.sessions.items@[i].label == labels[i].1 && after.sessions.items@[i].active
                == labels[i].2 && after.sessions.items@[i].working == labels[i].3,
        after.sessions.title == title,
        after.route == before.route && after.active_session == before.active_session,
        after.sessions.scroll_offset <= before.sessions.scroll_offset,
        after.sessions.scroll_offset == 0 || after.sessions.scroll_offset < labels.len(),
        prompt_is_due(before, labels) <==> before.route == Route::SessionPicker && exists|
            i: int,
            j: int,
        |
            0 <= i < labels.len() && 0 <= j < before.sessions.items@.len() && (
            #[trigger] before.sessions.items@[j]).working && !(#[trigger] labels[i]).3
                && before.sessions.items@[j].prefix@ == labels[i].0@,
{
    let items = before.sessions.items@;
    if before.route == Route::SessionPicker {
        if some_session_stopped(items, labels) {
            let i = choose|i: int|
                0 <= i < labels.len() && !(#[trigger] labels[i]).3 && was_working(
                    items,
                    labels[i].0@,
                );
            let j = choose|j: int|
                0 <= j < items.len() && (#[trigger] items[j]).prefix@ == labels[i].0@
                    && items[j].working;
            assert(items[j].working && !labels[i].3);
        }
        if exists|i: int, j: int|
            0 <= i < labels.len() && 0 <= j < items.len() && (#[trigger] items[j]).working && !(
            #[trigger] labels[i]).3 && items[j].prefix@ == labels[i].0@ {
            let (i, j) = choose|i: int, j: int|
                0 <= i < labels.len() && 0 <= j < items.len() && (#[trigger] items[j]).working
                    && !(#[trigger] labels[i]).3 && items[j].prefix@ == labels[i].0@;
            assert(was_working(items, labels[i].0@));
        }
    }
}

/// Putting a finger down and lifting it on the same drawn entry opens the session that is
/// listed there, counted from the scroll position: it is selected before its screen is asked
/// for, its screen is the one that is shown, and the list is left where it was.
pub proof fn law_tap_opens_the_session_under_it(
    s: AppState,
    start: TouchPoint,
    end: TouchPoint,
    visible: int,
    rects: Seq<Rectangle>,
    now: u64,
    r: AppEventResult,
)
    requires
        s.route == Route::SessionPicker,
        0 <= visible < rects.len(),
        touch_hits(rects[visible], start) && touch_hits(rects[visible], end),
        forall|k: int|
            0 <= k < visible ==> !touch_hits(#[trigger] rects[k], start) && !touch_hits(
                rects[k],
                end,
            ),
        s.sessions.scroll_offset + visible < s.sessions.items@.len(),
        s.event_answer(AppEvent::Touch(TouchGesture::Click { start, end }), rects, now, r),
    ensures
        ({
            let next = s.after_event(
                AppEvent::Touch(TouchGesture::Click { start, end }),
                rects,
                now,
            );
            let session = s.sessions.items@[s.sessions.scroll_offset + visible];
            &&& next.route == Route::ActiveSession && next.active_session.loading
            &&& next.sessions.scroll_offset == s.sessions.scroll_offset
            &&& next.sessions.items == s.sessions.items
            &&& r.render && r.effects@.len() == 2
            &&& (r.effects@[0] matches Effect::SelectSession(p) && p@ == session.prefix@)
            &&& r.effects@[1] == Effect::MqttPublish(MqttCommand::SendSync { close: false })
        }),
{
    law_touch_index_is_first_hit(start, rects);
    law_touch_index_is_first_hit(end, rects);
    lemma_first_hit(start, rects, visible);
    lemma_first_hit(end, rects, visible);
}

proof fn lemma_first_hit(touch: TouchPoint, rects: Seq<Rectangle>, at: int)
    requires
        0 <= at < rects.len(),
        touch_hits(rects[at], touch),
        forall|k: int| 0 <= k < at ==> !touch_hits(#[trigger] rects[k], touch),
    ensures
        touch_index(touch, rects) == Some(at),
{
    law_touch_index_is_first_hit(touch, rects);
    match touch_index(touch, rects) {
        Some(i) => {
            if i < at {
                assert(!touch_hits(rects[i], touch));
            }
        },
        None => {},
    }
}

/// On the session list no gesture but a tap opens a session, no gesture but a long press
/// opens the boot menu, and the list scrolls by vertical swipes alone: toward later entries
/// only where the finger ended below its start, toward earlier ones only where it ended above
/// it or no full page was shown. Whatever moves the list draws it again, and so does a swipe
/// to the right.
pub proof fn law_list_gestures_are_told_apart(
    s: AppState,
    gesture: TouchGesture,
    rects: Seq<Rectangle>,
    now: u64,
    r: AppEventResult,
)
    requires
        s.wf(),
        s.route == Route::SessionPicker,
        s.event_answer(AppEvent::Touch(gesture), rects, now, r),
    ensures
        ({
            let next = s.after_event(AppEvent::Touch(gesture), rects, now);
            let from = s.sessions.scroll_offset as int;
            let to = next.sessions.scroll_offset as int;
            &&& next.route != s.route ==> gesture is Click
            &&& (exists|i: int| 0 <= i < r.effects@.len() && #[trigger] r.effects@[i]
                == Effect::OpenBootMenu) ==> gesture is LongPress
            &&& to != from ==> gesture is Swipe && r.render
            &&& gesture matches TouchGesture::Swipe { start, end, direction, .. } ==> {
                &&& to > from ==> start.y < end.y
                &&& to < from ==> end.y < start.y || from + max1(rects.len() as int)
                    > s.sessions.items@.len()
                &&& r.effects@.len() == 0
                &&& direction == SwipeDirection::Right ==> r.render
                &&& direction == SwipeDirection::Down && is_vertical(start, end) && start.y < end.y
                    && from + max1(rects.len() as int) < s.sessions.items@.len() ==> to == from + 1
                &&& direction == SwipeDirection::Up && is_vertical(start, end) && end.y < start.y
                    && from > 0 ==> to == from - 1
            }
            &&& gesture is LongPress || gesture is Press ==> !r.render
            &&& !(gesture is LongPress) ==> next.sessions.boot_long_press_count == 0
        }),
{
    assert(s.sessions.items.len() == s.sessions.items@.len());
}

/// A number, but one at least.
pub open spec fn max1(n: int) -> int {
    if n < 1 {
        1
    } else {
        n
    }
}

/// On a session's screen each gesture sends one thing at most to the session, and which: a key
/// only from the backspace corner, a scroll request only for a vertical swipe and in its
/// direction; a swipe to the right tells the session to send no more screens, leaves it, and
/// shows the list.
pub proof fn law_session_gestures_send_what_they_mean(
    s: AppState,
    gesture: TouchGesture,
    rects: Seq<Rectangle>,
    now: u64,
    r: AppEventResult,
)
    requires
        s.route == Route::ActiveSession,
        s.event_answer(AppEvent::Touch(gesture), rects, now, r),
    ensures
        ({
            let next = s.after_event(AppEvent::Touch(gesture), rects, now);
            let e = r.effects@;
            &&& gesture matches TouchGesture::Swipe { start, end, .. } ==> if goes_back(
                start,
                end,
            ) {
                &&& next.route == Route::SessionPicker && r.render
                &&& e.len() == 2
                &&& e[0] == Effect::MqttPublish(MqttCommand::SendSync { close: true })
                &&& e[1] == Effect::ClearActiveSession
            } else {
                &&& next.route == Route::ActiveSession
                &&& e.len() == (if is_vertical(start, end) {
                    1int
                } else {
                    0
                })
                &&& is_vertical(start, end) && start.y < end.y ==> (
                    e[0] matches Effect::MqttPublish(c) && c is SendScrollUp)
                &&& is_vertical(start, end) && end.y < start.y ==> (
                    e[0] matches Effect::MqttPublish(c) && c is SendScrollDown)
            }
            &&& !(gesture is Swipe) ==> next.route == Route::ActiveSession && e.len() <= 1
            &&& gesture matches TouchGesture::Click { start, end } ==> {
                &&& in_menu_corner(start) && in_menu_corner(end) <==> e.len() == 1 && e[0]
                    == Effect::OpenScreenMenu
                &&& in_asr_area(start) && in_asr_area(end) <==> e.len() == 1 && e[0]
                    == Effect::OpenAsrEditor
                &&& e.len() == 1 && sends_backspace(e[0]) <==> in_backspace_corner(start)
                    && in_backspace_corner(end) && !s.active_session.backspace_hold_sent
            }
            &&& gesture matches TouchGesture::LongPress { start, end, .. } ==> (e.len() > 0
                ==> sends_backspace(e[0]) && in_backspace_corner(start) && in_backspace_corner(
                end,
            ))
            &&& gesture matches TouchGesture::LongPress { start, end, .. } ==> (
            in_backspace_corner(start) && in_backspace_corner(end)
                && s.active_session.last_backspace_sent_at is None ==> e.len() == 1)
            &&& gesture is Press ==> e.len() == 0
        }),
{
}

/// Over a session's screen a finger in a corner shows the overlay of that corner and of no
/// other; lifting it uncovers the screen, which is then drawn again.
pub proof fn law_overlay_follows_the_finger(
    s: AppState,
    point: TouchPoint,
    lift: TouchGesture,
    rects: Seq<Rectangle>,
    now: u64,
    r: AppEventResult,
    lifted: AppEventResult,
)
    requires
        s.route == Route::ActiveSession,
        in_backspace_corner(point) || in_menu_corner(point),
        lift is Click || lift is Swipe,
        s.event_answer(AppEvent::Touch(TouchGesture::Press { point }), rects, now, r),
        s.after_event(
            AppEvent::Touch(TouchGesture::Press { point }),
            rects,
            now,
        ).event_answer(AppEvent::Touch(lift), rects, now, lifted),
    ensures
        ({
            let covered = s.after_event(
                AppEvent::Touch(TouchGesture::Press { point }),
                rects,
                now,
            );
            let next = covered.after_event(AppEvent::Touch(lift), rects, now);
            &&& r.render && r.effects@.len() == 0
            &&& covered.active_session.backspace_overlay == is_left_half(point)
            &&& covered.active_session.menu_overlay == !is_left_half(point)
            &&& !next.active_session.backspace_overlay && !next.active_session.menu_overlay
            &&& next.active_session.clear_overlay
            &&& !(lift matches TouchGesture::Click { start, end } && in_asr_area(start)
                && in_asr_area(end)) ==> lifted.render
        }),
{
}

/// Whether a point lies on the left half of the display.
pub open spec fn is_left_half(p: TouchPoint) -> bool {
    p.x < 205
}

/// What a session sends of its screen is shown: whatever was on the display, the session's
/// screen is, nothing loads any more, the very content that came waits to be drawn, and
/// drawing is asked for. What else waited still does.
pub proof fn law_screen_content_is_taken_up(
    s: AppState,
    event: MqttEvent,
    rects: Seq<Rectangle>,
    now: u64,
    r: AppEventResult,
)
    requires
        !(event is Presence),
        s.event_answer(AppEvent::Mqtt(event), rects, now, r),
    ensures
        ({
            let next = s.after_event(AppEvent::Mqtt(event), rects, now);
            &&& r.render && r.effects@.len() == 0
            &&& next.route == Route::ActiveSession && !next.active_session.loading
            &&& event matches MqttEvent::ActiveText(frame) ==> {
                &&& next.active_session.pending_text_frame == Some(frame)
                &&& next.active_session.pending_screen_chunk
                    == s.active_session.pending_screen_chunk
            }
            &&& event matches MqttEvent::ActiveScreen(chunk) ==> {
                &&& next.active_session.pending_screen_chunk == Some(chunk)
                &&& next.active_session.pending_text_frame == s.active_session.pending_text_frame
            }
            &&& next.sessions == s.sessions
        }),
{
}

/// A message on a session's presence lights up the display and draws if and only if the list
/// changed or the active session is gone; it changes the screen only in the latter case.
pub proof fn law_presence_lights_up(
    s: AppState,
    prefix: String,
    online: bool,
    list_changed: bool,
    was_active: bool,
    rects: Seq<Rectangle>,
    now: u64,
    r: AppEventResult,
)
    requires
        s.event_answer(
            AppEvent::Mqtt(MqttEvent::Presence { prefix, online, list_changed, was_active }),
            rects,
            now,
            r,
        ),
    ensures
        ({
            let gone = was_active && !online;
            let next = s.after_event(
                AppEvent::Mqtt(MqttEvent::Presence { prefix, online, list_changed, was_active }),
                rects,
                now,
            );
            &&& r.render == (gone || list_changed)
            &&& r.effects@.len() == (if gone || list_changed {
                1int
            } else {
                0
            })
            &&& gone || list_changed ==> r.effects@[0] == Effect::SetBacklight(
                BacklightState::Normal,
            )
            &&& !gone ==> next == s
            &&& gone ==> next.route == Route::SessionPicker && next.sessions == s.sessions
        }),
{
}

/// What the user interface asks for is what is done, and nothing else: each request has its
/// effect, and the power is cut or the device restarted by no other request.
pub proof fn law_requests_are_carried_out(
    s: AppState,
    event: UiEvent,
    rects: Seq<Rectangle>,
    now: u64,
    r: AppEventResult,
)
    requires
        s.event_answer(AppEvent::Ui(event), rects, now, r),
    ensures
        ({
            let e = r.effects@;
            let next = s.after_event(AppEvent::Ui(event), rects, now);
            &&& e.contains(Effect::PowerOff) <==> event is PowerOffRequested
            &&& e.contains(Effect::Reboot) <==> event is RebootRequested
            &&& e.contains(Effect::SetBacklight(BacklightState::Off)) <==> event
                is ScreenOffRequested
            &&& e.contains(Effect::OpenScreenMenu) <==> event is ScreenMenuRequested
            &&& forall|i: usize|
                #[trigger] e.contains(Effect::SelectTheme(i)) <==> event == UiEvent::ThemeSelected(
                    i,
                )
            &&& (e.len() == 1 && sends_backspace(e[0])) <==> event is BackspacePressed || event
                is BackspaceHeld
            &&& event matches UiEvent::SessionClicked(prefix) ==> {
                &&& next.route == Route::ActiveSession && next.active_session.loading && r.render
                &&& e[0] matches Effect::SelectSession(p) && p@ == prefix@
                &&& e.contains(Effect::MqttPublish(MqttCommand::SendSync { close: false }))
            }
            &&& !(event is SessionClicked) ==> next == s && e.len() <= 1
            &&& event is SessionRefreshRequested ==> r.render && e.len() == 0
        }),
{
    let e = r.effects@;
    assert forall|x: Effect| e.len() == 1 && e[0] == x implies #[trigger] e.contains(x) by {
        assert(e[0] == x);
    }
    if event is SessionClicked {
        assert(e[1] == Effect::MqttPublish(MqttCommand::SendSync { close: false }));
    }
}

/// All that is drawn of an active session from a stage on, in order.
pub open spec fn drawing_of(s: AppState, stage: RenderStage) -> Seq<RenderStep>
    decreases stages_left(stage),
{
    let at = s.pending_stage(stage);
    if at == RenderStage::Done || stages_left(s.render_step(stage).1) >= stages_left(stage) {
        Seq::empty()
    } else {
        seq![s.render_step(stage).0] + drawing_of(s.after_stage(stage, at), s.render_step(stage).1)
    }
}

/// How many stages are left from one on.
pub open spec fn stages_left(stage: RenderStage) -> nat {
    match stage {
        RenderStage::Chunk => 7,
        RenderStage::Text => 6,
        RenderStage::Loading => 5,
        RenderStage::Clear => 4,
        RenderStage::Cleared => 3,
        RenderStage::Backspace => 2,
        RenderStage::Menu => 1,
        RenderStage::Done => 0,
    }
}

/// One step, where a condition holds.
pub open spec fn step_if(condition: bool, step: RenderStep) -> Seq<RenderStep> {
    if condition {
        seq![step]
    } else {
        Seq::empty()
    }
}

/// What is drawn over the contents of a session's screen: that the session loads, the screen
/// under a lifted overlay, the backspace overlay and the menu overlay, in this order.
pub open spec fn covers(a: ActiveSessionState) -> Seq<RenderStep> {
    step_if(a.loading, RenderStep::ShowLoading) + step_if(
        a.clear_overlay,
        RenderStep::RedrawCached,
    ) + step_if(a.backspace_overlay, RenderStep::ShowBackspaceOverlay) + step_if(
        a.menu_overlay,
        RenderStep::ShowMenuOverlay,
    )
}

/// How a text frame is drawn: one to append may wait for more.
pub open spec fn text_step(frame: Vec<u8>) -> RenderStep {
    if frame@.len() > 0 && frame@[0] == 1 {
        RenderStep::BufferText(frame)
    } else {
        RenderStep::ShowText(frame)
    }
}

/// Everything that waits is drawn, once and in this order: the picture, the text frame, and
/// what covers them.
pub proof fn law_all_that_waits_is_drawn(s: AppState)
    ensures
        ({
            let a = s.active_session;
            drawing_of(s, RenderStage::Chunk) == step_if(
                a.pending_screen_chunk is Some,
                RenderStep::ShowChunk(a.pending_screen_chunk->0),
            ) + (step_if(a.pending_text_frame is Some, text_step(a.pending_text_frame->0))
                + covers(a))
        }),
{
    let a = s.active_session;
    let s1 = AppState {
        active_session: ActiveSessionState { pending_screen_chunk: None, ..a },
        ..s
    };
    let s2 = AppState {
        active_session: ActiveSessionState {
            pending_screen_chunk: None,
            pending_text_frame: None,
            ..a
        },
        ..s
    };
    lemma_drawing_from_loading(s2);
    lemma_drawing_of_text(s1, s2);
    let rest = covers(a);
    let text = step_if(a.pending_text_frame is Some, text_step(a.pending_text_frame->0)) + rest;
    assert(covers(s2.active_session) == rest);
    assert(drawing_of(s1, RenderStage::Text) == text) by {
        assert(Seq::<RenderStep>::empty() + rest =~= rest);
    }
    lemma_drawing_of_chunk(s, s1);
    assert(Seq::<RenderStep>::empty() + text =~= text);
}

proof fn lemma_drawing_of_chunk(s: AppState, s1: AppState)
    requires
        s1 == (AppState {
            active_session: ActiveSessionState {
                pending_screen_chunk: None,
                ..s.active_session
            },
            ..s
        }),
    ensures
        s.active_session.pending_screen_chunk is None ==> drawing_of(s, RenderStage::Chunk)
            == drawing_of(s1, RenderStage::Text),
        s.active_session.pending_screen_chunk matches Some(chunk) ==> drawing_of(
            s,
            RenderStage::Chunk,
        ) == seq![RenderStep::ShowChunk(chunk)] + drawing_of(s1, RenderStage::Text),
{
    if s.active_session.pending_screen_chunk is None {
        assert(s == s1);
        lemma_no_chunk(s);
    } else {
        assert(s.after_stage(RenderStage::Chunk, RenderStage::Chunk) == s1);
    }
}

proof fn lemma_no_chunk(s: AppState)
    requires
        s.active_session.pending_screen_chunk is None,
    ensures
        drawing_of(s, RenderStage::Chunk) == drawing_of(s, RenderStage::Text),
{
    let at = s.pending_stage(RenderStage::Chunk);
    assert(at == s.pending_stage(RenderStage::Text));
    assert(s.render_step(RenderStage::Chunk) == s.render_step(RenderStage::Text));
    assert(s.after_stage(RenderStage::Chunk, at) == s.after_stage(RenderStage::Text, at));
    assert(at != RenderStage::Done ==> stages_left(s.render_step(RenderStage::Text).1) < 6);
}

proof fn lemma_drawing_of_text(s1: AppState, s2: AppState)
    requires
        s1.active_session.pending_screen_chunk is None,
        s2 == (AppState {
            active_session: ActiveSessionState { pending_text_frame: None, ..s1.active_session },
            ..s1
        }),
    ensures
        s1.active_session.pending_text_frame is None ==> drawing_of(s1, RenderStage::Text)
            == drawing_of(s2, RenderStage::Loading),
        s1.active_session.pending_text_frame matches Some(frame) ==> drawing_of(
            s1,
            RenderStage::Text,
        ) == seq![text_step(frame)] + drawing_of(s2, RenderStage::Loading),
{
    let at = s1.pending_stage(RenderStage::Text);
    if s1.active_session.pending_text_frame is None {
        assert(s1 == s2);
        assert(at == s1.pending_stage(RenderStage::Loading));
        assert(s1.after_stage(RenderStage::Text, at) == s1.after_stage(RenderStage::Loading, at));
        assert(at != RenderStage::Done ==> stages_left(s1.render_step(RenderStage::Loading).1)
            < 5);
    } else {
        assert(s1.after_stage(RenderStage::Text, at) == s2);
    }
}

proof fn lemma_drawing_from_loading(s: AppState)
    requires
        s.active_session.pending_screen_chunk is None,
        s.active_session.pending_text_frame is None,
    ensures
        drawing_of(s, RenderStage::Loading) == covers(s.active_session),
{
    let a = s.active_session;
    let overlays = step_if(a.backspace_overlay, RenderStep::ShowBackspaceOverlay) + step_if(
        a.menu_overlay,
        RenderStep::ShowMenuOverlay,
    );
    let clear = step_if(a.clear_overlay, RenderStep::RedrawCached) + overlays;
    let s1 = AppState {
        active_session: ActiveSessionState { clear_overlay: false, ..a },
        ..s
    };
    lemma_drawing_of_overlays(s1, RenderStage::Cleared);
    lemma_drawing_of_overlays(s, RenderStage::Cleared);
    lemma_drawing_of_overlays(s, RenderStage::Clear);
    lemma_drawing_of_overlays(s, RenderStage::Loading);
    if a.clear_overlay {
        assert(drawing_of(s, RenderStage::Clear) =~= seq![RenderStep::RedrawCached] + drawing_of(
            s,
            RenderStage::Cleared,
        ));
        if !a.loading {
            assert(drawing_of(s, RenderStage::Loading) =~= seq![RenderStep::RedrawCached]
                + drawing_of(s, RenderStage::Cleared));
        }
    }
    assert(drawing_of(s, RenderStage::Clear) =~= clear);
    if a.loading {
        assert(drawing_of(s, RenderStage::Loading) =~= seq![RenderStep::ShowLoading] + drawing_of(
            s,
            RenderStage::Clear,
        ));
    }
    assert(drawing_of(s, RenderStage::Loading) =~= step_if(a.loading, RenderStep::ShowLoading)
        + step_if(a.clear_overlay, RenderStep::RedrawCached) + step_if(
        a.backspace_overlay,
        RenderStep::ShowBackspaceOverlay,
    ) + step_if(a.menu_overlay, RenderStep::ShowMenuOverlay));
}

proof fn lemma_drawing_of_overlays(s: AppState, stage: RenderStage)
    requires
        s.active_session.pending_screen_chunk is None,
        s.active_session.pending_text_frame is None,
        stage == RenderStage::Cleared || stage == RenderStage::Clear || stage
            == RenderStage::Loading,
    ensures
        stage == RenderStage::Cleared || (!s.active_session.clear_overlay && (stage
            == RenderStage::Clear || !s.active_session.loading)) ==> drawing_of(s, stage)
            == step_if(s.active_session.backspace_overlay, RenderStep::ShowBackspaceOverlay)
            + step_if(s.active_session.menu_overlay, RenderStep::ShowMenuOverlay),
{
    if stage == RenderStage::Cleared || (!s.active_session.clear_overlay && (stage
        == RenderStage::Clear || !s.active_session.loading)) {
        reveal_with_fuel(drawing_of, 3);
        let a = s.active_session;
        assert(drawing_of(s, stage) =~= step_if(
            a.backspace_overlay,
            RenderStep::ShowBackspaceOverlay,
        ) + step_if(a.menu_overlay, RenderStep::ShowMenuOverlay));
    }
}

/// What was drawn waits no more, and what was not still does; an overlay is to be cleared until
/// the screen under it was drawn.
pub proof fn law_drawn_content_waits_no_more(s: AppState, stage: RenderStage)
    ensures
        ({
            let step = s.render_step(stage).0;
            let a = s.active_session;
            let next = s.after_stage(stage, s.pending_stage(stage));
            let b = next.active_session;
            &&& b.pending_screen_chunk == (if step is ShowChunk {
                None
            } else {
                a.pending_screen_chunk
            })
            &&& b.pending_text_frame == (if step is ShowText || step is BufferText {
                None
            } else {
                a.pending_text_frame
            })
            &&& b.clear_overlay == (a.clear_overlay && stage != RenderStage::Cleared)
            &&& step is RedrawCached ==> s.render_step(stage).1 == RenderStage::Cleared
            &&& next.route == s.route && next.sessions == s.sessions && b.loading == a.loading
        }),
{
}

/// The screen that is shown is the one that is drawn: the list where the list is shown, the
/// session's screen where that is, and nothing elsewhere.
pub proof fn law_shown_screen_is_drawn(s: AppState, event: MqttEvent)
    ensures
        render_target(Route::SessionPicker) == RenderTarget::SessionPicker,
        !(event is Presence) ==> render_target(s.after_mqtt(event).route)
            == RenderTarget::ActiveSession,
        render_target(s.route) == RenderTarget::Nothing <==> s.route != Route::SessionPicker
            && s.route != Route::ActiveSession,
{
}

/// What was under an overlay is brought back from the terminal where a text screen is cached,
/// from the picture where it is not, and each is tried at most once; a session that shows text
/// is drawn from the terminal, another one from the picture.
pub proof fn law_cached_screen_is_brought_back(terminal: bool, picture: bool)
    ensures
        ({
            let first = next_redraw(None);
            let second = next_redraw(Some((first, terminal)));
            &&& first == CachedRedraw::Terminal
            &&& terminal ==> second == (CachedRedraw::Done { redrawn: true })
            &&& !terminal ==> second == CachedRedraw::Jpeg && next_redraw(Some((second, picture)))
                == (CachedRedraw::Done { redrawn: picture })
        }),
        cached_screen(true) == CachedRedraw::Terminal && cached_screen(false) == CachedRedraw::Jpeg,
{
}

/// The first text frame to append is the one that may wait; a full one, and one of no kind, is
/// shown at once.
pub proof fn law_only_appended_text_may_wait(frame: Vec<u8>)
    ensures
        ({
            let step = text_step(frame);
            &&& step == RenderStep::BufferText(frame) <==> frame_kind(frame@) == Some(
                ScreenTextFrameKind::Append,
            )
            &&& step == RenderStep::ShowText(frame) <==> frame_kind(frame@) != Some(
                ScreenTextFrameKind::Append,
            )
        }),
{
}

/// The list is drawn from the scroll position on, each session with its own label and state,
/// down to the last one.
pub proof fn law_list_is_drawn_from_the_scroll_position(
    items: Seq<SessionPickerItem>,
    offset: int,
    k: int,
)
    requires
        0 <= offset,
        0 <= k,
        offset + k < items.len(),
    ensures
        listed_from(items, offset).len() == items.len() - offset,
        listed_from(items, offset)[k].0 == items[offset + k].label,
        listed_from(items, offset)[k].1 == items[offset + k].working,
{
}

/// Timers change nothing of the state; the one that finds the device idle darkens the display,
/// and no other does anything.
pub proof fn law_idle_timer_darkens_the_display(
    s: AppState,
    event: TimerEvent,
    rects: Seq<Rectangle>,
    now: u64,
    r: AppEventResult,
)
    requires
        s.event_answer(AppEvent::Timer(event), rects, now, r),
    ensures
        s.after_event(AppEvent::Timer(event), rects, now) == s,
        !r.render,
        event == TimerEvent::IdleShutdownCheck <==> r.effects@ == seq![
            Effect::SetBacklight(BacklightState::Off),
        ],
        r.effects@.len() <= 1,
{
    if event != TimerEvent::IdleShutdownCheck {
        assert(r.effects@.len() == 0);
    }
}

} // verus!
