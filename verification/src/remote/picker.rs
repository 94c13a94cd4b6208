//! Choosing a session from the list.
use super::{
    all_idle, session_became_idle, sessions_are_all_idle, some_became_idle, works, BacklightMode,
    OnFailure, RemoteAction, SessionLabel, LATEST_TIME, SESSION_LIST_IDLE_OFF_DELAY,
    SESSION_LIST_LONG_PRESS_MENU_DELAY, SESSION_LIST_OFF_SHUTDOWN_PROMPT_DELAY,
};
use crate::app::{
    apply_scroll_delta, clamp_scroll_offset, clamped_offset, goes_back, is_back_swipe, is_vertical,
    list_scroll_delta, scroll_delta, scrolled_offset,
};
use crate::geometry::Rectangle;
use crate::lcd::{TouchEvent, TouchPoint};
use crate::lists::{one, three, two};
use crate::mqtt::MqttEvent;
use crate::remote::effects::prompt_after_choice;
use crate::remote::menus::BootMenuAction;
use crate::touch::DEFAULT_SWIPE_THRESHOLD_PX;
use crate::ui::list::{list_touch_index, touch_index};
use crate::ui::MENU_TITLE_REFRESH_DELAY;
use vstd::prelude::*;

verus! {

/// How long the list waits for the first session, in nanoseconds.
pub const SESSION_LOADING_DELAY: u64 = 1_500_000_000;

/// What follows while the list waits for its first session.
#[derive(Debug, Clone, Copy, PartialEq, Eq, Structural)]
pub enum LoadingNext {
    /// Wait on.
    Wait,
    /// Show the list.
    Proceed,
    /// The event source closed: leave.
    Leave,
}

/// Until when to wait for a first session, if none is listed.
pub fn loading_deadline(labels: &[SessionLabel], now: u64) -> (r: Option<u64>)
    requires
        now <= LATEST_TIME,
    ensures
        labels@.len() > 0 ==> r is None,
        labels@.len() == 0 ==> r == Some((now + 1_500_000_000) as u64),
{
    if labels.len() == 0 {
        Some(now + SESSION_LOADING_DELAY)
    } else {
        None
    }
}

/// What follows while the list waits for its first session, of which so many are listed now.
pub open spec fn loading_step(closed: Option<bool>, listed: int) -> LoadingNext {
    match closed {
        None => LoadingNext::Proceed,
        Some(true) => LoadingNext::Leave,
        Some(false) => if listed > 0 {
            LoadingNext::Proceed
        } else {
            LoadingNext::Wait
        },
    }
}

/// What follows when, while waiting, the time is up (`closed` is none) or an event came or
/// the event source closed; `labels` is what is listed now.
pub fn loading_next(closed: Option<bool>, labels: &[SessionLabel]) -> (r: LoadingNext)
    ensures
        r == loading_step(closed, labels@.len() as int),
{
    match closed {
        None => LoadingNext::Proceed,
        Some(closed) => if closed {
            LoadingNext::Leave
        } else if labels.len() > 0 {
            LoadingNext::Proceed
        } else {
            LoadingNext::Wait
        },
    }
}

/// The session list while it is open. Times are nanoseconds.
#[derive(Debug)]
pub struct SessionPicker {
    pub labels: Vec<SessionLabel>,
    pub item_rects: Vec<Rectangle>,
    pub scroll_offset: usize,
    pub last_session_title: String,
    pub press_touch: Option<TouchPoint>,
    pub press_started_at: Option<u64>,
    pub last_list_change: u64,
    pub next_title_refresh: u64,
    pub off_since: Option<u64>,
}

/// When the list has something to do of its own accord, if at all.
#[derive(Debug, Clone, Copy, PartialEq, Eq, Structural)]
pub struct PickerWaits {
    pub title_refresh_at: Option<u64>,
    pub idle_off_at: Option<u64>,
    pub shutdown_prompt_at: Option<u64>,
    pub long_press_at: Option<u64>,
}

/// What happens while the list is open.
#[derive(Debug)]
pub enum PickerEvent {
    /// The title is due; this is the new one.
    TitleDue(String),
    /// The list has been unchanged for long.
    IdleDue,
    /// The display has been dark for long.
    ShutdownDue,
    /// The offer to cancel the shutdown was answered.
    IdleAnswered { cancelled: bool },
    /// The boot button was pressed.
    BootPressed,
    /// A finger has stayed for long.
    LongPressDue,
    /// The boot menu was left with this choice.
    BootMenuLeft(BootMenuAction),
    /// A touch, or that there will be none any more; `listed` sessions are known.
    Touch { touch: Option<TouchEvent>, listed: usize },
    /// A message, or that there will be none any more; these sessions are known.
    Mqtt { event: Option<MqttEvent>, labels: Vec<SessionLabel> },
}

/// The list as it is to be drawn.
#[derive(Debug)]
pub enum PickerFrame {
    /// There is no session.
    Empty,
    /// The labels from the scroll position on, with their working state.
    List(Vec<(String, bool)>),
}

/// The number of entries that a page counts.
pub open spec fn page(rects: Seq<Rectangle>) -> int {
    if rects.len() == 0 {
        1
    } else {
        rects.len() as int
    }
}

/// Whether a finger has moved by more than forty pixels on an axis.
pub open spec fn moved_away(start: TouchPoint, touch: TouchPoint) -> bool {
    ||| touch.x - start.x > 40
    ||| start.x - touch.x > 40
    ||| touch.y - start.y > 40
    ||| start.y - touch.y > 40
}

fn has_moved_away(start: TouchPoint, touch: TouchPoint) -> (r: bool)
    ensures
        r == moved_away(start, touch),
{
    let dx: i32 = touch.x as i32 - start.x as i32;
    let dy: i32 = touch.y as i32 - start.y as i32;
    dx > DEFAULT_SWIPE_THRESHOLD_PX || dx < -DEFAULT_SWIPE_THRESHOLD_PX || dy
        > DEFAULT_SWIPE_THRESHOLD_PX || dy < -DEFAULT_SWIPE_THRESHOLD_PX
}

impl SessionPicker {
    /// Every delay can be added to the times that are recorded.
    pub open spec fn wf(self) -> bool {
        &&& self.last_list_change <= LATEST_TIME
        &&& self.off_since matches Some(t) ==> t <= LATEST_TIME
        &&& self.press_started_at matches Some(t) ==> t <= LATEST_TIME
    }

    /// The list as it opens at `now`, before it is drawn.
    pub fn new(now: u64) -> (r: Self)
        requires
            now <= LATEST_TIME,
        ensures
            r.labels@.len() == 0,
            r.item_rects@.len() == 0,
            r.scroll_offset == 0,
            r.last_session_title@.len() == 0,
            r.press_touch is None,
            r.press_started_at is None,
            r.last_list_change == now,
            r.next_title_refresh == now + 60_000_000_000,
            r.off_since is None,
            r.wf(),
    {
        SessionPicker {
            labels: Vec::new(),
            item_rects: Vec::new(),
            scroll_offset: 0,
            last_session_title: String::new(),
            press_touch: None,
            press_started_at: None,
            last_list_change: now,
            next_title_refresh: now + MENU_TITLE_REFRESH_DELAY,
            off_since: None,
        }
    }

    /// When the list has something to do of its own accord. A dark list has neither a title
    /// to refresh nor a display to turn off; a lit one offers no shutdown; and a shutdown is
    /// offered only while no session works.
    pub open spec fn wait_times(self, backlight: BacklightMode) -> PickerWaits {
        PickerWaits {
            title_refresh_at: if backlight != BacklightMode::Off {
                Some(self.next_title_refresh)
            } else {
                None
            },
            idle_off_at: if backlight != BacklightMode::Off {
                Some((self.last_list_change + 30_000_000_000) as u64)
            } else {
                None
            },
            shutdown_prompt_at: if backlight == BacklightMode::Off && self.off_since is Some
                && all_idle(self.labels@) {
                Some((self.off_since->0 + 1_200_000_000_000) as u64)
            } else {
                None
            },
            long_press_at: if backlight != BacklightMode::Off && self.press_started_at is Some {
                Some((self.press_started_at->0 + 1_000_000_000) as u64)
            } else {
                None
            },
        }
    }

    /// When the list has something to do of its own accord.
    pub fn waits(&self, backlight: BacklightMode) -> (r: PickerWaits)
        requires
            self.wf(),
        ensures
            r == self.wait_times(backlight),
    {
        if backlight == BacklightMode::Off {
            let shutdown_prompt_at = match self.off_since {
                Some(t) => if sessions_are_all_idle(self.labels.as_slice()) {
                    Some(t + SESSION_LIST_OFF_SHUTDOWN_PROMPT_DELAY)
                } else {
                    None
                },
                None => None,
            };
            PickerWaits {
                title_refresh_at: None,
                idle_off_at: None,
                shutdown_prompt_at,
                long_press_at: None,
            }
        } else {
            let long_press_at = match self.press_started_at {
                Some(t) => Some(t + SESSION_LIST_LONG_PRESS_MENU_DELAY),
                None => None,
            };
            PickerWaits {
                title_refresh_at: Some(self.next_title_refresh),
                idle_off_at: Some(self.last_list_change + SESSION_LIST_IDLE_OFF_DELAY),
                shutdown_prompt_at: None,
                long_press_at,
            }
        }
    }

    /// Takes over the sessions that are to be drawn, and tells what to draw of them.
    pub fn begin_render(&mut self, labels: Vec<SessionLabel>) -> (r: PickerFrame)
        ensures
            labels@.len() == 0 ==> {
                &&& r is Empty
                &&& final(self).item_rects@.len() == 0
                &&& final(self).last_session_title@.len() == 0
                &&& *final(self) == (SessionPicker {
                    labels,
                    item_rects: final(self).item_rects,
                    last_session_title: final(self).last_session_title,
                    ..*old(self)
                })
            },
            labels@.len() > 0 ==> {
                &&& *final(self) == (SessionPicker { labels, ..*old(self) })
                &&& r matches PickerFrame::List(items) && items@ == shown_items(
                    labels@,
                    old(self).scroll_offset as int,
                )
            },
            old(self).wf() ==> final(self).wf(),
    {
        self.labels = labels;
        if self.labels.len() == 0 {
            self.item_rects = Vec::new();
            self.last_session_title = String::new();
            return PickerFrame::Empty;
        }
        let mut items: Vec<(String, bool)> = Vec::new();
        let offset: usize = self.scroll_offset;
        let mut i: usize = offset;
        while i < self.labels.len()
            invariant
                offset <= i,
                i <= self.labels@.len() || i == offset,
                items@.len() == i - offset,
                forall|k: int|
                    0 <= k < items@.len() ==> #[trigger] items@[k] == (
                        self.labels@[offset + k].1,
                        self.labels@[offset + k].3,
                    ),
            decreases self.labels@.len() - i,
        {
            items.push((self.labels[i].1.clone(), self.labels[i].3));
            i = i + 1;
        }
        assert(items@ =~= shown_items(self.labels@, offset as int));
        PickerFrame::List(items)
    }

    /// Takes note of the title under which a list was drawn, and where its entries are; a
    /// drawing that failed has none.
    pub fn end_render(&mut self, title: String, rects: Option<Vec<Rectangle>>)
        ensures
            final(self).last_session_title == title,
            rects matches Some(v) ==> final(self).item_rects == v,
            rects is None ==> final(self).item_rects@.len() == 0,
            *final(self) == (SessionPicker {
                last_session_title: title,
                item_rects: final(self).item_rects,
                ..*old(self)
            }),
            old(self).wf() ==> final(self).wf(),
    {
        self.last_session_title = title;
        self.item_rects = match rects {
            Some(v) => v,
            None => Vec::new(),
        };
    }

    /// The list when something on it changed at `now`.
    pub open spec fn changed(self, now: u64) -> Self {
        SessionPicker {
            last_list_change: now,
            next_title_refresh: (now + 60_000_000_000) as u64,
            ..self
        }
    }

    /// The list without a finger on it.
    pub open spec fn untouched(self) -> Self {
        SessionPicker { press_touch: None, press_started_at: None, ..self }
    }

    /// The session whose entry was pressed at `start` and released at `end`.
    pub open spec fn picked(self, start: TouchPoint, end: TouchPoint) -> Option<int> {
        match touch_index(start, self.item_rects@) {
            Some(visible) => if touch_index(end, self.item_rects@) == Some(visible)
                && self.scroll_offset + visible < self.labels@.len() {
                Some(self.scroll_offset + visible)
            } else {
                None
            },
            None => None,
        }
    }

    /// The list after a finger was lifted.
    pub open spec fn after_release(self, end: TouchPoint, listed: int, now: u64) -> Self {
        let lifted = self.untouched();
        match self.press_touch {
            None => lifted,
            Some(start) => if goes_back(start, end) {
                SessionPicker {
                    scroll_offset: clamped_offset(
                        self.scroll_offset as int,
                        listed,
                        page(self.item_rects@),
                    ) as usize,
                    ..lifted.changed(now)
                }
            } else {
                match scroll_delta(start, end) {
                    Some(delta) => SessionPicker {
                        scroll_offset: scrolled_offset(
                            self.scroll_offset as int,
                            self.labels@.len() as int,
                            page(self.item_rects@),
                            delta,
                        ) as usize,
                        ..lifted
                    },
                    None => lifted,
                }
            },
        }
    }

    /// What a lifted finger comes to: a swipe to the right and a scroll draw the list
    /// again; a click on an entry lights up, shows that it loads, makes the session the
    /// active one, subscribes, and only then asks for its screen.
    pub open spec fn release_actions(self, end: TouchPoint) -> Seq<RemoteAction> {
        match self.press_touch {
            None => Seq::empty(),
            Some(start) => if goes_back(start, end) {
                seq![RemoteAction::RenderPicker]
            } else {
                match scroll_delta(start, end) {
                    Some(delta) => if scrolled_offset(
                        self.scroll_offset as int,
                        self.labels@.len() as int,
                        page(self.item_rects@),
                        delta,
                    ) != self.scroll_offset {
                        seq![RemoteAction::RenderPicker]
                    } else {
                        Seq::empty()
                    },
                    None => match self.picked(start, end) {
                        Some(i) => open_actions(self.labels@[i].0),
                        None => Seq::empty(),
                    },
                }
            },
        }
    }

    /// The list after an event.
    pub open spec fn after_event(
        self,
        event: PickerEvent,
        backlight: BacklightMode,
        now: u64,
    ) -> Self {
        match event {
            PickerEvent::TitleDue(title) => SessionPicker {
                next_title_refresh: (now + 60_000_000_000) as u64,
                last_session_title: if title@ != self.last_session_title@ {
                    title
                } else {
                    self.last_session_title
                },
                ..self
            },
            PickerEvent::IdleDue => SessionPicker { off_since: Some(now), ..self },
            PickerEvent::ShutdownDue => SessionPicker { off_since: None, ..self.changed(now) },
            PickerEvent::IdleAnswered { cancelled } => if cancelled {
                SessionPicker { press_touch: None, ..self }
            } else {
                self
            },
            PickerEvent::BootPressed => SessionPicker { off_since: Some(now), ..self.untouched() },
            PickerEvent::LongPressDue => self.untouched(),
            PickerEvent::BootMenuLeft(action) => if action == BootMenuAction::ScreenOff {
                SessionPicker { off_since: Some(now), ..self }
            } else {
                self
            },
            PickerEvent::Touch { touch, listed } => match touch {
                None => self,
                Some(touch) => if backlight == BacklightMode::Off {
                    SessionPicker { off_since: None, ..self.changed(now).untouched() }
                } else {
                    match touch {
                        TouchEvent::Press(point) => match self.press_touch {
                            None => SessionPicker {
                                press_touch: Some(point),
                                press_started_at: Some(now),
                                ..self
                            },
                            Some(start) => if moved_away(start, point) {
                                SessionPicker { press_started_at: None, ..self }
                            } else {
                                self
                            },
                        },
                        TouchEvent::Release(point) => self.after_release(
                            point,
                            listed as int,
                            now,
                        ),
                    }
                },
            },
            PickerEvent::Mqtt { event, labels } => match event {
                Some(MqttEvent::Presence { list_changed: true, .. }) => SessionPicker {
                    off_since: None,
                    scroll_offset: clamped_offset(
                        self.scroll_offset as int,
                        labels@.len() as int,
                        page(self.item_rects@),
                    ) as usize,
                    ..self.changed(now)
                },
                _ => self,
            },
        }
    }

    /// What an event comes to.
    pub open spec fn actions(
        self,
        event: PickerEvent,
        backlight: BacklightMode,
        prompt_enabled: bool,
    ) -> Seq<RemoteAction> {
        match event {
            PickerEvent::TitleDue(title) => if title@ != self.last_session_title@ {
                seq![RemoteAction::RefreshTitle(title)]
            } else {
                Seq::empty()
            },
            PickerEvent::IdleDue | PickerEvent::BootPressed => seq![
                RemoteAction::SetBacklight(BacklightMode::Off),
            ],
            PickerEvent::ShutdownDue => seq![
                RemoteAction::SetBacklight(BacklightMode::Normal),
                RemoteAction::ShowIdlePrompt,
            ],
            PickerEvent::IdleAnswered { cancelled } => if cancelled {
                seq![RemoteAction::RenderPicker]
            } else {
                seq![RemoteAction::PowerOff]
            },
            PickerEvent::LongPressDue => seq![RemoteAction::ShowBootMenu],
            PickerEvent::BootMenuLeft(action) => match action {
                BootMenuAction::Restart => seq![RemoteAction::Reboot],
                BootMenuAction::PowerOff => seq![RemoteAction::PowerOff],
                BootMenuAction::ScreenOff => seq![
                    RemoteAction::SetBacklight(BacklightMode::Off),
                    RemoteAction::RenderPicker,
                ],
                BootMenuAction::ToggleSound => seq![
                    RemoteAction::SavePromptEnabled(!prompt_enabled),
                    RemoteAction::RenderPicker,
                ],
                BootMenuAction::Theme => seq![
                    RemoteAction::SelectTheme,
                    RemoteAction::RenderPicker,
                ],
                BootMenuAction::Back => seq![RemoteAction::RenderPicker],
            },
            PickerEvent::Touch { touch, .. } => match touch {
                None => seq![RemoteAction::Leave],
                Some(touch) => if backlight == BacklightMode::Off {
                    seq![
                        RemoteAction::SetBacklight(BacklightMode::Normal),
                        RemoteAction::RenderPicker,
                    ]
                } else {
                    match touch {
                        TouchEvent::Press(_) => Seq::empty(),
                        TouchEvent::Release(point) => self.release_actions(point),
                    }
                },
            },
            PickerEvent::Mqtt { event, labels } => match event {
                Some(MqttEvent::Presence { list_changed: true, .. }) => if some_became_idle(
                    self.labels@,
                    labels@,
                ) && prompt_enabled {
                    seq![
                        RemoteAction::SetBacklight(BacklightMode::Normal),
                        RemoteAction::PlayPrompt,
                        RemoteAction::RenderPickerWith(labels),
                    ]
                } else {
                    seq![
                        RemoteAction::SetBacklight(BacklightMode::Normal),
                        RemoteAction::RenderPickerWith(labels),
                    ]
                },
                Some(_) => Seq::empty(),
                None => seq![RemoteAction::Leave],
            },
        }
    }

    fn on_release(&mut self, end: TouchPoint, listed: usize, now: u64) -> (r: Vec<RemoteAction>)
        requires
            old(self).wf(),
            now <= LATEST_TIME,
        ensures
            *final(self) == old(self).after_release(end, listed as int, now),
            r@ == old(self).release_actions(end),
            final(self).wf(),
    {
        self.press_started_at = None;
        let start: TouchPoint = match self.press_touch {
            Some(start) => start,
            None => return Vec::new(),
        };
        self.press_touch = None;
        let rects: usize = self.item_rects.len();
        let visible_count: usize = if rects == 0 {
            1
        } else {
            rects
        };
        if is_back_swipe(start, end) {
            self.last_list_change = now;
            self.next_title_refresh = now + MENU_TITLE_REFRESH_DELAY;
            self.scroll_offset = clamp_scroll_offset(self.scroll_offset, listed, visible_count);
            return one(RemoteAction::RenderPicker);
        }
        let total: usize = self.labels.len();
        if let Some(delta) = list_scroll_delta(start, end) {
            let next_offset: usize = apply_scroll_delta(
                self.scroll_offset,
                total,
                visible_count,
                delta,
            );
            if next_offset != self.scroll_offset {
                self.scroll_offset = next_offset;
                return one(RemoteAction::RenderPicker);
            }
            return Vec::new();
        }
        let press_index = list_touch_index(start, self.item_rects.as_slice());
        let release_index = list_touch_index(end, self.item_rects.as_slice());
        let visible_index: usize = match press_index {
            Some(i) => i,
            None => return Vec::new(),
        };
        match release_index {
            Some(i) => if i != visible_index {
                return Vec::new();
            },
            None => return Vec::new(),
        }
        let index: usize = match self.scroll_offset.checked_add(visible_index) {
            Some(i) => i,
            None => return Vec::new(),
        };
        if index >= total {
            return Vec::new();
        }
        open_session_actions(self.labels[index].0.clone())
    }

    /// Takes an event while the list is open. `prompt_enabled` is whether the prompt may
    /// sound; the boot menu can change it.
    pub fn on_event(
        &mut self,
        event: PickerEvent,
        backlight: BacklightMode,
        prompt_enabled: &mut bool,
        now: u64,
    ) -> (r: Vec<RemoteAction>)
        requires
            old(self).wf(),
            now <= LATEST_TIME,
        ensures
            *final(self) == old(self).after_event(event, backlight, now),
            r@ == old(self).actions(event, backlight, *old(prompt_enabled)),
            *final(prompt_enabled) == prompt_after_event(event, *old(prompt_enabled)),
            final(self).wf(),
    {
        match event {
            PickerEvent::TitleDue(title) => {
                self.next_title_refresh = now + MENU_TITLE_REFRESH_DELAY;
                if title != self.last_session_title {
                    self.last_session_title = title.clone();
                    one(RemoteAction::RefreshTitle(title))
                } else {
                    Vec::new()
                }
            },
            PickerEvent::IdleDue => {
                self.off_since = Some(now);
                one(RemoteAction::SetBacklight(BacklightMode::Off))
            },
            PickerEvent::ShutdownDue => {
                self.off_since = None;
                self.last_list_change = now;
                self.next_title_refresh = now + MENU_TITLE_REFRESH_DELAY;
                two(
                    RemoteAction::SetBacklight(BacklightMode::Normal),
                    RemoteAction::ShowIdlePrompt,
                )
            },
            PickerEvent::IdleAnswered { cancelled } => {
                if cancelled {
                    self.press_touch = None;
                    one(RemoteAction::RenderPicker)
                } else {
                    one(RemoteAction::PowerOff)
                }
            },
            PickerEvent::BootPressed => {
                self.off_since = Some(now);
                self.press_touch = None;
                self.press_started_at = None;
                one(RemoteAction::SetBacklight(BacklightMode::Off))
            },
            PickerEvent::LongPressDue => {
                self.press_touch = None;
                self.press_started_at = None;
                one(RemoteAction::ShowBootMenu)
            },
            PickerEvent::BootMenuLeft(action) => match action {
                BootMenuAction::Restart => one(RemoteAction::Reboot),
                BootMenuAction::PowerOff => one(RemoteAction::PowerOff),
                BootMenuAction::ScreenOff => {
                    self.off_since = Some(now);
                    two(
                        RemoteAction::SetBacklight(BacklightMode::Off),
                        RemoteAction::RenderPicker,
                    )
                },
                BootMenuAction::ToggleSound => {
                    *prompt_enabled = !*prompt_enabled;
                    two(
                        RemoteAction::SavePromptEnabled(*prompt_enabled),
                        RemoteAction::RenderPicker,
                    )
                },
                BootMenuAction::Theme => two(RemoteAction::SelectTheme, RemoteAction::RenderPicker),
                BootMenuAction::Back => one(RemoteAction::RenderPicker),
            },
            PickerEvent::Touch { touch, listed } => {
                let touch = match touch {
                    Some(touch) => touch,
                    None => return one(RemoteAction::Leave),
                };
                if backlight == BacklightMode::Off {
                    self.off_since = None;
                    self.last_list_change = now;
                    self.next_title_refresh = now + MENU_TITLE_REFRESH_DELAY;
                    self.press_touch = None;
                    self.press_started_at = None;
                    return two(
                        RemoteAction::SetBacklight(BacklightMode::Normal),
                        RemoteAction::RenderPicker,
                    );
                }
                match touch {
                    TouchEvent::Press(point) => {
                        match self.press_touch {
                            None => {
                                self.press_touch = Some(point);
                                self.press_started_at = Some(now);
                            },
                            Some(start) => {
                                if has_moved_away(start, point) {
                                    self.press_started_at = None;
                                }
                            },
                        }
                        Vec::new()
                    },
                    TouchEvent::Release(point) => self.on_release(point, listed, now),
                }
            },
            PickerEvent::Mqtt { event, labels } => {
                let event = match event {
                    Some(event) => event,
                    None => return one(RemoteAction::Leave),
                };
                match event {
                    MqttEvent::Presence { list_changed, .. } => {
                        if !list_changed {
                            return Vec::new();
                        }
                        self.last_list_change = now;
                        self.next_title_refresh = now + MENU_TITLE_REFRESH_DELAY;
                        self.off_since = None;
                        let play_prompt = session_became_idle(
                            self.labels.as_slice(),
                            labels.as_slice(),
                        );
                        let rects: usize = self.item_rects.len();
                        let visible_count: usize = if rects == 0 {
                            1
                        } else {
                            rects
                        };
                        self.scroll_offset = clamp_scroll_offset(
                            self.scroll_offset,
                            labels.len(),
                            visible_count,
                        );
                        if play_prompt && *prompt_enabled {
                            three(
                                RemoteAction::SetBacklight(BacklightMode::Normal),
                                RemoteAction::PlayPrompt,
                                RemoteAction::RenderPickerWith(labels),
                            )
                        } else {
                            two(
                                RemoteAction::SetBacklight(BacklightMode::Normal),
                                RemoteAction::RenderPickerWith(labels),
                            )
                        }
                    },
                    _ => Vec::new(),
                }
            },
        }
    }
}

/// Whether the prompt may sound after an event.
pub open spec fn prompt_after_event(event: PickerEvent, prompt_enabled: bool) -> bool {
    if event == PickerEvent::BootMenuLeft(BootMenuAction::ToggleSound) {
        !prompt_enabled
    } else {
        prompt_enabled
    }
}

/// The labels that a list shows from a scroll position on, with their working state.
pub open spec fn shown_items(labels: Seq<SessionLabel>, offset: int) -> Seq<(String, bool)> {
    if offset >= labels.len() {
        Seq::empty()
    } else {
        labels.skip(offset).map_values(|l: SessionLabel| (l.1, l.3))
    }
}

/// What opening a session comes to, in order.
pub open spec fn open_actions(prefix: String) -> Seq<RemoteAction> {
    seq![
        RemoteAction::SetBacklight(BacklightMode::Normal),
        RemoteAction::ShowLoading,
        RemoteAction::SetActive(prefix),
        RemoteAction::FlushPending,
        RemoteAction::ActiveSync { close: false, on_failure: OnFailure::Abort },
        RemoteAction::Leave,
    ]
}

fn open_session_actions(prefix: String) -> (r: Vec<RemoteAction>)
    ensures
        r@ == open_actions(prefix),
{
    let mut actions: Vec<RemoteAction> = Vec::new();
    actions.push(RemoteAction::SetBacklight(BacklightMode::Normal));
    actions.push(RemoteAction::ShowLoading);
    actions.push(RemoteAction::SetActive(prefix));
    actions.push(RemoteAction::FlushPending);
    actions.push(RemoteAction::ActiveSync { close: false, on_failure: OnFailure::Abort });
    actions.push(RemoteAction::Leave);
    assert(actions@ =~= open_actions(prefix));
    actions
}


// ---------------------------------------------------------------------------------------
// Laws
// ---------------------------------------------------------------------------------------

/// Whether these actions make a session the active one.
pub open spec fn opens_a_session(actions: Seq<RemoteAction>) -> bool {
    exists|i: int| 0 <= i < actions.len() && #[trigger] actions[i] is SetActive
}

/// A touch on a dark list only wakes it: it lights up and is drawn again, no session opens,
/// and the finger is forgotten.
pub proof fn law_touch_while_dark_only_wakes(
    s: SessionPicker,
    touch: TouchEvent,
    listed: usize,
    prompt_enabled: bool,
    now: u64,
)
    ensures
        ({
            let event = PickerEvent::Touch { touch: Some(touch), listed };
            let next = s.after_event(event, BacklightMode::Off, now);
            let actions = s.actions(event, BacklightMode::Off, prompt_enabled);
            &&& actions == seq![
                RemoteAction::SetBacklight(BacklightMode::Normal),
                RemoteAction::RenderPicker,
            ]
            &&& !opens_a_session(actions)
            &&& next.press_touch is None
            &&& next.labels == s.labels && next.scroll_offset == s.scroll_offset
        }),
{
}

/// A session is opened only by lifting a finger on its entry, and it is subscribed to
/// before its screen is asked for.
pub proof fn law_session_is_subscribed_before_sync(
    s: SessionPicker,
    event: PickerEvent,
    backlight: BacklightMode,
    prompt_enabled: bool,
)
    requires
        opens_a_session(s.actions(event, backlight, prompt_enabled)),
    ensures
        event matches PickerEvent::Touch { touch: Some(TouchEvent::Release(end)), .. }
            && s.press_touch matches Some(start) && s.picked(start, end) matches Some(i) && {
            let actions = s.actions(event, backlight, prompt_enabled);
            &&& backlight == BacklightMode::Normal
            &&& actions[2] == RemoteAction::SetActive(s.labels@[i].0)
            &&& actions[3] == RemoteAction::FlushPending
            &&& actions[4] is ActiveSync
            &&& actions.len() == 6 && actions[5] == RemoteAction::Leave
        },
{
    let actions = s.actions(event, backlight, prompt_enabled);
    let i = choose|i: int| 0 <= i < actions.len() && #[trigger] actions[i] is SetActive;
    assert(actions[i] is SetActive);
}

/// A finger that has moved away opens no boot menu, however long it stays, until it is
/// lifted.
pub proof fn law_moved_finger_opens_no_boot_menu(
    s: SessionPicker,
    point: TouchPoint,
    listed: usize,
    backlight: BacklightMode,
    now: u64,
)
    requires
        s.press_touch matches Some(start) && moved_away(start, point),
        backlight == BacklightMode::Normal,
    ensures
        ({
            let event = PickerEvent::Touch { touch: Some(TouchEvent::Press(point)), listed };
            let next = s.after_event(event, backlight, now);
            &&& next.press_started_at is None
            &&& next.press_touch == s.press_touch
            &&& forall|p: TouchPoint, later: u64|
                (#[trigger] next.after_event(
                    PickerEvent::Touch { touch: Some(TouchEvent::Press(p)), listed },
                    backlight,
                    later,
                )).press_started_at is None
        }),
{
}

/// Whenever a message says that the list changed, whatever the prompt setting and whatever the
/// sessions do, the display is lit first and the list drawn last, with exactly the sessions that
/// came with the message. The prompt is played if and only if it may sound and a session that
/// was listed as working is now idle.
pub proof fn law_changed_list_is_drawn(
    s: SessionPicker,
    prefix: String,
    online: bool,
    was_active: bool,
    labels: Vec<SessionLabel>,
    backlight: BacklightMode,
    prompt_enabled: bool,
    now: u64,
)
    ensures
        ({
            let event = PickerEvent::Mqtt {
                event: Some(
                    MqttEvent::Presence { prefix, online, list_changed: true, was_active },
                ),
                labels,
            };
            let actions = s.actions(event, backlight, prompt_enabled);
            let next = s.after_event(event, backlight, now);
            &&& actions.len() > 0
            &&& actions.last() == RemoteAction::RenderPickerWith(labels)
            &&& actions[0] == RemoteAction::SetBacklight(BacklightMode::Normal)
            &&& forall|i: int|
                0 <= i < actions.len() ==> (#[trigger] actions[i] is SetBacklight) == (i == 0)
                    && (actions[i] is RenderPickerWith) == (i == actions.len() - 1)
            &&& actions.contains(RemoteAction::PlayPrompt) <==> prompt_enabled && exists|
                i: int,
                j: int,
            |
                0 <= i < s.labels@.len() && 0 <= j < labels@.len() && (#[trigger] s.labels@[i]).3
                    && !(#[trigger] labels@[j]).3 && s.labels@[i].0@ == labels@[j].0@
            &&& next.off_since is None && next.last_list_change == now
            &&& next.scroll_offset <= s.scroll_offset
            &&& next.scroll_offset == 0 || next.scroll_offset + page(s.item_rects@)
                <= labels@.len()
            &&& s.scroll_offset + page(s.item_rects@) <= labels@.len() ==> next.scroll_offset
                == s.scroll_offset
        }),
{
    let event = PickerEvent::Mqtt {
        event: Some(MqttEvent::Presence { prefix, online, list_changed: true, was_active }),
        labels,
    };
    let actions = s.actions(event, backlight, prompt_enabled);
    let before = s.labels@;
    let after = labels@;
    if some_became_idle(before, after) {
        let j = choose|j: int|
            0 <= j < after.len() && !(#[trigger] after[j]).3 && works(before, after[j].0@);
        let i = choose|i: int|
            0 <= i < before.len() && (#[trigger] before[i]).0@ == after[j].0@ && before[i].3;
        assert(before[i].3 && !after[j].3);
        if prompt_enabled {
            assert(actions[1] == RemoteAction::PlayPrompt);
        }
    }
    if exists|i: int, j: int|
        0 <= i < before.len() && 0 <= j < after.len() && (#[trigger] before[i]).3 && !(
        #[trigger] after[j]).3 && before[i].0@ == after[j].0@ {
        let (i, j) = choose|i: int, j: int|
            0 <= i < before.len() && 0 <= j < after.len() && (#[trigger] before[i]).3 && !(
            #[trigger] after[j]).3 && before[i].0@ == after[j].0@;
        assert(works(before, after[j].0@));
    }
    if actions.contains(RemoteAction::PlayPrompt) {
        let k = choose|k: int| 0 <= k < actions.len() && actions[k] == RemoteAction::PlayPrompt;
        assert(actions[k] == RemoteAction::PlayPrompt);
    }
}

/// A message that changes nothing on the list comes to nothing and leaves the list.
pub proof fn law_other_messages_leave_the_list(
    s: SessionPicker,
    event: MqttEvent,
    labels: Vec<SessionLabel>,
    backlight: BacklightMode,
    prompt_enabled: bool,
    now: u64,
)
    requires
        event matches MqttEvent::Presence { list_changed, .. } ==> !list_changed,
    ensures
        ({
            let e = PickerEvent::Mqtt { event: Some(event), labels };
            &&& s.actions(e, backlight, prompt_enabled).len() == 0
            &&& s.after_event(e, backlight, now) == s
        }),
{
}

/// Putting a finger down on a drawn entry of the lit list and lifting it there opens the
/// session that is listed at that place, counted from the scroll position: the display is lit,
/// loading is shown, the session is made the active one and subscribed to, its screen asked
/// for, and the list left, in this order.
pub proof fn law_tap_opens_the_session_under_it(
    s: SessionPicker,
    start: TouchPoint,
    end: TouchPoint,
    visible: int,
    listed: usize,
    prompt_enabled: bool,
    pressed_at: u64,
)
    requires
        s.press_touch is None,
        touch_index(start, s.item_rects@) == Some(visible),
        touch_index(end, s.item_rects@) == Some(visible),
        0 <= visible,
        s.scroll_offset + visible < s.labels@.len(),
        !goes_back(start, end),
        !is_vertical(start, end),
    ensures
        ({
            let press = PickerEvent::Touch { touch: Some(TouchEvent::Press(start)), listed };
            let lift = PickerEvent::Touch { touch: Some(TouchEvent::Release(end)), listed };
            let held = s.after_event(press, BacklightMode::Normal, pressed_at);
            let actions = held.actions(lift, BacklightMode::Normal, prompt_enabled);
            &&& s.actions(press, BacklightMode::Normal, prompt_enabled).len() == 0
            &&& held.press_touch == Some(start) && held.press_started_at == Some(pressed_at)
            &&& actions.len() == 6
            &&& actions[0] == RemoteAction::SetBacklight(BacklightMode::Normal)
            &&& actions[1] == RemoteAction::ShowLoading
            &&& actions[2] == RemoteAction::SetActive(s.labels@[s.scroll_offset + visible].0)
            &&& actions[3] == RemoteAction::FlushPending
            &&& (actions[4] matches RemoteAction::ActiveSync { close, .. } && !close)
            &&& actions[5] == RemoteAction::Leave
        }),
{
}

/// A finger that moves up or down on the list steps it by one entry, forward if and only if it
/// ended below its start, as far as there are entries; where the list moved it is drawn again,
/// and no session opens. One that moves to the right draws the list again in any case.
pub proof fn law_swipe_steps_the_list(
    s: SessionPicker,
    start: TouchPoint,
    end: TouchPoint,
    listed: usize,
    prompt_enabled: bool,
    now: u64,
)
    requires
        s.press_touch == Some(start),
        s.scroll_offset + page(s.item_rects@) <= s.labels@.len(),
        listed == s.labels@.len(),
    ensures
        ({
            let lift = PickerEvent::Touch { touch: Some(TouchEvent::Release(end)), listed };
            let actions = s.actions(lift, BacklightMode::Normal, prompt_enabled);
            let next = s.after_event(lift, BacklightMode::Normal, now);
            let moved = next.scroll_offset - s.scroll_offset;
            &&& next.press_touch is None && next.press_started_at is None
            &&& -1 <= moved <= 1
            &&& goes_back(start, end) ==> actions == seq![RemoteAction::RenderPicker] && moved == 0
            &&& is_vertical(start, end) && !goes_back(start, end) ==> {
                &&& moved > 0 <==> start.y < end.y && s.scroll_offset + page(s.item_rects@)
                    < s.labels@.len()
                &&& moved < 0 <==> end.y < start.y && s.scroll_offset > 0
                &&& moved != 0 ==> actions == seq![RemoteAction::RenderPicker]
                &&& moved == 0 ==> actions.len() == 0
                &&& !opens_a_session(actions)
            }
        }),
{
}

/// A lit list goes dark half a minute after its last change, and a finger that stays for a
/// second opens the boot menu; a dark one does neither, but offers a shutdown twenty minutes
/// after it went dark, so long as no session works.
pub proof fn law_list_waits_for_its_times(s: SessionPicker, now: u64, touch: TouchPoint, listed: usize)
    requires
        s.wf(),
        now <= LATEST_TIME,
    ensures
        ({
            let dark = s.after_event(PickerEvent::IdleDue, BacklightMode::Normal, now);
            let pressed = s.after_event(PickerEvent::BootPressed, BacklightMode::Normal, now);
            let woken = dark.after_event(
                PickerEvent::Touch { touch: Some(TouchEvent::Press(touch)), listed },
                BacklightMode::Off,
                now,
            );
            let second: int = 1_000_000_000;
            &&& dark.off_since == Some(now) && pressed.off_since == Some(now)
            &&& dark.wait_times(BacklightMode::Off).shutdown_prompt_at == (if forall|i: int|
                0 <= i < s.labels@.len() ==> !(#[trigger] s.labels@[i]).3 {
                Some((now + 1200 * second) as u64)
            } else {
                None
            })
            &&& dark.wait_times(BacklightMode::Off).idle_off_at is None
            &&& dark.wait_times(BacklightMode::Off).long_press_at is None
            &&& dark.wait_times(BacklightMode::Off).title_refresh_at is None
            &&& woken.off_since is None
            &&& woken.wait_times(BacklightMode::Normal).idle_off_at == Some(
                (now + 30 * second) as u64,
            )
            &&& woken.wait_times(BacklightMode::Normal).title_refresh_at == Some(
                (now + 60 * second) as u64,
            )
            &&& woken.wait_times(BacklightMode::Normal).shutdown_prompt_at is None
            &&& woken.wait_times(BacklightMode::Normal).long_press_at is None
            &&& s.press_touch is None ==> s.after_event(
                PickerEvent::Touch { touch: Some(TouchEvent::Press(touch)), listed },
                BacklightMode::Normal,
                now,
            ).wait_times(BacklightMode::Normal).long_press_at == Some((now + second) as u64)
        }),
{
}

/// What is due is done: the display is darkened when the list was idle for long or the boot
/// button pressed, lit for the offer of a shutdown, and the power cut if and only if that offer
/// was not cancelled or the boot menu said so. The loop ends if and only if a source of events
/// has ended or a session was opened.
pub proof fn law_due_things_are_done(
    s: SessionPicker,
    event: PickerEvent,
    backlight: BacklightMode,
    prompt_enabled: bool,
)
    ensures
        ({
            let actions = s.actions(event, backlight, prompt_enabled);
            &&& event is IdleDue || event is BootPressed ==> actions == seq![
                RemoteAction::SetBacklight(BacklightMode::Off),
            ]
            &&& event is ShutdownDue ==> actions.len() == 2 && actions[0]
                == RemoteAction::SetBacklight(BacklightMode::Normal) && actions[1]
                == RemoteAction::ShowIdlePrompt
            &&& event is LongPressDue ==> actions == seq![RemoteAction::ShowBootMenu]
            &&& actions.contains(RemoteAction::PowerOff) <==> event == (
            PickerEvent::IdleAnswered { cancelled: false }) || event == PickerEvent::BootMenuLeft(
                BootMenuAction::PowerOff,
            )
            &&& actions.contains(RemoteAction::Reboot) <==> event == PickerEvent::BootMenuLeft(
                BootMenuAction::Restart,
            )
            &&& actions.contains(RemoteAction::SelectTheme) <==> event == PickerEvent::BootMenuLeft(
                BootMenuAction::Theme,
            )
            &&& forall|kept: bool| #[trigger]
                actions.contains(RemoteAction::SavePromptEnabled(kept)) <==> event
                    == PickerEvent::BootMenuLeft(BootMenuAction::ToggleSound) && kept
                    != prompt_enabled
            &&& event matches PickerEvent::BootMenuLeft(choice) ==> (choice
                != BootMenuAction::Restart && choice != BootMenuAction::PowerOff ==> actions.len()
                > 0 && actions.last() == RemoteAction::RenderPicker)
            &&& event == PickerEvent::BootMenuLeft(BootMenuAction::ScreenOff) ==> actions[0]
                == RemoteAction::SetBacklight(BacklightMode::Off)
            &&& event == (PickerEvent::IdleAnswered { cancelled: true }) ==> actions == seq![
                RemoteAction::RenderPicker,
            ]
            &&& actions.contains(RemoteAction::Leave) <==> (event matches PickerEvent::Touch {
                touch: None,
                ..
            }) || (event matches PickerEvent::Mqtt { event: None, .. }) || opens_a_session(actions)
            &&& event matches PickerEvent::TitleDue(title) ==> if title@
                == s.last_session_title@ {
                actions.len() == 0
            } else {
                actions == seq![RemoteAction::RefreshTitle(title)]
            }
        }),
{
    let actions = s.actions(event, backlight, prompt_enabled);
    if actions.len() > 0 {
        let last = actions.last();
        assert(actions[actions.len() - 1] == last);
        assert(actions.contains(last));
        let first = actions[0];
        assert(actions.contains(first));
    }
    if event matches PickerEvent::Touch { touch: Some(TouchEvent::Release(_)), .. } {
        if actions.len() == 6 {
            assert(actions[2] is SetActive);
        }
    }
    if actions.contains(RemoteAction::PlayPrompt) {
        assert(actions.len() == 3);
    }
}

/// The list shows its sessions from the scroll position on, each with its own label and state.
pub proof fn law_shown_items_are_the_sessions(labels: Seq<SessionLabel>, offset: int, k: int)
    requires
        0 <= offset,
        0 <= k,
        offset + k < labels.len(),
    ensures
        shown_items(labels, offset).len() == labels.len() - offset,
        shown_items(labels, offset)[k].0 == labels[offset + k].1,
        shown_items(labels, offset)[k].1 == labels[offset + k].3,
{
}

/// The list waits for its first session until there is one or the time is up, and leaves only
/// with the messages.
pub proof fn law_list_waits_for_its_first_session(closed: Option<bool>, listed: int)
    requires
        0 <= listed,
    ensures
        loading_step(closed, listed) == LoadingNext::Leave <==> closed == Some(true),
        loading_step(closed, listed) == LoadingNext::Wait <==> closed == Some(false) && listed == 0,
        loading_step(closed, listed) == LoadingNext::Proceed <==> closed is None || (closed
            == Some(false) && listed > 0),
{
}

/// No event changes which sessions are listed or where they are drawn: that is for drawing the
/// list. The scroll position changes with a lifted finger or a changed list alone, and the title
/// with a new title alone.
pub proof fn law_events_leave_the_listed_sessions(
    s: SessionPicker,
    event: PickerEvent,
    backlight: BacklightMode,
    now: u64,
)
    requires
        s.wf(),
        now <= LATEST_TIME,
    ensures
        ({
            let next = s.after_event(event, backlight, now);
            &&& next.labels == s.labels && next.item_rects == s.item_rects
            &&& next.scroll_offset != s.scroll_offset ==> (event matches PickerEvent::Touch {
                touch: Some(TouchEvent::Release(_)),
                ..
            }) || (event matches PickerEvent::Mqtt {
                event: Some(MqttEvent::Presence { list_changed: true, .. }),
                ..
            })
            &&& !(event is TitleDue) ==> next.last_session_title == s.last_session_title
            &&& event matches PickerEvent::TitleDue(title) ==> next.last_session_title@ == title@
                && next.wait_times(BacklightMode::Normal).title_refresh_at == Some(
                (now + 60_000_000_000) as u64,
            )
            &&& event == PickerEvent::BootMenuLeft(BootMenuAction::ScreenOff) ==> next.off_since
                == Some(now)
            &&& event is ShutdownDue ==> next.off_since is None && next.last_list_change == now
            &&& event == (PickerEvent::IdleAnswered { cancelled: true }) ==> next.press_touch
                is None
            &&& event is LongPressDue ==> next.press_touch is None && next.press_started_at is None
            &&& event is BootPressed ==> next.press_touch is None && next.press_started_at is None
        }),
{
}

/// A finger that stays within forty pixels keeps the time at which it was put down, and so
/// opens the boot menu a second after that; one that moves farther does not.
pub proof fn law_staying_finger_keeps_its_time(
    s: SessionPicker,
    start: TouchPoint,
    point: TouchPoint,
    listed: usize,
    now: u64,
)
    requires
        s.press_touch == Some(start),
    ensures
        ({
            let event = PickerEvent::Touch { touch: Some(TouchEvent::Press(point)), listed };
            let next = s.after_event(event, BacklightMode::Normal, now);
            let dx = point.x - start.x;
            let dy = point.y - start.y;
            &&& next.press_touch == Some(start)
            &&& -40 <= dx <= 40 && -40 <= dy <= 40 ==> next.press_started_at == s.press_started_at
            &&& !(-40 <= dx <= 40 && -40 <= dy <= 40) ==> next.press_started_at is None
        }),
{
}

/// The sound setting is turned over by its own choice in the boot menu and by nothing else, and
/// what is kept of it is what then holds.
pub proof fn law_sound_setting_is_turned_over(
    s: SessionPicker,
    event: PickerEvent,
    backlight: BacklightMode,
    prompt_enabled: bool,
)
    ensures
        ({
            let after = prompt_after_event(event, prompt_enabled);
            let toggles = event == PickerEvent::BootMenuLeft(BootMenuAction::ToggleSound);
            &&& after != prompt_enabled <==> toggles
            &&& toggles ==> s.actions(event, backlight, prompt_enabled)[0]
                == RemoteAction::SavePromptEnabled(after)
            &&& after == prompt_after_choice(
                if toggles {
                    BootMenuAction::ToggleSound
                } else {
                    BootMenuAction::Back
                },
                prompt_enabled,
            )
        }),
{
}

} // verus!
