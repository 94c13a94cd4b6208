//! The screen of an active session: touches on it, and what they send.
use super::{Key, OnFailure, RemoteAction, LATEST_TIME, SCREEN_BACKSPACE_REPEAT_DELAY,
    SCREEN_SCROLL_SWIPE_ROWS};
use crate::app::{
    goes_back, in_asr_area, in_backspace_corner, in_menu_corner, is_asr_touch, is_back_swipe,
    is_screen_backspace_point, is_screen_menu_point, is_vertical, list_scroll_delta,
};
use crate::lcd::{TouchEvent, TouchPoint};
use crate::lists::{four, one, two};
use crate::mqtt::MqttEvent;
use crate::protocol::ClientMessage;
use vstd::prelude::*;

verus! {

/// The finger on the screen of an active session. Times are nanoseconds.
#[derive(Debug, Clone, Copy, PartialEq, Eq, Structural)]
pub struct ScreenTouch {
    pub swipe_start: Option<TouchPoint>,
    pub backspace_touch_active: bool,
    pub backspace_repeat_sent: bool,
    pub next_backspace_at: Option<u64>,
    pub screen_menu_touch_active: bool,
}

/// What happens on the screen of an active session.
#[derive(Debug)]
pub enum ScreenEvent {
    /// A held backspace repeats.
    BackspaceDue,
    /// The repeated backspace was sent, or could not be.
    BackspaceSent { ok: bool },
    /// A touch, or that there will be none any more. `text_screen` is whether the session
    /// shows text.
    Touch { touch: Option<TouchEvent>, text_screen: bool },
    /// The shown text was scrolled, or has to be by the session.
    ScrolledLocally { up: bool, scrolled: bool },
    /// A scroll request was sent, or could not be.
    ScrollSent { ok: bool },
    /// A message was dealt with; `offline` is whether it said that the active session is
    /// gone.
    MqttHandled { offline: bool },
    /// There will be no message any more.
    MqttClosed,
}

/// The scroll request of a swipe.
pub open spec fn scroll_message(start: TouchPoint, end: TouchPoint) -> Option<ClientMessage> {
    if is_vertical(start, end) {
        Some(scroll_request(end.y >= start.y))
    } else {
        None
    }
}

/// The request to scroll up or down by the rows of one swipe.
pub open spec fn scroll_request(up: bool) -> ClientMessage {
    if up {
        ClientMessage::ScrollUp { rows: 15 }
    } else {
        ClientMessage::ScrollDown { rows: 15 }
    }
}

fn request(up: bool) -> (r: ClientMessage)
    ensures
        r == scroll_request(up),
{
    if up {
        ClientMessage::ScrollUp { rows: SCREEN_SCROLL_SWIPE_ROWS }
    } else {
        ClientMessage::ScrollDown { rows: SCREEN_SCROLL_SWIPE_ROWS }
    }
}

/// The scroll request of a swipe: an upward one scrolls down, a downward one up.
pub fn scroll_swipe_message(start: TouchPoint, end: TouchPoint) -> (r: Option<ClientMessage>)
    ensures
        r == scroll_message(start, end),
{
    match list_scroll_delta(start, end) {
        Some(delta) => Some(request(delta > 0)),
        None => None,
    }
}

/// Which way the shown text is to be scrolled for a message, if it is a scroll request.
pub fn local_scroll(msg: &ClientMessage) -> (r: Option<bool>)
    ensures
        r == (match *msg {
            ClientMessage::ScrollUp { .. } => Some(true),
            ClientMessage::ScrollDown { .. } => Some(false),
            _ => None,
        }),
{
    match msg {
        ClientMessage::ScrollUp { .. } => Some(true),
        ClientMessage::ScrollDown { .. } => Some(false),
        _ => None,
    }
}

/// Whether a finger was put down and lifted in the menu corner.
pub fn is_screen_menu_touch(start: TouchPoint, end: TouchPoint) -> (r: bool)
    ensures
        r == (in_menu_corner(start) && in_menu_corner(end)),
{
    is_screen_menu_point(start) && is_screen_menu_point(end)
}

/// Whether a message says that the active session is gone.
pub open spec fn is_gone(event: MqttEvent) -> bool {
    event matches MqttEvent::Presence { online: false, was_active: true, .. }
}

/// Whether a message says that the active session is gone.
pub fn active_session_went_offline(event: &MqttEvent) -> (r: bool)
    ensures
        r == is_gone(*event),
{
    match event {
        MqttEvent::Presence { online, was_active, .. } => !*online && *was_active,
        _ => false,
    }
}

impl ScreenTouch {
    /// No finger.
    pub open spec fn fresh() -> Self {
        ScreenTouch {
            swipe_start: None,
            backspace_touch_active: false,
            backspace_repeat_sent: false,
            next_backspace_at: None,
            screen_menu_touch_active: false,
        }
    }

    /// A finger does one thing at a time: it holds the backspace key, or the menu, or
    /// neither; and a held backspace has its time.
    pub open spec fn wf(self) -> bool {
        &&& !(self.backspace_touch_active && self.screen_menu_touch_active)
        &&& self.backspace_touch_active == (self.next_backspace_at is Some)
        &&& (self.backspace_touch_active || self.screen_menu_touch_active)
            ==> self.swipe_start is None
    }

    /// No finger.
    pub fn new() -> (r: Self)
        ensures
            r == ScreenTouch::fresh(),
            r.wf(),
    {
        ScreenTouch {
            swipe_start: None,
            backspace_touch_active: false,
            backspace_repeat_sent: false,
            next_backspace_at: None,
            screen_menu_touch_active: false,
        }
    }

    /// When the held backspace repeats, if one is held.
    pub fn backspace_at(&self) -> (r: Option<u64>)
        ensures
            r == (if self.backspace_touch_active {
                self.next_backspace_at
            } else {
                None
            }),
    {
        if self.backspace_touch_active {
            self.next_backspace_at
        } else {
            None
        }
    }

    /// The finger after a touch event.
    pub open spec fn after_touch(self, touch: TouchEvent, now: u64) -> Self {
        match touch {
            TouchEvent::Press(point) => if self.backspace_touch_active
                || self.screen_menu_touch_active {
                self
            } else if in_backspace_corner(point) {
                ScreenTouch {
                    backspace_touch_active: true,
                    backspace_repeat_sent: false,
                    next_backspace_at: Some((now + 500_000_000) as u64),
                    swipe_start: None,
                    ..self
                }
            } else if in_menu_corner(point) {
                ScreenTouch { screen_menu_touch_active: true, swipe_start: None, ..self }
            } else if self.swipe_start is None {
                ScreenTouch { swipe_start: Some(point), ..self }
            } else {
                self
            },
            TouchEvent::Release(_) => if self.backspace_touch_active {
                ScreenTouch { backspace_touch_active: false, next_backspace_at: None, ..self }
            } else if self.screen_menu_touch_active {
                ScreenTouch { screen_menu_touch_active: false, ..self }
            } else {
                ScreenTouch { swipe_start: None, ..self }
            },
        }
    }

    /// What a touch event comes to.
    pub open spec fn touch_actions(self, touch: TouchEvent, text_screen: bool) -> Seq<
        RemoteAction,
    > {
        match touch {
            TouchEvent::Press(point) => if self.backspace_touch_active
                || self.screen_menu_touch_active {
                Seq::empty()
            } else if in_backspace_corner(point) {
                seq![RemoteAction::ShowBackspaceOverlay]
            } else if in_menu_corner(point) {
                seq![RemoteAction::ShowMenuOverlay]
            } else {
                Seq::empty()
            },
            TouchEvent::Release(end) => if self.backspace_touch_active {
                if self.backspace_repeat_sent {
                    seq![RemoteAction::RedrawCached]
                } else {
                    seq![
                        RemoteAction::SendKey {
                            key: Key::Backspace,
                            on_failure: OnFailure::Ignore,
                        },
                        RemoteAction::RedrawCached,
                    ]
                }
            } else if self.screen_menu_touch_active {
                if in_menu_corner(end) {
                    seq![RemoteAction::RedrawCached, RemoteAction::ShowScreenMenu]
                } else {
                    seq![RemoteAction::RedrawCached]
                }
            } else {
                match self.swipe_start {
                    None => Seq::empty(),
                    Some(start) => swipe_actions(start, end, text_screen),
                }
            },
        }
    }

    fn on_touch(&mut self, touch: TouchEvent, text_screen: bool, now: u64) -> (r: Vec<
        RemoteAction,
    >)
        requires
            old(self).wf(),
            now <= LATEST_TIME,
        ensures
            *final(self) == old(self).after_touch(touch, now),
            r@ == old(self).touch_actions(touch, text_screen),
            final(self).wf(),
    {
        match touch {
            TouchEvent::Press(point) => {
                if self.backspace_touch_active || self.screen_menu_touch_active {
                    return Vec::new();
                }
                if is_screen_backspace_point(point) {
                    self.backspace_touch_active = true;
                    self.backspace_repeat_sent = false;
                    self.next_backspace_at = Some(now + SCREEN_BACKSPACE_REPEAT_DELAY);
                    self.swipe_start = None;
                    one(RemoteAction::ShowBackspaceOverlay)
                } else if is_screen_menu_point(point) {
                    self.screen_menu_touch_active = true;
                    self.swipe_start = None;
                    one(RemoteAction::ShowMenuOverlay)
                } else {
                    if self.swipe_start.is_none() {
                        self.swipe_start = Some(point);
                    }
                    Vec::new()
                }
            },
            TouchEvent::Release(end) => {
                if self.backspace_touch_active {
                    self.backspace_touch_active = false;
                    self.next_backspace_at = None;
                    if self.backspace_repeat_sent {
                        return one(RemoteAction::RedrawCached);
                    }
                    return two(
                        RemoteAction::SendKey {
                            key: Key::Backspace,
                            on_failure: OnFailure::Ignore,
                        },
                        RemoteAction::RedrawCached,
                    );
                }
                if self.screen_menu_touch_active {
                    self.screen_menu_touch_active = false;
                    if is_screen_menu_point(end) {
                        return two(RemoteAction::RedrawCached, RemoteAction::ShowScreenMenu);
                    }
                    return one(RemoteAction::RedrawCached);
                }
                match self.swipe_start {
                    Some(start) => {
                        self.swipe_start = None;
                        on_swipe(start, end, text_screen)
                    },
                    None => Vec::new(),
                }
            },
        }
    }

    /// The finger after an event.
    pub open spec fn after_event(self, event: ScreenEvent, now: u64) -> Self {
        match event {
            ScreenEvent::BackspaceSent { ok } => if ok {
                ScreenTouch {
                    backspace_repeat_sent: true,
                    next_backspace_at: Some((now + 500_000_000) as u64),
                    ..self
                }
            } else {
                ScreenTouch::fresh()
            },
            ScreenEvent::Touch { touch: Some(touch), .. } => self.after_touch(touch, now),
            ScreenEvent::MqttHandled { offline: true } => ScreenTouch::fresh(),
            _ => self,
        }
    }

    /// What an event comes to.
    pub open spec fn actions(self, event: ScreenEvent) -> Seq<RemoteAction> {
        match event {
            ScreenEvent::BackspaceDue => seq![
                RemoteAction::SendKey { key: Key::Backspace, on_failure: OnFailure::Report },
            ],
            ScreenEvent::BackspaceSent { ok } | ScreenEvent::ScrollSent { ok } => if ok {
                Seq::empty()
            } else {
                seq![RemoteAction::OpenPicker]
            },
            ScreenEvent::Touch { touch, text_screen } => match touch {
                Some(touch) => self.touch_actions(touch, text_screen),
                None => seq![RemoteAction::Leave],
            },
            ScreenEvent::ScrolledLocally { up, scrolled } => if scrolled {
                Seq::empty()
            } else {
                seq![
                    RemoteAction::Send {
                        message: scroll_request(up),
                        on_failure: OnFailure::Report,
                    },
                ]
            },
            ScreenEvent::MqttHandled { offline } => if offline {
                seq![RemoteAction::FlushPending, RemoteAction::OpenPicker]
            } else if self.backspace_touch_active {
                seq![RemoteAction::ShowBackspaceOverlay]
            } else if self.screen_menu_touch_active {
                seq![RemoteAction::ShowMenuOverlay]
            } else {
                Seq::empty()
            },
            ScreenEvent::MqttClosed => seq![RemoteAction::Leave],
        }
    }

    /// Takes an event on the screen of an active session.
    pub fn on_event(&mut self, event: ScreenEvent, now: u64) -> (r: Vec<RemoteAction>)
        requires
            old(self).wf(),
            event is BackspaceSent ==> old(self).backspace_touch_active,
            now <= LATEST_TIME,
        ensures
            *final(self) == old(self).after_event(event, now),
            r@ == old(self).actions(event),
            final(self).wf(),
    {
        match event {
            ScreenEvent::BackspaceDue => one(
                RemoteAction::SendKey { key: Key::Backspace, on_failure: OnFailure::Report },
            ),
            ScreenEvent::BackspaceSent { ok } => {
                if ok {
                    self.backspace_repeat_sent = true;
                    self.next_backspace_at = Some(now + SCREEN_BACKSPACE_REPEAT_DELAY);
                    Vec::new()
                } else {
                    *self = ScreenTouch::new();
                    one(RemoteAction::OpenPicker)
                }
            },
            ScreenEvent::Touch { touch, text_screen } => match touch {
                Some(touch) => self.on_touch(touch, text_screen, now),
                None => one(RemoteAction::Leave),
            },
            ScreenEvent::ScrolledLocally { up, scrolled } => {
                if scrolled {
                    Vec::new()
                } else {
                    one(RemoteAction::Send { message: request(up), on_failure: OnFailure::Report })
                }
            },
            ScreenEvent::ScrollSent { ok } => {
                if ok {
                    Vec::new()
                } else {
                    one(RemoteAction::OpenPicker)
                }
            },
            ScreenEvent::MqttHandled { offline } => {
                if offline {
                    *self = ScreenTouch::new();
                    two(RemoteAction::FlushPending, RemoteAction::OpenPicker)
                } else if self.backspace_touch_active {
                    one(RemoteAction::ShowBackspaceOverlay)
                } else if self.screen_menu_touch_active {
                    one(RemoteAction::ShowMenuOverlay)
                } else {
                    Vec::new()
                }
            },
            ScreenEvent::MqttClosed => one(RemoteAction::Leave),
        }
    }
}

/// What a swipe from `start` to `end` comes to: at the bottom edge the speech editor, in
/// the menu corner the menu, to the right back to the list, vertically a scroll, of the
/// shown text where the session shows text.
pub open spec fn swipe_actions(start: TouchPoint, end: TouchPoint, text_screen: bool) -> Seq<
    RemoteAction,
> {
    if in_asr_area(start) && in_asr_area(end) {
        seq![RemoteAction::RunAsr]
    } else if in_menu_corner(start) && in_menu_corner(end) {
        seq![RemoteAction::ShowScreenMenu]
    } else if goes_back(start, end) {
        seq![
            RemoteAction::ActiveSync { close: true, on_failure: OnFailure::Ignore },
            RemoteAction::ClearActive,
            RemoteAction::FlushPending,
            RemoteAction::OpenPicker,
        ]
    } else if is_vertical(start, end) {
        if text_screen {
            seq![RemoteAction::ScrollLocally { up: end.y >= start.y }]
        } else {
            seq![
                RemoteAction::Send {
                    message: scroll_request(end.y >= start.y),
                    on_failure: OnFailure::Report,
                },
            ]
        }
    } else {
        Seq::empty()
    }
}

fn on_swipe(start: TouchPoint, end: TouchPoint, text_screen: bool) -> (r: Vec<RemoteAction>)
    ensures
        r@ == swipe_actions(start, end, text_screen),
{
    if is_asr_touch(start) && is_asr_touch(end) {
        one(RemoteAction::RunAsr)
    } else if is_screen_menu_touch(start, end) {
        one(RemoteAction::ShowScreenMenu)
    } else if is_back_swipe(start, end) {
        four(
            RemoteAction::ActiveSync { close: true, on_failure: OnFailure::Ignore },
            RemoteAction::ClearActive,
            RemoteAction::FlushPending,
            RemoteAction::OpenPicker,
        )
    } else {
        match scroll_swipe_message(start, end) {
            Some(message) => {
                if text_screen {
                    if let Some(up) = local_scroll(&message) {
                        return one(RemoteAction::ScrollLocally { up });
                    }
                }
                one(RemoteAction::Send { message, on_failure: OnFailure::Report })
            },
            None => Vec::new(),
        }
    }
}

// ---------------------------------------------------------------------------------------
// Laws
// ---------------------------------------------------------------------------------------

/// The finger after a run of held-backspace repeats, each sent.
pub open spec fn after_repeats(s: ScreenTouch, times: Seq<u64>) -> ScreenTouch
    decreases times.len(),
{
    if times.len() == 0 {
        s
    } else {
        after_repeats(s, times.drop_last()).after_event(
            ScreenEvent::BackspaceSent { ok: true },
            times.last(),
        )
    }
}

/// A finger put down and lifted in the backspace corner sends a backspace on lifting if and
/// only if none was sent while it was held, wherever it is lifted.
pub proof fn law_backspace_is_sent_at_least_once(
    s: ScreenTouch,
    point: TouchPoint,
    end: TouchPoint,
    repeats: Seq<u64>,
    text_screen: bool,
    now: u64,
)
    requires
        s == ScreenTouch::fresh(),
        in_backspace_corner(point),
    ensures
        ({
            let held = after_repeats(s.after_touch(TouchEvent::Press(point), now), repeats);
            let actions = held.touch_actions(TouchEvent::Release(end), text_screen);
            &&& held.backspace_touch_active
            &&& (actions[0] is SendKey <==> repeats.len() == 0)
            &&& actions.last() == RemoteAction::RedrawCached
        }),
{
    lemma_repeats(s.after_touch(TouchEvent::Press(point), now), repeats);
}

proof fn lemma_repeats(s: ScreenTouch, times: Seq<u64>)
    requires
        s.backspace_touch_active,
        !s.backspace_repeat_sent,
    ensures
        after_repeats(s, times).backspace_touch_active,
        after_repeats(s, times).backspace_repeat_sent == (times.len() > 0),
    decreases times.len(),
{
    if times.len() > 0 {
        lemma_repeats(s, times.drop_last());
    }
}

/// A swipe to the right first tells the session to stop sending screens and clears it; only
/// then is the list opened.
pub proof fn law_back_swipe_closes_before_leaving(
    s: ScreenTouch,
    start: TouchPoint,
    end: TouchPoint,
    text_screen: bool,
)
    requires
        s.wf(),
        s.swipe_start == Some(start),
        goes_back(start, end),
        !(in_asr_area(start) && in_asr_area(end)),
        !(in_menu_corner(start) && in_menu_corner(end)),
    ensures
        s.touch_actions(TouchEvent::Release(end), text_screen) == seq![
            RemoteAction::ActiveSync { close: true, on_failure: OnFailure::Ignore },
            RemoteAction::ClearActive,
            RemoteAction::FlushPending,
            RemoteAction::OpenPicker,
        ],
{
}

/// Whether a finger that was put down at one point and lifted at another only scrolls: it moves
/// up or down, and neither end opens the editor or the menu.
pub open spec fn only_scrolls(start: TouchPoint, end: TouchPoint) -> bool {
    &&& is_vertical(start, end)
    &&& !goes_back(start, end)
    &&& !(in_asr_area(start) && in_asr_area(end))
    &&& !(in_menu_corner(start) && in_menu_corner(end))
}

/// A vertical swipe keeps its direction whatever kind of screen is shown: on one that shows
/// text the text is scrolled up, on one that shows pictures scrolling up is asked for, if and
/// only if the finger ended below its start; nothing else is done.
pub proof fn law_swipe_keeps_its_direction(s: ScreenTouch, start: TouchPoint, end: TouchPoint)
    requires
        s.wf(),
        s.swipe_start == Some(start),
        only_scrolls(start, end),
    ensures
        ({
            let text = s.touch_actions(TouchEvent::Release(end), true);
            let picture = s.touch_actions(TouchEvent::Release(end), false);
            &&& text.len() == 1 && picture.len() == 1
            &&& text[0] is ScrollLocally
            &&& picture[0] is Send
            &&& text[0] == (RemoteAction::ScrollLocally { up: true }) <==> start.y < end.y
            &&& text[0] == (RemoteAction::ScrollLocally { up: false }) <==> end.y < start.y
            &&& picture[0]->message is ScrollUp <==> start.y < end.y
            &&& picture[0]->message is ScrollDown <==> end.y < start.y
        }),
{
}

/// Text that cannot be scrolled where it is shown is scrolled by the session instead, the same
/// way and by as many rows as a swipe over a picture scrolls; the way back asks for as many.
pub proof fn law_session_scrolls_as_the_text_would(
    s: ScreenTouch,
    start: TouchPoint,
    end: TouchPoint,
)
    requires
        s.wf(),
        s.swipe_start == Some(start),
        only_scrolls(start, end),
    ensures
        ({
            let text = s.touch_actions(TouchEvent::Release(end), true);
            let picture = s.touch_actions(TouchEvent::Release(end), false);
            let up = text[0]->up;
            &&& s.actions(ScreenEvent::ScrolledLocally { up, scrolled: false }) == picture
            &&& s.actions(ScreenEvent::ScrolledLocally { up, scrolled: true }).len() == 0
        }),
        scroll_request(true) is ScrollUp && scroll_request(false) is ScrollDown,
        scroll_request(true)->ScrollUp_rows == scroll_request(false)->ScrollDown_rows,
        scroll_request(true)->ScrollUp_rows > 0,
        scroll_message(start, end) matches Some(m) ==> (m is ScrollUp <==> start.y < end.y),
        scroll_message(start, end) is Some <==> is_vertical(start, end),
{
}

/// A finger put down in a corner shows the overlay of that corner, also again after each
/// message while it stays; put down elsewhere it shows nothing. In the backspace corner it
/// repeats the key half a second later.
pub proof fn law_finger_shows_its_corner(
    s: ScreenTouch,
    point: TouchPoint,
    text_screen: bool,
    now: u64,
)
    requires
        s == ScreenTouch::fresh(),
        now <= LATEST_TIME,
    ensures
        ({
            let shown = s.touch_actions(TouchEvent::Press(point), text_screen);
            let held = s.after_touch(TouchEvent::Press(point), now);
            let again = held.actions(ScreenEvent::MqttHandled { offline: false });
            &&& shown == again
            &&& shown.contains(RemoteAction::ShowBackspaceOverlay) <==> in_backspace_corner(point)
            &&& shown.contains(RemoteAction::ShowMenuOverlay) <==> in_menu_corner(point)
            &&& shown.len() <= 1
            &&& held.next_backspace_at == (if in_backspace_corner(point) {
                Some((now + 500_000_000) as u64)
            } else {
                None
            })
            &&& held.swipe_start == (if in_backspace_corner(point) || in_menu_corner(point) {
                None
            } else {
                Some(point)
            })
        }),
{
    let shown = s.touch_actions(TouchEvent::Press(point), text_screen);
    if shown.len() > 0 {
        assert(shown[0] == shown[0]);
        assert(shown.contains(shown[0]));
    }
}

/// A repeated backspace is sent as the key, and its outcome counts: once sent, the next one is
/// due half a second later; one that could not be sent ends the session's screen, as does a
/// session that is gone, and the finger is forgotten.
pub proof fn law_held_backspace_goes_on_until_it_fails(s: ScreenTouch, now: u64)
    requires
        s.wf(),
        s.backspace_touch_active,
        now <= LATEST_TIME,
    ensures
        ({
            let sent = s.after_event(ScreenEvent::BackspaceSent { ok: true }, now);
            let failed = s.after_event(ScreenEvent::BackspaceSent { ok: false }, now);
            let gone = s.after_event(ScreenEvent::MqttHandled { offline: true }, now);
            &&& s.actions(ScreenEvent::BackspaceDue) == seq![
                RemoteAction::SendKey { key: Key::Backspace, on_failure: OnFailure::Report },
            ]
            &&& s.actions(ScreenEvent::BackspaceSent { ok: true }).len() == 0
            &&& sent.backspace_touch_active && sent.next_backspace_at == Some(
                (now + 500_000_000) as u64,
            )
            &&& s.actions(ScreenEvent::BackspaceSent { ok: false }) == seq![
                RemoteAction::OpenPicker,
            ]
            &&& failed == ScreenTouch::fresh() && gone == ScreenTouch::fresh()
            &&& s.actions(ScreenEvent::MqttHandled { offline: true }) == seq![
                RemoteAction::FlushPending,
                RemoteAction::OpenPicker,
            ]
            &&& s.actions(ScreenEvent::ScrollSent { ok: false }) == seq![RemoteAction::OpenPicker]
            &&& s.actions(ScreenEvent::ScrollSent { ok: true }).len() == 0
        }),
        !ScreenTouch::fresh().backspace_touch_active,
        !ScreenTouch::fresh().screen_menu_touch_active,
        ScreenTouch::fresh().swipe_start is None,
{
}

/// Lifting a finger opens the speech editor, the menu or the list if and only if it was put
/// down and lifted where that is: at the bottom edge, in the menu corner, or after a movement
/// to the right. The loop ends if and only if a source of events has ended.
pub proof fn law_lifted_finger_opens_one_thing(
    s: ScreenTouch,
    start: TouchPoint,
    end: TouchPoint,
    text_screen: bool,
    now: u64,
)
    requires
        s == ScreenTouch::fresh(),
        now <= LATEST_TIME,
    ensures
        ({
            let held = s.after_touch(TouchEvent::Press(start), now);
            let actions = held.touch_actions(TouchEvent::Release(end), text_screen);
            let lifted = held.after_touch(TouchEvent::Release(end), now);
            &&& actions.contains(RemoteAction::RunAsr) <==> in_asr_area(start) && in_asr_area(end)
            &&& actions.contains(RemoteAction::ShowScreenMenu) <==> in_menu_corner(start)
                && in_menu_corner(end)
            &&& actions.contains(RemoteAction::OpenPicker) <==> goes_back(start, end) && !(
            in_asr_area(start) && in_asr_area(end)) && !in_menu_corner(start)
                && !in_backspace_corner(start)
            &&& lifted.swipe_start is None && !lifted.backspace_touch_active
                && !lifted.screen_menu_touch_active
        }),
        forall|event: ScreenEvent| #[trigger]
            s.actions(event).contains(RemoteAction::Leave) <==> event is MqttClosed || (
            event matches ScreenEvent::Touch { touch: None, .. }),
{
    let held = s.after_touch(TouchEvent::Press(start), now);
    let actions = held.touch_actions(TouchEvent::Release(end), text_screen);
    if actions.len() > 0 {
        assert(actions.contains(actions[0]));
        assert(actions.contains(actions.last())) by {
            assert(actions[actions.len() - 1] == actions.last());
        }
    }
    assert forall|event: ScreenEvent| #[trigger]
        s.actions(event).contains(RemoteAction::Leave) <==> event is MqttClosed || (
        event matches ScreenEvent::Touch { touch: None, .. }) by {
        let a = s.actions(event);
        if a.len() > 0 {
            assert(a.contains(a[0]));
        }
    }
}

/// The active session is gone if and only if a message says that it, and no other, went
/// offline; the shared state shows the list then, and only then, on account of a presence.
pub proof fn law_gone_session_is_told_by_its_presence(
    state: crate::app::AppState,
    prefix: String,
    online: bool,
    list_changed: bool,
    was_active: bool,
)
    requires
        state.route == crate::app::Route::ActiveSession,
    ensures
        ({
            let event = MqttEvent::Presence { prefix, online, list_changed, was_active };
            &&& is_gone(event) <==> was_active && !online
            &&& is_gone(event) <==> state.after_mqtt(event).route != state.route
        }),
{
}

/// A swipe starts where the finger was put down: as it moves on, its start stays, and a key or a
/// menu that is held stays held, until it is lifted.
pub proof fn law_swipe_starts_where_the_finger_was_put_down(
    s: ScreenTouch,
    point: TouchPoint,
    text_screen: bool,
    now: u64,
)
    requires
        s.wf(),
    ensures
        ({
            let next = s.after_touch(TouchEvent::Press(point), now);
            &&& s.swipe_start is Some && !in_backspace_corner(point) && !in_menu_corner(point)
                ==> next == s
            &&& s.backspace_touch_active || s.screen_menu_touch_active ==> next == s
                && s.touch_actions(TouchEvent::Press(point), text_screen).len() == 0
        }),
{
}

/// Only touches, the outcome of a repeated key, and the loss of the session change the finger
/// that is kept; no other event does.
pub proof fn law_other_events_leave_the_finger(s: ScreenTouch, event: ScreenEvent, now: u64)
    requires
        !(event is BackspaceSent),
        !(event matches ScreenEvent::Touch { touch: Some(_), .. }),
        event != (ScreenEvent::MqttHandled { offline: true }),
    ensures
        s.after_event(event, now) == s,
{
}

/// While the menu corner is held, lifting the finger brings the screen back, and opens the menu
/// if it is lifted there; the key and the menu are told apart by the corner alone.
pub proof fn law_menu_opens_when_lifted_in_its_corner(
    s: ScreenTouch,
    point: TouchPoint,
    end: TouchPoint,
    text_screen: bool,
    now: u64,
)
    requires
        s == ScreenTouch::fresh(),
        in_menu_corner(point),
    ensures
        ({
            let held = s.after_touch(TouchEvent::Press(point), now);
            let actions = held.touch_actions(TouchEvent::Release(end), text_screen);
            &&& held.screen_menu_touch_active && !held.backspace_touch_active
            &&& actions.len() > 0 && actions[0] == RemoteAction::RedrawCached
            &&& actions.len() == (if in_menu_corner(end) {
                2int
            } else {
                1
            })
            &&& in_menu_corner(end) ==> actions[1] == RemoteAction::ShowScreenMenu
        }),
{
}

} // verus!
