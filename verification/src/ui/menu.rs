//! The clock and the menus of the device itself, as state machines.
use crate::geometry::Rectangle;
use crate::lcd::BacklightStep;
use crate::lists::{one, three};
use crate::text::{dec, dec_string};
use crate::touch::{SwipeDirection, TouchGesture};
use crate::ui::list::{law_touch_index_is_first_hit, list_touch_index, touch_hits, touch_index};
use crate::ui::MENU_TITLE_REFRESH_DELAY;
use vstd::prelude::*;

verus! {

pub const CLOCK_BACKLIGHT_NORMAL: u8 = 30;
/// How long the clock stays lit without a touch, in nanoseconds.
pub const CLOCK_IDLE_OFF_DELAY: u64 = 30_000_000_000;
/// A second, in nanoseconds.
pub const SECOND: u64 = 1_000_000_000;

// ---------------------------------------------------------------------------------------
// The clock
// ---------------------------------------------------------------------------------------

/// The steps that light up the clock or turn it dark, in order.
pub open spec fn clock_light_steps(on: bool) -> Seq<BacklightStep> {
    if on {
        seq![
            BacklightStep::HoldSleepLock,
            BacklightStep::OpenAudio,
            BacklightStep::SetLevel(30),
        ]
    } else {
        seq![
            BacklightStep::SetLevel(0),
            BacklightStep::CloseAudio,
            BacklightStep::ReleaseSleepLock,
        ]
    }
}

/// The steps that light up the clock or turn it dark, in order. A failure of the audio is
/// let go; any other ends all.
pub fn set_clock_screen_on(on: bool) -> (r: Vec<BacklightStep>)
    ensures
        r@ == clock_light_steps(on),
{
    if on {
        three(
            BacklightStep::HoldSleepLock,
            BacklightStep::OpenAudio,
            BacklightStep::SetLevel(CLOCK_BACKLIGHT_NORMAL),
        )
    } else {
        three(
            BacklightStep::SetLevel(0),
            BacklightStep::CloseAudio,
            BacklightStep::ReleaseSleepLock,
        )
    }
}

/// The clock while it is shown. Times are nanoseconds.
#[derive(Debug, Clone, Copy, PartialEq, Eq, Structural)]
pub struct ClockScreen {
    pub next_tick: u64,
    pub idle_off_at: u64,
    pub screen_on: bool,
}

/// What happens while the clock is shown.
#[derive(Debug, Clone, Copy, PartialEq, Eq, Structural)]
pub enum ClockEvent {
    /// A second is over.
    Tick,
    /// There was no touch for long, or the boot button was pressed.
    TurnOff,
    /// A gesture, or that there will be none any more.
    Gesture(Option<TouchGesture>),
}

/// A thing to do while the clock is shown.
#[derive(Debug, Clone, Copy, PartialEq, Eq, Structural)]
pub enum ClockAction {
    Show,
    ScreenOn,
    ScreenOff,
    CancelGesture,
    /// Leave the clock.
    Leave,
    /// The touches have ended: fail.
    TouchClosed,
}

impl ClockScreen {
    /// The clock as it is first shown at `now`, lit.
    pub fn new(now: u64) -> (r: Self)
        requires
            now + CLOCK_IDLE_OFF_DELAY <= u64::MAX,
        ensures
            r == (ClockScreen {
                next_tick: (now + 1_000_000_000) as u64,
                idle_off_at: (now + 30_000_000_000) as u64,
                screen_on: true,
            }),
    {
        ClockScreen {
            next_tick: now + SECOND,
            idle_off_at: now + CLOCK_IDLE_OFF_DELAY,
            screen_on: true,
        }
    }

    /// When the clock turns dark of itself, and whether it listens to the boot button: only
    /// while it is lit.
    pub fn turn_off_at(&self) -> (r: Option<u64>)
        ensures
            r == (if self.screen_on {
                Some(self.idle_off_at)
            } else {
                None
            }),
    {
        if self.screen_on {
            Some(self.idle_off_at)
        } else {
            None
        }
    }

    /// The clock after an event.
    pub open spec fn after_event(self, event: ClockEvent, now: u64) -> Self {
        match event {
            ClockEvent::Tick => ClockScreen {
                next_tick: (self.next_tick + 1_000_000_000) as u64,
                ..self
            },
            ClockEvent::TurnOff => ClockScreen { screen_on: false, ..self },
            ClockEvent::Gesture(None) => self,
            ClockEvent::Gesture(Some(_)) => ClockScreen {
                idle_off_at: (now + 30_000_000_000) as u64,
                screen_on: true,
                ..self
            },
        }
    }

    /// What an event comes to. A touch on the dark clock only lights it; a click on the lit
    /// one leaves it.
    pub open spec fn actions(self, event: ClockEvent) -> Seq<ClockAction> {
        match event {
            ClockEvent::Tick => if self.screen_on {
                seq![ClockAction::Show]
            } else {
                Seq::empty()
            },
            ClockEvent::TurnOff => seq![ClockAction::ScreenOff],
            ClockEvent::Gesture(None) => seq![ClockAction::TouchClosed],
            ClockEvent::Gesture(Some(gesture)) => if !self.screen_on {
                seq![ClockAction::ScreenOn, ClockAction::CancelGesture, ClockAction::Show]
            } else if gesture is Click {
                seq![ClockAction::Leave]
            } else {
                Seq::empty()
            },
        }
    }

    /// Takes an event while the clock is shown.
    pub fn on_event(&mut self, event: ClockEvent, now: u64) -> (r: Vec<ClockAction>)
        requires
            now + CLOCK_IDLE_OFF_DELAY <= u64::MAX,
            old(self).next_tick + SECOND <= u64::MAX,
        ensures
            *final(self) == old(self).after_event(event, now),
            r@ == old(self).actions(event),
    {
        match event {
            ClockEvent::Tick => {
                self.next_tick = self.next_tick + SECOND;
                if self.screen_on {
                    one(ClockAction::Show)
                } else {
                    Vec::new()
                }
            },
            ClockEvent::TurnOff => {
                self.screen_on = false;
                one(ClockAction::ScreenOff)
            },
            ClockEvent::Gesture(gesture) => {
                let gesture = match gesture {
                    Some(gesture) => gesture,
                    None => return one(ClockAction::TouchClosed),
                };
                self.idle_off_at = now + CLOCK_IDLE_OFF_DELAY;
                if !self.screen_on {
                    self.screen_on = true;
                    return three(
                        ClockAction::ScreenOn,
                        ClockAction::CancelGesture,
                        ClockAction::Show,
                    );
                }
                if matches!(gesture, TouchGesture::Click { .. }) {
                    one(ClockAction::Leave)
                } else {
                    Vec::new()
                }
            },
        }
    }
}

// ---------------------------------------------------------------------------------------
// Menus
// ---------------------------------------------------------------------------------------

#[derive(Debug, Clone, Copy, PartialEq, Eq, Structural)]
pub enum MainMenuSelection {
    Clock,
    Remote,
    Setting,
}

#[derive(Debug, Clone, Copy, PartialEq, Eq, Structural)]
pub enum SettingMenuSelection {
    Ota,
    SyncTime,
    Ble,
    Back,
}

/// What follows a gesture on a menu.
#[derive(Debug, Clone, Copy, PartialEq, Eq, Structural)]
pub enum SelectNext {
    /// Wait on.
    Wait,
    /// This entry was chosen.
    Picked(usize),
    /// The touches have ended: fail.
    TouchClosed,
}

/// The entry that a gesture chooses: the one that was pressed and released.
pub open spec fn chosen(gesture: TouchGesture, rects: Seq<Rectangle>) -> Option<int> {
    match gesture {
        TouchGesture::Click { start, end } => match touch_index(start, rects) {
            Some(i) => if touch_index(end, rects) == Some(i) {
                Some(i)
            } else {
                None
            },
            None => None,
        },
        _ => None,
    }
}

/// Takes a gesture, or that there will be none any more, on a menu with entries at `rects`.
pub fn select_menu_item(gesture: Option<TouchGesture>, rects: &[Rectangle]) -> (r: SelectNext)
    ensures
        match r {
            SelectNext::TouchClosed => gesture is None,
            SelectNext::Picked(i) => gesture is Some && chosen(gesture->0, rects@) == Some(
                i as int,
            ) && i < rects@.len(),
            SelectNext::Wait => gesture is Some && chosen(gesture->0, rects@) is None,
        },
{
    match gesture {
        None => SelectNext::TouchClosed,
        Some(TouchGesture::Click { start, end }) => {
            let press_index = list_touch_index(start, rects);
            let release_index = list_touch_index(end, rects);
            match (press_index, release_index) {
                (Some(p), Some(q)) => if p == q {
                    SelectNext::Picked(p)
                } else {
                    SelectNext::Wait
                },
                _ => SelectNext::Wait,
            }
        },
        Some(_) => SelectNext::Wait,
    }
}

/// The words of the entries of the settings menu.
pub open spec fn setting_labels() -> Seq<Seq<char>> {
    seq!["OTA Update"@, "Sync Time"@, "Enable BLE"@, "Back"@]
}

/// The entries of the settings menu.
pub fn setting_menu_items() -> (r: Vec<(String, bool)>)
    ensures
        r@.len() == 4,
        r@[0].0@ == setting_labels()[0],
        r@[1].0@ == setting_labels()[1],
        r@[2].0@ == setting_labels()[2],
        r@[3].0@ == setting_labels()[3],
        forall|i: int| 0 <= i < 4 ==> !(#[trigger] r@[i]).1,
{
    let mut items: Vec<(String, bool)> = Vec::new();
    items.push(("OTA Update".to_string(), false));
    items.push(("Sync Time".to_string(), false));
    items.push(("Enable BLE".to_string(), false));
    items.push(("Back".to_string(), false));
    items
}

/// What an entry of the settings menu stands for.
pub open spec fn setting_choice(index: int) -> SettingMenuSelection {
    if index == 0 {
        SettingMenuSelection::Ota
    } else if index == 1 {
        SettingMenuSelection::SyncTime
    } else if index == 2 {
        SettingMenuSelection::Ble
    } else {
        SettingMenuSelection::Back
    }
}

/// What an entry of the settings menu stands for.
pub fn setting_menu(index: usize) -> (r: SettingMenuSelection)
    requires
        index < 4,
    ensures
        r == setting_choice(index as int),
{
    match index {
        0 => SettingMenuSelection::Ota,
        1 => SettingMenuSelection::SyncTime,
        2 => SettingMenuSelection::Ble,
        _ => SettingMenuSelection::Back,
    }
}

/// The words of the entries of the main menu.
pub open spec fn main_labels() -> Seq<Seq<char>> {
    seq!["Remote"@, "Setting"@]
}

/// The entries of the main menu.
pub fn main_menu_items() -> (r: Vec<(String, bool)>)
    ensures
        r@.len() == 2,
        r@[0].0@ == main_labels()[0],
        r@[1].0@ == main_labels()[1],
        !r@[0].1 && !r@[1].1,
{
    let mut items: Vec<(String, bool)> = Vec::new();
    items.push(("Remote".to_string(), false));
    items.push(("Setting".to_string(), false));
    items
}

/// The title of the main menu, with the battery's charge.
pub open spec fn main_title(percent: Option<u8>) -> Seq<char> {
    match percent {
        Some(p) => "Main: Battery "@ + dec(p as nat) + "%"@,
        None => "Main: Battery --"@,
    }
}

/// The title of the main menu, with the battery's charge.
pub fn main_menu_title(percent: Option<u8>) -> (r: String)
    ensures
        r@ == main_title(percent),
{
    match percent {
        Some(p) => {
            let mut out: String = "Main: Battery ".to_string();
            out.append(dec_string(p as u64).as_str());
            out.append("%");
            out
        },
        None => "Main: Battery --".to_string(),
    }
}

/// What an entry of the main menu stands for.
pub open spec fn main_choice(index: int) -> MainMenuSelection {
    if index == 0 {
        MainMenuSelection::Remote
    } else {
        MainMenuSelection::Setting
    }
}

/// The main menu while it is shown. Times are nanoseconds.
#[derive(Debug)]
pub struct MainMenu {
    pub title: String,
    pub next_title_refresh: u64,
}

/// What follows in the main menu.
#[derive(Debug)]
pub enum MainMenuNext {
    /// Wait on.
    Wait,
    /// Draw this title, and wait on.
    RefreshTitle(String),
    /// Leave the menu with this choice.
    Selected(MainMenuSelection),
    /// The touches have ended: fail.
    TouchClosed,
}

impl MainMenu {
    /// The menu as it is first shown.
    pub fn new(title: String, now: u64) -> (r: Self)
        requires
            now + MENU_TITLE_REFRESH_DELAY <= u64::MAX,
        ensures
            r == (MainMenu { title, next_title_refresh: (now + 60_000_000_000) as u64 }),
    {
        MainMenu { title, next_title_refresh: now + MENU_TITLE_REFRESH_DELAY }
    }

    /// The title is due; it is drawn where it changed.
    pub fn on_title_due(&mut self, title: String, now: u64) -> (r: MainMenuNext)
        requires
            now + MENU_TITLE_REFRESH_DELAY <= u64::MAX,
        ensures
            final(self).title@ == title@,
            final(self).next_title_refresh == now + 60_000_000_000,
            title@ == old(self).title@ ==> r is Wait,
            title@ != old(self).title@ ==> (r matches MainMenuNext::RefreshTitle(t) && t@ == title@),
    {
        self.next_title_refresh = now + MENU_TITLE_REFRESH_DELAY;
        if title != self.title {
            self.title = title.clone();
            MainMenuNext::RefreshTitle(title)
        } else {
            MainMenuNext::Wait
        }
    }

    /// Whether a gesture, or the end of gestures, is answered so.
    pub open spec fn is_answer(
        gesture: Option<TouchGesture>,
        rects: Seq<Rectangle>,
        r: MainMenuNext,
    ) -> bool {
        match gesture {
            None => r is TouchClosed,
            Some(g) => match chosen(g, rects) {
                Some(i) => r == MainMenuNext::Selected(main_choice(i)),
                None => if g matches TouchGesture::Swipe {
                    direction: SwipeDirection::Right,
                    ..
                } {
                    r == MainMenuNext::Selected(MainMenuSelection::Clock)
                } else {
                    r is Wait
                },
            },
        }
    }

    /// Takes a gesture, or that there will be none any more: a click on an entry chooses it,
    /// a swipe to the right goes back to the clock.
    pub fn on_gesture(&self, gesture: Option<TouchGesture>, rects: &[Rectangle]) -> (r:
        MainMenuNext)
        requires
            rects@.len() <= 2,
        ensures
            MainMenu::is_answer(gesture, rects@, r),
    {
        match select_menu_item(gesture, rects) {
            SelectNext::TouchClosed => MainMenuNext::TouchClosed,
            SelectNext::Picked(i) => if i == 0 {
                MainMenuNext::Selected(MainMenuSelection::Remote)
            } else {
                MainMenuNext::Selected(MainMenuSelection::Setting)
            },
            SelectNext::Wait => match gesture {
                Some(TouchGesture::Swipe { direction, .. }) => if direction
                    == SwipeDirection::Right {
                    MainMenuNext::Selected(MainMenuSelection::Clock)
                } else {
                    MainMenuNext::Wait
                },
                _ => MainMenuNext::Wait,
            },
        }
    }
}

// ---------------------------------------------------------------------------------------
// Laws
// ---------------------------------------------------------------------------------------

/// Lighting up the clock keeps the device awake first and sets the light last, turning it dark
/// takes the light first and lets the device sleep last: each step of the one undoes a step of
/// the other, in the reverse order.
pub proof fn law_clock_light_is_undone_in_reverse()
    ensures
        clock_light_steps(true).len() == 3 && clock_light_steps(false).len() == 3,
        clock_light_steps(true)[0] == BacklightStep::HoldSleepLock,
        clock_light_steps(false)[2] == BacklightStep::ReleaseSleepLock,
        clock_light_steps(true)[1] == BacklightStep::OpenAudio,
        clock_light_steps(false)[1] == BacklightStep::CloseAudio,
        clock_light_steps(true)[2] matches BacklightStep::SetLevel(n) && 0 < n <= 100,
        clock_light_steps(false)[0] == BacklightStep::SetLevel(0),
{
}

/// The lit clock is drawn every second, goes dark half a minute after the last touch or by the
/// boot button, and is left by a click alone; the dark one is not drawn, and a touch of any kind
/// lights it and does nothing else.
pub proof fn law_clock_wakes_before_it_is_left(
    s: ClockScreen,
    gesture: TouchGesture,
    now: u64,
)
    requires
        now + CLOCK_IDLE_OFF_DELAY <= u64::MAX,
        s.next_tick + SECOND <= u64::MAX,
    ensures
        ({
            let touched = s.after_event(ClockEvent::Gesture(Some(gesture)), now);
            let actions = s.actions(ClockEvent::Gesture(Some(gesture)));
            let dark = s.after_event(ClockEvent::TurnOff, now);
            &&& s.actions(ClockEvent::Tick).contains(ClockAction::Show) <==> s.screen_on
            &&& s.actions(ClockEvent::Tick).len() <= 1
            &&& s.after_event(ClockEvent::Tick, now).next_tick == s.next_tick + 1_000_000_000
            &&& s.after_event(ClockEvent::Tick, now).screen_on == s.screen_on
            &&& !dark.screen_on && s.actions(ClockEvent::TurnOff) == seq![ClockAction::ScreenOff]
            &&& touched.screen_on && touched.idle_off_at == now + 30 * SECOND
            &&& actions.contains(ClockAction::Leave) <==> s.screen_on && gesture is Click
            &&& actions.contains(ClockAction::ScreenOn) <==> !s.screen_on
            &&& !s.screen_on ==> actions.len() == 3 && actions[0] == ClockAction::ScreenOn
                && actions[1] == ClockAction::CancelGesture && actions[2] == ClockAction::Show
            &&& s.screen_on && !(gesture is Click) ==> actions.len() == 0
        }),
        s.actions(ClockEvent::Gesture(None)) == seq![ClockAction::TouchClosed],
{
    let actions = s.actions(ClockEvent::Gesture(Some(gesture)));
    if actions.len() > 0 {
        assert(actions.contains(actions[0]));
    }
    if s.screen_on {
        assert(s.actions(ClockEvent::Tick)[0] == ClockAction::Show);
    }
}

/// A click chooses the entry on which the finger was put down and lifted, and no other gesture
/// chooses one; on the main menu each entry leads to what its words say, and a swipe to the
/// right, and nothing else, to the clock.
pub proof fn law_main_menu_does_what_it_says(
    gesture: TouchGesture,
    rects: Seq<Rectangle>,
    r: MainMenuNext,
)
    requires
        rects.len() <= 2,
        MainMenu::is_answer(Some(gesture), rects, r),
    ensures
        chosen(gesture, rects) matches Some(i) ==> {
            &&& 0 <= i < rects.len()
            &&& gesture matches TouchGesture::Click { start, end } && touch_hits(rects[i], start)
                && touch_hits(rects[i], end)
            &&& main_labels()[i] == "Remote"@ <==> r == MainMenuNext::Selected(
                MainMenuSelection::Remote,
            )
            &&& main_labels()[i] == "Setting"@ <==> r == MainMenuNext::Selected(
                MainMenuSelection::Setting,
            )
        },
        r == MainMenuNext::Selected(MainMenuSelection::Clock) <==> (
        gesture matches TouchGesture::Swipe { direction: SwipeDirection::Right, .. }),
        r is Selected ==> gesture is Click || gesture is Swipe,
        !(r is TouchClosed),
{
    reveal_strlit("Remote");
    reveal_strlit("Setting");
    assert("Remote"@.len() != "Setting"@.len());
    match gesture {
        TouchGesture::Click { start, end } => {
            law_touch_index_is_first_hit(start, rects);
            law_touch_index_is_first_hit(end, rects);
        },
        _ => {},
    }
}

/// Each entry of the settings menu stands for what its words say.
pub proof fn law_settings_do_what_they_say(index: int)
    requires
        0 <= index < 4,
    ensures
        setting_choice(index) == SettingMenuSelection::Ota <==> setting_labels()[index]
            == "OTA Update"@,
        setting_choice(index) == SettingMenuSelection::SyncTime <==> setting_labels()[index]
            == "Sync Time"@,
        setting_choice(index) == SettingMenuSelection::Ble <==> setting_labels()[index]
            == "Enable BLE"@,
        setting_choice(index) == SettingMenuSelection::Back <==> setting_labels()[index]
            == "Back"@,
{
    reveal_strlit("OTA Update");
    reveal_strlit("Sync Time");
    reveal_strlit("Enable BLE");
    reveal_strlit("Back");
    assert("OTA Update"@[0] == 'O' && "Sync Time"@[0] == 'S' && "Enable BLE"@[0] == 'E');
    assert("Back"@[0] == 'B');
}

} // verus!
