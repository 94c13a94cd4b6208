//! The menus of the remote screens.
use super::{
    all_idle, battery_text, idle_shutdown_title, key_text, power_menu_label, sessions_are_all_idle, Key,
    OnFailure, RemoteAction, SessionLabel, IDLE_SHUTDOWN_COUNTDOWN_SECS,
};
use crate::app::{
    apply_scroll_delta, goes_back, is_back_swipe, is_vertical, list_scroll_delta, scroll_delta,
    scrolled_offset,
};
use crate::geometry::{Point, Rectangle, Size};
use crate::lcd::{TouchEvent, TouchPoint, LCD_HEIGHT, LCD_WIDTH};
use crate::lists::one;
use crate::mqtt::MqttEvent;
use crate::remote::picker::page;
use crate::text::dec;
use crate::ui::draw::{rect, UiColor, TEXT_LIGHT};
use crate::ui::list::{
    law_touch_index_is_first_hit, list_touch_index, menu_item_rect, menu_place, touch_hits,
    touch_index, ListItem,
};
use crate::ui::theme::{terminal_theme_count, terminal_theme_label_at, theme_at, theme_name};
use vstd::prelude::*;

verus! {

/// What the boot menu is left with.
#[derive(Debug, Clone, Copy, PartialEq, Eq, Structural)]
pub enum BootMenuAction {
    Restart,
    PowerOff,
    ScreenOff,
    ToggleSound,
    Theme,
    Back,
}

/// What follows on a menu.
#[derive(Debug, Clone, Copy, PartialEq, Eq, Structural)]
pub enum MenuNext {
    /// Wait on.
    Wait,
    /// This entry was chosen.
    Picked(usize),
    /// The menu was left without a choice.
    Dismissed,
    /// The touches have ended: fail.
    TouchClosed,
    /// The messages have ended: fail.
    MqttClosed,
}

// ---------------------------------------------------------------------------------------
// Choosing from a menu over a session's screen
// ---------------------------------------------------------------------------------------

/// The entry on which a finger was put down, on a menu over a session's screen.
#[derive(Debug, Clone, Copy, PartialEq, Eq, Structural)]
pub struct ScreenMenuPress {
    pub press_index: Option<usize>,
}

/// An index as the entry it stands for.
pub open spec fn entry(index: Option<usize>) -> Option<int> {
    match index {
        Some(i) => Some(i as int),
        None => None,
    }
}

impl ScreenMenuPress {
    /// Whether a touch, or the end of touches, leads to this finger and this outcome.
    pub open spec fn is_touched(
        self,
        touch: Option<TouchEvent>,
        rects: Seq<Rectangle>,
        after: Self,
        r: MenuNext,
    ) -> bool {
        match touch {
            None => r == MenuNext::TouchClosed && after == self,
            Some(TouchEvent::Press(point)) => {
                &&& r == MenuNext::Wait
                &&& entry(after.press_index) == (if self.press_index is None {
                    touch_index(point, rects)
                } else {
                    entry(self.press_index)
                })
            },
            Some(TouchEvent::Release(point)) => match self.press_index {
                Some(i) => if touch_index(point, rects) == Some(i as int) {
                    r == MenuNext::Picked(i) && after == self
                } else {
                    r == MenuNext::Wait && after.press_index is None
                },
                None => if touch_index(point, rects) is None {
                    r == MenuNext::Dismissed && after == self
                } else {
                    r == MenuNext::Wait && after.press_index is None
                },
            },
        }
    }

    /// No finger.
    pub fn new() -> (r: Self)
        ensures
            r.press_index is None,
    {
        ScreenMenuPress { press_index: None }
    }

    /// Takes a touch, or that there will be none any more, on a menu with entries at `rects`.
    /// Lifting the finger on the entry it was put down on chooses it; putting it down and
    /// lifting it beside all entries leaves the menu.
    pub fn on_touch(&mut self, touch: Option<TouchEvent>, rects: &[Rectangle]) -> (r: MenuNext)
        ensures
            old(self).is_touched(touch, rects@, *final(self), r),
    {
        match touch {
            None => MenuNext::TouchClosed,
            Some(TouchEvent::Press(point)) => {
                if self.press_index.is_none() {
                    self.press_index = list_touch_index(point, rects);
                }
                MenuNext::Wait
            },
            Some(TouchEvent::Release(point)) => {
                let release_index = list_touch_index(point, rects);
                match (self.press_index, release_index) {
                    (Some(i), Some(j)) => {
                        if i == j {
                            return MenuNext::Picked(i);
                        }
                    },
                    (None, None) => return MenuNext::Dismissed,
                    _ => {},
                }
                self.press_index = None;
                MenuNext::Wait
            },
        }
    }
}

// ---------------------------------------------------------------------------------------
// Choosing from a list
// ---------------------------------------------------------------------------------------

/// Where a finger was put down on a list, and on which entry.
#[derive(Debug, Clone, Copy, PartialEq, Eq, Structural)]
pub struct ListPress {
    pub press_touch: Option<TouchPoint>,
    pub press_index: Option<usize>,
}

impl ListPress {
    /// Whether a touch, or the end of touches, leads to this finger and this outcome.
    pub open spec fn is_touched(
        self,
        touch: Option<TouchEvent>,
        rects: Seq<Rectangle>,
        after: Self,
        r: MenuNext,
    ) -> bool {
        match touch {
            None => r == MenuNext::TouchClosed && after == self,
            Some(TouchEvent::Press(point)) => {
                &&& r == MenuNext::Wait
                &&& after.press_touch == (if self.press_touch is None {
                    Some(point)
                } else {
                    self.press_touch
                })
                &&& entry(after.press_index) == (if self.press_index is None {
                    touch_index(point, rects)
                } else {
                    entry(self.press_index)
                })
            },
            Some(TouchEvent::Release(point)) => {
                &&& after.press_touch is None
                &&& if self.press_touch matches Some(start) && goes_back(start, point) {
                    r == MenuNext::Dismissed && after.press_index == self.press_index
                } else if self.press_index is Some && touch_index(point, rects) == entry(
                    self.press_index,
                ) {
                    r == MenuNext::Picked(self.press_index->0) && after.press_index
                        == self.press_index
                } else {
                    r == MenuNext::Wait && after.press_index is None
                }
            },
        }
    }

    /// No finger.
    pub fn new() -> (r: Self)
        ensures
            r == (ListPress { press_touch: None, press_index: None }),
    {
        ListPress { press_touch: None, press_index: None }
    }

    /// Takes a touch, or that there will be none any more, on a list with entries at `rects`.
    /// A swipe to the right leaves the list; lifting the finger on the entry it was put down
    /// on chooses it.
    pub fn on_touch(&mut self, touch: Option<TouchEvent>, rects: &[Rectangle]) -> (r: MenuNext)
        ensures
            old(self).is_touched(touch, rects@, *final(self), r),
    {
        match touch {
            None => MenuNext::TouchClosed,
            Some(TouchEvent::Press(point)) => {
                if self.press_touch.is_none() {
                    self.press_touch = Some(point);
                }
                if self.press_index.is_none() {
                    self.press_index = list_touch_index(point, rects);
                }
                MenuNext::Wait
            },
            Some(TouchEvent::Release(point)) => {
                if let Some(start) = self.press_touch {
                    self.press_touch = None;
                    if is_back_swipe(start, point) {
                        return MenuNext::Dismissed;
                    }
                }
                let release_index = list_touch_index(point, rects);
                match (self.press_index, release_index) {
                    (Some(i), Some(j)) => {
                        if i == j {
                            return MenuNext::Picked(i);
                        }
                    },
                    _ => {},
                }
                self.press_index = None;
                MenuNext::Wait
            },
        }
    }
}

/// What a message, or the end of messages, means to a menu: only the end does anything.
pub fn menu_message(event: &Option<MqttEvent>) -> (r: MenuNext)
    ensures
        r == (if event is None {
            MenuNext::MqttClosed
        } else {
            MenuNext::Wait
        }),
{
    match event {
        None => MenuNext::MqttClosed,
        Some(_) => MenuNext::Wait,
    }
}

// ---------------------------------------------------------------------------------------
// The boot menu
// ---------------------------------------------------------------------------------------

/// What follows a choice in the boot menu.
#[derive(Debug, Clone, Copy, PartialEq, Eq, Structural)]
pub enum BootMenuNext {
    /// Show the power menu.
    OpenPowerMenu,
    /// Leave with this.
    Leave(BootMenuAction),
    /// Show the boot menu again.
    Again,
}

/// Whether an entry of a boot menu shows a text at a place in a colour.
pub open spec fn is_boot_item(item: ListItem, index: int, text: Seq<char>, bg: UiColor) -> bool {
    &&& item.rect == menu_place(index, 2)->0
    &&& item.text@ == text
    &&& item.border_color == Some(bg)
    &&& item.fg_color == Some(TEXT_LIGHT)
}

/// An entry of a boot menu.
pub fn boot_menu_item(index: usize, text: &str, bg: UiColor) -> (r: ListItem)
    requires
        index < 8,
    ensures
        is_boot_item(r, index as int, text@, bg),
{
    let place = match menu_item_rect(index) {
        Some(place) => place,
        None => Rectangle::new(Point::new(0, 0), Size::new(0, 0)),
    };
    ListItem::new(place, text.to_string(), Some(bg), Some(TEXT_LIGHT))
}

/// The words of the entry that turns the sound over: what choosing it leads to.
pub open spec fn sound_words(audio_prompt_enabled: bool) -> Seq<char> {
    if audio_prompt_enabled {
        "Sound Off"@
    } else {
        "Sound On"@
    }
}

/// The entries of the boot menu: the power menu with the battery's charge, the sound to
/// switch over, the theme that is set, and back.
pub fn boot_menu_items(
    battery_percent: Option<u8>,
    audio_prompt_enabled: bool,
    theme_label: &str,
) -> (r: Vec<ListItem>)
    ensures
        r@.len() == 4,
        is_boot_item(
            r@[0],
            0,
            battery_text("Power: "@, battery_percent),
            UiColor::DarkOrange,
        ),
        is_boot_item(r@[1], 1, sound_words(audio_prompt_enabled), UiColor::Green),
        is_boot_item(r@[2], 2, "Theme: "@ + theme_label@, UiColor::SteelBlue),
        is_boot_item(r@[3], 3, "Back"@, UiColor::Black),
{
    let sound_label = if audio_prompt_enabled {
        "Sound Off"
    } else {
        "Sound On"
    };
    let mut theme: String = "Theme: ".to_string();
    theme.append(theme_label);
    let mut items: Vec<ListItem> = Vec::new();
    items.push(
        boot_menu_item(0, power_menu_label(battery_percent).as_str(), UiColor::DarkOrange),
    );
    items.push(boot_menu_item(1, sound_label, UiColor::Green));
    items.push(boot_menu_item(2, theme.as_str(), UiColor::SteelBlue));
    items.push(boot_menu_item(3, "Back", UiColor::Black));
    items
}

/// What a choice in the boot menu leads to; no choice leads back.
pub fn boot_menu_choice(index: Option<usize>) -> (r: BootMenuNext)
    requires
        index matches Some(i) ==> i < 4,
    ensures
        r == (match index {
            Some(0) => BootMenuNext::OpenPowerMenu,
            Some(1) => BootMenuNext::Leave(BootMenuAction::ToggleSound),
            Some(2) => BootMenuNext::Leave(BootMenuAction::Theme),
            _ => BootMenuNext::Leave(BootMenuAction::Back),
        }),
{
    match index {
        Some(0) => BootMenuNext::OpenPowerMenu,
        Some(1) => BootMenuNext::Leave(BootMenuAction::ToggleSound),
        Some(2) => BootMenuNext::Leave(BootMenuAction::Theme),
        _ => BootMenuNext::Leave(BootMenuAction::Back),
    }
}

/// The words of the power menu's entries.
pub open spec fn power_labels() -> Seq<Seq<char>> {
    seq!["Reboot"@, "Power Off"@, "Screen Off"@, "Back"@]
}

/// The entries of the power menu.
pub fn power_menu_items() -> (r: Vec<ListItem>)
    ensures
        r@.len() == 4,
        is_boot_item(r@[0], 0, power_labels()[0], UiColor::DarkOrange),
        is_boot_item(r@[1], 1, power_labels()[1], UiColor::Red),
        is_boot_item(r@[2], 2, power_labels()[2], UiColor::Gray),
        is_boot_item(r@[3], 3, power_labels()[3], UiColor::Black),
{
    let mut items: Vec<ListItem> = Vec::new();
    items.push(boot_menu_item(0, "Reboot", UiColor::DarkOrange));
    items.push(boot_menu_item(1, "Power Off", UiColor::Red));
    items.push(boot_menu_item(2, "Screen Off", UiColor::Gray));
    items.push(boot_menu_item(3, "Back", UiColor::Black));
    items
}

/// What a choice in the power menu stands for; no choice leads back.
pub fn power_menu_choice(index: Option<usize>) -> (r: BootMenuAction)
    requires
        index matches Some(i) ==> i < 4,
    ensures
        r == (match index {
            Some(0) => BootMenuAction::Restart,
            Some(1) => BootMenuAction::PowerOff,
            Some(2) => BootMenuAction::ScreenOff,
            _ => BootMenuAction::Back,
        }),
{
    match index {
        Some(0) => BootMenuAction::Restart,
        Some(1) => BootMenuAction::PowerOff,
        Some(2) => BootMenuAction::ScreenOff,
        _ => BootMenuAction::Back,
    }
}

/// What follows when the power menu was left: back from it leads to the boot menu.
pub fn power_menu_left(action: BootMenuAction) -> (r: BootMenuNext)
    ensures
        r == (if action == BootMenuAction::Back {
            BootMenuNext::Again
        } else {
            BootMenuNext::Leave(action)
        }),
{
    if action == BootMenuAction::Back {
        BootMenuNext::Again
    } else {
        BootMenuNext::Leave(action)
    }
}

/// A step of showing the boot menu.
#[derive(Debug, Clone, Copy, PartialEq, Eq, Structural)]
pub enum BootMenuStep {
    /// Show the menu without entries.
    ShowEmpty,
    /// Wait until the finger that opened the menu is lifted.
    WaitRelease,
    /// Let an entry of the boot menu be chosen.
    SelectSystem,
    /// Let an entry of the power menu be chosen.
    SelectPower,
    /// Leave with this.
    Leave(BootMenuAction),
}

/// The step that follows in showing the boot menu, where `last` is the last step with the entry
/// that was chosen in it, if one was.
pub open spec fn boot_menu_step(last: Option<(BootMenuStep, Option<usize>)>) -> BootMenuStep {
    match last {
        None => BootMenuStep::ShowEmpty,
        Some((BootMenuStep::ShowEmpty, _)) => BootMenuStep::WaitRelease,
        Some((BootMenuStep::WaitRelease, _)) => BootMenuStep::SelectSystem,
        Some((BootMenuStep::SelectSystem, index)) => match index {
            Some(0) => BootMenuStep::SelectPower,
            Some(1) => BootMenuStep::Leave(BootMenuAction::ToggleSound),
            Some(2) => BootMenuStep::Leave(BootMenuAction::Theme),
            _ => BootMenuStep::Leave(BootMenuAction::Back),
        },
        Some((BootMenuStep::SelectPower, index)) => match index {
            Some(0) => BootMenuStep::Leave(BootMenuAction::Restart),
            Some(1) => BootMenuStep::Leave(BootMenuAction::PowerOff),
            Some(2) => BootMenuStep::Leave(BootMenuAction::ScreenOff),
            _ => BootMenuStep::SelectSystem,
        },
        Some((BootMenuStep::Leave(action), _)) => BootMenuStep::Leave(action),
    }
}

/// Shows the boot menu step by step: it is shown without entries until the finger that opened
/// it is lifted; back from the power menu leads to it again.
pub fn show_boot_menu(last: Option<(BootMenuStep, Option<usize>)>) -> (r: BootMenuStep)
    requires
        last matches Some((_, Some(index))) ==> index < 4,
    ensures
        r == boot_menu_step(last),
{
    match last {
        None => BootMenuStep::ShowEmpty,
        Some((step, index)) => match step {
            BootMenuStep::ShowEmpty => BootMenuStep::WaitRelease,
            BootMenuStep::WaitRelease => BootMenuStep::SelectSystem,
            BootMenuStep::SelectSystem => match boot_menu_choice(index) {
                BootMenuNext::OpenPowerMenu => BootMenuStep::SelectPower,
                BootMenuNext::Leave(action) => BootMenuStep::Leave(action),
                BootMenuNext::Again => BootMenuStep::SelectSystem,
            },
            BootMenuStep::SelectPower => match power_menu_left(power_menu_choice(index)) {
                BootMenuNext::OpenPowerMenu => BootMenuStep::SelectPower,
                BootMenuNext::Leave(action) => BootMenuStep::Leave(action),
                BootMenuNext::Again => BootMenuStep::SelectSystem,
            },
            BootMenuStep::Leave(action) => BootMenuStep::Leave(action),
        },
    }
}

/// The step that is reached after some choices.
pub open spec fn boot_menu_after(choices: Seq<Option<usize>>) -> BootMenuStep
    decreases choices.len(),
{
    if choices.len() == 0 {
        boot_menu_step(None)
    } else {
        boot_menu_step(Some((boot_menu_after(choices.drop_last()), choices.last())))
    }
}

/// Nothing can be chosen in the boot menu before the finger that opened it was lifted: the two
/// steps before the first choice are the empty menu and the wait, whatever is touched meanwhile.
pub proof fn law_boot_menu_waits_for_release(choices: Seq<Option<usize>>)
    ensures
        choices.len() == 0 ==> boot_menu_after(choices) == BootMenuStep::ShowEmpty,
        choices.len() == 1 ==> boot_menu_after(choices) == BootMenuStep::WaitRelease,
        choices.len() >= 2 ==> boot_menu_after(choices) != BootMenuStep::ShowEmpty
            && boot_menu_after(choices) != BootMenuStep::WaitRelease,
    decreases choices.len(),
{
    if choices.len() > 0 {
        law_boot_menu_waits_for_release(choices.drop_last());
    }
}

// ---------------------------------------------------------------------------------------
// The theme picker
// ---------------------------------------------------------------------------------------

/// The list of themes while it is open.
#[derive(Debug)]
pub struct ThemePicker {
    pub item_rects: Vec<Rectangle>,
    pub scroll_offset: usize,
    pub press_touch: Option<TouchPoint>,
}

/// What follows on the list of themes.
#[derive(Debug, Clone, Copy, PartialEq, Eq, Structural)]
pub enum ThemeNext {
    /// Wait on.
    Wait,
    /// Draw the list again, and wait on.
    Render,
    /// This theme was chosen.
    Picked(usize),
    /// The list was left without a choice.
    Leave,
}

/// The entries of the list of themes: the themes, the one that is set marked, and back.
pub open spec fn is_theme_item(item: (String, bool), index: int, current: int) -> bool {
    if index < 8 {
        item.0@ == theme_name(theme_at(index)) && item.1 == (index == current)
    } else {
        item.0@ == "Back"@ && !item.1
    }
}

/// The entries of the list of themes from a scroll position on.
pub fn theme_items(current: usize, scroll_offset: usize) -> (r: Vec<(String, bool)>)
    ensures
        r@.len() == (if scroll_offset <= 9 {
            9 - scroll_offset
        } else {
            0
        }),
        forall|i: int|
            0 <= i < r@.len() ==> is_theme_item(
                #[trigger] r@[i],
                scroll_offset + i,
                current as int,
            ),
{
    let mut items: Vec<(String, bool)> = Vec::new();
    let mut index: usize = scroll_offset;
    while index < 9
        invariant
            scroll_offset <= index,
            index <= 9 || index == scroll_offset,
            items@.len() == index - scroll_offset,
            forall|i: int|
                0 <= i < items@.len() ==> is_theme_item(
                    #[trigger] items@[i],
                    scroll_offset + i,
                    current as int,
                ),
        decreases 9 - index,
    {
        if index < terminal_theme_count() {
            items.push((terminal_theme_label_at(index).to_string(), index == current));
        } else {
            items.push(("Back".to_string(), false));
        }
        index = index + 1;
    }
    items
}

impl ThemePicker {
    /// The list as it opens.
    pub fn new() -> (r: Self)
        ensures
            r.item_rects@.len() == 0,
            r.scroll_offset == 0,
            r.press_touch is None,
    {
        ThemePicker { item_rects: Vec::new(), scroll_offset: 0, press_touch: None }
    }

    /// The scroll position stays on the list, whose last entry leads back.
    pub open spec fn wf(self) -> bool {
        self.scroll_offset <= 8
    }

    /// The entry on which a finger was put down at `start` and lifted at `end`.
    pub open spec fn picked(self, start: TouchPoint, end: TouchPoint) -> Option<int> {
        match touch_index(start, self.item_rects@) {
            Some(i) => if touch_index(end, self.item_rects@) == Some(i) {
                Some(self.scroll_offset + i)
            } else {
                None
            },
            None => None,
        }
    }

    /// The scroll position after a finger was lifted.
    pub open spec fn scrolled(self, start: TouchPoint, end: TouchPoint) -> int {
        match scroll_delta(start, end) {
            Some(delta) => scrolled_offset(
                self.scroll_offset as int,
                9,
                page(self.item_rects@),
                delta,
            ),
            None => self.scroll_offset as int,
        }
    }

    /// Whether a touch, or the end of touches, leads to this list and this outcome.
    pub open spec fn is_touched(self, touch: Option<TouchEvent>, after: Self, r: ThemeNext) -> bool {
        match touch {
            None => r == ThemeNext::Leave && after == self,
            Some(TouchEvent::Press(point)) => {
                &&& r == ThemeNext::Wait
                &&& after == (ThemePicker {
                    press_touch: if self.press_touch is None {
                        Some(point)
                    } else {
                        self.press_touch
                    },
                    ..self
                })
            },
            Some(TouchEvent::Release(end)) => match self.press_touch {
                None => r == ThemeNext::Wait && after == self,
                Some(start) => {
                    &&& after == (ThemePicker {
                        press_touch: None,
                        scroll_offset: self.scrolled(start, end) as usize,
                        ..self
                    })
                    &&& r == (if scroll_delta(start, end) is Some {
                        if self.scrolled(start, end) != self.scroll_offset {
                            ThemeNext::Render
                        } else {
                            ThemeNext::Wait
                        }
                    } else {
                        match self.picked(start, end) {
                            Some(i) => if i >= 8 {
                                ThemeNext::Leave
                            } else {
                                ThemeNext::Picked(i as usize)
                            },
                            None => ThemeNext::Wait,
                        }
                    })
                },
            },
        }
    }

    /// Takes a touch, or that there will be none any more: a vertical swipe scrolls, a click
    /// on a theme chooses it, one on the entry behind the themes leaves.
    pub fn on_touch(&mut self, touch: Option<TouchEvent>) -> (r: ThemeNext)
        requires
            old(self).wf(),
        ensures
            old(self).is_touched(touch, *final(self), r),
            final(self).wf(),
    {
        let touch = match touch {
            Some(touch) => touch,
            None => return ThemeNext::Leave,
        };
        match touch {
            TouchEvent::Press(point) => {
                if self.press_touch.is_none() {
                    self.press_touch = Some(point);
                }
                ThemeNext::Wait
            },
            TouchEvent::Release(end) => {
                let start: TouchPoint = match self.press_touch {
                    Some(start) => start,
                    None => return ThemeNext::Wait,
                };
                self.press_touch = None;
                if let Some(delta) = list_scroll_delta(start, end) {
                    let rects: usize = self.item_rects.len();
                    let visible_count: usize = if rects == 0 {
                        1
                    } else {
                        rects
                    };
                    let total_items: usize = terminal_theme_count() + 1;
                    let next_offset: usize = apply_scroll_delta(
                        self.scroll_offset,
                        total_items,
                        visible_count,
                        delta,
                    );
                    if next_offset != self.scroll_offset {
                        self.scroll_offset = next_offset;
                        return ThemeNext::Render;
                    }
                    return ThemeNext::Wait;
                }
                let press_index = list_touch_index(start, self.item_rects.as_slice());
                let release_index = list_touch_index(end, self.item_rects.as_slice());
                match (press_index, release_index) {
                    (Some(i), Some(j)) => {
                        if i != j {
                            return ThemeNext::Wait;
                        }
                        if i >= terminal_theme_count() || self.scroll_offset + i
                            >= terminal_theme_count() {
                            return ThemeNext::Leave;
                        }
                        ThemeNext::Picked(self.scroll_offset + i)
                    },
                    _ => ThemeNext::Wait,
                }
            },
        }
    }

    /// What a message, or the end of messages, means to the list: only the end does anything.
    pub fn on_message(&self, event: &Option<MqttEvent>) -> (r: ThemeNext)
        ensures
            r == (if event is None {
                ThemeNext::Leave
            } else {
                ThemeNext::Wait
            }),
    {
        match event {
            None => ThemeNext::Leave,
            Some(_) => ThemeNext::Wait,
        }
    }
}

// ---------------------------------------------------------------------------------------
// The menu over a session's screen
// ---------------------------------------------------------------------------------------

/// The words of the entries of the menu over a session's screen.
pub open spec fn screen_labels() -> Seq<Seq<char>> {
    seq!["Esc"@, "Next"@, "Yolo"@, "Enter"@]
}

/// The entries of the menu over a session's screen.
pub fn screen_action_items() -> (r: Vec<(String, bool)>)
    ensures
        r@.len() == 4,
        r@[0].0@ == screen_labels()[0],
        r@[1].0@ == screen_labels()[1],
        r@[2].0@ == screen_labels()[2],
        r@[3].0@ == screen_labels()[3],
        forall|i: int| 0 <= i < 4 ==> (#[trigger] r@[i]).1,
{
    let mut items: Vec<(String, bool)> = Vec::new();
    items.push(("Esc".to_string(), true));
    items.push(("Next".to_string(), true));
    items.push(("Yolo".to_string(), true));
    items.push(("Enter".to_string(), true));
    items
}

/// The key that an entry of the menu sends.
pub open spec fn screen_action_key(index: int) -> Option<Key> {
    if index == 0 {
        Some(Key::Esc)
    } else if index == 1 {
        Some(Key::Next)
    } else if index == 2 {
        Some(Key::Yolo)
    } else if index == 3 {
        Some(Key::Enter)
    } else {
        None
    }
}

/// What a choice in the menu over a session's screen comes to: a key to send; the screen
/// drawn again where nothing was chosen.
pub open spec fn screen_choice_actions(index: Option<usize>) -> Seq<RemoteAction> {
    match index {
        None => seq![RemoteAction::RedrawCached],
        Some(i) => match screen_action_key(i as int) {
            Some(key) => seq![RemoteAction::SendKey { key, on_failure: OnFailure::Report }],
            None => Seq::empty(),
        },
    }
}

/// What a choice in the menu over a session's screen comes to.
pub fn screen_action_choice(index: Option<usize>) -> (r: Vec<RemoteAction>)
    ensures
        r@ == screen_choice_actions(index),
{
    let key = match index {
        None => return one(RemoteAction::RedrawCached),
        Some(0) => Key::Esc,
        Some(1) => Key::Next,
        Some(2) => Key::Yolo,
        Some(3) => Key::Enter,
        Some(_) => return Vec::new(),
    };
    one(RemoteAction::SendKey { key, on_failure: OnFailure::Report })
}

/// What follows when the key was sent, or could not be: a session that shows text is drawn
/// again, another one is asked for its screen.
pub open spec fn screen_sent_actions(ok: bool, text_screen: bool) -> Seq<RemoteAction> {
    if !ok {
        Seq::empty()
    } else if text_screen {
        seq![RemoteAction::RedrawCached]
    } else {
        seq![RemoteAction::ActiveSync { close: false, on_failure: OnFailure::Ignore }]
    }
}

/// What follows when the key was sent, or could not be.
pub fn screen_action_sent(ok: bool, text_screen: bool) -> (r: Vec<RemoteAction>)
    ensures
        r@ == screen_sent_actions(ok, text_screen),
{
    if !ok {
        Vec::new()
    } else if text_screen {
        one(RemoteAction::RedrawCached)
    } else {
        one(RemoteAction::ActiveSync { close: false, on_failure: OnFailure::Ignore })
    }
}

// ---------------------------------------------------------------------------------------
// The shutdown countdown
// ---------------------------------------------------------------------------------------

/// The countdown to a shutdown while it is shown. Times are nanoseconds.
#[derive(Debug, Clone, Copy, PartialEq, Eq, Structural)]
pub struct IdlePrompt {
    pub remaining: u64,
    pub press_index: Option<usize>,
    pub next_tick: u64,
}

/// What follows in the countdown.
#[derive(Debug)]
pub enum IdleNext {
    /// Wait on.
    Wait,
    /// Draw this title, and wait on.
    RefreshTitle(String),
    /// The shutdown is cancelled.
    Cancelled,
    /// The time is up.
    Expired,
}

/// The entry that cancels the shutdown.
pub fn idle_prompt_item() -> (r: ListItem)
    ensures
        r.rect == rect(40, 370, 330, 82),
        r.text@ == "Cancel"@,
        r.border_color == Some(UiColor::DarkOrange),
        r.fg_color == Some(TEXT_LIGHT),
{
    let place = Rectangle::new(
        Point::new(40, LCD_HEIGHT as i32 - 132),
        Size::new((LCD_WIDTH - 80) as u32, 82),
    );
    ListItem::new(place, "Cancel".to_string(), Some(UiColor::DarkOrange), Some(TEXT_LIGHT))
}

impl IdlePrompt {
    /// Whether a touch, or the end of touches, leads to this countdown and this outcome.
    pub open spec fn is_touched(
        self,
        touch: Option<TouchEvent>,
        rects: Seq<Rectangle>,
        after: Self,
        r: IdleNext,
    ) -> bool {
        match touch {
            None => r is Cancelled && after == self,
            Some(TouchEvent::Press(point)) => {
                &&& r is Wait
                &&& entry(after.press_index) == (if self.press_index is None {
                    touch_index(point, rects)
                } else {
                    entry(self.press_index)
                })
            },
            Some(TouchEvent::Release(point)) => if self.press_index is Some && touch_index(
                point,
                rects,
            ) == entry(self.press_index) {
                r is Cancelled && after == self
            } else {
                r is Wait && after.press_index is None
            },
        }
    }

    /// Whether a message, or the end of messages, has this outcome.
    pub open spec fn is_told(
        event: Option<MqttEvent>,
        labels: Seq<SessionLabel>,
        r: IdleNext,
    ) -> bool {
        match event {
            None => r is Cancelled,
            Some(MqttEvent::Presence { list_changed: true, .. }) => if all_idle(labels) {
                r is Wait
            } else {
                r is Cancelled
            },
            Some(_) => r is Wait,
        }
    }

    /// The countdown as it starts.
    pub fn new(now: u64) -> (r: Self)
        requires
            now + 1_000_000_000 <= u64::MAX,
        ensures
            r == (IdlePrompt {
                remaining: 15,
                press_index: None,
                next_tick: (now + 1_000_000_000) as u64,
            }),
    {
        IdlePrompt {
            remaining: IDLE_SHUTDOWN_COUNTDOWN_SECS,
            press_index: None,
            next_tick: now + 1_000_000_000,
        }
    }

    /// The countdown after a second.
    pub open spec fn after_tick(self) -> Self {
        if self.remaining == 0 {
            self
        } else if self.remaining == 1 {
            IdlePrompt { remaining: 0, ..self }
        } else {
            IdlePrompt {
                remaining: (self.remaining - 1) as u64,
                next_tick: (self.next_tick + 1_000_000_000) as u64,
                ..self
            }
        }
    }

    /// What a second comes to: the time is up with the last one, and what remains is shown
    /// before.
    pub open spec fn is_ticked(self, r: IdleNext) -> bool {
        if self.remaining <= 1 {
            r is Expired
        } else {
            r matches IdleNext::RefreshTitle(title) && title@ == "Save battery: off in "@ + dec(
                (self.remaining - 1) as nat,
            ) + "s"@
        }
    }

    /// A second is over.
    pub fn on_tick(&mut self) -> (r: IdleNext)
        requires
            old(self).next_tick + 1_000_000_000 <= u64::MAX,
        ensures
            *final(self) == old(self).after_tick(),
            old(self).is_ticked(r),
    {
        if self.remaining == 0 {
            return IdleNext::Expired;
        }
        self.remaining = self.remaining - 1;
        if self.remaining == 0 {
            return IdleNext::Expired;
        }
        self.next_tick = self.next_tick + 1_000_000_000;
        IdleNext::RefreshTitle(idle_shutdown_title(self.remaining))
    }

    /// Takes a touch, or that there will be none any more: a click on the entry, and the end
    /// of touches, cancel.
    pub fn on_touch(&mut self, touch: Option<TouchEvent>, rects: &[Rectangle]) -> (r: IdleNext)
        ensures
            old(self).is_touched(touch, rects@, *final(self), r),
            final(self).remaining == old(self).remaining,
            final(self).next_tick == old(self).next_tick,
    {
        match touch {
            None => IdleNext::Cancelled,
            Some(TouchEvent::Press(point)) => {
                if self.press_index.is_none() {
                    self.press_index = list_touch_index(point, rects);
                }
                IdleNext::Wait
            },
            Some(TouchEvent::Release(point)) => {
                let release_index = list_touch_index(point, rects);
                match (self.press_index, release_index) {
                    (Some(i), Some(j)) => {
                        if i == j {
                            return IdleNext::Cancelled;
                        }
                    },
                    _ => {},
                }
                self.press_index = None;
                IdleNext::Wait
            },
        }
    }

    /// Takes a message, or that there will be none any more; `labels` are the sessions that
    /// are known. A session that works, and the end of messages, cancel.
    pub fn on_message(&self, event: &Option<MqttEvent>, labels: &[SessionLabel]) -> (r: IdleNext)
        ensures
            IdlePrompt::is_told(*event, labels@, r),
    {
        match event {
            None => IdleNext::Cancelled,
            Some(MqttEvent::Presence { list_changed, .. }) => {
                if *list_changed && !sessions_are_all_idle(labels) {
                    IdleNext::Cancelled
                } else {
                    IdleNext::Wait
                }
            },
            Some(_) => IdleNext::Wait,
        }
    }
}

/// The countdown after so many seconds.
pub open spec fn after_ticks(s: IdlePrompt, n: nat) -> IdlePrompt
    decreases n,
{
    if n == 0 {
        s
    } else {
        after_ticks(s, (n - 1) as nat).after_tick()
    }
}

/// The countdown runs for fifteen seconds: so long something remains, and then the time is
/// up.
pub proof fn law_countdown_takes_fifteen_seconds(s: IdlePrompt, n: nat)
    requires
        s.remaining == 15,
        n <= 15,
    ensures
        after_ticks(s, n).remaining == 15 - n,
    decreases n,
{
    if n > 0 {
        law_countdown_takes_fifteen_seconds(s, (n - 1) as nat);
    }
}

// ---------------------------------------------------------------------------------------
// Laws
// ---------------------------------------------------------------------------------------

/// On a menu over a session's screen, putting a finger down on an entry and lifting it there
/// chooses that entry; putting it down and lifting it beside all entries leaves the menu; and
/// anything between changes nothing.
pub proof fn law_screen_menu_takes_what_was_pressed(
    s: ScreenMenuPress,
    start: TouchPoint,
    end: TouchPoint,
    rects: Seq<Rectangle>,
    held: ScreenMenuPress,
    after: ScreenMenuPress,
    waited: MenuNext,
    r: MenuNext,
)
    requires
        s.press_index is None,
        s.is_touched(Some(TouchEvent::Press(start)), rects, held, waited),
        held.is_touched(Some(TouchEvent::Release(end)), rects, after, r),
    ensures
        waited == MenuNext::Wait,
        r matches MenuNext::Picked(i) ==> i < rects.len() && touch_hits(rects[i as int], start)
            && touch_hits(rects[i as int], end),
        touch_index(start, rects) is Some && touch_index(start, rects) == touch_index(end, rects)
            ==> r is Picked && r->Picked_0 == touch_index(start, rects)->0,
        r == MenuNext::Dismissed <==> touch_index(start, rects) is None && touch_index(end, rects)
            is None,
        r is Picked || r == MenuNext::Dismissed || (r == MenuNext::Wait && after.press_index
            is None),
{
    law_touch_index_is_first_hit(start, rects);
    law_touch_index_is_first_hit(end, rects);
}

/// On a list, putting a finger down on an entry and lifting it there chooses that entry, unless
/// it moved to the right, which leaves the list; nothing else does either.
pub proof fn law_list_takes_what_was_pressed(
    start: TouchPoint,
    end: TouchPoint,
    rects: Seq<Rectangle>,
    held: ListPress,
    after: ListPress,
    waited: MenuNext,
    r: MenuNext,
)
    requires
        (ListPress { press_touch: None, press_index: None }).is_touched(
            Some(TouchEvent::Press(start)),
            rects,
            held,
            waited,
        ),
        held.is_touched(Some(TouchEvent::Release(end)), rects, after, r),
    ensures
        waited == MenuNext::Wait && held.press_touch == Some(start),
        after.press_touch is None,
        r == MenuNext::Dismissed <==> goes_back(start, end),
        r matches MenuNext::Picked(i) ==> i < rects.len() && touch_hits(rects[i as int], start)
            && touch_hits(rects[i as int], end),
        touch_index(start, rects) is Some && touch_index(start, rects) == touch_index(end, rects)
            && !goes_back(start, end) ==> r is Picked && r->Picked_0 == touch_index(
            start,
            rects,
        )->0,
{
    law_touch_index_is_first_hit(start, rects);
    law_touch_index_is_first_hit(end, rects);
}

/// Each entry of the power menu leads to what its words say: what is labelled as a restart, as
/// power off and as screen off does that and nothing else does; back leads to the boot menu.
pub proof fn law_power_menu_does_what_it_says(index: usize)
    requires
        index < 4,
    ensures
        ({
            let words = power_labels()[index as int];
            let next = boot_menu_step(Some((BootMenuStep::SelectPower, Some(index))));
            &&& next == BootMenuStep::Leave(BootMenuAction::Restart) <==> words == "Reboot"@
            &&& next == BootMenuStep::Leave(BootMenuAction::PowerOff) <==> words == "Power Off"@
            &&& next == BootMenuStep::Leave(BootMenuAction::ScreenOff) <==> words == "Screen Off"@
            &&& next == BootMenuStep::SelectSystem <==> words == "Back"@
        }),
        boot_menu_step(Some((BootMenuStep::SelectPower, None))) == BootMenuStep::SelectSystem,
{
    reveal_strlit("Reboot");
    reveal_strlit("Power Off");
    reveal_strlit("Screen Off");
    reveal_strlit("Back");
    assert("Reboot"@.len() == 6 && "Power Off"@.len() == 9 && "Screen Off"@.len() == 10
        && "Back"@.len() == 4);
}

/// The boot menu leads to the power menu by its first entry alone, and the power is cut or the
/// device restarted from nowhere but there. The entry of the sound says what choosing it leads
/// to, and turns the sound over.
pub proof fn law_boot_menu_leads_to_the_power_menu(index: Option<usize>, prompt_enabled: bool)
    requires
        index matches Some(i) ==> i < 4,
    ensures
        ({
            let next = boot_menu_step(Some((BootMenuStep::SelectSystem, index)));
            &&& next == BootMenuStep::SelectPower <==> index == Some(0usize)
            &&& next != BootMenuStep::Leave(BootMenuAction::PowerOff)
            &&& next != BootMenuStep::Leave(BootMenuAction::Restart)
            &&& next != BootMenuStep::Leave(BootMenuAction::ScreenOff)
            &&& next == BootMenuStep::Leave(BootMenuAction::ToggleSound) <==> index == Some(1usize)
            &&& next == BootMenuStep::Leave(BootMenuAction::Theme) <==> index == Some(2usize)
            &&& next == BootMenuStep::Leave(BootMenuAction::Back) <==> index is None || index
                == Some(3usize)
        }),
        sound_words(prompt_enabled) == "Sound Off"@ <==> prompt_enabled,
        sound_words(prompt_enabled) == "Sound On"@ <==> !prompt_enabled,
{
    reveal_strlit("Sound Off");
    reveal_strlit("Sound On");
    assert("Sound Off"@.len() != "Sound On"@.len());
}

/// Each entry of the menu over a session's screen sends the key of its words, and reports the
/// outcome: escape, arrow down, shift and tab, and enter. Without a choice nothing is sent and
/// the screen comes back.
pub proof fn law_screen_menu_sends_the_keys_it_names(index: usize)
    requires
        index < 4,
    ensures
        ({
            let words = screen_labels()[index as int];
            let actions = screen_choice_actions(Some(index));
            &&& actions.len() == 1 && actions[0] is SendKey
            &&& actions[0]->SendKey_on_failure == OnFailure::Report
            &&& key_text(actions[0]->key) == seq!['\x1b'] <==> words == "Esc"@
            &&& key_text(actions[0]->key) == seq!['\x1b', '[', 'B'] <==> words == "Next"@
            &&& key_text(actions[0]->key) == seq!['\x1b', '[', 'Z'] <==> words == "Yolo"@
            &&& key_text(actions[0]->key) == seq!['\r'] <==> words == "Enter"@
        }),
        screen_choice_actions(None) == seq![RemoteAction::RedrawCached],
{
    reveal_strlit("Esc");
    reveal_strlit("Next");
    reveal_strlit("Yolo");
    reveal_strlit("Enter");
    assert("Esc"@.len() == 3 && "Next"@.len() == 4 && "Yolo"@.len() == 4 && "Enter"@.len() == 5);
    assert("Next"@[0] != "Yolo"@[0]);
    assert(seq!['\x1b'][0] != seq!['\r'][0]);
    assert(seq!['\x1b', '[', 'B'][2] != seq!['\x1b', '[', 'Z'][2]);
    assert(seq!['\x1b', '[', 'B'].len() == 3 && seq!['\x1b', '[', 'Z'].len() == 3);
    assert(seq!['\x1b'].len() == 1 && seq!['\r'].len() == 1);
}

/// After a key was sent the session's screen is on the display again: what is cached where it
/// shows text, a new picture where it does not; where it could not be sent nothing is done.
pub proof fn law_screen_comes_back_after_a_key(ok: bool, text_screen: bool)
    ensures
        ({
            let actions = screen_sent_actions(ok, text_screen);
            &&& actions.len() == (if ok {
                1int
            } else {
                0
            })
            &&& ok ==> (actions[0] == RemoteAction::RedrawCached <==> text_screen)
            &&& ok && !text_screen ==> (actions[0] matches RemoteAction::ActiveSync {
                close,
                on_failure,
            } && !close && on_failure == OnFailure::Ignore)
        }),
{
}

/// A tap on a theme chooses that theme, one on the entry behind them leaves, and a vertical
/// swipe scrolls without choosing anything, forward if and only if the finger ended below its
/// start.
pub proof fn law_theme_list_takes_what_was_tapped(
    s: ThemePicker,
    start: TouchPoint,
    end: TouchPoint,
    after: ThemePicker,
    r: ThemeNext,
)
    requires
        s.wf(),
        s.press_touch == Some(start),
        s.scroll_offset + page(s.item_rects@) <= 9,
        s.is_touched(Some(TouchEvent::Release(end)), after, r),
    ensures
        after.press_touch is None && after.item_rects == s.item_rects,
        !is_vertical(start, end) ==> {
            &&& after.scroll_offset == s.scroll_offset
            &&& r matches ThemeNext::Picked(i) ==> {
                let at = i - s.scroll_offset;
                &&& i < 8
                &&& 0 <= at < s.item_rects@.len()
                &&& touch_hits(s.item_rects@[at], start) && touch_hits(s.item_rects@[at], end)
            }
            &&& touch_index(start, s.item_rects@) matches Some(i) ==> (touch_index(
                end,
                s.item_rects@,
            ) == Some(i) ==> r == (if s.scroll_offset + i == 8 {
                ThemeNext::Leave
            } else {
                ThemeNext::Picked((s.scroll_offset + i) as usize)
            }))
            &&& r != ThemeNext::Render
        },
        is_vertical(start, end) ==> {
            &&& r == ThemeNext::Render || r == ThemeNext::Wait
            &&& r == ThemeNext::Render <==> after.scroll_offset != s.scroll_offset
            &&& after.scroll_offset > s.scroll_offset <==> start.y < end.y && s.scroll_offset + page(
                s.item_rects@,
            ) < 9
            &&& after.scroll_offset < s.scroll_offset <==> end.y < start.y && s.scroll_offset > 0
        },
{
    law_touch_index_is_first_hit(start, s.item_rects@);
    law_touch_index_is_first_hit(end, s.item_rects@);
}

/// The countdown is cancelled by a tap on an entry, by a session that works, or by the end of
/// touches or messages, and by nothing else; the time is up exactly with its fifteenth second.
pub proof fn law_countdown_is_cancelled_by_a_tap_or_work(
    s: IdlePrompt,
    start: TouchPoint,
    end: TouchPoint,
    rects: Seq<Rectangle>,
    held: IdlePrompt,
    after: IdlePrompt,
    waited: IdleNext,
    r: IdleNext,
    event: Option<MqttEvent>,
    labels: Seq<SessionLabel>,
    told: IdleNext,
    n: nat,
    ticked: IdleNext,
)
    requires
        s.press_index is None,
        s.is_touched(Some(TouchEvent::Press(start)), rects, held, waited),
        held.is_touched(Some(TouchEvent::Release(end)), rects, after, r),
        IdlePrompt::is_told(event, labels, told),
        s.remaining == 15,
        n < 15,
        after_ticks(s, n).is_ticked(ticked),
    ensures
        waited is Wait,
        r is Cancelled <==> touch_index(start, rects) is Some && touch_index(start, rects)
            == touch_index(end, rects),
        r is Cancelled || r is Wait,
        told is Cancelled <==> event is None || ((event matches Some(MqttEvent::Presence {
            list_changed: true,
            ..
        })) && exists|i: int| 0 <= i < labels.len() && (#[trigger] labels[i]).3),
        told is Cancelled || told is Wait,
        ticked is Expired <==> n == 14,
{
    law_countdown_takes_fifteen_seconds(s, n);
}

/// Of the themes exactly the one that is set is marked, each is listed under its own name, and
/// the entry behind them leads back.
pub proof fn law_set_theme_is_marked(item: (String, bool), index: int, current: int)
    requires
        0 <= index <= 8,
        0 <= current < 8,
        is_theme_item(item, index, current),
    ensures
        item.1 <==> index == current,
        index < 8 ==> item.0@ == theme_name(theme_at(index)),
        index == 8 ==> item.0@ == "Back"@,
{
}

} // verus!
