//! Remote sessions: choosing one, showing its screen and sending it input. The loops that
//! wait for touches, messages and timers are state machines here: an event goes in, the
//! next state and the things to do come out, in order.
pub mod editor;
pub mod effects;
pub mod menus;
pub mod picker;
pub mod screen;
pub mod shell;
pub use crate::lcd::BacklightStep;
use crate::protocol::{ClientMessage, MessageView};
use crate::text::dec;
use crate::text::dec_string;
use crate::ui::list::{law_title_color_follows_charge, titled_percent};
use vstd::prelude::*;
use vstd::utf8::encode_utf8;

verus! {

pub const BACKLIGHT_NORMAL: u8 = 50;
/// How long an unchanged session list stays lit, in nanoseconds.
pub const SESSION_LIST_IDLE_OFF_DELAY: u64 = 30_000_000_000;
/// How long a finger stays on the session list to open the boot menu, in nanoseconds.
pub const SESSION_LIST_LONG_PRESS_MENU_DELAY: u64 = 1_000_000_000;
/// How long the session list stays dark before a shutdown is offered, in nanoseconds.
pub const SESSION_LIST_OFF_SHUTDOWN_PROMPT_DELAY: u64 = 1_200_000_000_000;
pub const IDLE_SHUTDOWN_COUNTDOWN_SECS: u64 = 15;
/// The time between two backspaces of a held finger, in nanoseconds.
pub const SCREEN_BACKSPACE_REPEAT_DELAY: u64 = 500_000_000;
pub const SCREEN_SCROLL_SWIPE_ROWS: u16 = 15;
/// The latest time from which every delay here can be added.
pub const LATEST_TIME: u64 = 18_000_000_000_000_000_000;

/// A session: its topic prefix, its label, whether it is active and whether it works.
pub type SessionLabel = (String, String, bool, bool);

#[derive(Debug, Clone, Copy, PartialEq, Eq, Structural)]
pub enum BacklightMode {
    Normal,
    Off,
}

/// What is to be done with a failure of something that was tried.
#[derive(Debug, Clone, Copy, PartialEq, Eq, Structural)]
pub enum OnFailure {
    /// Everything ends with the failure.
    Abort,
    /// Nothing.
    Ignore,
    /// The outcome is handed back to the state machine, success or failure.
    Report,
}

/// A key that is sent to a session.
#[derive(Debug, Clone, Copy, PartialEq, Eq, Structural)]
pub enum Key {
    Backspace,
    Esc,
    Next,
    Yolo,
    Enter,
}

/// A thing to do.
#[derive(Debug)]
pub enum RemoteAction {
    /// Leave the loop.
    Leave,
    /// Bring the subscriptions in line with the active session.
    FlushPending,
    /// Make the session with this prefix the active one.
    SetActive(String),
    /// Have no active session.
    ClearActive,
    /// Send a message to the active session.
    Send { message: ClientMessage, on_failure: OnFailure },
    /// Send a key to the active session.
    SendKey { key: Key, on_failure: OnFailure },
    /// Announce the display to the active session.
    ActiveSync { close: bool, on_failure: OnFailure },
    SetBacklight(BacklightMode),
    /// Choose a session.
    OpenPicker,
    ShowBackspaceOverlay,
    ShowMenuOverlay,
    ShowLoading,
    /// Draw what was shown before an overlay or a menu covered it.
    RedrawCached,
    /// Scroll the text that is shown; the outcome is handed back.
    ScrollLocally { up: bool },
    ShowScreenMenu,
    RunAsr,
    /// Offer to cancel the shutdown; the answer is handed back.
    ShowIdlePrompt,
    /// Show the boot menu; the choice is handed back.
    ShowBootMenu,
    /// Let a terminal theme be chosen.
    SelectTheme,
    /// Set a terminal theme.
    SetTheme(usize),
    /// Draw a new title over the list.
    RefreshTitle(String),
    /// Draw the session list with what the server lists now.
    RenderPicker,
    /// Draw the session list with these sessions.
    RenderPickerWith(Vec<SessionLabel>),
    SavePromptEnabled(bool),
    /// Play the prompt, where there is one.
    PlayPrompt,
    /// Draw the current screen.
    Render,
    /// Forget the gesture in progress.
    CancelGesture,
    /// Decode and show these JPEG bytes, noting a failure.
    ShowJpeg(Vec<u8>),
    /// Show a terminal text frame, noting a failure.
    ShowText(Vec<u8>),
    PowerOff,
    Reboot,
}

/// What follows in a change of the backlight.
#[derive(Debug, Clone, Copy, PartialEq, Eq, Structural)]
pub enum BacklightNext {
    Do(BacklightStep),
    Done,
    Failed,
}

impl BacklightMode {
    /// The step that follows in a change to `mode`, where `last` is the last step with
    /// whether it succeeded. To light up, the device is kept awake first and the audio
    /// reopened; to go dark, the audio is closed and the device let asleep last. The audio
    /// may fail.
    pub open spec fn next_step(
        self,
        mode: BacklightMode,
        last: Option<(BacklightStep, bool)>,
    ) -> BacklightNext {
        match last {
            None => if self == mode {
                BacklightNext::Done
            } else if mode == BacklightMode::Normal {
                BacklightNext::Do(BacklightStep::HoldSleepLock)
            } else {
                BacklightNext::Do(BacklightStep::SetLevel(0))
            },
            Some((BacklightStep::HoldSleepLock, true)) => BacklightNext::Do(
                BacklightStep::OpenAudio,
            ),
            Some((BacklightStep::OpenAudio, _)) => BacklightNext::Do(BacklightStep::SetLevel(50)),
            Some((BacklightStep::SetLevel(_), true)) => if mode == BacklightMode::Normal {
                BacklightNext::Done
            } else {
                BacklightNext::Do(BacklightStep::CloseAudio)
            },
            Some((BacklightStep::CloseAudio, _)) => BacklightNext::Do(
                BacklightStep::ReleaseSleepLock,
            ),
            Some((BacklightStep::ReleaseSleepLock, true)) => BacklightNext::Done,
            Some((_, false)) => BacklightNext::Failed,
        }
    }

    /// Carries on a change to `mode`. The mode changes only when the last step is done.
    pub fn set(&mut self, mode: BacklightMode, last: Option<(BacklightStep, bool)>) -> (r:
        BacklightNext)
        ensures
            r == old(self).next_step(mode, last),
            *final(self) == (if r == BacklightNext::Done {
                mode
            } else {
                *old(self)
            }),
    {
        let next = match last {
            None => if *self == mode {
                BacklightNext::Done
            } else {
                match mode {
                    BacklightMode::Normal => BacklightNext::Do(BacklightStep::HoldSleepLock),
                    BacklightMode::Off => BacklightNext::Do(BacklightStep::SetLevel(0)),
                }
            },
            Some((step, ok)) => match step {
                BacklightStep::OpenAudio => BacklightNext::Do(
                    BacklightStep::SetLevel(BACKLIGHT_NORMAL),
                ),
                BacklightStep::CloseAudio => BacklightNext::Do(BacklightStep::ReleaseSleepLock),
                BacklightStep::HoldSleepLock => if ok {
                    BacklightNext::Do(BacklightStep::OpenAudio)
                } else {
                    BacklightNext::Failed
                },
                BacklightStep::SetLevel(_) => if !ok {
                    BacklightNext::Failed
                } else {
                    match mode {
                        BacklightMode::Normal => BacklightNext::Done,
                        BacklightMode::Off => BacklightNext::Do(BacklightStep::CloseAudio),
                    }
                },
                BacklightStep::ReleaseSleepLock => if ok {
                    BacklightNext::Done
                } else {
                    BacklightNext::Failed
                },
            },
        };
        if next == BacklightNext::Done {
            *self = mode;
        }
        next
    }
}

/// The characters that a key sends.
pub open spec fn key_text(key: Key) -> Seq<char> {
    match key {
        Key::Backspace => seq!['\x7f'],
        Key::Esc => seq!['\x1b'],
        Key::Next => seq!['\x1b', '[', 'B'],
        Key::Yolo => seq!['\x1b', '[', 'Z'],
        Key::Enter => seq!['\r'],
    }
}

/// The message that sends a key.
pub fn key_message(key: Key) -> (r: ClientMessage)
    ensures
        r@ == MessageView::PtyInput(encode_utf8(key_text(key))),
{
    proof {
        reveal_strlit("\x7f");
        reveal_strlit("\x1b");
        reveal_strlit("\x1b[B");
        reveal_strlit("\x1b[Z");
        reveal_strlit("\r");
        assert("\x7f"@ =~= seq!['\x7f']);
        assert("\x1b"@ =~= seq!['\x1b']);
        assert("\x1b[B"@ =~= seq!['\x1b', '[', 'B']);
        assert("\x1b[Z"@ =~= seq!['\x1b', '[', 'Z']);
        assert("\r"@ =~= seq!['\r']);
    }
    match key {
        Key::Backspace => ClientMessage::pty_input_str("\x7f"),
        Key::Esc => ClientMessage::pty_input_str("\x1b"),
        Key::Next => ClientMessage::pty_input_str("\x1b[B"),
        Key::Yolo => ClientMessage::pty_input_str("\x1b[Z"),
        Key::Enter => ClientMessage::pty_input_str("\r"),
    }
}

// ---------------------------------------------------------------------------------------
// Session lists
// ---------------------------------------------------------------------------------------

/// Whether no session works.
pub open spec fn all_idle(labels: Seq<SessionLabel>) -> bool {
    forall|i: int| 0 <= i < labels.len() ==> !(#[trigger] labels[i]).3
}

/// Whether no session works.
pub fn sessions_are_all_idle(labels: &[SessionLabel]) -> (r: bool)
    ensures
        r == all_idle(labels@),
{
    let mut i: usize = 0;
    while i < labels.len()
        invariant
            i <= labels@.len(),
            forall|k: int| 0 <= k < i ==> !(#[trigger] labels@[k]).3,
        decreases labels@.len() - i,
    {
        if labels[i].3 {
            return false;
        }
        i = i + 1;
    }
    true
}

/// Whether a session of this prefix is among the working ones.
pub open spec fn works(labels: Seq<SessionLabel>, prefix: Seq<char>) -> bool {
    exists|j: int| 0 <= j < labels.len() && (#[trigger] labels[j]).0@ == prefix && labels[j].3
}

/// Whether some session worked and is idle now.
pub open spec fn some_became_idle(previous: Seq<SessionLabel>, next: Seq<SessionLabel>) -> bool {
    exists|i: int| 0 <= i < next.len() && !(#[trigger] next[i]).3 && works(previous, next[i].0@)
}

fn session_works(labels: &[SessionLabel], prefix: &String) -> (r: bool)
    ensures
        r == works(labels@, prefix@),
{
    let mut j: usize = 0;
    while j < labels.len()
        invariant
            j <= labels@.len(),
            forall|k: int|
                0 <= k < j ==> !((#[trigger] labels@[k]).0@ == prefix@ && labels@[k].3),
        decreases labels@.len() - j,
    {
        if labels[j].0 == *prefix && labels[j].3 {
            assert(labels@[j as int].0@ == prefix@ && labels@[j as int].3);
            return true;
        }
        j = j + 1;
    }
    false
}

/// Whether some session worked and is idle now.
pub fn session_became_idle(previous: &[SessionLabel], next: &[SessionLabel]) -> (r: bool)
    ensures
        r == some_became_idle(previous@, next@),
{
    let mut i: usize = 0;
    while i < next.len()
        invariant
            i <= next@.len(),
            forall|k: int| 0 <= k < i ==> (#[trigger] next@[k]).3 || !works(previous@, next@[k].0@),
        decreases next@.len() - i,
    {
        if !next[i].3 && session_works(previous, &next[i].0) {
            assert(!next@[i as int].3 && works(previous@, next@[i as int].0@));
            return true;
        }
        i = i + 1;
    }
    false
}

/// A label with the battery's charge behind it.
pub open spec fn battery_text(label: Seq<char>, percent: Option<u8>) -> Seq<char> {
    match percent {
        Some(p) => label + "Battery "@ + dec(p as nat) + "%"@,
        None => label + "Battery --"@,
    }
}

fn battery_label(label: &str, percent: Option<u8>) -> (r: String)
    ensures
        r@ == battery_text(label@, percent),
{
    let mut out: String = label.to_string();
    match percent {
        Some(p) => {
            out.append("Battery ");
            out.append(dec_string(p as u64).as_str());
            out.append("%");
        },
        None => out.append("Battery --"),
    }
    out
}

/// The title of the session list, with the battery's charge.
pub fn session_picker_title(percent: Option<u8>) -> (r: String)
    ensures
        r@ == battery_text("Session: "@, percent),
{
    battery_label("Session: ", percent)
}

/// The label of the power menu, with the battery's charge.
pub fn power_menu_label(percent: Option<u8>) -> (r: String)
    ensures
        r@ == battery_text("Power: "@, percent),
{
    battery_label("Power: ", percent)
}

/// The title of the shutdown countdown.
pub fn idle_shutdown_title(remaining: u64) -> (r: String)
    ensures
        r@ == "Save battery: off in "@ + dec(remaining as nat) + "s"@,
{
    let mut out: String = "Save battery: off in ".to_string();
    out.append(dec_string(remaining).as_str());
    out.append("s");
    out
}

// ---------------------------------------------------------------------------------------
// Laws
// ---------------------------------------------------------------------------------------

/// Lighting up keeps the device awake first, then opens the audio, and sets the light last;
/// going dark sets the light to nothing first, then closes the audio, and lets the device
/// sleep last. The audio may fail on the way; nothing is done where the mode is right already.
pub proof fn law_backlight_changes_in_order(audio_ok: bool)
    ensures
        ({
            let dark = BacklightMode::Off;
            let lit = BacklightMode::Normal;
            let level = dark.next_step(lit, Some((BacklightStep::OpenAudio, audio_ok)));
            &&& dark.next_step(lit, None) == BacklightNext::Do(BacklightStep::HoldSleepLock)
            &&& dark.next_step(lit, Some((BacklightStep::HoldSleepLock, true)))
                == BacklightNext::Do(BacklightStep::OpenAudio)
            &&& level matches BacklightNext::Do(BacklightStep::SetLevel(n)) && 0 < n <= 100
                && dark.next_step(lit, Some((BacklightStep::SetLevel(n), true)))
                == BacklightNext::Done
            &&& lit.next_step(dark, None) == BacklightNext::Do(BacklightStep::SetLevel(0))
            &&& lit.next_step(dark, Some((BacklightStep::SetLevel(0), true)))
                == BacklightNext::Do(BacklightStep::CloseAudio)
            &&& lit.next_step(dark, Some((BacklightStep::CloseAudio, audio_ok)))
                == BacklightNext::Do(BacklightStep::ReleaseSleepLock)
            &&& lit.next_step(dark, Some((BacklightStep::ReleaseSleepLock, true)))
                == BacklightNext::Done
            &&& lit.next_step(lit, None) == BacklightNext::Done && dark.next_step(dark, None)
                == BacklightNext::Done
        }),
        forall|from: BacklightMode, to: BacklightMode, step: BacklightStep|
            step != BacklightStep::OpenAudio && step != BacklightStep::CloseAudio
                ==> #[trigger] from.next_step(to, Some((step, false))) == BacklightNext::Failed,
{
}

/// Each key sends its own characters: backspace, escape and enter one control character each,
/// the other two the escape sequence of an arrow or a tab key; no two keys send the same.
pub proof fn law_keys_are_told_apart(a: Key, b: Key)
    ensures
        key_text(a) == key_text(b) <==> a == b,
        key_text(Key::Backspace).len() == 1 && key_text(Key::Backspace)[0] as u32 == 127,
        key_text(Key::Esc).len() == 1 && key_text(Key::Esc)[0] as u32 == 27,
        key_text(Key::Enter).len() == 1 && key_text(Key::Enter)[0] as u32 == 13,
        key_text(Key::Next) == key_text(Key::Esc) + seq!['[', 'B'],
        key_text(Key::Yolo) == key_text(Key::Esc) + seq!['[', 'Z'],
{
    assert(key_text(Key::Next) =~= key_text(Key::Esc) + seq!['[', 'B']);
    assert(key_text(Key::Yolo) =~= key_text(Key::Esc) + seq!['[', 'Z']);
    if a != b && key_text(a) == key_text(b) {
        assert(key_text(a)[0] == key_text(b)[0]);
        assert(key_text(a).len() == key_text(b).len());
        if key_text(a).len() == 3 {
            assert(key_text(a)[2] == key_text(b)[2]);
        }
    }
}

/// A session became idle if and only if it was listed as working before and is listed as idle
/// now; a list in which no session works before has none that became idle.
pub proof fn law_idle_sessions_worked_before(
    previous: Seq<SessionLabel>,
    next: Seq<SessionLabel>,
)
    ensures
        some_became_idle(previous, next) <==> exists|i: int, j: int|
            0 <= i < previous.len() && 0 <= j < next.len() && (#[trigger] previous[i]).3 && !(
            #[trigger] next[j]).3 && previous[i].0@ == next[j].0@,
        all_idle(previous) ==> !some_became_idle(previous, next),
        all_idle(next) <==> !exists|j: int| 0 <= j < next.len() && (#[trigger] next[j]).3,
{
    if some_became_idle(previous, next) {
        let j = choose|j: int|
            0 <= j < next.len() && !(#[trigger] next[j]).3 && works(previous, next[j].0@);
        let i = choose|i: int|
            0 <= i < previous.len() && (#[trigger] previous[i]).0@ == next[j].0@ && previous[i].3;
        assert(previous[i].3 && !next[j].3);
    }
    if exists|i: int, j: int|
        0 <= i < previous.len() && 0 <= j < next.len() && (#[trigger] previous[i]).3 && !(
        #[trigger] next[j]).3 && previous[i].0@ == next[j].0@ {
        let (i, j) = choose|i: int, j: int|
            0 <= i < previous.len() && 0 <= j < next.len() && (#[trigger] previous[i]).3 && !(
            #[trigger] next[j]).3 && previous[i].0@ == next[j].0@;
        assert(works(previous, next[j].0@));
    }
}

/// A title with the battery's charge is read back by the colour that it is given: the charge
/// stands in it as a number, and where it is not known there is none.
pub proof fn law_title_names_the_charge(label: Seq<char>, percent: u8)
    requires
        forall|i: int| 0 <= i < label.len() ==> #[trigger] label[i] != 'B',
    ensures
        titled_percent(battery_text(label, Some(percent))) == Some(percent as nat),
        battery_text(label, None) == label + "Battery --"@,
{
    reveal_strlit("%");
    reveal_strlit("Battery ");
    assert("%"@ =~= seq!['%']);
    law_title_color_follows_charge(label, percent);
}

} // verus!
