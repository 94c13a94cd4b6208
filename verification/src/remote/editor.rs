//! The speech editor: text that is spoken, edited at a cursor and sent.
use crate::app::{in_asr_area, is_asr_touch, is_vertical, list_scroll_delta};
use crate::lcd::{TouchEvent, TouchPoint, LCD_WIDTH};
use crate::lists::{one, two};
use crate::text::{chars_of, string_of, trim, trimmed};
use vstd::prelude::*;

verus! {

/// The time between two edits of a held button, in nanoseconds.
pub const TOP_ACTION_INTERVAL: u64 = 180_000_000;
/// How long a lifted finger is waited for, in nanoseconds.
pub const RELEASE_WAIT: u64 = 2_000_000_000;

/// The buttons at the top of the editor.
#[derive(Debug, Clone, Copy, PartialEq, Eq, Structural)]
pub enum TopAsrAction {
    Left,
    Delete,
    Right,
}

/// What a swipe over the editor means.
#[derive(Debug, Clone, Copy, PartialEq, Eq, Structural)]
pub enum AsrEditorSwipe {
    Send,
    Cancel,
}

/// A text and the place in it, in characters, at which it is edited.
#[derive(Debug)]
pub struct TouchAsrEditor {
    pub text: String,
    pub cursor: usize,
}

/// A text with a cursor bar at a place.
pub open spec fn with_bar(text: Seq<char>, cursor: int) -> Seq<char> {
    text.take(cursor) + seq!['|'] + text.skip(cursor)
}

/// A text with another one put in at a place.
pub open spec fn inserted(text: Seq<char>, cursor: int, s: Seq<char>) -> Seq<char> {
    text.take(cursor) + s + text.skip(cursor)
}

impl TouchAsrEditor {
    /// The cursor lies in the text or at its end.
    pub open spec fn wf(self) -> bool {
        self.cursor <= self.text@.len()
    }

    /// No text.
    pub fn new() -> (r: Self)
        ensures
            r.text@ == Seq::<char>::empty(),
            r.cursor == 0,
            r.wf(),
    {
        let text = String::new();
        assert(text@ =~= Seq::empty());
        TouchAsrEditor { text, cursor: 0 }
    }

    /// Puts a text in at the cursor, which moves behind it.
    pub fn insert_str(&mut self, s: &str)
        requires
            old(self).wf(),
        ensures
            final(self).text@ == inserted(old(self).text@, old(self).cursor as int, s@),
            final(self).cursor == old(self).cursor + s@.len(),
            final(self).wf(),
    {
        let chars = chars_of(self.text.as_str());
        let added = chars_of(s);
        let mut out: Vec<char> = Vec::new();
        out.extend_from_slice(&chars.as_slice()[0..self.cursor]);
        out.extend_from_slice(added.as_slice());
        let place: usize = out.len();
        out.extend_from_slice(&chars.as_slice()[self.cursor..chars.len()]);
        assert(out@ =~= inserted(self.text@, self.cursor as int, s@));
        self.text = string_of(out.as_slice());
        self.cursor = place;
    }

    /// Takes out the character before the cursor, if there is one.
    pub fn backspace(&mut self)
        requires
            old(self).wf(),
        ensures
            old(self).cursor == 0 ==> *final(self) == *old(self),
            old(self).cursor > 0 ==> {
                &&& final(self).text@ == old(self).text@.remove(old(self).cursor - 1)
                &&& final(self).cursor == old(self).cursor - 1
            },
            old(self).is_after_action(TopAsrAction::Delete, *final(self)),
            final(self).wf(),
    {
        if self.cursor == 0 {
            return;
        }
        let mut chars = chars_of(self.text.as_str());
        chars.remove(self.cursor - 1);
        self.text = string_of(chars.as_slice());
        self.cursor = self.cursor - 1;
    }

    /// Moves the cursor one character back, but not before the text.
    pub fn move_left(&mut self)
        requires
            old(self).wf(),
        ensures
            final(self).text == old(self).text,
            final(self).cursor == (if old(self).cursor == 0 {
                0
            } else {
                old(self).cursor - 1
            }),
            old(self).is_after_action(TopAsrAction::Left, *final(self)),
            final(self).wf(),
    {
        self.cursor = self.cursor.saturating_sub(1);
    }

    /// Moves the cursor one character on, but not behind the text.
    pub fn move_right(&mut self)
        requires
            old(self).wf(),
        ensures
            final(self).text == old(self).text,
            final(self).cursor == (if old(self).cursor < old(self).text@.len() {
                old(self).cursor + 1
            } else {
                old(self).cursor as int
            }),
            old(self).is_after_action(TopAsrAction::Right, *final(self)),
            final(self).wf(),
    {
        let len: usize = self.char_len();
        if self.cursor < len {
            self.cursor = self.cursor + 1;
        }
    }

    /// The text with a bar at the cursor.
    pub fn display_text(&self) -> (r: String)
        requires
            self.wf(),
        ensures
            r@ == with_bar(self.text@, self.cursor as int),
    {
        let chars = chars_of(self.text.as_str());
        let mut out: Vec<char> = Vec::new();
        out.extend_from_slice(&chars.as_slice()[0..self.cursor]);
        out.push('|');
        out.extend_from_slice(&chars.as_slice()[self.cursor..chars.len()]);
        assert(out@ =~= with_bar(self.text@, self.cursor as int));
        string_of(out.as_slice())
    }

    /// The text without the white space around it.
    pub fn take_trimmed(self) -> (r: String)
        ensures
            r@ == trim(self.text@),
    {
        trimmed(self.text.as_str())
    }

    /// The number of characters.
    pub fn char_len(&self) -> (r: usize)
        ensures
            r == self.text@.len(),
    {
        self.text.as_str().unicode_len()
    }

    /// The editor after a button at its top was pressed.
    pub open spec fn is_after_action(self, action: TopAsrAction, after: Self) -> bool {
        match action {
            TopAsrAction::Left => after.text == self.text && after.cursor == (if self.cursor == 0 {
                0
            } else {
                self.cursor - 1
            }),
            TopAsrAction::Delete => if self.cursor == 0 {
                after == self
            } else {
                &&& after.text@ == self.text@.remove(self.cursor - 1)
                &&& after.cursor == self.cursor - 1
            },
            TopAsrAction::Right => after.text == self.text && after.cursor == (if self.cursor
                < self.text@.len() {
                self.cursor + 1
            } else {
                self.cursor as int
            }),
        }
    }
}

/// Does what a button at the top of the editor says.
pub fn apply_top_asr_action(action: TopAsrAction, editor: &mut TouchAsrEditor)
    requires
        old(editor).wf(),
    ensures
        old(editor).is_after_action(action, *final(editor)),
        final(editor).wf(),
{
    match action {
        TopAsrAction::Left => editor.move_left(),
        TopAsrAction::Delete => editor.backspace(),
        TopAsrAction::Right => editor.move_right(),
    }
}

/// The button at the top of the editor at a point: three of the same width.
pub open spec fn top_action(p: TouchPoint) -> Option<TopAsrAction> {
    if p.y >= 80 {
        None
    } else if p.x < 136 {
        Some(TopAsrAction::Left)
    } else if p.x < 272 {
        Some(TopAsrAction::Delete)
    } else {
        Some(TopAsrAction::Right)
    }
}

/// The button at the top of the editor at a point.
pub fn top_asr_action(touch: TouchPoint) -> (r: Option<TopAsrAction>)
    ensures
        r == top_action(touch),
{
    if touch.y >= 80 {
        return None;
    }
    let third: u16 = LCD_WIDTH / 3;
    if touch.x < third {
        Some(TopAsrAction::Left)
    } else if touch.x < third * 2 {
        Some(TopAsrAction::Delete)
    } else {
        Some(TopAsrAction::Right)
    }
}

/// What a swipe over the editor means: upwards it sends, downwards it cancels. It has to
/// start between the buttons and the bottom edge.
pub open spec fn editor_swipe(start: TouchPoint, end: TouchPoint) -> Option<AsrEditorSwipe> {
    if in_asr_area(start) || start.y < 80 || !is_vertical(start, end) {
        None
    } else if end.y < start.y {
        Some(AsrEditorSwipe::Send)
    } else {
        Some(AsrEditorSwipe::Cancel)
    }
}

/// What a swipe over the editor means.
pub fn asr_editor_swipe(start: TouchPoint, end: TouchPoint) -> (r: Option<AsrEditorSwipe>)
    ensures
        r == editor_swipe(start, end),
{
    if is_asr_touch(start) || top_asr_action(start).is_some() {
        return None;
    }
    match list_scroll_delta(start, end) {
        Some(delta) => if delta < 0 {
            Some(AsrEditorSwipe::Send)
        } else {
            Some(AsrEditorSwipe::Cancel)
        },
        None => None,
    }
}

// ---------------------------------------------------------------------------------------
// The editor's loop
// ---------------------------------------------------------------------------------------

/// The line under the text.
#[derive(Debug, Clone, Copy, PartialEq, Eq, Structural)]
pub enum AsrHint {
    HoldRecord,
    Connecting,
    Listening,
    Empty,
    Error,
}

/// The words of a hint.
pub open spec fn hint_words(hint: AsrHint) -> Seq<char> {
    match hint {
        AsrHint::HoldRecord => "Hold Record"@,
        AsrHint::Connecting => "Connecting..."@,
        AsrHint::Listening => "Listening..."@,
        AsrHint::Empty => "(empty)"@,
        AsrHint::Error => "ASR error"@,
    }
}

/// The words of a hint.
pub fn hint_text(hint: AsrHint) -> (r: &'static str)
    ensures
        r@ == hint_words(hint),
{
    match hint {
        AsrHint::HoldRecord => "Hold Record",
        AsrHint::Connecting => "Connecting...",
        AsrHint::Listening => "Listening...",
        AsrHint::Empty => "(empty)",
        AsrHint::Error => "ASR error",
    }
}

/// Why a recording gave no text.
#[derive(Debug, Clone, Copy, PartialEq, Eq, Structural)]
pub enum AsrFailure {
    NotConfigured,
    Unavailable,
    WorkerDropped,
    MqttClosed,
    /// The recogniser failed.
    Recogniser,
}

/// The editor on the screen.
#[derive(Debug)]
pub struct AsrSession {
    pub editor: TouchAsrEditor,
    pub hint: AsrHint,
    pub press_touch: Option<TouchPoint>,
}

/// What happens while the editor is open.
#[derive(Debug)]
pub enum AsrEvent {
    /// A touch, or that there will be none any more.
    Touch(Option<TouchEvent>),
    /// A recording ended, with what was understood.
    Recorded(Result<Option<String>, AsrFailure>),
    /// A held button at the top repeats.
    TopTick(TopAsrAction),
    /// The text was sent, or could not be; `text_screen` is whether the session shows text.
    Sent { ok: bool, text_screen: bool },
    /// A message came, or there will be none any more.
    Mqtt { closed: bool },
}

/// A thing to do while the editor is open.
#[derive(Debug)]
pub enum AsrAction {
    /// Draw the editor, whatever comes of it.
    Show,
    /// Record; the outcome is handed back.
    Record,
    /// Wait until the finger is lifted from a button, repeating it meanwhile.
    HoldTop(TopAsrAction),
    /// Send the text; the outcome is handed back.
    Send(String),
    /// Announce the display to the active session; a failure ends all.
    ActiveSync,
    /// Draw the cached terminal, whatever comes of it.
    RedrawTerminal,
    /// Leave the editor.
    Leave,
    /// The touches have ended: fail.
    TouchClosed,
    /// The messages have ended: fail.
    MqttClosed,
}

/// The editor's text after a recording: what was understood stands at the cursor, with one
/// space behind it.
pub open spec fn spoken(text: Seq<char>) -> Seq<char> {
    trim(text) + seq![' ']
}

impl AsrSession {
    pub open spec fn wf(self) -> bool {
        self.editor.wf()
    }

    /// An empty editor.
    pub fn new() -> (r: Self)
        ensures
            r.editor.text@ == Seq::<char>::empty(),
            r.editor.cursor == 0,
            r.hint == AsrHint::HoldRecord,
            r.press_touch is None,
            r.wf(),
    {
        AsrSession {
            editor: TouchAsrEditor::new(),
            hint: AsrHint::HoldRecord,
            press_touch: None,
        }
    }

    /// The editor after an event.
    pub open spec fn is_after(self, event: AsrEvent, after: Self) -> bool {
        match event {
            AsrEvent::Touch(Some(TouchEvent::Press(point))) => if in_asr_area(point) {
                after == self
            } else {
                match top_action(point) {
                    Some(action) => {
                        &&& self.editor.is_after_action(action, after.editor)
                        &&& after == (AsrSession { editor: after.editor, ..self })
                    },
                    None => after == (AsrSession {
                        press_touch: if self.press_touch is None {
                            Some(point)
                        } else {
                            self.press_touch
                        },
                        ..self
                    }),
                }
            },
            AsrEvent::Touch(Some(TouchEvent::Release(_))) => after == (AsrSession {
                press_touch: None,
                ..self
            }),
            AsrEvent::Recorded(Ok(Some(text))) => {
                &&& after.editor.text@ == inserted(
                    self.editor.text@,
                    self.editor.cursor as int,
                    spoken(text@),
                )
                &&& after.editor.cursor == self.editor.cursor + spoken(text@).len()
                &&& after.hint == AsrHint::HoldRecord
                &&& after.press_touch == self.press_touch
            },
            AsrEvent::Recorded(Ok(None)) => after == (AsrSession { hint: AsrHint::Empty, ..self }),
            AsrEvent::Recorded(Err(_)) => after == (AsrSession { hint: AsrHint::Error, ..self }),
            AsrEvent::TopTick(action) => {
                &&& self.editor.is_after_action(action, after.editor)
                &&& after == (AsrSession { editor: after.editor, ..self })
            },
            _ => after == self,
        }
    }

    /// What an event comes to.
    pub open spec fn actions(self, event: AsrEvent, actions: Seq<AsrAction>) -> bool {
        match event {
            AsrEvent::Touch(Some(TouchEvent::Press(point))) => if in_asr_area(point) {
                actions == seq![AsrAction::Record]
            } else {
                match top_action(point) {
                    Some(action) => actions == seq![AsrAction::Show, AsrAction::HoldTop(action)],
                    None => actions.len() == 0,
                }
            },
            AsrEvent::Touch(Some(TouchEvent::Release(end))) => match self.press_touch {
                None => actions.len() == 0,
                Some(start) => match editor_swipe(start, end) {
                    Some(AsrEditorSwipe::Send) => if trim(self.editor.text@).len() > 0 {
                        actions.len() == 1 && (actions[0] matches AsrAction::Send(text) && text@
                            == trim(self.editor.text@))
                    } else {
                        actions == seq![AsrAction::ActiveSync, AsrAction::Leave]
                    },
                    Some(AsrEditorSwipe::Cancel) => actions == seq![
                        AsrAction::ActiveSync,
                        AsrAction::Leave,
                    ],
                    None => actions.len() == 0,
                },
            },
            AsrEvent::Touch(None) => actions == seq![AsrAction::TouchClosed],
            AsrEvent::Recorded(_) | AsrEvent::TopTick(_) => actions == seq![AsrAction::Show],
            AsrEvent::Sent { ok, text_screen } => actions == (if !ok {
                seq![AsrAction::Leave]
            } else if text_screen {
                seq![AsrAction::RedrawTerminal, AsrAction::Leave]
            } else {
                seq![AsrAction::ActiveSync, AsrAction::Leave]
            }),
            AsrEvent::Mqtt { closed } => if closed {
                actions == seq![AsrAction::MqttClosed]
            } else {
                actions.len() == 0
            },
        }
    }

    fn on_release(&mut self, end: TouchPoint) -> (r: Vec<AsrAction>)
        requires
            old(self).wf(),
        ensures
            old(self).is_after(AsrEvent::Touch(Some(TouchEvent::Release(end))), *final(self)),
            old(self).actions(AsrEvent::Touch(Some(TouchEvent::Release(end))), r@),
            final(self).wf(),
    {
        let start: TouchPoint = match self.press_touch {
            Some(start) => start,
            None => return Vec::new(),
        };
        self.press_touch = None;
        match asr_editor_swipe(start, end) {
            Some(AsrEditorSwipe::Send) => {
                let text = trimmed(self.editor.text.as_str());
                if text.as_str().unicode_len() > 0 {
                    one(AsrAction::Send(text))
                } else {
                    two(AsrAction::ActiveSync, AsrAction::Leave)
                }
            },
            Some(AsrEditorSwipe::Cancel) => two(AsrAction::ActiveSync, AsrAction::Leave),
            None => Vec::new(),
        }
    }

    /// Takes an event while the editor is open.
    pub fn on_event(&mut self, event: AsrEvent) -> (r: Vec<AsrAction>)
        requires
            old(self).wf(),
        ensures
            old(self).is_after(event, *final(self)),
            old(self).actions(event, r@),
            final(self).wf(),
    {
        match event {
            AsrEvent::Touch(None) => one(AsrAction::TouchClosed),
            AsrEvent::Touch(Some(TouchEvent::Press(point))) => {
                if is_asr_touch(point) {
                    return one(AsrAction::Record);
                }
                match top_asr_action(point) {
                    Some(action) => {
                        apply_top_asr_action(action, &mut self.editor);
                        two(AsrAction::Show, AsrAction::HoldTop(action))
                    },
                    None => {
                        if self.press_touch.is_none() {
                            self.press_touch = Some(point);
                        }
                        Vec::new()
                    },
                }
            },
            AsrEvent::Touch(Some(TouchEvent::Release(end))) => self.on_release(end),
            AsrEvent::Recorded(result) => {
                match result {
                    Ok(Some(text)) => {
                        let mut added = trimmed(text.as_str());
                        added.push(' ');
                        assert(added@ =~= spoken(text@));
                        self.editor.insert_str(added.as_str());
                        self.hint = AsrHint::HoldRecord;
                    },
                    Ok(None) => {
                        self.hint = AsrHint::Empty;
                    },
                    Err(_) => {
                        self.hint = AsrHint::Error;
                    },
                }
                one(AsrAction::Show)
            },
            AsrEvent::TopTick(action) => {
                apply_top_asr_action(action, &mut self.editor);
                one(AsrAction::Show)
            },
            AsrEvent::Sent { ok, text_screen } => {
                if !ok {
                    one(AsrAction::Leave)
                } else if text_screen {
                    two(AsrAction::RedrawTerminal, AsrAction::Leave)
                } else {
                    two(AsrAction::ActiveSync, AsrAction::Leave)
                }
            },
            AsrEvent::Mqtt { closed } => {
                if closed {
                    one(AsrAction::MqttClosed)
                } else {
                    Vec::new()
                }
            },
        }
    }
}

/// What follows while a finger holds a button at the top.
#[derive(Debug, Clone, Copy, PartialEq, Eq, Structural)]
pub enum HoldNext {
    /// Wait on.
    Wait,
    /// The finger was lifted.
    Lifted,
    /// The messages have ended: fail.
    MqttClosed,
}

/// What a touch, or the end of touches, means while a finger holds a button at the top.
pub open spec fn held_next(touch: Option<TouchEvent>) -> HoldNext {
    if touch matches Some(TouchEvent::Press(_)) {
        HoldNext::Wait
    } else {
        HoldNext::Lifted
    }
}

/// What a touch, or the end of touches, means while a finger holds a button at the top.
pub fn hold_touch(touch: Option<TouchEvent>) -> (r: HoldNext)
    ensures
        r == held_next(touch),
{
    match touch {
        Some(TouchEvent::Press(_)) => HoldNext::Wait,
        Some(TouchEvent::Release(_)) => HoldNext::Lifted,
        None => HoldNext::Lifted,
    }
}

/// What a message, or the end of messages, means while a finger holds a button at the top.
pub fn hold_message(closed: bool) -> (r: HoldNext)
    ensures
        r == (if closed {
            HoldNext::MqttClosed
        } else {
            HoldNext::Wait
        }),
{
    if closed {
        HoldNext::MqttClosed
    } else {
        HoldNext::Wait
    }
}

/// Whether waiting for a lifted finger ends.
pub open spec fn wait_ends(touch: Option<Option<TouchEvent>>) -> bool {
    !(touch matches Some(Some(TouchEvent::Press(_))))
}

/// Whether waiting for a lifted finger ends: it was lifted, there will be no touch any
/// more, or (`touch` is none) nothing happened for two seconds.
pub fn release_wait_ends(touch: Option<Option<TouchEvent>>) -> (r: bool)
    ensures
        r == wait_ends(touch),
{
    match touch {
        Some(Some(TouchEvent::Press(_))) => false,
        _ => true,
    }
}

// ---------------------------------------------------------------------------------------
// Recording
// ---------------------------------------------------------------------------------------

/// A recording in progress.
#[derive(Debug, Clone, Copy, PartialEq, Eq, Structural)]
pub struct Recording {
    /// The recogniser has said whether it listens.
    pub is_listening: bool,
    /// The recording is to end.
    pub cancel: bool,
}

/// What happens while recording.
#[derive(Debug)]
pub enum RecordEvent {
    /// The recogniser listens, or will never.
    Listening { ok: bool },
    /// The recogniser is done; nothing came where it dropped the request.
    Result(Option<Result<String, AsrFailure>>),
    /// A touch, or that there will be none any more.
    Touch(Option<TouchEvent>),
    /// A message came, or there will be none any more.
    Mqtt { closed: bool },
}

/// What follows while recording.
#[derive(Debug)]
pub enum RecordNext {
    /// Wait on.
    Wait,
    /// Show that the recogniser listens, and wait on.
    ShowListening,
    /// The recording is over.
    Done(Result<Option<String>, AsrFailure>),
}

/// What a recording comes to: the text without the white space around it, if any is left.
pub open spec fn recorded(
    result: Result<String, AsrFailure>,
    r: Result<Option<String>, AsrFailure>,
) -> bool {
    match result {
        Ok(text) => if trim(text@).len() > 0 {
            r matches Ok(Some(t)) && t@ == trim(text@)
        } else {
            r == Ok::<Option<String>, AsrFailure>(None)
        },
        Err(e) => r == Err::<Option<String>, AsrFailure>(e),
    }
}

fn record_result(result: Result<String, AsrFailure>) -> (r: Result<Option<String>, AsrFailure>)
    ensures
        recorded(result, r),
{
    match result {
        Ok(text) => {
            let text = trimmed(text.as_str());
            if text.as_str().unicode_len() > 0 {
                Ok(Some(text))
            } else {
                Ok(None)
            }
        },
        Err(e) => Err(e),
    }
}

/// Why a recording cannot start, if it cannot.
pub open spec fn start_failure(configured: bool, accepted: bool) -> Option<AsrFailure> {
    if !configured {
        Some(AsrFailure::NotConfigured)
    } else if !accepted {
        Some(AsrFailure::Unavailable)
    } else {
        None
    }
}

/// Why a recording cannot start, if it cannot: there is no recogniser, or it did not take
/// the request. The finger is waited for before that is reported.
pub fn record_start(configured: bool, accepted: bool) -> (r: Option<AsrFailure>)
    ensures
        r == start_failure(configured, accepted),
{
    if !configured {
        Some(AsrFailure::NotConfigured)
    } else if !accepted {
        Some(AsrFailure::Unavailable)
    } else {
        None
    }
}

impl Recording {
    /// A recording that has just been asked for.
    pub fn new() -> (r: Self)
        ensures
            r == (Recording { is_listening: false, cancel: false }),
    {
        Recording { is_listening: false, cancel: false }
    }

    /// The recording after an event.
    pub open spec fn after_event(self, event: RecordEvent) -> Self {
        Recording {
            is_listening: self.is_listening || event is Listening,
            cancel: self.cancel || match event {
                RecordEvent::Touch(Some(TouchEvent::Press(point))) => !in_asr_area(point),
                RecordEvent::Touch(_) => true,
                _ => false,
            },
        }
    }

    /// Whether an event while recording is followed by this.
    pub open spec fn is_next(event: RecordEvent, r: RecordNext) -> bool {
        match event {
            RecordEvent::Listening { ok } => r == (if ok {
                RecordNext::ShowListening
            } else {
                RecordNext::Wait
            }),
            RecordEvent::Result(Some(result)) => r matches RecordNext::Done(out) && recorded(
                result,
                out,
            ),
            RecordEvent::Result(None) => r == RecordNext::Done(Err(AsrFailure::WorkerDropped)),
            RecordEvent::Touch(_) => r == RecordNext::Wait,
            RecordEvent::Mqtt { closed } => r == (if closed {
                RecordNext::Done(Err(AsrFailure::MqttClosed))
            } else {
                RecordNext::Wait
            }),
        }
    }

    /// Takes an event while recording. The finger has to stay at the bottom edge: any other
    /// touch, and the end of touches, ends the recording.
    pub fn on_event(&mut self, event: RecordEvent) -> (r: RecordNext)
        ensures
            *final(self) == old(self).after_event(event),
            Recording::is_next(event, r),
    {
        match event {
            RecordEvent::Listening { ok } => {
                self.is_listening = true;
                if ok {
                    RecordNext::ShowListening
                } else {
                    RecordNext::Wait
                }
            },
            RecordEvent::Result(result) => match result {
                Some(result) => RecordNext::Done(record_result(result)),
                None => RecordNext::Done(Err(AsrFailure::WorkerDropped)),
            },
            RecordEvent::Touch(touch) => {
                let stays = match touch {
                    Some(TouchEvent::Press(point)) => is_asr_touch(point),
                    _ => false,
                };
                if !stays {
                    self.cancel = true;
                }
                RecordNext::Wait
            },
            RecordEvent::Mqtt { closed } => {
                if closed {
                    RecordNext::Done(Err(AsrFailure::MqttClosed))
                } else {
                    RecordNext::Wait
                }
            },
        }
    }
}

// ---------------------------------------------------------------------------------------
// Laws
// ---------------------------------------------------------------------------------------

/// Taking out a character undoes putting it in, wherever the cursor is.
pub proof fn law_backspace_undoes_insert(text: Seq<char>, cursor: int, c: char)
    requires
        0 <= cursor <= text.len(),
    ensures
        inserted(text, cursor, seq![c]).remove(cursor) == text,
{
    assert(inserted(text, cursor, seq![c]).remove(cursor) =~= text);
}

/// The shown text is the text and one bar at the cursor, nothing else.
pub proof fn law_bar_stands_at_cursor(text: Seq<char>, cursor: int)
    requires
        0 <= cursor <= text.len(),
    ensures
        with_bar(text, cursor)[cursor] == '|',
        with_bar(text, cursor).remove(cursor) == text,
        with_bar(text, cursor).len() == text.len() + 1,
{
    assert(with_bar(text, cursor).remove(cursor) =~= text);
}

/// With a cursor behind at least one character the left button makes it one smaller, with one
/// before at least one character the right button makes it one larger, and at the ends they
/// leave it; the text stays.
pub proof fn law_buttons_move_the_cursor(
    e: TouchAsrEditor,
    left: TouchAsrEditor,
    right: TouchAsrEditor,
)
    requires
        e.wf(),
        e.is_after_action(TopAsrAction::Left, left),
        e.is_after_action(TopAsrAction::Right, right),
    ensures
        left.text == e.text && right.text == e.text,
        left.wf() && right.wf(),
        e.cursor > 0 ==> left.cursor + 1 == e.cursor,
        e.cursor == 0 ==> left.cursor == 0,
        e.cursor < e.text@.len() ==> right.cursor == e.cursor + 1,
        e.cursor == e.text@.len() ==> right.cursor == e.cursor,
        e.cursor < e.text@.len() ==> with_bar(right.text@, right.cursor as int)[e.cursor as int]
            == e.text@[e.cursor as int],
{
}

/// From inside the text, left and then right gives the editor back, and so does right and then
/// left.
pub proof fn law_left_and_right_undo_each_other(
    e: TouchAsrEditor,
    a: TouchAsrEditor,
    b: TouchAsrEditor,
)
    requires
        e.wf(),
        ({
            ||| e.cursor > 0 && e.is_after_action(TopAsrAction::Left, a) && a.is_after_action(
                TopAsrAction::Right,
                b,
            )
            ||| e.cursor < e.text@.len() && e.is_after_action(TopAsrAction::Right, a)
                && a.is_after_action(TopAsrAction::Left, b)
        }),
    ensures
        b == e,
{
}

/// The delete button takes out exactly the character before the cursor, and the cursor moves
/// to its place; at the start of the text it changes nothing. Putting the character back gives
/// the text back.
pub proof fn law_delete_takes_the_character_before_the_cursor(
    e: TouchAsrEditor,
    after: TouchAsrEditor,
)
    requires
        e.wf(),
        e.is_after_action(TopAsrAction::Delete, after),
    ensures
        e.cursor == 0 ==> after == e,
        e.cursor > 0 ==> {
            &&& after.wf()
            &&& after.cursor + 1 == e.cursor
            &&& after.text@.len() + 1 == e.text@.len()
            &&& inserted(
                after.text@,
                after.cursor as int,
                seq![e.text@[e.cursor - 1]],
            ) == e.text@
        },
{
    if e.cursor > 0 {
        assert(inserted(
            after.text@,
            after.cursor as int,
            seq![e.text@[e.cursor - 1]],
        ) =~= e.text@);
    }
}

/// The buttons stand from left to right in the order left, delete, right, each a third of the
/// 410 columns wide, in the first eighty rows.
pub proof fn law_buttons_stand_in_order(p: TouchPoint)
    ensures
        top_action(p) is Some <==> p.y < 80,
        p.y < 80 ==> {
            &&& top_action(p) == Some(TopAsrAction::Left) <==> p.x < 410int / 3
            &&& top_action(p) == Some(TopAsrAction::Right) <==> p.x >= 2 * (410int / 3)
            &&& top_action(p) == Some(TopAsrAction::Delete) <==> 410int / 3 <= p.x < 2 * (410int / 3)
        },
{
}

/// A swipe over the editor that starts between the buttons and the bottom edge sends upwards
/// and cancels downwards; the same swipe the other way means the other, where it may start
/// there.
pub proof fn law_swipes_send_up_and_cancel_down(start: TouchPoint, end: TouchPoint)
    requires
        80 <= start.y <= 422,
    ensures
        editor_swipe(start, end) is Some <==> is_vertical(start, end),
        editor_swipe(start, end) == Some(AsrEditorSwipe::Send) ==> end.y + 40 <= start.y,
        editor_swipe(start, end) == Some(AsrEditorSwipe::Cancel) ==> start.y + 40 <= end.y,
        80 <= end.y <= 422 && editor_swipe(start, end) is Some ==> editor_swipe(end, start) is Some
            && editor_swipe(end, start) != editor_swipe(start, end),
{
}

/// Whether an action sends this text.
pub open spec fn sends_text(action: AsrAction, text: Seq<char>) -> bool {
    action matches AsrAction::Send(t) && t@ == text
}

/// An upward swipe sends the whole text, without the white space around it, if any is left,
/// and sends it once; no other event sends anything. A downward one, and one over an empty
/// text, leaves without sending, and asks for the session's screen before it does.
pub proof fn law_editor_sends_its_text(
    s: AsrSession,
    event: AsrEvent,
    actions: Seq<AsrAction>,
)
    requires
        s.wf(),
        s.actions(event, actions),
    ensures
        forall|i: int|
            0 <= i < actions.len() && #[trigger] actions[i] is Send ==> {
                &&& actions.len() == 1
                &&& trim(s.editor.text@).len() > 0
                &&& sends_text(actions[i], trim(s.editor.text@))
                &&& event matches AsrEvent::Touch(Some(TouchEvent::Release(end)))
                    && s.press_touch matches Some(start) && end.y < start.y
            },
        event matches AsrEvent::Touch(Some(TouchEvent::Release(end))) ==> (
        s.press_touch matches Some(start) ==> (80 <= start.y <= 422 && is_vertical(start, end)
            ==> if end.y < start.y && trim(s.editor.text@).len() > 0 {
            actions.len() == 1 && actions[0] is Send
        } else {
            actions == seq![AsrAction::ActiveSync, AsrAction::Leave]
        })),
        event matches AsrEvent::Sent { ok, text_screen } ==> {
            &&& actions.len() > 0 && actions.last() == AsrAction::Leave
            &&& actions.contains(AsrAction::RedrawTerminal) <==> ok && text_screen
            &&& actions.contains(AsrAction::ActiveSync) <==> ok && !text_screen
        },
{
    if event is Sent {
        assert(actions.contains(actions[0]));
    }
}

/// What was understood stands in the text where the cursor was, with one space behind it and
/// the cursor behind that; what stood before and behind the cursor stays around it. A recording
/// without words or without success changes the line under the text alone.
pub proof fn law_spoken_words_stand_at_the_cursor(
    s: AsrSession,
    result: Result<Option<String>, AsrFailure>,
    after: AsrSession,
    actions: Seq<AsrAction>,
)
    requires
        s.wf(),
        s.is_after(AsrEvent::Recorded(result), after),
        s.actions(AsrEvent::Recorded(result), actions),
    ensures
        actions == seq![AsrAction::Show],
        result matches Ok(Some(words)) ==> {
            let n = trim(words@).len();
            let at = s.editor.cursor as int;
            &&& after.editor.text@.take(at) == s.editor.text@.take(at)
            &&& after.editor.text@.subrange(at, at + n) == trim(words@)
            &&& after.editor.text@[at + n] == ' '
            &&& after.editor.text@.skip(at + n + 1) == s.editor.text@.skip(at)
            &&& after.editor.cursor == at + n + 1
            &&& after.hint == AsrHint::HoldRecord
        },
        !(result matches Ok(Some(_))) ==> after.editor == s.editor && after.press_touch
            == s.press_touch,
        result matches Ok(None) ==> after.hint == AsrHint::Empty,
        result is Err ==> after.hint == AsrHint::Error,
{
    match result {
        Ok(Some(words)) => {
            let n = trim(words@).len();
            let at = s.editor.cursor as int;
            assert(after.editor.text@.take(at) =~= s.editor.text@.take(at));
            assert(after.editor.text@.subrange(at, at + n) =~= trim(words@));
            assert(after.editor.text@.skip(at + n + 1) =~= s.editor.text@.skip(at));
        },
        _ => {},
    }
}

/// A finger put down at the bottom edge records, one on a button does what the button says, is
/// shown and repeats while it stays, and one elsewhere is kept until it is lifted. A repeat
/// does what the first press did.
pub proof fn law_pressed_finger_does_what_it_points_at(
    s: AsrSession,
    point: TouchPoint,
    after: AsrSession,
    actions: Seq<AsrAction>,
    ticked: AsrSession,
)
    requires
        s.wf(),
        s.is_after(AsrEvent::Touch(Some(TouchEvent::Press(point))), after),
        s.actions(AsrEvent::Touch(Some(TouchEvent::Press(point))), actions),
        top_action(point) matches Some(action) ==> s.is_after(AsrEvent::TopTick(action), ticked),
    ensures
        point.y > 422 ==> actions == seq![AsrAction::Record] && after == s,
        point.y < 80 ==> {
            &&& actions.len() == 2 && actions[0] == AsrAction::Show
            &&& (actions[1] matches AsrAction::HoldTop(button) && Some(button) == top_action(point)
                && s.editor.is_after_action(button, after.editor))
            &&& after.editor.cursor == ticked.editor.cursor
            &&& after.editor.text@ == ticked.editor.text@
            &&& after.hint == s.hint && after.press_touch == s.press_touch
        },
        80 <= point.y <= 422 ==> {
            &&& actions.len() == 0
            &&& after.editor == s.editor
            &&& after.press_touch == (if s.press_touch is Some {
                s.press_touch
            } else {
                Some(point)
            })
        },
{
}

/// A lifted finger is forgotten, and so leaves the text as it is.
pub proof fn law_lifted_finger_is_forgotten(s: AsrSession, end: TouchPoint, after: AsrSession)
    requires
        s.is_after(AsrEvent::Touch(Some(TouchEvent::Release(end))), after),
    ensures
        after.press_touch is None,
        after.editor == s.editor && after.hint == s.hint,
{
}

/// A recording gives back the words without the white space around them, nothing where only
/// white space was understood, and a failure as it is.
pub proof fn law_recording_gives_back_the_words(
    result: Result<String, AsrFailure>,
    r: Result<Option<String>, AsrFailure>,
)
    requires
        recorded(result, r),
    ensures
        r is Ok <==> result is Ok,
        r matches Ok(Some(t)) ==> t@.len() > 0 && t@ == trim(result->Ok_0@),
        r matches Ok(None) ==> trim(result->Ok_0@).len() == 0,
        r matches Err(e) ==> result == Err::<String, AsrFailure>(e),
{
}

/// A recording goes on while the finger stays at the bottom edge, and is to end once it leaves
/// it, is lifted, or there are no touches any more; once it is to end it stays so. It is over
/// when the recogniser is done or the messages end, and at no touch.
pub proof fn law_recording_lasts_while_the_finger_stays(
    s: Recording,
    event: RecordEvent,
    r: RecordNext,
)
    requires
        Recording::is_next(event, r),
    ensures
        s.cancel ==> s.after_event(event).cancel,
        s.is_listening ==> s.after_event(event).is_listening,
        !s.cancel ==> (s.after_event(event).cancel <==> event is Touch && !(
        event matches RecordEvent::Touch(Some(TouchEvent::Press(point))) && point.y > 422)),
        r is Done <==> event is Result || event == (RecordEvent::Mqtt { closed: true }),
        r is ShowListening <==> event == (RecordEvent::Listening { ok: true }),
        event == (RecordEvent::Mqtt { closed: true }) ==> r == RecordNext::Done(
            Err(AsrFailure::MqttClosed),
        ),
        event == RecordEvent::Result(None) ==> r == RecordNext::Done(
            Err(AsrFailure::WorkerDropped),
        ),
{
}

/// A recording starts if and only if there is a recogniser that takes the request, and which of
/// the two is missing is told; a held button is held until the finger is lifted, and waiting for
/// that ends with anything but a press.
pub proof fn law_recording_needs_a_recogniser(
    configured: bool,
    accepted: bool,
    touch: Option<TouchEvent>,
)
    ensures
        start_failure(configured, accepted) is None <==> configured && accepted,
        start_failure(configured, accepted) == Some(AsrFailure::NotConfigured) <==> !configured,
        start_failure(configured, accepted) == Some(AsrFailure::Unavailable) <==> configured
            && !accepted,
        held_next(touch) == HoldNext::Wait <==> touch is Some && touch->0 is Press,
        held_next(touch) == HoldNext::Lifted <==> !(touch is Some && touch->0 is Press),
        wait_ends(Some(touch)) <==> held_next(touch) == HoldNext::Lifted,
        wait_ends(None),
{
}

/// Messages leave the editor and come to nothing while there are more; the end of messages and
/// the end of touches are told apart, and nothing else fails.
pub proof fn law_other_events_leave_the_editor(
    s: AsrSession,
    event: AsrEvent,
    after: AsrSession,
    actions: Seq<AsrAction>,
)
    requires
        s.is_after(event, after),
        s.actions(event, actions),
    ensures
        event is Mqtt || event is Sent || event == AsrEvent::Touch(None) ==> after == s,
        event == (AsrEvent::Mqtt { closed: false }) ==> actions.len() == 0,
        actions == seq![AsrAction::MqttClosed] <==> event == (AsrEvent::Mqtt { closed: true }),
        actions == seq![AsrAction::TouchClosed] <==> event == AsrEvent::Touch(None),
        event matches AsrEvent::TopTick(action) ==> actions == seq![AsrAction::Show]
            && s.editor.is_after_action(action, after.editor),
{
    if actions == seq![AsrAction::MqttClosed] || actions == seq![AsrAction::TouchClosed] {
        assert(actions.len() == 1);
        assert(actions[0] == AsrAction::MqttClosed || actions[0] == AsrAction::TouchClosed);
    }
}

} // verus!
