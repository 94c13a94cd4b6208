//! The main loop: touches, messages and timers change the shared state; what they come to
//! is drawn and carried out.
use super::{BacklightMode, RemoteAction, LATEST_TIME, SESSION_LIST_IDLE_OFF_DELAY,
    SESSION_LIST_OFF_SHUTDOWN_PROMPT_DELAY, SessionLabel};
use crate::app::{
    clamped_offset, label_item, some_session_stopped, was_working, AppEvent, AppEventContext,
    AppEventResult, AppRenderState, AppState, BacklightState, Effect, Route, SessionListState,
    SessionSyncResult,
};
use crate::lists::{one, two};
use crate::mqtt::MqttEvent;
use crate::touch::TouchGesture;
use vstd::prelude::*;

verus! {

/// The state of the main loop. Times are nanoseconds.
#[derive(Debug)]
pub struct Shell {
    pub state: AppState,
    pub render_state: AppRenderState,
    pub render_requested: bool,
    pub backlight: BacklightMode,
    pub last_session_list_change: u64,
    pub session_list_off_since: Option<u64>,
}

/// When the loop has something to do of its own accord, and whether it listens to the boot
/// button.
#[derive(Debug, Clone, Copy, PartialEq, Eq, Structural)]
pub struct ShellWaits {
    pub title_refresh_at: Option<u64>,
    pub idle_off_at: Option<u64>,
    pub shutdown_prompt_at: Option<u64>,
    pub boot_button: bool,
}

/// What a turn of the loop comes to.
#[derive(Debug)]
pub enum ShellTurn {
    /// Leave the loop.
    Leave,
    /// Do these things.
    Actions(Vec<RemoteAction>),
    /// Draw where the result says so, then carry out its effects in order, and hand back
    /// whether one of them wants the screen drawn again.
    Result(AppEventResult),
    /// As `Result`, with a new session list.
    SyncedResult(AppEventResult, SessionSyncResult),
}

/// What is done once the list has been dark for long.
pub open spec fn shutdown_due_actions() -> Seq<RemoteAction> {
    seq![RemoteAction::SetBacklight(BacklightMode::Normal), RemoteAction::ShowIdlePrompt]
}

/// What follows the offer to cancel the shutdown: unless it was cancelled, the power is cut.
pub open spec fn idle_answer_actions(cancelled: bool) -> Seq<RemoteAction> {
    if cancelled {
        Seq::empty()
    } else {
        seq![RemoteAction::PowerOff]
    }
}

/// Whether the prompt is played for a new session list.
pub open spec fn plays_prompt(sync: Option<SessionSyncResult>, prompt_enabled: bool) -> bool {
    prompt_enabled && (sync matches Some(s) && s.play_prompt)
}

impl Shell {
    /// The shared state is consistent, and every delay can be added to the recorded times.
    pub open spec fn wf(self) -> bool {
        &&& self.state.wf()
        &&& self.last_session_list_change <= LATEST_TIME
        &&& self.session_list_off_since matches Some(t) ==> t <= LATEST_TIME
    }

    /// The loop at its start: the session list is shown and to be drawn, the display lit.
    pub fn new(now: u64) -> (r: Self)
        requires
            now <= LATEST_TIME,
        ensures
            r.state.is_fresh(Route::SessionPicker),
            r.render_state.session_item_rects@.len() == 0,
            r.render_state.next_title_refresh == now + 60_000_000_000,
            r.render_requested,
            r.backlight == BacklightMode::Normal,
            r.last_session_list_change == now,
            r.session_list_off_since is None,
            r.wf(),
    {
        Shell {
            state: AppState::session_picker(),
            render_state: AppRenderState::new(now),
            render_requested: true,
            backlight: BacklightMode::Normal,
            last_session_list_change: now,
            session_list_off_since: None,
        }
    }

    /// Whether the screen is to be drawn; the wish is then fulfilled.
    pub fn take_render_request(&mut self) -> (r: bool)
        ensures
            r == old(self).render_requested,
            *final(self) == (Shell { render_requested: false, ..*old(self) }),
            old(self).wf() ==> final(self).wf(),
    {
        let requested = self.render_requested;
        self.render_requested = false;
        requested
    }

    /// Whether no listed session works.
    pub open spec fn sessions_idle(self) -> bool {
        forall|i: int|
            0 <= i < self.state.sessions.items@.len() ==> !(
            #[trigger] self.state.sessions.items@[i]).working
    }

    /// When the loop has something to do of its own accord. Only the session list does; it
    /// refreshes its title and goes dark while it is lit, and offers a shutdown while it is
    /// dark and no session works.
    pub open spec fn wait_times(self) -> ShellWaits {
        ShellWaits {
            title_refresh_at: if self.state.route == Route::SessionPicker && self.backlight
                != BacklightMode::Off {
                Some(self.render_state.next_title_refresh)
            } else {
                None
            },
            idle_off_at: if self.state.route == Route::SessionPicker && self.backlight
                != BacklightMode::Off {
                Some((self.last_session_list_change + 30_000_000_000) as u64)
            } else {
                None
            },
            shutdown_prompt_at: if self.state.route == Route::SessionPicker && self.backlight
                == BacklightMode::Off && self.session_list_off_since is Some
                && self.sessions_idle() {
                Some((self.session_list_off_since->0 + 1_200_000_000_000) as u64)
            } else {
                None
            },
            boot_button: self.state.route == Route::SessionPicker,
        }
    }

    /// When the loop has something to do of its own accord.
    pub fn waits(&self) -> (r: ShellWaits)
        requires
            self.wf(),
        ensures
            r == self.wait_times(),
    {
        let listed = self.state.route == Route::SessionPicker;
        let lit = self.backlight != BacklightMode::Off;
        let shutdown_prompt_at = match self.session_list_off_since {
            Some(t) => if listed && !lit && self.state.all_sessions_idle() {
                Some(t + SESSION_LIST_OFF_SHUTDOWN_PROMPT_DELAY)
            } else {
                None
            },
            None => None,
        };
        ShellWaits {
            title_refresh_at: if listed && lit {
                Some(self.render_state.next_title_refresh)
            } else {
                None
            },
            idle_off_at: if listed && lit {
                Some(self.last_session_list_change + SESSION_LIST_IDLE_OFF_DELAY)
            } else {
                None
            },
            shutdown_prompt_at,
            boot_button: listed,
        }
    }

    /// The title is due: takes over the new one, and has the list drawn if it differs.
    pub fn on_title_due(&mut self, title: String)
        ensures
            final(self).state.sessions.title@ == title@,
            final(self).render_requested == (old(self).state.sessions.title@ != title@ && old(
                self,
            ).state.route == Route::SessionPicker),
            *final(self) == (Shell {
                state: AppState {
                    sessions: SessionListState {
                        title: final(self).state.sessions.title,
                        ..old(self).state.sessions
                    },
                    ..old(self).state
                },
                render_requested: final(self).render_requested,
                ..*old(self)
            }),
            old(self).wf() ==> final(self).wf(),
    {
        self.render_requested = self.state.set_session_title(title);
    }

    /// The loop once the list went dark.
    pub open spec fn after_screen_off(self, now: u64) -> Self {
        Shell { session_list_off_since: Some(now), ..self }
    }

    /// The list has been unchanged for long, or the boot button was pressed: it goes dark.
    pub fn on_screen_off(&mut self, now: u64) -> (r: Vec<RemoteAction>)
        requires
            now <= LATEST_TIME,
        ensures
            r@ == seq![RemoteAction::SetBacklight(BacklightMode::Off)],
            *final(self) == old(self).after_screen_off(now),
            old(self).wf() ==> final(self).wf(),
    {
        self.session_list_off_since = Some(now);
        one(RemoteAction::SetBacklight(BacklightMode::Off))
    }

    /// The loop once a shutdown was offered.
    pub open spec fn after_shutdown_due(self, now: u64) -> Self {
        Shell { session_list_off_since: None, last_session_list_change: now, ..self }
    }

    /// The list has been dark for long: it lights up and offers to cancel the shutdown.
    pub fn on_shutdown_due(&mut self, now: u64) -> (r: Vec<RemoteAction>)
        requires
            now <= LATEST_TIME,
        ensures
            r@ == shutdown_due_actions(),
            *final(self) == old(self).after_shutdown_due(now),
            old(self).wf() ==> final(self).wf(),
    {
        self.session_list_off_since = None;
        self.last_session_list_change = now;
        two(RemoteAction::SetBacklight(BacklightMode::Normal), RemoteAction::ShowIdlePrompt)
    }

    /// The loop once the offer to cancel the shutdown was answered, or was not.
    pub open spec fn after_idle_answer(self, cancelled: bool) -> Self {
        if cancelled {
            Shell {
                render_requested: self.state.route == Route::SessionPicker || self.state.route
                    == Route::ActiveSession,
                ..self
            }
        } else {
            self
        }
    }

    /// The offer to cancel the shutdown was answered, or was not.
    pub fn on_idle_answer(&mut self, cancelled: bool) -> (r: Vec<RemoteAction>)
        ensures
            r@ == idle_answer_actions(cancelled),
            *final(self) == old(self).after_idle_answer(cancelled),
            old(self).wf() ==> final(self).wf(),
    {
        if cancelled {
            self.render_requested = self.state.request_render_for_current_route();
            Vec::new()
        } else {
            one(RemoteAction::PowerOff)
        }
    }

    /// Whether a gesture, or the end of gestures, leads to this state and this turn. On a dark
    /// display a gesture only lights it.
    pub open spec fn is_gesture_turn(
        self,
        gesture: Option<TouchGesture>,
        now: u64,
        after: Self,
        r: ShellTurn,
    ) -> bool {
        match gesture {
            None => r == ShellTurn::Leave && after == self,
            Some(g) => if self.backlight == BacklightMode::Off {
                &&& r matches ShellTurn::Actions(actions) && actions@ == seq![
                    RemoteAction::SetBacklight(BacklightMode::Normal),
                ]
                &&& after == (Shell {
                    session_list_off_since: None,
                    last_session_list_change: now,
                    render_requested: self.state.route == Route::SessionPicker || self.state.route == Route::ActiveSession,
                    ..self
                })
            } else {
                &&& r matches ShellTurn::Result(result) && self.state.event_answer(
                    AppEvent::Touch(g),
                    self.render_state.session_item_rects@,
                    now,
                    result,
                )
                &&& after == (Shell {
                    state: self.state.after_event(
                        AppEvent::Touch(g),
                        self.render_state.session_item_rects@,
                        now,
                    ),
                    ..self
                })
            },
        }
    }

    /// A gesture, or that there will be none any more. On a dark display it only lights it.
    pub fn on_gesture(&mut self, gesture: Option<TouchGesture>, now: u64) -> (r: ShellTurn)
        requires
            now <= LATEST_TIME,
        ensures
            old(self).is_gesture_turn(gesture, now, *final(self), r),
            old(self).wf() ==> final(self).wf(),
    {
        let gesture = match gesture {
            Some(gesture) => gesture,
            None => return ShellTurn::Leave,
        };
        if self.backlight == BacklightMode::Off {
            self.session_list_off_since = None;
            self.last_session_list_change = now;
            self.render_requested = self.state.wake_screen();
            return ShellTurn::Actions(one(RemoteAction::SetBacklight(BacklightMode::Normal)));
        }
        let context = AppEventContext {
            session_item_rects: self.render_state.session_item_rects.as_slice(),
            now,
        };
        let result = self.state.handle_event(AppEvent::Touch(gesture), &context);
        ShellTurn::Result(result)
    }

    /// The loop once a gesture's result was drawn and carried out.
    pub open spec fn after_gesture_done(
        self,
        rendered: bool,
        render_after_effect: bool,
        now: u64,
    ) -> Self {
        Shell {
            render_requested: self.render_requested || render_after_effect,
            last_session_list_change: if rendered {
                now
            } else {
                self.last_session_list_change
            },
            ..self
        }
    }

    /// A gesture's result was drawn and carried out.
    pub fn on_gesture_done(&mut self, rendered: bool, render_after_effect: bool, now: u64)
        requires
            now <= LATEST_TIME,
        ensures
            *final(self) == old(self).after_gesture_done(rendered, render_after_effect, now),
            old(self).wf() ==> final(self).wf(),
    {
        if render_after_effect {
            self.render_requested = true;
        }
        if rendered {
            self.last_session_list_change = now;
        }
    }

    /// Whether a message is a screen of a session that is no longer active.
    pub open spec fn is_stale(event: MqttEvent, has_active_session: bool) -> bool {
        (event is ActiveScreen || event is ActiveText) && !has_active_session
    }

    /// The state with a new session list.
    pub open spec fn is_synced(self, after: AppState, title: Seq<char>, labels: Seq<SessionLabel>) -> bool {
        &&& after.sessions.title@ == title
        &&& after.sessions.items@ == labels.map_values(|l: SessionLabel| label_item(l))
        &&& after.sessions.scroll_offset == clamped_offset(
            self.state.sessions.scroll_offset as int,
            labels.len() as int,
            1,
        )
        &&& after == (AppState {
            sessions: SessionListState {
                title: after.sessions.title,
                items: after.sessions.items,
                scroll_offset: after.sessions.scroll_offset,
                ..self.state.sessions
            },
            ..self.state
        })
    }

    /// Whether a message, or the end of messages, leads to this state and this turn.
    pub open spec fn is_mqtt_turn(
        self,
        event: Option<MqttEvent>,
        has_active_session: bool,
        title: Seq<char>,
        labels: Seq<SessionLabel>,
        after: Self,
        r: ShellTurn,
    ) -> bool {
        match event {
            None => r == ShellTurn::Leave && after == self,
            Some(ev) => if Shell::is_stale(ev, has_active_session) {
                &&& r matches ShellTurn::Actions(actions) && actions@.len() == 0
                &&& after == self
            } else if ev matches MqttEvent::Presence { list_changed: true, .. } {
                &&& r matches ShellTurn::SyncedResult(result, sync) && AppState::mqtt_answer(
                    ev,
                    result,
                ) && sync == (SessionSyncResult {
                    render: self.state.route == Route::SessionPicker,
                    play_prompt: self.state.route == Route::SessionPicker
                        && some_session_stopped(self.state.sessions.items@, labels),
                })
                &&& exists|synced: AppState|
                    self.is_synced(synced, title, labels) && after == (Shell {
                        state: #[trigger] synced.after_mqtt(ev),
                        render_requested: self.render_requested || self.state.route
                            == Route::SessionPicker,
                        ..self
                    })
            } else {
                &&& r matches ShellTurn::Result(result) && AppState::mqtt_answer(ev, result)
                &&& after == (Shell {
                    state: self.state.after_mqtt(ev),
                    ..self
                })
            },
        }
    }

    /// A message, or that there will be none any more. A screen of a session that is no
    /// longer active is passed over. Where the session list changed, the new one, with its
    /// title, is taken over first.
    pub fn on_mqtt(
        &mut self,
        event: Option<MqttEvent>,
        has_active_session: bool,
        title: String,
        labels: Vec<SessionLabel>,
        now: u64,
    ) -> (r: ShellTurn)
        ensures
            old(self).is_mqtt_turn(
                event,
                has_active_session,
                title@,
                labels@,
                *final(self),
                r,
            ),
            old(self).wf() ==> final(self).wf(),
    {
        let event = match event {
            Some(event) => event,
            None => return ShellTurn::Leave,
        };
        let screen = matches!(event, MqttEvent::ActiveScreen(_) | MqttEvent::ActiveText(_));
        if screen && !has_active_session {
            return ShellTurn::Actions(Vec::new());
        }
        let list_changed = match &event {
            MqttEvent::Presence { list_changed, .. } => *list_changed,
            _ => false,
        };
        if list_changed {
            let sync = self.state.sync_sessions(title, labels);
            let ghost synced = self.state;
            self.render_requested = self.render_requested || sync.render;
            let context = AppEventContext {
                session_item_rects: self.render_state.session_item_rects.as_slice(),
                now,
            };
            let result = self.state.handle_event(AppEvent::Mqtt(event), &context);
            assert(old(self).is_synced(synced, title@, labels@));
            assert(self.state == synced.after_mqtt(event));
            return ShellTurn::SyncedResult(result, sync);
        }
        let context = AppEventContext {
            session_item_rects: self.render_state.session_item_rects.as_slice(),
            now,
        };
        let result = self.state.handle_event(AppEvent::Mqtt(event), &context);
        ShellTurn::Result(result)
    }

    /// The loop once a message's result was drawn and carried out.
    pub open spec fn after_mqtt_done(
        self,
        rendered: bool,
        render_after_effect: bool,
        sync: Option<SessionSyncResult>,
        now: u64,
    ) -> Self {
        Shell {
            render_requested: self.render_requested || render_after_effect || rendered,
            last_session_list_change: if sync is Some {
                now
            } else {
                self.last_session_list_change
            },
            session_list_off_since: if sync is Some {
                None
            } else {
                self.session_list_off_since
            },
            ..self
        }
    }

    /// A message's result was drawn and carried out; tells whether the prompt is to be
    /// played. `sync` is what came of a new session list, if there was one.
    pub fn on_mqtt_done(
        &mut self,
        rendered: bool,
        render_after_effect: bool,
        sync: Option<SessionSyncResult>,
        prompt_enabled: bool,
        now: u64,
    ) -> (r: bool)
        requires
            now <= LATEST_TIME,
        ensures
            *final(self) == old(self).after_mqtt_done(rendered, render_after_effect, sync, now),
            r == plays_prompt(sync, prompt_enabled),
            old(self).wf() ==> final(self).wf(),
    {
        if render_after_effect {
            self.render_requested = true;
        }
        let mut play_prompt = false;
        if let Some(sync) = sync {
            self.last_session_list_change = now;
            self.session_list_off_since = None;
            play_prompt = sync.play_prompt && prompt_enabled;
        }
        if rendered {
            self.render_requested = true;
        }
        play_prompt
    }
}

// ---------------------------------------------------------------------------------------
// Laws
// ---------------------------------------------------------------------------------------

/// A gesture on a dark display lights it and does nothing else; on a lit one it is answered by
/// the screen that is shown, at the places where that was drawn. The loop ends with the
/// gestures.
pub proof fn law_gesture_wakes_or_is_answered(
    s: Shell,
    gesture: TouchGesture,
    now: u64,
    after: Shell,
    r: ShellTurn,
)
    requires
        s.is_gesture_turn(Some(gesture), now, after, r),
    ensures
        r != ShellTurn::Leave,
        s.backlight == BacklightMode::Off ==> {
            &&& (r matches ShellTurn::Actions(a) && a@ == seq![
                RemoteAction::SetBacklight(BacklightMode::Normal),
            ])
            &&& after.state == s.state
            &&& after.session_list_off_since is None && after.last_session_list_change == now
            &&& s.state.route == Route::SessionPicker || s.state.route == Route::ActiveSession
                ==> after.render_requested
        },
        s.backlight != BacklightMode::Off ==> {
            &&& (r matches ShellTurn::Result(answer) && s.state.touch_answer(
                gesture,
                s.render_state.session_item_rects@,
                now,
                answer,
            ))
            &&& after.state == s.state.after_touch(gesture, s.render_state.session_item_rects@, now)
            &&& after.render_requested == s.render_requested
        },
        s.is_gesture_turn(None, now, s, ShellTurn::Leave),
{
}

/// What the active session sends of its screen is on the display: its screen is the one that
/// is shown, the content waits to be drawn, and drawing is asked for. A screen of a session that
/// is no longer active changes nothing.
pub proof fn law_screen_content_reaches_the_display(
    s: Shell,
    event: MqttEvent,
    has_active_session: bool,
    title: Seq<char>,
    labels: Seq<SessionLabel>,
    after: Shell,
    r: ShellTurn,
)
    requires
        !(event is Presence),
        s.is_mqtt_turn(Some(event), has_active_session, title, labels, after, r),
    ensures
        !has_active_session ==> after == s && (r matches ShellTurn::Actions(a) && a@.len() == 0),
        has_active_session ==> {
            &&& (r matches ShellTurn::Result(answer) && answer.render && answer.effects@.len() == 0)
            &&& after.state.route == Route::ActiveSession
            &&& !after.state.active_session.loading
            &&& event matches MqttEvent::ActiveText(frame) ==>
                after.state.active_session.pending_text_frame == Some(frame)
            &&& event matches MqttEvent::ActiveScreen(chunk) ==>
                after.state.active_session.pending_screen_chunk == Some(chunk)
        },
{
}

/// A changed session list is taken over in full and in its order, under the new title, whatever
/// is shown; the display is lit. Where the list is shown it is drawn, and the prompt is due if
/// and only if a session that was listed as working is now idle.
pub proof fn law_changed_list_is_taken_over(
    s: Shell,
    prefix: String,
    online: bool,
    was_active: bool,
    has_active_session: bool,
    title: Seq<char>,
    labels: Seq<SessionLabel>,
    after: Shell,
    r: ShellTurn,
)
    requires
        s.is_mqtt_turn(
            Some(MqttEvent::Presence { prefix, online, list_changed: true, was_active }),
            has_active_session,
            title,
            labels,
            after,
            r,
        ),
    ensures
        after.state.sessions.title@ == title,
        after.state.sessions.items@.len() == labels.len(),
        forall|i: int|
            0 <= i < labels.len() ==> (#[trigger] after.state.sessions.items@[i]).prefix
                == labels[i].0 && after.state.sessions.items@[i].label == labels[i].1
                && after.state.sessions.items@[i].active == labels[i].2
                && after.state.sessions.items@[i].working == labels[i].3,
        r matches ShellTurn::SyncedResult(answer, sync) && answer.render && answer.effects@ == seq![
            Effect::SetBacklight(BacklightState::Normal),
        ] && (sync.play_prompt <==> s.state.route == Route::SessionPicker && exists|i: int, j: int|
            0 <= i < labels.len() && 0 <= j < s.state.sessions.items@.len() && (
            #[trigger] s.state.sessions.items@[j]).working && !(#[trigger] labels[i]).3
                && s.state.sessions.items@[j].prefix@ == labels[i].0@),
        s.state.route == Route::SessionPicker ==> after.render_requested,
        !online && was_active ==> after.state.route == Route::SessionPicker,
        online || !was_active ==> after.state.route == s.state.route,
{
    let event = MqttEvent::Presence { prefix, online, list_changed: true, was_active };
    let synced = choose|synced: AppState|
        s.is_synced(synced, title, labels) && after == (Shell {
            state: #[trigger] synced.after_mqtt(event),
            render_requested: s.render_requested || s.state.route == Route::SessionPicker,
            ..s
        });
    let items = s.state.sessions.items@;
    assert(after.state.sessions == synced.sessions);
    assert forall|i: int| 0 <= i < labels.len() implies (
    #[trigger] after.state.sessions.items@[i]) == label_item(labels[i]) by {
        assert(synced.sessions.items@[i] == label_item(labels[i]));
    }
    if some_session_stopped(items, labels) {
        let i = choose|i: int|
            0 <= i < labels.len() && !(#[trigger] labels[i]).3 && was_working(items, labels[i].0@);
        let j = choose|j: int|
            0 <= j < items.len() && (#[trigger] items[j]).prefix@ == labels[i].0@
                && items[j].working;
        assert(items[j].working && !labels[i].3);
    }
    if exists|i: int, j: int|
        0 <= i < labels.len() && 0 <= j < items.len() && (#[trigger] items[j]).working && !(
        #[trigger] labels[i]).3 && items[j].prefix@ == labels[i].0@ {
        let (i, j) = choose|i: int, j: int|
            0 <= i < labels.len() && 0 <= j < items.len() && (#[trigger] items[j]).working && !(
            #[trigger] labels[i]).3 && items[j].prefix@ == labels[i].0@;
        assert(was_working(items, labels[i].0@));
    }
}

/// The loop takes note of a new list: the list counts as changed now and as lit, and the prompt
/// is played if and only if it is due and may sound. Without a new list neither changes.
pub proof fn law_new_list_starts_the_idle_time(
    s: Shell,
    rendered: bool,
    render_after_effect: bool,
    sync: Option<SessionSyncResult>,
    prompt_enabled: bool,
    now: u64,
)
    ensures
        ({
            let after = s.after_mqtt_done(rendered, render_after_effect, sync, now);
            &&& sync is Some ==> after.last_session_list_change == now
                && after.session_list_off_since is None
            &&& sync is None ==> after.last_session_list_change == s.last_session_list_change
                && after.session_list_off_since == s.session_list_off_since
            &&& rendered || render_after_effect ==> after.render_requested
            &&& s.render_requested ==> after.render_requested
            &&& after.state == s.state && after.backlight == s.backlight
        }),
        plays_prompt(sync, prompt_enabled) ==> prompt_enabled && sync is Some
            && sync->0.play_prompt,
        sync is Some && sync->0.play_prompt && prompt_enabled ==> plays_prompt(
            sync,
            prompt_enabled,
        ),
{
}

/// Only the session list has times of its own: lit, it goes dark half a minute after its last
/// change; dark, it offers a shutdown twenty minutes after it went dark, so long as no session
/// works.
pub proof fn law_only_the_list_waits(s: Shell, now: u64)
    requires
        s.wf(),
        now <= LATEST_TIME,
    ensures
        ({
            let second: int = 1_000_000_000;
            let w = s.wait_times();
            let dark = Shell { backlight: BacklightMode::Off, ..s.after_screen_off(now) };
            &&& s.state.route != Route::SessionPicker ==> w.title_refresh_at is None
                && w.idle_off_at is None && w.shutdown_prompt_at is None && !w.boot_button
            &&& s.state.route == Route::SessionPicker ==> {
                &&& w.boot_button
                &&& s.backlight == BacklightMode::Normal ==> w.idle_off_at == Some(
                    (s.last_session_list_change + 30 * second) as u64,
                ) && w.title_refresh_at is Some && w.shutdown_prompt_at is None
                &&& s.backlight == BacklightMode::Off ==> w.idle_off_at is None
                    && w.title_refresh_at is None
                &&& dark.wait_times().shutdown_prompt_at == (if forall|i: int|
                    0 <= i < s.state.sessions.items@.len() ==> !(
                    #[trigger] s.state.sessions.items@[i]).working {
                    Some((now + 1200 * second) as u64)
                } else {
                    None
                })
            }
        }),
{
}

/// The power is cut if and only if the offer to cancel that was made was not taken, and that
/// offer is made on a lit display; a cancelled shutdown leaves the list lit and waiting anew.
pub proof fn law_shutdown_can_be_cancelled(s: Shell, now: u64, cancelled: bool)
    requires
        s.wf(),
        now <= LATEST_TIME,
        s.state.route == Route::SessionPicker,
    ensures
        shutdown_due_actions().len() == 2,
        shutdown_due_actions()[0] == RemoteAction::SetBacklight(BacklightMode::Normal),
        shutdown_due_actions()[1] == RemoteAction::ShowIdlePrompt,
        idle_answer_actions(cancelled).contains(RemoteAction::PowerOff) <==> !cancelled,
        idle_answer_actions(cancelled).len() <= 1,
        ({
            let offered = Shell {
                backlight: BacklightMode::Normal,
                ..s.after_shutdown_due(now)
            };
            let after = offered.after_idle_answer(cancelled);
            &&& offered.wait_times().shutdown_prompt_at is None
            &&& offered.wait_times().idle_off_at == Some((now + 30_000_000_000) as u64)
            &&& cancelled ==> after.render_requested && after.wait_times() == offered.wait_times()
        }),
{
    if !cancelled {
        assert(idle_answer_actions(cancelled)[0] == RemoteAction::PowerOff);
    }
}

/// A gesture that drew the list starts its idle time anew, one that did not leaves it; an effect
/// that wants the screen drawn again has it drawn.
pub proof fn law_touched_list_stays_lit(
    s: Shell,
    rendered: bool,
    render_after_effect: bool,
    now: u64,
)
    requires
        s.state.route == Route::SessionPicker,
        s.backlight == BacklightMode::Normal,
        now <= LATEST_TIME,
    ensures
        ({
            let after = s.after_gesture_done(rendered, render_after_effect, now);
            &&& rendered ==> after.wait_times().idle_off_at == Some((now + 30_000_000_000) as u64)
            &&& !rendered ==> after.wait_times() == s.wait_times()
            &&& after.render_requested <==> s.render_requested || render_after_effect
            &&& after.state == s.state
        }),
{
}

} // verus!
