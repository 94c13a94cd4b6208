//! What the effects of events come to.
use super::{BacklightMode, OnFailure, RemoteAction};
use crate::app::{
    jpeg_bytes, law_jpeg_is_what_was_framed, opens_session, screen_chunk_jpeg, AppEventResult, BacklightState, Effect,
    MqttCommand,
};
use crate::lists::{one, two};
use crate::mqtt::MqttEvent;
use crate::protocol::{ClientMessage, ImageFormat, MessageView, ScreenImageChunk};
use crate::remote::menus::BootMenuAction;
use crate::ui::terminal::terminal_text_cells;
use vstd::prelude::*;
use vstd::slice::slice_to_vec;
use vstd::utf8::encode_utf8;

verus! {

/// The announcement of the display to the active session, if there is one: in text columns
/// and rows where it shows text, else in pixels.
pub open spec fn announcement(has_active_session: bool, text_screen: bool, close: bool) -> Option<
    ClientMessage,
> {
    if !has_active_session {
        None
    } else if text_screen {
        Some(ClientMessage::Sync { width: 51, height: 29, pixels: false, close })
    } else {
        Some(ClientMessage::Sync { width: 408, height: 496, pixels: true, close })
    }
}

/// The announcement of the display to the active session, if there is one.
pub fn active_sync_message(has_active_session: bool, text_screen: bool, close: bool) -> (r: Option<
    ClientMessage,
>)
    ensures
        r == announcement(has_active_session, text_screen, close),
{
    if !has_active_session {
        return None;
    }
    if text_screen {
        let (cols, rows) = terminal_text_cells();
        Some(ClientMessage::sync_cells(cols, rows, close))
    } else {
        Some(ClientMessage::sync_with_close(close))
    }
}

/// What a message comes to while a session's screen is shown: pictures and text are drawn,
/// a changed session list lights up the display.
pub open spec fn mqtt_actions(event: MqttEvent, actions: Seq<RemoteAction>) -> bool {
    match event {
        MqttEvent::ActiveScreen(chunk) => if chunk.format == ImageFormat::Jpeg {
            &&& actions.len() == 1
            &&& actions[0] matches RemoteAction::ShowJpeg(jpeg) && jpeg@ == jpeg_bytes(chunk.data@)
        } else {
            actions.len() == 0
        },
        MqttEvent::ActiveText(frame) => actions == seq![RemoteAction::ShowText(frame)],
        MqttEvent::Presence { list_changed, .. } => actions == (if list_changed {
            seq![RemoteAction::SetBacklight(BacklightMode::Normal)]
        } else {
            Seq::empty()
        }),
    }
}

/// Takes a message while a session's screen is shown.
pub fn handle_mqtt_event(event: MqttEvent) -> (r: Vec<RemoteAction>)
    ensures
        mqtt_actions(event, r@),
{
    match event {
        MqttEvent::ActiveScreen(chunk) => match screen_chunk_jpeg(&chunk) {
            Some(jpeg) => one(RemoteAction::ShowJpeg(slice_to_vec(jpeg))),
            None => Vec::new(),
        },
        MqttEvent::ActiveText(frame) => one(RemoteAction::ShowText(frame)),
        MqttEvent::Presence { list_changed, .. } => {
            if list_changed {
                one(RemoteAction::SetBacklight(BacklightMode::Normal))
            } else {
                Vec::new()
            }
        },
    }
}

/// Whether an action is what a command to the session comes to. What cannot be sent is
/// let go.
pub open spec fn command_action(command: MqttCommand, action: RemoteAction) -> bool {
    match command {
        MqttCommand::SendSync { close } => action == (RemoteAction::ActiveSync {
            close,
            on_failure: OnFailure::Ignore,
        }),
        MqttCommand::SendKey { key } => action matches RemoteAction::Send { message, on_failure }
            && message@ == MessageView::PtyInput(encode_utf8(key@)) && on_failure
            == OnFailure::Ignore,
        MqttCommand::SendScrollUp { rows } => action == (RemoteAction::Send {
            message: ClientMessage::ScrollUp { rows },
            on_failure: OnFailure::Ignore,
        }),
        MqttCommand::SendScrollDown { rows } => action == (RemoteAction::Send {
            message: ClientMessage::ScrollDown { rows },
            on_failure: OnFailure::Ignore,
        }),
        MqttCommand::Publish { .. } => false,
    }
}

/// What a command to the session comes to; nothing for a raw message.
pub fn execute_mqtt_command(command: MqttCommand) -> (r: Option<RemoteAction>)
    ensures
        command is Publish ==> r is None,
        !(command is Publish) ==> (r matches Some(action) && command_action(command, action)),
{
    match command {
        MqttCommand::SendSync { close } => Some(
            RemoteAction::ActiveSync { close, on_failure: OnFailure::Ignore },
        ),
        MqttCommand::SendKey { key } => Some(
            RemoteAction::Send {
                message: ClientMessage::pty_input_str(key.as_str()),
                on_failure: OnFailure::Ignore,
            },
        ),
        MqttCommand::SendScrollUp { rows } => Some(
            RemoteAction::Send {
                message: ClientMessage::ScrollUp { rows },
                on_failure: OnFailure::Ignore,
            },
        ),
        MqttCommand::SendScrollDown { rows } => Some(
            RemoteAction::Send {
                message: ClientMessage::ScrollDown { rows },
                on_failure: OnFailure::Ignore,
            },
        ),
        MqttCommand::Publish { .. } => None,
    }
}

/// What an effect that needs no screen comes to; one that does comes to nothing.
pub open spec fn simple_effect_actions(effect: Effect, actions: Seq<RemoteAction>) -> bool {
    match effect {
        Effect::MqttPublish(command) => if command is Publish {
            actions.len() == 0
        } else {
            actions.len() == 1 && command_action(command, actions[0])
        },
        Effect::SetBacklight(mode) => actions == seq![
            RemoteAction::SetBacklight(backlight_mode(mode)),
        ],
        Effect::SelectSession(prefix) => actions == seq![
            RemoteAction::SetActive(prefix),
            RemoteAction::FlushPending,
        ],
        Effect::ClearActiveSession => actions == seq![
            RemoteAction::ClearActive,
            RemoteAction::FlushPending,
        ],
        Effect::PowerOff => actions == seq![RemoteAction::PowerOff],
        Effect::Reboot => actions == seq![RemoteAction::Reboot],
        _ => actions.len() == 0,
    }
}

/// The mode that a state of the backlight stands for.
pub open spec fn backlight_mode(state: BacklightState) -> BacklightMode {
    match state {
        BacklightState::Normal => BacklightMode::Normal,
        BacklightState::Off => BacklightMode::Off,
    }
}

/// Takes an effect that needs no screen.
pub fn execute_simple_effect(effect: Effect) -> (r: Vec<RemoteAction>)
    ensures
        simple_effect_actions(effect, r@),
{
    match effect {
        Effect::MqttPublish(command) => match execute_mqtt_command(command) {
            Some(action) => one(action),
            None => Vec::new(),
        },
        Effect::SetBacklight(mode) => {
            let mode = match mode {
                BacklightState::Normal => BacklightMode::Normal,
                BacklightState::Off => BacklightMode::Off,
            };
            one(RemoteAction::SetBacklight(mode))
        },
        Effect::SelectSession(prefix) => two(
            RemoteAction::SetActive(prefix),
            RemoteAction::FlushPending,
        ),
        Effect::ClearActiveSession => two(RemoteAction::ClearActive, RemoteAction::FlushPending),
        Effect::PowerOff => one(RemoteAction::PowerOff),
        Effect::Reboot => one(RemoteAction::Reboot),
        _ => Vec::new(),
    }
}

/// What an effect comes to. A menu or an editor takes over the touches, so the gesture in
/// progress is forgotten first.
pub open spec fn app_effect_actions(effect: Effect, actions: Seq<RemoteAction>) -> bool {
    match effect {
        Effect::OpenBootMenu => actions == seq![
            RemoteAction::CancelGesture,
            RemoteAction::ShowBootMenu,
        ],
        Effect::OpenScreenMenu => actions == seq![
            RemoteAction::CancelGesture,
            RemoteAction::ShowScreenMenu,
        ],
        Effect::OpenAsrEditor => actions == seq![RemoteAction::CancelGesture, RemoteAction::RunAsr],
        Effect::SelectTheme(index) => actions == seq![RemoteAction::SetTheme(index)],
        _ => simple_effect_actions(effect, actions),
    }
}

/// Takes an effect.
pub fn execute_app_effect(effect: Effect) -> (r: Vec<RemoteAction>)
    ensures
        app_effect_actions(effect, r@),
{
    match effect {
        Effect::OpenBootMenu => two(RemoteAction::CancelGesture, RemoteAction::ShowBootMenu),
        Effect::OpenScreenMenu => two(RemoteAction::CancelGesture, RemoteAction::ShowScreenMenu),
        Effect::OpenAsrEditor => two(RemoteAction::CancelGesture, RemoteAction::RunAsr),
        Effect::SelectTheme(index) => one(RemoteAction::SetTheme(index)),
        _ => execute_simple_effect(effect),
    }
}

/// Whether actions carry out some effects, one after the other.
pub open spec fn effects_actions(effects: Seq<Effect>, actions: Seq<RemoteAction>) -> bool
    decreases effects.len(),
{
    if effects.len() == 0 {
        actions.len() == 0
    } else {
        exists|n: int|
            0 <= n <= actions.len() && effects_actions(
                effects.drop_last(),
                #[trigger] actions.take(n),
            ) && app_effect_actions(effects.last(), actions.skip(n))
    }
}

/// What the result of an event comes to: the screen is drawn first, where it says so; then the
/// effects are carried out in their order.
pub open spec fn result_actions(result: AppEventResult, actions: Seq<RemoteAction>) -> bool {
    if result.render {
        &&& actions.len() > 0
        &&& actions[0] == RemoteAction::Render
        &&& effects_actions(result.effects@, actions.drop_first())
    } else {
        effects_actions(result.effects@, actions)
    }
}

/// Takes the result of an event.
pub fn handle_app_event_result(result: AppEventResult) -> (r: Vec<RemoteAction>)
    ensures
        result_actions(result, r@),
{
    let render = result.render;
    let mut effects: Vec<Effect> = result.effects;
    let ghost all = effects@;
    let ghost mut done: Seq<RemoteAction> = Seq::empty();
    let mut actions: Vec<RemoteAction> = Vec::new();
    if render {
        actions.push(RemoteAction::Render);
    }
    let ghost head = actions@;
    let ghost mut count: int = 0;
    assert(all.take(0) =~= Seq::empty());
    assert(head + done =~= actions@);
    assert(all.skip(0) =~= effects@);
    while effects.len() > 0
        invariant
            0 <= count <= all.len(),
            effects@ == all.skip(count),
            effects_actions(all.take(count), done),
            actions@ == head + done,
        decreases effects@.len(),
    {
        let effect = effects.remove(0);
        assert(effect == all[count]);
        let mut next = execute_app_effect(effect);
        let ghost earlier = done;
        let ghost added = next@;
        actions.append(&mut next);
        proof {
            done = done + added;
            assert(actions@ =~= head + done);
            assert(done.take(earlier.len() as int) =~= earlier);
            assert(done.skip(earlier.len() as int) =~= added);
            assert(all.take(count + 1).drop_last() =~= all.take(count));
            assert(all.take(count + 1).last() == all[count]);
            let more = all.take(count + 1);
            let n = earlier.len() as int;
            assert(effects_actions(more.drop_last(), done.take(n)));
            assert(app_effect_actions(more.last(), done.skip(n)));
            assert(effects_actions(more, done));
            assert(all.skip(count).drop_first() =~= all.skip(count + 1));
            count = count + 1;
            assert(effects@ =~= all.skip(count));
        }
    }
    proof {
        assert(count == all.len()) by {
            assert(all.skip(count).len() == 0);
        }
        assert(all.take(count) =~= all);
        if render {
            assert(actions@.drop_first() =~= done);
        } else {
            assert(actions@ =~= done);
        }
    }
    actions
}

/// What the choice in the boot menu comes to.
pub open spec fn boot_menu_actions(action: BootMenuAction, prompt_enabled: bool) -> Seq<
    RemoteAction,
> {
    match action {
        BootMenuAction::Restart => seq![RemoteAction::Reboot],
        BootMenuAction::PowerOff => seq![RemoteAction::PowerOff],
        BootMenuAction::ScreenOff => seq![RemoteAction::SetBacklight(BacklightMode::Off)],
        BootMenuAction::ToggleSound => if prompt_enabled {
            seq![RemoteAction::SavePromptEnabled(false)]
        } else {
            seq![RemoteAction::SavePromptEnabled(true), RemoteAction::PlayPrompt]
        },
        BootMenuAction::Theme => seq![RemoteAction::SelectTheme],
        BootMenuAction::Back => Seq::empty(),
    }
}

/// Whether the screen is drawn again after a choice in the boot menu.
pub open spec fn redraws_after_choice(action: BootMenuAction) -> bool {
    !(action == BootMenuAction::Restart || action == BootMenuAction::PowerOff)
}

/// Whether the prompt may sound after a choice in the boot menu.
pub open spec fn prompt_after_choice(action: BootMenuAction, prompt_enabled: bool) -> bool {
    if action == BootMenuAction::ToggleSound {
        !prompt_enabled
    } else {
        prompt_enabled
    }
}

/// Takes the choice in the boot menu, and tells whether the screen is to be drawn again.
/// Turning the sound on plays it.
pub fn execute_boot_menu_action(action: BootMenuAction, prompt_enabled: &mut bool) -> (r: (
    Vec<RemoteAction>,
    bool,
))
    ensures
        r.0@ == boot_menu_actions(action, *old(prompt_enabled)),
        r.1 == redraws_after_choice(action),
        *final(prompt_enabled) == prompt_after_choice(action, *old(prompt_enabled)),
{
    match action {
        BootMenuAction::Restart => (one(RemoteAction::Reboot), false),
        BootMenuAction::PowerOff => (one(RemoteAction::PowerOff), false),
        BootMenuAction::ScreenOff => (one(RemoteAction::SetBacklight(BacklightMode::Off)), true),
        BootMenuAction::ToggleSound => {
            *prompt_enabled = !*prompt_enabled;
            if *prompt_enabled {
                (two(RemoteAction::SavePromptEnabled(true), RemoteAction::PlayPrompt), true)
            } else {
                (one(RemoteAction::SavePromptEnabled(false)), true)
            }
        },
        BootMenuAction::Theme => (one(RemoteAction::SelectTheme), true),
        BootMenuAction::Back => (Vec::new(), true),
    }
}

/// Carrying out the effects that open a session makes it the active one and subscribes to it
/// before its screen is asked for.
pub proof fn law_opened_session_is_subscribed_first(
    effects: Seq<Effect>,
    prefix: Seq<char>,
    first: Seq<RemoteAction>,
    second: Seq<RemoteAction>,
)
    requires
        opens_session(effects, prefix),
        app_effect_actions(effects[0], first),
        app_effect_actions(effects[1], second),
    ensures
        ({
            let actions = first + second;
            &&& actions.len() == 3
            &&& actions[0] matches RemoteAction::SetActive(p) && p@ == prefix
            &&& actions[1] == RemoteAction::FlushPending
            &&& actions[2] == (RemoteAction::ActiveSync {
                close: false,
                on_failure: OnFailure::Ignore,
            })
        }),
{
}

/// The bytes that an action draws, if it draws any.
pub open spec fn drawn_bytes(action: RemoteAction) -> Option<Seq<u8>> {
    match action {
        RemoteAction::ShowJpeg(jpeg) => Some(jpeg@),
        RemoteAction::ShowText(frame) => Some(frame@),
        _ => None,
    }
}

/// Whether of these actions exactly the one at a place is a drawing.
pub open spec fn draws_once(actions: Seq<RemoteAction>, at: int) -> bool {
    &&& 0 <= at < actions.len()
    &&& drawn_bytes(actions[at]) is Some
    &&& forall|k: int|
        0 <= k < actions.len() && k != at ==> drawn_bytes(#[trigger] actions[k]) is None
}

/// Every text frame that arrives is drawn, once, as text and with its own bytes, whatever they
/// are.
pub proof fn law_text_frame_is_drawn(frame: Vec<u8>, actions: Seq<RemoteAction>)
    requires
        mqtt_actions(MqttEvent::ActiveText(frame), actions),
    ensures
        exists|at: int|
            #[trigger] draws_once(actions, at) && actions[at] is ShowText && drawn_bytes(
                actions[at],
            ) == Some(frame@),
{
    assert(draws_once(actions, 0));
}

/// Every picture in a format that can be shown is drawn, once, as a picture and with the bytes
/// of the JPEG that was put into it; one in another format is not drawn at all.
pub proof fn law_picture_is_drawn(
    chunk: ScreenImageChunk,
    jpeg: Seq<u8>,
    tail: Seq<u8>,
    actions: Seq<RemoteAction>,
)
    requires
        chunk.data@ == jpeg + tail,
        tail.len() == 4,
        mqtt_actions(MqttEvent::ActiveScreen(chunk), actions),
    ensures
        chunk.format == ImageFormat::Jpeg ==> exists|at: int|
            #[trigger] draws_once(actions, at) && actions[at] is ShowJpeg && drawn_bytes(
                actions[at],
            ) == Some(jpeg),
        chunk.format != ImageFormat::Jpeg ==> forall|k: int|
            0 <= k < actions.len() ==> drawn_bytes(#[trigger] actions[k]) is None,
{
    law_jpeg_is_what_was_framed(jpeg, tail);
    if chunk.format == ImageFormat::Jpeg {
        assert(draws_once(actions, 0));
    }
}

/// A message on a session's presence draws nothing over a session's screen, and lights the
/// display up if and only if the list changed.
pub proof fn law_presence_draws_nothing(
    prefix: String,
    online: bool,
    list_changed: bool,
    was_active: bool,
    actions: Seq<RemoteAction>,
)
    requires
        mqtt_actions(MqttEvent::Presence { prefix, online, list_changed, was_active }, actions),
    ensures
        forall|k: int| 0 <= k < actions.len() ==> drawn_bytes(#[trigger] actions[k]) is None,
        actions.contains(RemoteAction::SetBacklight(BacklightMode::Normal)) <==> list_changed,
        actions.len() <= 1,
{
    if list_changed {
        assert(actions[0] == RemoteAction::SetBacklight(BacklightMode::Normal));
    }
}

/// The message that an action sends to the active session, if it sends one.
pub open spec fn sent_message(action: RemoteAction) -> Option<MessageView> {
    match action {
        RemoteAction::Send { message, .. } => Some(message@),
        _ => None,
    }
}

/// A command reaches the session as it is: a scroll request keeps its direction and its rows, a
/// key arrives as the bytes of its characters, an announcement keeps whether it closes. What
/// cannot be sent is let go.
pub proof fn law_command_reaches_the_session(command: MqttCommand, action: RemoteAction)
    requires
        command_action(command, action),
    ensures
        command matches MqttCommand::SendScrollUp { rows } ==> sent_message(action) == Some(
            MessageView::ScrollUp { rows },
        ),
        command matches MqttCommand::SendScrollDown { rows } ==> sent_message(action) == Some(
            MessageView::ScrollDown { rows },
        ),
        sent_message(action) matches Some(m) ==> {
            &&& m is ScrollUp <==> command is SendScrollUp
            &&& m is ScrollDown <==> command is SendScrollDown
            &&& m is PtyInput <==> command is SendKey
        },
        command matches MqttCommand::SendKey { key } ==> sent_message(action) == Some(
            MessageView::PtyInput(encode_utf8(key@)),
        ),
        command matches MqttCommand::SendSync { close } ==> action == (RemoteAction::ActiveSync {
            close,
            on_failure: OnFailure::Ignore,
        }),
        action matches RemoteAction::Send { on_failure, .. } ==> on_failure == OnFailure::Ignore,
{
}

/// What an effect does is what it is named after, and no other effect does it: the power is
/// cut, the device restarted, a session made active or left, the display lit or darkened, a
/// menu or the editor opened, by the one effect that says so. Whoever the active session is,
/// the subscriptions follow at once; whatever takes over the touches forgets the gesture first.
pub proof fn law_effects_do_what_they_are_named_after(effect: Effect, actions: Seq<RemoteAction>)
    requires
        app_effect_actions(effect, actions),
    ensures
        actions.contains(RemoteAction::PowerOff) <==> effect is PowerOff,
        actions.contains(RemoteAction::Reboot) <==> effect is Reboot,
        actions.contains(RemoteAction::ClearActive) <==> effect is ClearActiveSession,
        actions.contains(RemoteAction::ShowBootMenu) <==> effect is OpenBootMenu,
        actions.contains(RemoteAction::ShowScreenMenu) <==> effect is OpenScreenMenu,
        actions.contains(RemoteAction::RunAsr) <==> effect is OpenAsrEditor,
        actions.contains(RemoteAction::SetBacklight(BacklightMode::Normal)) <==> effect
            == Effect::SetBacklight(BacklightState::Normal),
        actions.contains(RemoteAction::SetBacklight(BacklightMode::Off)) <==> effect
            == Effect::SetBacklight(BacklightState::Off),
        forall|prefix: String| #[trigger]
            actions.contains(RemoteAction::SetActive(prefix)) <==> effect == Effect::SelectSession(
                prefix,
            ),
        forall|index: usize| #[trigger]
            actions.contains(RemoteAction::SetTheme(index)) <==> effect == Effect::SelectTheme(
                index,
            ),
        effect is SelectSession || effect is ClearActiveSession ==> actions.last()
            == RemoteAction::FlushPending,
        effect is OpenBootMenu || effect is OpenScreenMenu || effect is OpenAsrEditor
            ==> actions[0] == RemoteAction::CancelGesture,
        effect matches Effect::MqttPublish(command) ==> !(command is Publish) ==> actions.len() == 1
            && command_action(command, actions[0]),
{
    let n = actions.len() as int;
    if n > 0 {
        let first = actions[0];
        assert(actions.contains(first));
        if n > 1 {
            let second = actions[1];
            assert(actions.contains(second));
        }
    }
    assert(n <= 2);
}

/// The actions that follow the drawing of the screen, where it is drawn.
pub open spec fn after_drawing(result: AppEventResult, actions: Seq<RemoteAction>) -> Seq<
    RemoteAction,
> {
    if result.render {
        actions.drop_first()
    } else {
        actions
    }
}

/// Of two effects the first is carried out before the second, each in full, and nothing else
/// is done; where the screen is to be drawn, that comes before both.
pub proof fn law_effects_are_carried_out_in_order(
    result: AppEventResult,
    a: Effect,
    b: Effect,
    actions: Seq<RemoteAction>,
)
    requires
        result.effects@ == seq![a, b],
        result_actions(result, actions),
    ensures
        result.render ==> actions.len() > 0 && actions[0] == RemoteAction::Render,
        ({
            let rest = after_drawing(result, actions);
            exists|n: int|
                0 <= n <= rest.len() && app_effect_actions(a, #[trigger] rest.take(n))
                    && app_effect_actions(b, rest.skip(n))
        }),
{
    let rest = after_drawing(result, actions);
    let effects = seq![a, b];
    assert(effects.drop_last() =~= seq![a]);
    assert(seq![a].drop_last() =~= Seq::<Effect>::empty());
    reveal_with_fuel(effects_actions, 3);
    let n = choose|n: int|
        0 <= n <= rest.len() && effects_actions(effects.drop_last(), #[trigger] rest.take(n))
            && app_effect_actions(effects.last(), rest.skip(n));
    let firsts = rest.take(n);
    let m = choose|m: int|
        0 <= m <= firsts.len() && effects_actions(
            seq![a].drop_last(),
            #[trigger] firsts.take(m),
        ) && app_effect_actions(seq![a].last(), firsts.skip(m));
    assert(firsts.take(m).len() == 0);
    assert(firsts.skip(m) =~= firsts);
}

/// The display is announced to a session that there is, in the unit that it shows: as many
/// columns and rows of text as fit on it (a cell is eight pixels wide and seventeen high), or
/// the largest picture that is a multiple of eight pixels on either axis.
pub proof fn law_display_is_announced_in_the_session_s_unit(
    has_active_session: bool,
    text_screen: bool,
    close: bool,
)
    ensures
        ({
            let message = announcement(has_active_session, text_screen, close);
            &&& message is Some <==> has_active_session
            &&& message matches Some(m) ==> {
                &&& m is Sync
                &&& m->pixels == !text_screen
                &&& m->Sync_close == close
                &&& text_screen ==> 8 * m->width <= 410 < 8 * (m->width + 1) && 17 * m->height
                    <= 502 < 17 * (m->height + 1)
                &&& !text_screen ==> m->width % 8 == 0 && m->height % 8 == 0 && m->width <= 410
                    < m->width + 8 && m->height <= 502 < m->height + 8
            }
        }),
{
}

/// A choice in the boot menu does what it says and nothing that another choice does; the sound
/// setting is turned over by its own choice alone, is kept as it then is, and the prompt is
/// played exactly where it was turned on. Choosing it twice leaves the setting as it was.
pub proof fn law_boot_menu_choices_do_what_they_say(action: BootMenuAction, prompt_enabled: bool)
    ensures
        ({
            let actions = boot_menu_actions(action, prompt_enabled);
            let after = prompt_after_choice(action, prompt_enabled);
            &&& actions.contains(RemoteAction::Reboot) <==> action == BootMenuAction::Restart
            &&& actions.contains(RemoteAction::PowerOff) <==> action == BootMenuAction::PowerOff
            &&& actions.contains(RemoteAction::SetBacklight(BacklightMode::Off)) <==> action
                == BootMenuAction::ScreenOff
            &&& actions.contains(RemoteAction::SelectTheme) <==> action == BootMenuAction::Theme
            &&& (after != prompt_enabled) <==> action == BootMenuAction::ToggleSound
            &&& forall|kept: bool| #[trigger]
                actions.contains(RemoteAction::SavePromptEnabled(kept)) <==> action
                    == BootMenuAction::ToggleSound && kept == after
            &&& actions.contains(RemoteAction::PlayPrompt) <==> after && !prompt_enabled
            &&& action == BootMenuAction::Back ==> actions.len() == 0
            &&& prompt_after_choice(action, after) == prompt_enabled
            &&& redraws_after_choice(action) <==> !actions.contains(RemoteAction::Reboot)
                && !actions.contains(RemoteAction::PowerOff)
        }),
{
    let actions = boot_menu_actions(action, prompt_enabled);
    if actions.len() > 0 {
        let first = actions[0];
        assert(actions.contains(first));
        if actions.len() > 1 {
            let second = actions[1];
            assert(actions.contains(second));
        }
    }
}

} // verus!
