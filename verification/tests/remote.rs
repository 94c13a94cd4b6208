use vibewatch::app::{AppEventResult, BacklightState, Effect, MqttCommand};
use vibewatch::geometry::{Point, Rectangle, Size};
use vibewatch::lcd::{BacklightStep, TouchEvent, TouchPoint};
use vibewatch::mqtt::MqttEvent;
use vibewatch::protocol::{ClientMessage, ImageFormat, ScreenImageChunk};
use vibewatch::remote::editor::{
    asr_editor_swipe, hint_text, hold_message, hold_touch, record_start, release_wait_ends,
    top_asr_action, AsrAction, AsrEditorSwipe, AsrEvent, AsrFailure, AsrHint, AsrSession, HoldNext, RecordEvent,
    RecordNext, Recording, TopAsrAction, TouchAsrEditor,
};
use vibewatch::remote::effects::{
    active_sync_message, execute_app_effect, execute_boot_menu_action, execute_mqtt_command,
    execute_simple_effect, handle_app_event_result, handle_mqtt_event,
};
use vibewatch::remote::menus::{
    boot_menu_choice, boot_menu_items, idle_prompt_item, menu_message, power_menu_choice,
    power_menu_items, power_menu_left, screen_action_choice, screen_action_items,
    screen_action_sent, show_boot_menu, theme_items, BootMenuAction, BootMenuNext, BootMenuStep,
    IdleNext, IdlePrompt, ListPress, MenuNext, ScreenMenuPress, ThemeNext, ThemePicker,
};
use vibewatch::remote::picker::{
    loading_deadline, loading_next, LoadingNext, PickerEvent, PickerFrame, SessionPicker,
};
use vibewatch::remote::screen::{
    active_session_went_offline, is_screen_menu_touch, local_scroll, scroll_swipe_message,
    ScreenEvent, ScreenTouch,
};
use vibewatch::remote::shell::{Shell, ShellTurn};
use vibewatch::remote::{
    idle_shutdown_title, key_message, power_menu_label, session_became_idle, session_picker_title,
    sessions_are_all_idle, BacklightMode, BacklightNext, Key, OnFailure, RemoteAction,
};
use vibewatch::touch::TouchGesture;
use vibewatch::ui::draw::UiColor;

fn at(x: u16, y: u16) -> TouchPoint {
    TouchPoint { x, y, strength: 0 }
}

fn press(x: u16, y: u16) -> Option<TouchEvent> {
    Some(TouchEvent::Press(at(x, y)))
}

fn release(x: u16, y: u16) -> Option<TouchEvent> {
    Some(TouchEvent::Release(at(x, y)))
}

fn label(prefix: &str, working: bool) -> (String, String, bool, bool) {
    (prefix.to_string(), format!("l-{prefix}"), false, working)
}

fn rects() -> Vec<Rectangle> {
    vec![
        Rectangle::new(Point::new(0, 30), Size::new(203, 112)),
        Rectangle::new(Point::new(207, 30), Size::new(203, 112)),
    ]
}

fn text(actions: &[RemoteAction]) -> String {
    format!("{actions:?}")
}

const SECOND: u64 = 1_000_000_000;

#[test]
fn backlight_changes_step_by_step() {
    let mut mode = BacklightMode::Normal;
    assert_eq!(mode.set(BacklightMode::Normal, None), BacklightNext::Done);
    let mut steps = Vec::new();
    let mut last = None;
    loop {
        match mode.set(BacklightMode::Off, last) {
            BacklightNext::Do(step) => {
                steps.push(step);
                last = Some((step, !matches!(step, BacklightStep::CloseAudio)));
            }
            BacklightNext::Done => break,
            BacklightNext::Failed => panic!("nothing failed"),
        }
    }
    assert_eq!(
        steps,
        vec![
            BacklightStep::SetLevel(0),
            BacklightStep::CloseAudio,
            BacklightStep::ReleaseSleepLock
        ]
    );
    assert_eq!(mode, BacklightMode::Off);
    assert_eq!(
        mode.set(BacklightMode::Normal, None),
        BacklightNext::Do(BacklightStep::HoldSleepLock)
    );
    assert_eq!(
        mode.set(
            BacklightMode::Normal,
            Some((BacklightStep::HoldSleepLock, false))
        ),
        BacklightNext::Failed
    );
    assert_eq!(mode, BacklightMode::Off);
    assert_eq!(
        mode.set(BacklightMode::Normal, Some((BacklightStep::OpenAudio, false))),
        BacklightNext::Do(BacklightStep::SetLevel(50))
    );
}

#[test]
fn keys_send_their_characters() {
    for (key, bytes) in [
        (Key::Backspace, vec![0x7f]),
        (Key::Esc, vec![0x1b]),
        (Key::Next, vec![0x1b, b'[', b'B']),
        (Key::Yolo, vec![0x1b, b'[', b'Z']),
        (Key::Enter, vec![b'\r']),
    ] {
        match key_message(key) {
            ClientMessage::PtyInput(data) => assert_eq!(data, bytes),
            _ => panic!("a key is keyboard input"),
        }
    }
}

#[test]
fn titles_name_the_charge() {
    assert_eq!(session_picker_title(Some(57)), "Session: Battery 57%");
    assert_eq!(session_picker_title(None), "Session: Battery --");
    assert_eq!(power_menu_label(Some(100)), "Power: Battery 100%");
    assert_eq!(idle_shutdown_title(15), "Save battery: off in 15s");
    let before = [label("a", true), label("b", false)];
    let after = [label("a", false)];
    assert!(session_became_idle(&before, &after));
    assert!(!session_became_idle(&after, &before));
    assert!(sessions_are_all_idle(&after));
    assert!(!sessions_are_all_idle(&before));
}

fn open_picker(count: usize) -> SessionPicker {
    let mut picker = SessionPicker::new(SECOND);
    let labels = (0..count).map(|i| label(&format!("s{i}"), false)).collect();
    match picker.begin_render(labels) {
        PickerFrame::List(items) => assert_eq!(items.len(), count),
        PickerFrame::Empty => assert_eq!(count, 0),
    }
    picker.end_render("title".to_string(), Some(rects()));
    picker
}

fn step(
    picker: &mut SessionPicker,
    event: PickerEvent,
    backlight: BacklightMode,
    now: u64,
) -> Vec<RemoteAction> {
    let mut prompt = true;
    picker.on_event(event, backlight, &mut prompt, now)
}

#[test]
fn the_list_waits_for_a_first_session() {
    assert_eq!(loading_deadline(&[], 7), Some(1_500_000_007));
    assert_eq!(loading_deadline(&[label("a", false)], 7), None);
    assert_eq!(loading_next(None, &[]), LoadingNext::Proceed);
    assert_eq!(loading_next(Some(true), &[]), LoadingNext::Leave);
    assert_eq!(loading_next(Some(false), &[]), LoadingNext::Wait);
    assert_eq!(
        loading_next(Some(false), &[label("a", false)]),
        LoadingNext::Proceed
    );
}

#[test]
fn a_click_opens_a_session_in_order() {
    let mut picker = open_picker(3);
    picker.scroll_offset = 1;
    let touch = |touch| PickerEvent::Touch { touch, listed: 3 };
    let none = step(&mut picker, touch(press(300, 50)), BacklightMode::Normal, 2);
    assert!(none.is_empty());
    assert_eq!(
        picker.waits(BacklightMode::Normal).long_press_at,
        Some(SECOND + 2)
    );
    let actions = step(&mut picker, touch(release(310, 60)), BacklightMode::Normal, 3);
    assert_eq!(
        text(&actions),
        "[SetBacklight(Normal), ShowLoading, SetActive(\"s2\"), FlushPending, \
         ActiveSync { close: false, on_failure: Abort }, Leave]"
    );
}

#[test]
fn a_touch_on_the_dark_list_only_wakes_it() {
    let mut picker = open_picker(2);
    picker.off_since = Some(5);
    let actions = step(
        &mut picker,
        PickerEvent::Touch {
            touch: press(10, 50),
            listed: 2,
        },
        BacklightMode::Off,
        9,
    );
    assert_eq!(text(&actions), "[SetBacklight(Normal), RenderPicker]");
    assert_eq!(picker.press_touch, None);
    assert_eq!(picker.off_since, None);
    assert_eq!(picker.last_list_change, 9);
}

#[test]
fn the_list_has_its_times() {
    let mut picker = open_picker(1);
    let lit = picker.waits(BacklightMode::Normal);
    assert_eq!(lit.title_refresh_at, Some(61 * SECOND));
    assert_eq!(lit.idle_off_at, Some(31 * SECOND));
    assert_eq!(lit.shutdown_prompt_at, None);
    let off = step(&mut picker, PickerEvent::IdleDue, BacklightMode::Normal, 40);
    assert_eq!(text(&off), "[SetBacklight(Off)]");
    let dark = picker.waits(BacklightMode::Off);
    assert_eq!(dark.title_refresh_at, None);
    assert_eq!(dark.shutdown_prompt_at, Some(1200 * SECOND + 40));
    picker.labels[0].3 = true;
    assert_eq!(picker.waits(BacklightMode::Off).shutdown_prompt_at, None);
    let prompt = step(&mut picker, PickerEvent::ShutdownDue, BacklightMode::Off, 50);
    assert_eq!(text(&prompt), "[SetBacklight(Normal), ShowIdlePrompt]");
    let kept = step(
        &mut picker,
        PickerEvent::IdleAnswered { cancelled: true },
        BacklightMode::Normal,
        60,
    );
    assert_eq!(text(&kept), "[RenderPicker]");
    let down = step(
        &mut picker,
        PickerEvent::IdleAnswered { cancelled: false },
        BacklightMode::Normal,
        60,
    );
    assert_eq!(text(&down), "[PowerOff]");
}

#[test]
fn the_list_scrolls_refreshes_and_changes() {
    let mut picker = open_picker(4);
    let touch = |touch| PickerEvent::Touch { touch, listed: 4 };
    step(&mut picker, touch(press(10, 100)), BacklightMode::Normal, 1);
    let moved = step(&mut picker, touch(press(10, 160)), BacklightMode::Normal, 2);
    assert!(moved.is_empty());
    assert_eq!(picker.press_started_at, None);
    let actions = step(&mut picker, touch(release(10, 180)), BacklightMode::Normal, 3);
    assert_eq!(text(&actions), "[RenderPicker]");
    assert_eq!(picker.scroll_offset, 1);
    step(&mut picker, touch(press(10, 100)), BacklightMode::Normal, 4);
    let actions = step(&mut picker, touch(release(90, 100)), BacklightMode::Normal, 5);
    assert_eq!(text(&actions), "[RenderPicker]");
    picker.labels[0].3 = true;
    let changed = step(
        &mut picker,
        PickerEvent::Mqtt {
            event: Some(MqttEvent::Presence {
                prefix: "s0".to_string(),
                online: true,
                list_changed: true,
                was_active: false,
            }),
            labels: vec![label("s0", false)],
        },
        BacklightMode::Off,
        6,
    );
    assert_eq!(
        text(&changed),
        "[SetBacklight(Normal), PlayPrompt, RenderPickerWith([(\"s0\", \"l-s0\", false, false)])]"
    );
    assert_eq!(picker.scroll_offset, 0);
    let closed = step(
        &mut picker,
        PickerEvent::Mqtt {
            event: None,
            labels: vec![],
        },
        BacklightMode::Normal,
        7,
    );
    assert_eq!(text(&closed), "[Leave]");
    let title = step(
        &mut picker,
        PickerEvent::TitleDue("new".to_string()),
        BacklightMode::Normal,
        8,
    );
    assert_eq!(text(&title), "[RefreshTitle(\"new\")]");
    let same = step(
        &mut picker,
        PickerEvent::TitleDue("new".to_string()),
        BacklightMode::Normal,
        9,
    );
    assert!(same.is_empty());
}

#[test]
fn the_boot_menu_of_the_list() {
    let mut picker = open_picker(1);
    let mut prompt = true;
    let sound = picker.on_event(
        PickerEvent::BootMenuLeft(BootMenuAction::ToggleSound),
        BacklightMode::Normal,
        &mut prompt,
        1,
    );
    assert_eq!(text(&sound), "[SavePromptEnabled(false), RenderPicker]");
    assert!(!prompt);
    for (action, expected) in [
        (BootMenuAction::Restart, "[Reboot]"),
        (BootMenuAction::PowerOff, "[PowerOff]"),
        (BootMenuAction::ScreenOff, "[SetBacklight(Off), RenderPicker]"),
        (BootMenuAction::Theme, "[SelectTheme, RenderPicker]"),
        (BootMenuAction::Back, "[RenderPicker]"),
    ] {
        let actions = picker.on_event(
            PickerEvent::BootMenuLeft(action),
            BacklightMode::Normal,
            &mut prompt,
            2,
        );
        assert_eq!(text(&actions), expected);
    }
    let long = step(&mut picker, PickerEvent::LongPressDue, BacklightMode::Normal, 3);
    assert_eq!(text(&long), "[ShowBootMenu]");
}

#[test]
fn touches_on_a_session_screen() {
    let mut finger = ScreenTouch::new();
    let touch = |touch| ScreenEvent::Touch {
        touch,
        text_screen: false,
    };
    assert_eq!(
        text(&finger.on_event(touch(press(10, 10)), 1)),
        "[ShowBackspaceOverlay]"
    );
    assert_eq!(finger.backspace_at(), Some(500_000_001));
    assert_eq!(
        text(&finger.on_event(ScreenEvent::BackspaceDue, 2)),
        "[SendKey { key: Backspace, on_failure: Report }]"
    );
    assert!(finger
        .on_event(ScreenEvent::BackspaceSent { ok: true }, 500_000_002)
        .is_empty());
    assert_eq!(finger.backspace_at(), Some(1_000_000_002));
    assert_eq!(
        text(&finger.on_event(touch(release(10, 10)), 3)),
        "[RedrawCached]"
    );
    finger.on_event(touch(press(10, 10)), 4);
    assert_eq!(
        text(&finger.on_event(touch(release(10, 10)), 5)),
        "[SendKey { key: Backspace, on_failure: Ignore }, RedrawCached]"
    );
    finger.on_event(touch(press(400, 10)), 6);
    assert_eq!(
        text(&finger.on_event(ScreenEvent::MqttHandled { offline: false }, 6)),
        "[ShowMenuOverlay]"
    );
    assert_eq!(
        text(&finger.on_event(touch(release(400, 10)), 7)),
        "[RedrawCached, ShowScreenMenu]"
    );
    finger.on_event(touch(press(100, 200)), 8);
    assert_eq!(
        text(&finger.on_event(touch(release(150, 200)), 9)),
        "[ActiveSync { close: true, on_failure: Ignore }, ClearActive, FlushPending, OpenPicker]"
    );
    finger.on_event(touch(press(100, 450)), 10);
    assert_eq!(
        text(&finger.on_event(touch(release(100, 450)), 11)),
        "[RunAsr]"
    );
    finger.on_event(touch(press(100, 300)), 12);
    assert_eq!(
        text(&finger.on_event(touch(release(100, 200)), 13)),
        "[Send { message: ScrollDown { rows: 15 }, on_failure: Report }]"
    );
    finger.on_event(touch(press(100, 200)), 14);
    assert_eq!(
        text(&finger.on_event(
            ScreenEvent::Touch {
                touch: release(100, 300),
                text_screen: true
            },
            15
        )),
        "[ScrollLocally { up: true }]"
    );
    assert_eq!(
        text(&finger.on_event(
            ScreenEvent::ScrolledLocally {
                up: true,
                scrolled: false
            },
            16
        )),
        "[Send { message: ScrollUp { rows: 15 }, on_failure: Report }]"
    );
    assert_eq!(
        text(&finger.on_event(ScreenEvent::ScrollSent { ok: false }, 17)),
        "[OpenPicker]"
    );
    assert_eq!(
        text(&finger.on_event(ScreenEvent::MqttHandled { offline: true }, 18)),
        "[FlushPending, OpenPicker]"
    );
    assert_eq!(finger, ScreenTouch::new());
    assert!(is_screen_menu_touch(at(300, 0), at(400, 79)));
    assert!(scroll_swipe_message(at(0, 0), at(0, 10)).is_none());
    assert_eq!(
        local_scroll(&scroll_swipe_message(at(0, 0), at(0, 40)).unwrap()),
        Some(true)
    );
    assert_eq!(local_scroll(&ClientMessage::sync()), None);
}

#[test]
fn effects_become_actions() {
    assert_eq!(
        text(&execute_app_effect(Effect::SelectSession("p".to_string()))),
        "[SetActive(\"p\"), FlushPending]"
    );
    assert_eq!(
        text(&execute_app_effect(Effect::OpenBootMenu)),
        "[CancelGesture, ShowBootMenu]"
    );
    assert_eq!(
        text(&execute_app_effect(Effect::SelectTheme(2))),
        "[SetTheme(2)]"
    );
    assert!(execute_simple_effect(Effect::OpenBootMenu).is_empty());
    assert_eq!(
        text(&execute_simple_effect(Effect::SetBacklight(
            BacklightState::Off
        ))),
        "[SetBacklight(Off)]"
    );
    assert_eq!(
        text(&execute_simple_effect(Effect::MqttPublish(
            MqttCommand::SendSync { close: true }
        ))),
        "[ActiveSync { close: true, on_failure: Ignore }]"
    );
    match execute_mqtt_command(MqttCommand::SendKey {
        key: "é".to_string(),
    }) {
        Some(RemoteAction::Send {
            message: ClientMessage::PtyInput(data),
            on_failure,
        }) => {
            assert_eq!(data, "é".as_bytes());
            assert_eq!(on_failure, OnFailure::Ignore);
        }
        other => panic!("{other:?}"),
    }
    assert!(execute_mqtt_command(MqttCommand::Publish {
        topic: "t".to_string(),
        payload: vec![]
    })
    .is_none());
    let mut enabled = false;
    let (actions, again) = execute_boot_menu_action(BootMenuAction::ToggleSound, &mut enabled);
    assert_eq!(text(&actions), "[SavePromptEnabled(true), PlayPrompt]");
    assert!(again && enabled);
    let (actions, again) = execute_boot_menu_action(BootMenuAction::Restart, &mut enabled);
    assert_eq!(text(&actions), "[Reboot]");
    assert!(!again);
}

#[test]
fn results_are_drawn_before_they_are_carried_out() {
    let result = AppEventResult {
        render: true,
        effects: vec![
            Effect::SelectSession("p".to_string()),
            Effect::MqttPublish(MqttCommand::SendSync { close: false }),
        ],
    };
    assert_eq!(
        text(&handle_app_event_result(result)),
        "[Render, SetActive(\"p\"), FlushPending, \
         ActiveSync { close: false, on_failure: Ignore }]"
    );
    assert!(handle_app_event_result(AppEventResult::none()).is_empty());
    assert_eq!(
        text(&handle_app_event_result(AppEventResult::effect(
            Effect::OpenAsrEditor
        ))),
        "[CancelGesture, RunAsr]"
    );
}

#[test]
fn announcements_fit_the_session() {
    assert!(active_sync_message(false, true, false).is_none());
    match active_sync_message(true, true, true) {
        Some(ClientMessage::Sync {
            width,
            height,
            pixels,
            close,
        }) => assert_eq!((width, height, pixels, close), (51, 29, false, true)),
        other => panic!("{other:?}"),
    }
    match active_sync_message(true, false, false) {
        Some(ClientMessage::Sync { width, pixels, .. }) => assert_eq!((width, pixels), (408, true)),
        other => panic!("{other:?}"),
    }
    let jpeg = handle_mqtt_event(MqttEvent::ActiveScreen(ScreenImageChunk {
        format: ImageFormat::Jpeg,
        data: vec![9, 8, 0, 0, 0, 0],
    }));
    assert_eq!(text(&jpeg), "[ShowJpeg([9, 8])]");
    let png = handle_mqtt_event(MqttEvent::ActiveScreen(ScreenImageChunk {
        format: ImageFormat::Png,
        data: vec![9, 8, 0, 0, 0, 0],
    }));
    assert!(png.is_empty());
    let gone = MqttEvent::Presence {
        prefix: String::new(),
        online: false,
        list_changed: true,
        was_active: true,
    };
    assert!(active_session_went_offline(&gone));
    assert_eq!(text(&handle_mqtt_event(gone)), "[SetBacklight(Normal)]");
}

#[test]
fn menus_are_chosen_from() {
    let rects = rects();
    let mut menu = ScreenMenuPress::new();
    assert_eq!(menu.on_touch(press(10, 40), &rects), MenuNext::Wait);
    assert_eq!(menu.on_touch(release(10, 50), &rects), MenuNext::Picked(0));
    let mut menu = ScreenMenuPress::new();
    menu.on_touch(press(10, 40), &rects);
    assert_eq!(menu.on_touch(release(300, 50), &rects), MenuNext::Wait);
    assert_eq!(menu.on_touch(release(300, 300), &rects), MenuNext::Dismissed);
    assert_eq!(menu.on_touch(None, &rects), MenuNext::TouchClosed);
    let mut list = ListPress::new();
    list.on_touch(press(10, 40), &rects);
    assert_eq!(list.on_touch(release(60, 40), &rects), MenuNext::Dismissed);
    let mut list = ListPress::new();
    list.on_touch(press(300, 40), &rects);
    assert_eq!(list.on_touch(release(310, 40), &rects), MenuNext::Picked(1));
    assert_eq!(menu_message(&None), MenuNext::MqttClosed);
    assert_eq!(
        menu_message(&Some(MqttEvent::ActiveText(vec![]))),
        MenuNext::Wait
    );
}

#[test]
fn boot_and_power_menus() {
    let items = boot_menu_items(Some(80), true, "Dracula");
    let texts: Vec<&str> = items.iter().map(|i| i.text.as_str()).collect();
    assert_eq!(
        texts,
        vec!["Power: Battery 80%", "Sound Off", "Theme: Dracula", "Back"]
    );
    assert_eq!(items[2].rect.top_left, Point::new(0, 142));
    assert_eq!(items[1].border_color, Some(UiColor::Green));
    assert_eq!(boot_menu_items(None, false, "x")[1].text, "Sound On");
    assert_eq!(boot_menu_choice(Some(0)), BootMenuNext::OpenPowerMenu);
    assert_eq!(
        boot_menu_choice(None),
        BootMenuNext::Leave(BootMenuAction::Back)
    );
    assert_eq!(power_menu_items()[1].text, "Power Off");
    assert_eq!(power_menu_choice(Some(2)), BootMenuAction::ScreenOff);
    assert_eq!(power_menu_left(BootMenuAction::Back), BootMenuNext::Again);
    assert_eq!(
        power_menu_left(BootMenuAction::Restart),
        BootMenuNext::Leave(BootMenuAction::Restart)
    );
}

#[test]
fn the_boot_menu_waits_for_the_finger() {
    let mut steps = Vec::new();
    let mut last = None;
    for choice in [None, Some(1), Some(0), Some(3), Some(0), Some(2)] {
        let step = show_boot_menu(last);
        steps.push(step);
        last = Some((step, choice));
    }
    assert_eq!(
        steps,
        vec![
            BootMenuStep::ShowEmpty,
            BootMenuStep::WaitRelease,
            BootMenuStep::SelectSystem,
            BootMenuStep::SelectPower,
            BootMenuStep::SelectSystem,
            BootMenuStep::SelectPower
        ]
    );
    assert_eq!(
        show_boot_menu(last),
        BootMenuStep::Leave(BootMenuAction::ScreenOff)
    );
}

#[test]
fn themes_are_chosen_from_a_list() {
    let items = theme_items(4, 2);
    assert_eq!(items.len(), 7);
    assert_eq!(items[0], ("Solarized".to_string(), false));
    assert_eq!(items[2], ("Dracula".to_string(), true));
    assert_eq!(items[6], ("Back".to_string(), false));
    assert!(theme_items(0, 9).is_empty());
    let mut picker = ThemePicker::new();
    picker.item_rects = rects();
    picker.on_touch(press(300, 50));
    assert_eq!(picker.on_touch(release(300, 50)), ThemeNext::Picked(1));
    picker.on_touch(press(10, 50));
    assert_eq!(picker.on_touch(release(10, 150)), ThemeNext::Render);
    assert_eq!(picker.scroll_offset, 1);
    picker.scroll_offset = 7;
    picker.on_touch(press(10, 50));
    assert_eq!(picker.on_touch(release(10, 150)), ThemeNext::Wait);
    picker.on_touch(press(300, 50));
    assert_eq!(picker.on_touch(release(300, 50)), ThemeNext::Leave);
    assert_eq!(picker.on_touch(None), ThemeNext::Leave);
    assert_eq!(picker.on_message(&None), ThemeNext::Leave);
}

#[test]
fn the_screen_menu_sends_keys() {
    assert_eq!(screen_action_items()[2].0, "Yolo");
    assert_eq!(
        text(&screen_action_choice(Some(1))),
        "[SendKey { key: Next, on_failure: Report }]"
    );
    assert_eq!(text(&screen_action_choice(None)), "[RedrawCached]");
    assert!(screen_action_choice(Some(4)).is_empty());
    assert!(screen_action_sent(false, true).is_empty());
    assert_eq!(text(&screen_action_sent(true, true)), "[RedrawCached]");
    assert_eq!(
        text(&screen_action_sent(true, false)),
        "[ActiveSync { close: false, on_failure: Ignore }]"
    );
}

#[test]
fn the_countdown_runs_out_or_is_cancelled() {
    let item = idle_prompt_item();
    assert_eq!(item.rect.top_left, Point::new(40, 370));
    assert_eq!(item.rect.size, Size::new(330, 82));
    let rects = vec![item.rect];
    let mut prompt = IdlePrompt::new(0);
    for left in (1..15).rev() {
        match prompt.on_tick() {
            IdleNext::RefreshTitle(title) => {
                assert_eq!(title, format!("Save battery: off in {left}s"))
            }
            other => panic!("{other:?}"),
        }
    }
    assert!(matches!(prompt.on_tick(), IdleNext::Expired));
    let mut prompt = IdlePrompt::new(0);
    prompt.on_touch(press(50, 400), &rects);
    assert!(matches!(
        prompt.on_touch(release(60, 400), &rects),
        IdleNext::Cancelled
    ));
    let changed = |list_changed| {
        Some(MqttEvent::Presence {
            prefix: String::new(),
            online: true,
            list_changed,
            was_active: false,
        })
    };
    assert!(matches!(
        prompt.on_message(&changed(true), &[label("a", true)]),
        IdleNext::Cancelled
    ));
    assert!(matches!(
        prompt.on_message(&changed(false), &[label("a", true)]),
        IdleNext::Wait
    ));
    assert!(matches!(
        prompt.on_message(&changed(true), &[label("a", false)]),
        IdleNext::Wait
    ));
}

#[test]
fn text_is_edited_at_the_cursor() {
    let mut editor = TouchAsrEditor::new();
    assert_eq!(editor.display_text(), "|");
    editor.insert_str("héllo");
    assert_eq!(editor.display_text(), "héllo|");
    editor.move_left();
    editor.move_left();
    assert_eq!(editor.display_text(), "hél|lo");
    editor.backspace();
    assert_eq!(editor.display_text(), "hé|lo");
    editor.insert_str("测 ");
    assert_eq!(editor.display_text(), "hé测 |lo");
    editor.move_right();
    editor.move_right();
    editor.move_right();
    assert_eq!(editor.display_text(), "hé测 lo|");
    assert_eq!(editor.char_len(), 6);
    editor.cursor = 0;
    editor.backspace();
    assert_eq!(editor.display_text(), "|hé测 lo");
    editor.insert_str(" \u{3000}\t");
    assert_eq!(editor.take_trimmed(), "hé测 lo");
}

#[test]
fn the_editor_records_edits_and_sends() {
    let mut session = AsrSession::new();
    let show = |actions: Vec<AsrAction>| format!("{actions:?}");
    assert_eq!(
        show(session.on_event(AsrEvent::Touch(press(100, 450)))),
        "[Record]"
    );
    assert_eq!(
        show(session.on_event(AsrEvent::Recorded(Ok(Some(" hi there\n".to_string()))))),
        "[Show]"
    );
    assert_eq!(session.editor.display_text(), "hi there |");
    session.on_event(AsrEvent::Recorded(Ok(None)));
    assert_eq!(hint_text(session.hint), "(empty)");
    session.on_event(AsrEvent::Recorded(Err(AsrFailure::Recogniser)));
    assert_eq!(hint_text(session.hint), "ASR error");
    assert_eq!(
        show(session.on_event(AsrEvent::Touch(press(200, 10)))),
        "[Show, HoldTop(Delete)]"
    );
    assert_eq!(
        show(session.on_event(AsrEvent::TopTick(TopAsrAction::Delete))),
        "[Show]"
    );
    assert_eq!(session.editor.display_text(), "hi ther|");
    session.on_event(AsrEvent::Touch(press(100, 300)));
    assert_eq!(
        show(session.on_event(AsrEvent::Touch(release(100, 200)))),
        "[Send(\"hi ther\")]"
    );
    assert_eq!(
        show(session.on_event(AsrEvent::Sent {
            ok: true,
            text_screen: true
        })),
        "[RedrawTerminal, Leave]"
    );
    assert_eq!(
        show(session.on_event(AsrEvent::Sent {
            ok: false,
            text_screen: true
        })),
        "[Leave]"
    );
    session.on_event(AsrEvent::Touch(press(100, 200)));
    assert_eq!(
        show(session.on_event(AsrEvent::Touch(release(100, 300)))),
        "[ActiveSync, Leave]"
    );
    let mut empty = AsrSession::new();
    empty.on_event(AsrEvent::Touch(press(100, 300)));
    assert_eq!(
        show(empty.on_event(AsrEvent::Touch(release(100, 200)))),
        "[ActiveSync, Leave]"
    );
    assert_eq!(show(empty.on_event(AsrEvent::Touch(None))), "[TouchClosed]");
    assert_eq!(
        show(empty.on_event(AsrEvent::Mqtt { closed: true })),
        "[MqttClosed]"
    );
    assert_eq!(hint_text(AsrHint::Connecting), "Connecting...");
}

#[test]
fn buttons_and_swipes_of_the_editor() {
    assert_eq!(top_asr_action(at(135, 0)), Some(TopAsrAction::Left));
    assert_eq!(top_asr_action(at(136, 79)), Some(TopAsrAction::Delete));
    assert_eq!(top_asr_action(at(272, 0)), Some(TopAsrAction::Right));
    assert_eq!(top_asr_action(at(272, 80)), None);
    assert_eq!(
        asr_editor_swipe(at(100, 200), at(100, 160)),
        Some(AsrEditorSwipe::Send)
    );
    assert_eq!(
        asr_editor_swipe(at(100, 200), at(100, 240)),
        Some(AsrEditorSwipe::Cancel)
    );
    assert_eq!(asr_editor_swipe(at(100, 70), at(100, 240)), None);
    assert_eq!(asr_editor_swipe(at(100, 430), at(100, 240)), None);
    assert_eq!(hold_touch(press(1, 1)), HoldNext::Wait);
    assert_eq!(hold_touch(None), HoldNext::Lifted);
    assert_eq!(hold_message(false), HoldNext::Wait);
    assert_eq!(hold_message(true), HoldNext::MqttClosed);
    assert!(release_wait_ends(None));
    assert!(release_wait_ends(Some(release(1, 1))));
    assert!(!release_wait_ends(Some(press(1, 1))));
}

#[test]
fn a_recording_ends_when_the_finger_leaves() {
    assert_eq!(record_start(false, true), Some(AsrFailure::NotConfigured));
    assert_eq!(record_start(true, false), Some(AsrFailure::Unavailable));
    assert_eq!(record_start(true, true), None);
    let mut recording = Recording::new();
    assert!(matches!(
        recording.on_event(RecordEvent::Listening { ok: true }),
        RecordNext::ShowListening
    ));
    recording.on_event(RecordEvent::Touch(press(10, 450)));
    assert!(!recording.cancel);
    recording.on_event(RecordEvent::Touch(release(10, 450)));
    assert!(recording.cancel && recording.is_listening);
    match recording.on_event(RecordEvent::Result(Some(Ok("  words ".to_string())))) {
        RecordNext::Done(Ok(Some(words))) => assert_eq!(words, "words"),
        other => panic!("{other:?}"),
    }
    match recording.on_event(RecordEvent::Result(Some(Ok(" \n".to_string())))) {
        RecordNext::Done(Ok(None)) => {}
        other => panic!("{other:?}"),
    }
    match recording.on_event(RecordEvent::Result(None)) {
        RecordNext::Done(Err(e)) => assert_eq!(e, AsrFailure::WorkerDropped),
        other => panic!("{other:?}"),
    }
    match recording.on_event(RecordEvent::Mqtt { closed: true }) {
        RecordNext::Done(Err(e)) => assert_eq!(e, AsrFailure::MqttClosed),
        other => panic!("{other:?}"),
    }
}

#[test]
fn the_main_loop_turns() {
    let mut shell = Shell::new(SECOND);
    assert!(shell.take_render_request());
    assert!(!shell.take_render_request());
    let waits = shell.waits();
    assert_eq!(waits.idle_off_at, Some(31 * SECOND));
    assert_eq!(waits.title_refresh_at, Some(61 * SECOND));
    assert!(waits.boot_button);
    shell.on_title_due("t".to_string());
    assert!(shell.take_render_request());
    shell.on_title_due("t".to_string());
    assert!(!shell.take_render_request());
    assert_eq!(text(&shell.on_screen_off(5)), "[SetBacklight(Off)]");
    shell.backlight = BacklightMode::Off;
    assert_eq!(
        shell.waits().shutdown_prompt_at,
        Some(1200 * SECOND + 5)
    );
    assert_eq!(
        text(&shell.on_shutdown_due(7)),
        "[SetBacklight(Normal), ShowIdlePrompt]"
    );
    assert!(shell.on_idle_answer(true).is_empty());
    assert!(shell.take_render_request());
    assert_eq!(text(&shell.on_idle_answer(false)), "[PowerOff]");
    match shell.on_gesture(Some(TouchGesture::Press { point: at(1, 1) }), 9) {
        ShellTurn::Actions(actions) => assert_eq!(text(&actions), "[SetBacklight(Normal)]"),
        other => panic!("{other:?}"),
    }
    shell.backlight = BacklightMode::Normal;
    assert!(matches!(shell.on_gesture(None, 10), ShellTurn::Leave));
    match shell.on_mqtt(
        Some(MqttEvent::ActiveText(vec![0])),
        false,
        String::new(),
        vec![],
        11,
    ) {
        ShellTurn::Actions(actions) => assert!(actions.is_empty()),
        other => panic!("{other:?}"),
    }
    shell.take_render_request();
    let presence = MqttEvent::Presence {
        prefix: "a".to_string(),
        online: true,
        list_changed: true,
        was_active: false,
    };
    match shell.on_mqtt(
        Some(presence),
        true,
        "title".to_string(),
        vec![label("a", false)],
        12,
    ) {
        ShellTurn::SyncedResult(result, sync) => {
            assert_eq!(
                result.effects,
                vec![Effect::SetBacklight(BacklightState::Normal)]
            );
            assert!(sync.render && !sync.play_prompt);
            assert!(!shell.on_mqtt_done(true, false, Some(sync), true, 13));
        }
        other => panic!("{other:?}"),
    }
    assert!(shell.take_render_request());
    assert_eq!(shell.last_session_list_change, 13);
    assert_eq!(shell.state.sessions.items[0].prefix, "a");
    shell.on_gesture_done(true, true, 14);
    assert!(shell.take_render_request());
    assert_eq!(shell.last_session_list_change, 14);
    assert!(matches!(
        shell.on_mqtt(None, true, String::new(), vec![], 15),
        ShellTurn::Leave
    ));
}
