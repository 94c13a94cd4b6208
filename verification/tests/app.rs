use vibewatch::app::{
    apply_scroll_delta, clamp_scroll_offset, is_asr_touch, is_back_swipe, is_screen_backspace_point,
    is_screen_menu_point, list_scroll_delta, redraw_active_cached_screen, screen_chunk_jpeg,
    screen_text_frame_kind, scroll_swipe_message, session_redraw, AppEvent, AppEventContext, AppEventResult,
    AppRenderState, AppState, BacklightState, CachedRedraw, Effect, MqttCommand, RenderStage,
    RenderStep, RenderTarget, Route, ScreenTextFrameKind, SessionPickerFrame, TimerEvent, UiEvent,
};
use vibewatch::geometry::{Point, Rectangle, Size};
use vibewatch::lcd::TouchPoint;
use vibewatch::mqtt::MqttEvent;
use vibewatch::protocol::{ImageFormat, ScreenImageChunk};
use vibewatch::touch::{SwipeDirection, TouchGesture};

fn at(x: u16, y: u16) -> TouchPoint {
    TouchPoint { x, y, strength: 0 }
}

fn label(prefix: &str, working: bool) -> (String, String, bool, bool) {
    (prefix.to_string(), format!("label {prefix}"), false, working)
}

fn rects() -> Vec<Rectangle> {
    vec![
        Rectangle::new(Point::new(0, 30), Size::new(203, 112)),
        Rectangle::new(Point::new(207, 30), Size::new(203, 112)),
    ]
}

fn swipe(start: TouchPoint, end: TouchPoint, direction: SwipeDirection) -> TouchGesture {
    TouchGesture::Swipe {
        start,
        end,
        direction,
        dx: end.x as i32 - start.x as i32,
        dy: end.y as i32 - start.y as i32,
    }
}

fn touch(state: &mut AppState, gesture: TouchGesture, now: u64) -> AppEventResult {
    let rects = rects();
    let context = AppEventContext {
        session_item_rects: &rects,
        now,
    };
    state.handle_event(AppEvent::Touch(gesture), &context)
}

fn listed(count: usize) -> AppState {
    let mut state = AppState::session_picker();
    let labels = (0..count).map(|i| label(&format!("s{i}"), false)).collect();
    state.sync_sessions("Session".to_string(), labels);
    state
}

fn backspace() -> Effect {
    Effect::MqttPublish(MqttCommand::SendKey {
        key: "\x7f".to_string(),
    })
}

#[test]
fn results_are_built() {
    assert!(!AppEventResult::none().render);
    assert!(AppEventResult::render().render);
    assert_eq!(
        AppEventResult::effect(Effect::Reboot).effects,
        vec![Effect::Reboot]
    );
    let both = AppEventResult::render_with_effect(Effect::PowerOff);
    assert!(both.render);
    assert_eq!(both.effects, vec![Effect::PowerOff]);
    assert_eq!(AppState::default().route, Route::MainMenu);
}

#[test]
fn click_on_an_entry_opens_its_session() {
    let mut state = listed(3);
    let result = touch(
        &mut state,
        TouchGesture::Click {
            start: at(300, 50),
            end: at(250, 60),
        },
        0,
    );
    assert!(result.render);
    assert_eq!(
        result.effects,
        vec![
            Effect::SelectSession("s1".to_string()),
            Effect::MqttPublish(MqttCommand::SendSync { close: false })
        ]
    );
    assert_eq!(state.route, Route::ActiveSession);
    assert!(state.active_session.loading);
    let result = touch(
        &mut state,
        swipe(at(100, 200), at(150, 210), SwipeDirection::Right),
        0,
    );
    assert_eq!(
        result.effects,
        vec![
            Effect::MqttPublish(MqttCommand::SendSync { close: true }),
            Effect::ClearActiveSession
        ]
    );
    assert_eq!(state.route, Route::SessionPicker);
    assert!(!state.active_session.loading);
}

#[test]
fn click_across_entries_or_beside_them_does_nothing() {
    let mut state = listed(1);
    for (start, end) in [
        (at(10, 40), at(300, 40)),
        (at(10, 400), at(10, 400)),
        (at(300, 40), at(300, 40)),
    ] {
        let result = touch(&mut state, TouchGesture::Click { start, end }, 0);
        assert!(!result.render && result.effects.is_empty());
        assert_eq!(state.route, Route::SessionPicker);
    }
}

#[test]
fn fifth_long_press_opens_the_boot_menu() {
    let mut state = listed(1);
    let press = TouchGesture::LongPress {
        start: at(1, 1),
        end: at(1, 1),
        duration: 5,
    };
    for n in 1..=10 {
        let result = touch(&mut state, press, 0);
        if n % 5 == 0 {
            assert_eq!(result.effects, vec![Effect::OpenBootMenu]);
        } else {
            assert!(result.effects.is_empty());
        }
    }
    touch(&mut state, press, 0);
    touch(&mut state, TouchGesture::Press { point: at(1, 1) }, 0);
    assert_eq!(state.sessions.boot_long_press_count, 0);
}

#[test]
fn vertical_swipes_scroll_the_list() {
    let mut state = listed(4);
    let down = swipe(at(50, 100), at(50, 200), SwipeDirection::Down);
    let up = swipe(at(50, 200), at(50, 100), SwipeDirection::Up);
    for expected in [1, 2] {
        assert!(touch(&mut state, down, 0).render);
        assert_eq!(state.sessions.scroll_offset, expected);
    }
    assert!(!touch(&mut state, down, 0).render);
    assert!(touch(&mut state, up, 0).render);
    assert_eq!(state.sessions.scroll_offset, 1);
    assert!(
        touch(
            &mut state,
            swipe(at(0, 0), at(90, 0), SwipeDirection::Right),
            0
        )
        .render
    );
    assert!(
        !touch(
            &mut state,
            swipe(at(90, 0), at(0, 0), SwipeDirection::Left),
            0
        )
        .render
    );
    state.sync_sessions("t".to_string(), vec![]);
    assert_eq!(state.sessions.scroll_offset, 0);
}

#[test]
fn backspace_corner_repeats_while_held() {
    let mut state = AppState::session_picker();
    state.route = Route::ActiveSession;
    let corner = at(10, 10);
    let hold = TouchGesture::LongPress {
        start: corner,
        end: corner,
        duration: 0,
    };
    assert!(touch(&mut state, TouchGesture::Press { point: corner }, 0).render);
    assert!(state.active_session.backspace_overlay);
    assert_eq!(touch(&mut state, hold, 1_000_000_000).effects, vec![backspace()]);
    assert!(touch(&mut state, hold, 1_499_999_999).effects.is_empty());
    assert_eq!(touch(&mut state, hold, 1_500_000_000).effects, vec![backspace()]);
    let lifted = touch(
        &mut state,
        TouchGesture::Click {
            start: corner,
            end: corner,
        },
        2_000_000_000,
    );
    assert!(lifted.render && lifted.effects.is_empty());
    assert!(state.active_session.clear_overlay);
    touch(&mut state, TouchGesture::Press { point: corner }, 0);
    let tapped = touch(
        &mut state,
        TouchGesture::Click {
            start: corner,
            end: corner,
        },
        0,
    );
    assert_eq!(tapped.effects, vec![backspace()]);
}

#[test]
fn corners_and_edges_of_a_session() {
    assert!(is_screen_backspace_point(at(135, 79)));
    assert!(!is_screen_backspace_point(at(136, 79)));
    assert!(is_screen_menu_point(at(273, 0)));
    assert!(!is_screen_menu_point(at(272, 0)));
    assert!(!is_screen_menu_point(at(273, 80)));
    assert!(is_asr_touch(at(0, 423)));
    assert!(!is_asr_touch(at(0, 422)));
    let mut state = AppState::session_picker();
    state.route = Route::ActiveSession;
    touch(&mut state, TouchGesture::Press { point: at(400, 5) }, 0);
    assert!(state.active_session.menu_overlay);
    let menu = touch(
        &mut state,
        TouchGesture::Click {
            start: at(400, 5),
            end: at(400, 5),
        },
        0,
    );
    assert!(menu.render);
    assert_eq!(menu.effects, vec![Effect::OpenScreenMenu]);
    let asr = touch(
        &mut state,
        TouchGesture::Click {
            start: at(40, 450),
            end: at(40, 450),
        },
        0,
    );
    assert_eq!(asr.effects, vec![Effect::OpenAsrEditor]);
    let scroll = touch(
        &mut state,
        swipe(at(40, 300), at(40, 200), SwipeDirection::Up),
        0,
    );
    assert_eq!(
        scroll.effects,
        vec![Effect::MqttPublish(MqttCommand::SendScrollDown { rows: 15 })]
    );
}

#[test]
fn swipes_are_told_apart() {
    assert!(is_back_swipe(at(0, 0), at(40, 40)));
    assert!(!is_back_swipe(at(0, 0), at(39, 0)));
    assert!(!is_back_swipe(at(0, 0), at(40, 41)));
    assert_eq!(list_scroll_delta(at(0, 0), at(40, 40)), Some(1));
    assert_eq!(list_scroll_delta(at(0, 40), at(40, 0)), Some(-1));
    assert_eq!(list_scroll_delta(at(0, 0), at(41, 40)), None);
    assert_eq!(list_scroll_delta(at(0, 0), at(0, 39)), None);
    assert_eq!(
        scroll_swipe_message(at(0, 0), at(0, 50)),
        Some(MqttCommand::SendScrollUp { rows: 15 })
    );
    assert_eq!(scroll_swipe_message(at(0, 0), at(0, 1)), None);
    assert_eq!(clamp_scroll_offset(9, 5, 2), 3);
    assert_eq!(clamp_scroll_offset(1, 1, 2), 0);
    assert_eq!(apply_scroll_delta(3, 5, 2, 1), 3);
    assert_eq!(apply_scroll_delta(0, 5, 2, -1), 0);
    assert_eq!(apply_scroll_delta(usize::MAX, 5, 2, 1), 3);
}

#[test]
fn sessions_that_stop_working_sound_the_prompt() {
    let mut state = AppState::session_picker();
    let first = state.sync_sessions("t".to_string(), vec![label("a", true), label("b", false)]);
    assert!(first.render && !first.play_prompt);
    assert!(!state.all_sessions_idle());
    let second = state.sync_sessions("t".to_string(), vec![label("b", false), label("a", false)]);
    assert!(second.play_prompt);
    assert!(state.all_sessions_idle());
    let before = format!("{state:?}");
    let again = state.sync_sessions("t".to_string(), vec![label("b", false), label("a", false)]);
    assert!(again.render && !again.play_prompt);
    assert_eq!(format!("{state:?}"), before);
    state.sync_sessions("t".to_string(), vec![label("a", true)]);
    state.route = Route::ActiveSession;
    let third = state.sync_sessions("t".to_string(), vec![label("a", false)]);
    assert!(!third.render && !third.play_prompt);
    assert!(!state.set_session_title("u".to_string()));
    state.route = Route::SessionPicker;
    assert!(!state.set_session_title("u".to_string()));
    assert!(state.set_session_title("v".to_string()));
}

#[test]
fn messages_change_the_screen() {
    let mut state = AppState::session_picker();
    let context = AppEventContext {
        session_item_rects: &[],
        now: 0,
    };
    let shown = state.handle_event(
        AppEvent::Mqtt(MqttEvent::ActiveText(vec![0, 65])),
        &context,
    );
    assert!(shown.render);
    assert_eq!(state.route, Route::ActiveSession);
    let gone = state.handle_event(
        AppEvent::Mqtt(MqttEvent::Presence {
            prefix: "a".to_string(),
            online: false,
            list_changed: false,
            was_active: true,
        }),
        &context,
    );
    assert_eq!(
        gone.effects,
        vec![Effect::SetBacklight(BacklightState::Normal)]
    );
    assert_eq!(state.route, Route::SessionPicker);
    let same = state.handle_event(
        AppEvent::Mqtt(MqttEvent::Presence {
            prefix: "a".to_string(),
            online: true,
            list_changed: false,
            was_active: false,
        }),
        &context,
    );
    assert!(!same.render && same.effects.is_empty());
}

#[test]
fn requests_and_timers_become_effects() {
    let mut state = AppState::default();
    let context = AppEventContext {
        session_item_rects: &[],
        now: 0,
    };
    let off = state.handle_event(AppEvent::Timer(TimerEvent::IdleShutdownCheck), &context);
    assert_eq!(off.effects, vec![Effect::SetBacklight(BacklightState::Off)]);
    let none = state.handle_event(AppEvent::Timer(TimerEvent::BackspaceRepeat), &context);
    assert!(none.effects.is_empty());
    let open = state.handle_event(
        AppEvent::Ui(UiEvent::SessionClicked("p".to_string())),
        &context,
    );
    assert_eq!(open.effects[0], Effect::SelectSession("p".to_string()));
    assert_eq!(state.route, Route::ActiveSession);
    let theme = state.handle_event(AppEvent::Ui(UiEvent::ThemeSelected(3)), &context);
    assert_eq!(theme.effects, vec![Effect::SelectTheme(3)]);
    let key = state.handle_event(AppEvent::Ui(UiEvent::BackspaceHeld), &context);
    assert_eq!(key.effects, vec![backspace()]);
}

#[test]
fn other_screens_ignore_touches() {
    let mut state = AppState::default();
    let result = touch(&mut state, TouchGesture::Press { point: at(1, 1) }, 0);
    assert!(!result.render && result.effects.is_empty());
    assert!(!state.wake_screen());
    assert!(!state.request_render_for_current_route());
    assert_eq!(state.render(), RenderTarget::Nothing);
}

#[test]
fn an_active_session_is_drawn_step_by_step() {
    let mut state = AppState::session_picker();
    state.route = Route::ActiveSession;
    state.active_session.pending_screen_chunk = Some(ScreenImageChunk {
        format: ImageFormat::Jpeg,
        data: vec![1, 2, 3, 4, 5],
    });
    state.active_session.pending_text_frame = Some(vec![1, 66]);
    state.active_session.loading = true;
    state.active_session.clear_overlay = true;
    state.active_session.menu_overlay = true;
    let mut stage = RenderStage::Chunk;
    let mut steps = Vec::new();
    loop {
        let (step, next) = state.render_active_session(stage);
        stage = next;
        match step {
            RenderStep::Finished => break,
            RenderStep::ShowChunk(chunk) => {
                assert_eq!(screen_chunk_jpeg(&chunk), Some(&[1u8][..]));
                steps.push("chunk")
            }
            RenderStep::ShowText(_) => steps.push("text"),
            RenderStep::BufferText(frame) => {
                assert_eq!(frame, vec![1, 66]);
                steps.push("buffer")
            }
            RenderStep::ShowLoading => steps.push("loading"),
            RenderStep::RedrawCached => steps.push("redraw"),
            RenderStep::ShowBackspaceOverlay => steps.push("backspace"),
            RenderStep::ShowMenuOverlay => steps.push("menu"),
        }
    }
    assert_eq!(steps, vec!["chunk", "buffer", "loading", "redraw", "menu"]);
    assert!(!state.active_session.clear_overlay);
    assert!(state.active_session.pending_text_frame.is_none());
}

#[test]
fn frames_and_pictures_are_told_apart() {
    assert_eq!(
        screen_text_frame_kind(&[0, 1]),
        Some(ScreenTextFrameKind::Full)
    );
    assert_eq!(
        screen_text_frame_kind(&[1]),
        Some(ScreenTextFrameKind::Append)
    );
    assert_eq!(screen_text_frame_kind(&[2]), None);
    assert_eq!(screen_text_frame_kind(&[]), None);
    let chunk = ScreenImageChunk {
        format: ImageFormat::Png,
        data: vec![1, 2, 3, 4, 5],
    };
    assert_eq!(screen_chunk_jpeg(&chunk), None);
    let chunk = ScreenImageChunk {
        format: ImageFormat::Jpeg,
        data: vec![1, 2, 3],
    };
    assert_eq!(screen_chunk_jpeg(&chunk), Some(&[1u8, 2, 3][..]));
    assert_eq!(session_redraw(true), CachedRedraw::Terminal);
    assert_eq!(session_redraw(false), CachedRedraw::Jpeg);
    assert_eq!(redraw_active_cached_screen(None), CachedRedraw::Terminal);
    assert_eq!(
        redraw_active_cached_screen(Some((CachedRedraw::Terminal, false))),
        CachedRedraw::Jpeg
    );
    assert_eq!(
        redraw_active_cached_screen(Some((CachedRedraw::Terminal, true))),
        CachedRedraw::Done { redrawn: true }
    );
}

#[test]
fn the_list_is_drawn_from_its_scroll_position() {
    let mut state = listed(5);
    state.sessions.scroll_offset = 4;
    match state.render_session_picker(2) {
        SessionPickerFrame::List { title, items } => {
            assert_eq!(title, "Session");
            assert_eq!(
                items,
                vec![
                    ("label s3".to_string(), false),
                    ("label s4".to_string(), false)
                ]
            );
        }
        SessionPickerFrame::Empty => panic!("there are sessions"),
    }
    assert_eq!(state.sessions.scroll_offset, 3);
    let mut empty = AppState::session_picker();
    assert!(matches!(
        empty.render_session_picker(0),
        SessionPickerFrame::Empty
    ));
    let mut drawn = AppRenderState::new(5);
    assert_eq!(drawn.next_title_refresh, 60_000_000_005);
    drawn.session_list_drawn(rects(), 10);
    assert_eq!(drawn.session_item_rects.len(), 2);
    assert_eq!(drawn.next_title_refresh, 60_000_000_010);
}
