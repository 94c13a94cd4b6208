use vibewatch::geometry::{Point, Rectangle, Size};
use vibewatch::lcd::{BacklightStep, TouchPoint};
use vibewatch::touch::{SwipeDirection, TouchGesture};
use vibewatch::ui::draw::{center_of, DrawOp, UiColor, UiFont, TEXT_LIGHT};
use vibewatch::ui::framebuffer::{rgb565_be, FastFramebuffer};
use vibewatch::ui::list::{
    display_list, display_menu_list, list_display_text, list_title_color, menu_item_rect,
    menu_item_rect_for_count, refresh_list_title, ListItem,
};
use vibewatch::ui::list_touch_index;
use vibewatch::ui::menu::{
    main_menu_items, main_menu_title, select_menu_item, set_clock_screen_on, setting_menu,
    setting_menu_items, ClockAction, ClockEvent, ClockScreen, MainMenu, MainMenuNext,
    MainMenuSelection, SelectNext, SettingMenuSelection,
};
use vibewatch::ui::screens::{
    clock_parts, frame_delay_ms, show_asr_editor, show_clock, show_loading_modal,
    show_session_backspace_overlay, show_session_menu_overlay, show_status, state_area,
    status_flush_again, text_area,
};
use vibewatch::ui::terminal::{
    terminal_text_cells, FrameNext, RendererStep, TerminalFlush, TerminalState,
};
use vibewatch::ui::theme::{
    current_terminal_theme_index, set_terminal_theme, terminal_theme_count, terminal_theme_label,
    terminal_theme_label_at, TerminalTheme,
};

fn at(x: u16, y: u16) -> TouchPoint {
    TouchPoint { x, y, strength: 0 }
}

fn rect(x: i32, y: i32, w: u32, h: u32) -> Rectangle {
    Rectangle::new(Point::new(x, y), Size::new(w, h))
}

#[test]
fn places_of_menu_entries() {
    assert_eq!(menu_item_rect(0), Some(rect(0, 30, 203, 112)));
    assert_eq!(menu_item_rect(1), Some(rect(207, 30, 203, 112)));
    assert_eq!(menu_item_rect(7), Some(rect(207, 366, 203, 112)));
    assert_eq!(menu_item_rect(8), None);
    assert_eq!(menu_item_rect_for_count(0, 1), Some(rect(0, 30, 410, 112)));
    assert_eq!(center_of(rect(10, 20, 5, 7)), Point::new(12, 23));
    assert_eq!(center_of(rect(20, 30, 4, 8)), Point::new(21, 33));
}

#[test]
fn touches_hit_the_first_entry() {
    let rects = [rect(0, 0, 10, 10), rect(5, 5, 10, 10)];
    assert_eq!(list_touch_index(at(7, 7), &rects), Some(0));
    assert_eq!(list_touch_index(at(10, 10), &rects), Some(1));
    assert_eq!(list_touch_index(at(15, 15), &rects), None);
    assert_eq!(list_touch_index(at(1, 1), &[rect(0, 0, u32::MAX, 5)]), None);
}

#[test]
fn long_texts_are_cut() {
    assert_eq!(list_display_text("abc", 48), "abc");
    assert_eq!(list_display_text("abcd", 48), "abc...");
    assert_eq!(list_display_text("a测b", 48), "a测...");
    assert_eq!(list_display_text("a", 10), "...");
    assert_eq!(list_display_text("", 10), "");
}

#[test]
fn titles_are_coloured_by_the_charge() {
    assert_eq!(list_title_color("Session: Battery 20%"), UiColor::Red);
    assert_eq!(list_title_color("Session: Battery 21%"), UiColor::DarkOrange);
    assert_eq!(list_title_color("Battery 60%"), UiColor::DarkOrange);
    assert_eq!(list_title_color("Main: Battery 61%"), UiColor::DarkGreen);
    assert_eq!(list_title_color("Main: Battery --"), TEXT_LIGHT);
    assert_eq!(list_title_color("System"), TEXT_LIGHT);
    assert_eq!(list_title_color("Battery 5Battery 90%"), UiColor::Red);
    assert_eq!(list_title_color("Battery 256%"), TEXT_LIGHT);
    assert_eq!(list_title_color("Battery +7"), UiColor::Red);
}

#[test]
fn lists_stop_at_the_bottom() {
    let item = |y| {
        ListItem::new(
            rect(0, y, 100, 100),
            "text".to_string(),
            None,
            Some(UiColor::Green),
        )
    };
    let (ops, rects) = display_list("T", "v1", &[item(0), item(402), item(403), item(0)]);
    assert_eq!(rects, vec![rect(0, 0, 100, 100), rect(0, 402, 100, 100)]);
    assert_eq!(ops.len(), 3 + 4);
    match &ops[1] {
        DrawOp::Text { text, at, style } => {
            assert_eq!((text.as_str(), *at), ("T", Point::new(205, 18)));
            assert_eq!(style.color, TEXT_LIGHT);
        }
        other => panic!("{other:?}"),
    }
    match &ops[3] {
        DrawOp::Box { rect: r, stroke, fill } => {
            assert_eq!(*r, rect(4, 3, 92, 94));
            assert_eq!(*stroke, Some((UiColor::Black, 8)));
            assert_eq!(*fill, Some(UiColor::Black));
        }
        other => panic!("{other:?}"),
    }
    match &ops[4] {
        DrawOp::Text { at, style, .. } => {
            assert_eq!(*at, Point::new(49, 58));
            assert_eq!((style.font, style.vertical_offset), (UiFont::Wqy16, 3));
        }
        other => panic!("{other:?}"),
    }
    let wide = ListItem::new(
        rect(i32::MAX - 4, 0, u32::MAX, 9),
        "w".to_string(),
        None,
        None,
    );
    let low = ListItem::new(
        rect(i32::MAX, i32::MAX, u32::MAX, 9),
        "l".to_string(),
        None,
        Some(UiColor::Green),
    );
    let (ops, rects) = display_list("T", "v1", &[wide, low]);
    assert_eq!(rects, vec![rect(i32::MAX - 4, 0, u32::MAX, 9)]);
    assert_eq!(ops.len(), 4);
    let many: Vec<(String, bool)> = (0..12).map(|i| (format!("{i}"), i == 1)).collect();
    let (ops, rects) = display_menu_list("Theme", "v1", &many);
    assert_eq!(rects.len(), 8);
    assert!(matches!(
        ops[5],
        DrawOp::Box {
            stroke: Some((UiColor::SteelBlue, 8)),
            ..
        }
    ));
    let (ops, place) = refresh_list_title("Battery 3%");
    assert_eq!(place, rect(0, 0, 410, 30));
    assert_eq!(ops.len(), 2);
}

#[test]
fn pixels_are_kept() {
    assert_eq!(rgb565_be(0x1234), (0x12, 0x34));
    let mut picture = FastFramebuffer::new();
    assert_eq!(picture.data().len(), 411_640);
    assert_eq!(picture.size(), Size::new(410, 502));
    picture.set_pixel_fast(Point::new(3, 2), 0xabcd);
    picture.set_pixel_fast(Point::new(-1, 2), 0xffff);
    picture.set_pixel_fast(Point::new(410, 2), 0xffff);
    assert_eq!(&picture.data()[1646..1648], &[0xab, 0xcd]);
    assert_eq!(picture.data().iter().filter(|b| **b != 0).count(), 2);
    picture.fill_solid(rect(-5, 500, 7, 10), 0x0102);
    let (bytes, part) = picture.rect_data(rect(-1, 499, 4, 9)).unwrap();
    assert_eq!(part, rect(0, 499, 3, 3));
    assert_eq!(
        bytes,
        vec![0, 0, 0, 0, 0, 0, 1, 2, 1, 2, 0, 0, 1, 2, 1, 2, 0, 0]
    );
    assert!(picture.rect_data(rect(410, 0, 5, 5)).is_none());
    assert!(picture.rect_data(rect(0, 0, 0, 5)).is_none());
    picture.clear(0x0505);
    assert!(picture.data().iter().all(|b| *b == 5));
}

#[test]
fn the_clock_tells_date_and_time() {
    assert_eq!(clock_parts(0, 0), (1970, 1, 1, 0, 0));
    assert_eq!(clock_parts(0, -60), (1969, 12, 31, 23, 59));
    assert_eq!(clock_parts(951_782_400, 8 * 3600), (2000, 2, 29, 8, 0));
    assert_eq!(clock_parts(4_107_542_399, 0), (2100, 2, 28, 23, 59));
    let ops = show_clock((2024, 3, 9, 7, 5));
    let texts: Vec<&str> = ops
        .iter()
        .filter_map(|op| match op {
            DrawOp::Text { text, .. } => Some(text.as_str()),
            _ => None,
        })
        .collect();
    assert_eq!(texts, vec!["2024-03-09", "07", "05"]);
    assert_eq!(frame_delay_ms(12), 120);
}

#[test]
fn screens_are_laid_out() {
    let ops = show_asr_editor("text|", "Listening...");
    assert_eq!(ops.len(), 11);
    assert!(matches!(
        ops[1],
        DrawOp::Box {
            stroke: Some((UiColor::Green, 3)),
            ..
        }
    ));
    match &ops[10] {
        DrawOp::TextBox { text, area, .. } => {
            assert_eq!(text, "Record  Listening...");
            assert_eq!(*area, rect(12, 444, 386, 32));
        }
        other => panic!("{other:?}"),
    }
    let (ops, place) = show_loading_modal();
    assert_eq!((ops.len(), place), (2, rect(85, 207, 240, 88)));
    let (ops, place) = show_session_backspace_overlay();
    assert_eq!((ops.len(), place), (9, rect(0, 0, 136, 80)));
    let (ops, place) = show_session_menu_overlay();
    assert_eq!((ops.len(), place), (5, rect(272, 0, 138, 80)));
    assert_eq!(state_area(), rect(54, 400, 300, 30));
    assert_eq!(text_area(), rect(54, 300, 300, 100));
    assert_eq!(show_status("a", "b").len(), 2);
    assert!(status_flush_again(4, 1));
    assert!(!status_flush_again(5, 1));
    assert!(!status_flush_again(1, 0));
}

#[test]
fn the_clock_screen_sleeps_and_wakes() {
    let mut clock = ClockScreen::new(0);
    assert_eq!(clock.turn_off_at(), Some(30_000_000_000));
    assert_eq!(clock.on_event(ClockEvent::Tick, 1), vec![ClockAction::Show]);
    assert_eq!(
        clock.on_event(ClockEvent::TurnOff, 2),
        vec![ClockAction::ScreenOff]
    );
    assert_eq!(clock.turn_off_at(), None);
    assert!(clock.on_event(ClockEvent::Tick, 3).is_empty());
    let click = TouchGesture::Click {
        start: at(1, 1),
        end: at(1, 1),
    };
    assert_eq!(
        clock.on_event(ClockEvent::Gesture(Some(click)), 5),
        vec![
            ClockAction::ScreenOn,
            ClockAction::CancelGesture,
            ClockAction::Show
        ]
    );
    assert_eq!(clock.turn_off_at(), Some(30_000_000_005));
    assert_eq!(
        clock.on_event(ClockEvent::Gesture(Some(click)), 6),
        vec![ClockAction::Leave]
    );
    assert_eq!(
        clock.on_event(ClockEvent::Gesture(None), 7),
        vec![ClockAction::TouchClosed]
    );
    assert_eq!(
        set_clock_screen_on(true),
        vec![
            BacklightStep::HoldSleepLock,
            BacklightStep::OpenAudio,
            BacklightStep::SetLevel(30)
        ]
    );
}

#[test]
fn device_menus_are_chosen_from() {
    let rects = [rect(0, 30, 203, 112), rect(207, 30, 203, 112)];
    let click = |x| {
        Some(TouchGesture::Click {
            start: at(x, 50),
            end: at(x, 60),
        })
    };
    assert_eq!(select_menu_item(click(300), &rects), SelectNext::Picked(1));
    assert_eq!(select_menu_item(click(205), &rects), SelectNext::Wait);
    assert_eq!(select_menu_item(None, &rects), SelectNext::TouchClosed);
    assert_eq!(main_menu_items()[0].0, "Remote");
    assert_eq!(setting_menu_items()[3].0, "Back");
    assert_eq!(setting_menu(1), SettingMenuSelection::SyncTime);
    assert_eq!(main_menu_title(Some(5)), "Main: Battery 5%");
    let mut menu = MainMenu::new(main_menu_title(None), 0);
    assert!(matches!(
        menu.on_title_due(main_menu_title(None), 1),
        MainMenuNext::Wait
    ));
    assert!(matches!(
        menu.on_title_due(main_menu_title(Some(9)), 2),
        MainMenuNext::RefreshTitle(_)
    ));
    assert_eq!(menu.next_title_refresh, 60_000_000_002);
    assert!(matches!(
        menu.on_gesture(click(10), &rects),
        MainMenuNext::Selected(MainMenuSelection::Remote)
    ));
    let swipe = Some(TouchGesture::Swipe {
        start: at(0, 0),
        end: at(60, 0),
        direction: SwipeDirection::Right,
        dx: 60,
        dy: 0,
    });
    assert!(matches!(
        menu.on_gesture(swipe, &rects),
        MainMenuNext::Selected(MainMenuSelection::Clock)
    ));
}

#[test]
fn the_terminal_takes_frames() {
    assert_eq!(terminal_text_cells(), (51, 29));
    let mut view = TerminalState::new();
    assert_eq!((view.cols, view.rows), (51, 29));
    assert_eq!(view.show_terminal_text_frame(&[], 5), FrameNext::Ignored);
    assert_eq!(view.show_terminal_text_frame(&[9, 65], 5), FrameNext::Ignored);
    assert!(!view.redraw_cached_terminal_text());
    assert_eq!(
        view.buffer_terminal_text_frame(b"\x01hello", 7, 5),
        FrameNext::Buffered {
            renderer: RendererStep::RenewInvalidated
        }
    );
    assert_eq!(view.terminal_append_render_deadline(), Some(300_000_007));
    assert_eq!(
        view.buffer_terminal_text_frame(b"\x01 you", 9, 5),
        FrameNext::Buffered {
            renderer: RendererStep::Keep
        }
    );
    assert_eq!(view.terminal_append_render_deadline(), Some(300_000_007));
    let shown = |view: &TerminalState| view.screen().unwrap().contents();
    assert_eq!(shown(&view), "hello you");
    assert!(view.render_pending_terminal_append());
    assert!(!view.render_pending_terminal_append());
    view.rendered(1_000);
    assert_eq!(
        view.show_terminal_text_frame(b"\x01!", 101_000),
        FrameNext::Render {
            full: false,
            renderer: RendererStep::Keep,
            wait_us: 200_000
        }
    );
    assert_eq!(
        view.show_terminal_text_frame(b"\x00new\r\nscreen", 102_000),
        FrameNext::Render {
            full: true,
            renderer: RendererStep::Renew,
            wait_us: 0
        }
    );
    assert_eq!(shown(&view), "new\nscreen");
    assert_eq!(view.screen().unwrap().size(), (29, 51));
    let edge = format!("\x00{}\t\u{17d8}\u{17d8}!", "x".repeat(51));
    view.show_terminal_text_frame(edge.as_bytes(), -7);
    assert_eq!(
        shown(&view),
        format!("{}\u{17d8}\u{17d8}!", "x".repeat(51))
    );
    assert!(view.redraw_cached_terminal_text());
    assert_eq!(view.set_theme(), RendererStep::RenewInvalidated);
    let dirty = rect(1, 2, 3, 4);
    assert_eq!(
        TerminalState::frame_flush(false, Some(dirty)),
        TerminalFlush::Rect(dirty)
    );
    assert_eq!(
        TerminalState::frame_flush(true, Some(dirty)),
        TerminalFlush::Full
    );
    assert_eq!(TerminalState::frame_flush(true, None), TerminalFlush::Nothing);
    view.buffer_terminal_text_frame(b"\x01x", 9, 5);
    view.cancel_pending_terminal_append();
    assert_eq!(view.terminal_append_render_deadline(), None);
}

#[test]
fn themes_go_round() {
    assert_eq!(terminal_theme_count(), 8);
    assert_eq!(terminal_theme_label_at(11), "Solarized Light");
    assert_eq!(terminal_theme_label(5), "GitHub");
    assert_eq!(current_terminal_theme_index(15), 7);
    assert_eq!(set_terminal_theme(9), (1, "Sequoia"));
    for i in 0..8 {
        assert_eq!(TerminalTheme::from_index(i).index(), i);
    }
}
