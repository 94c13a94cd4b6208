use vibewatch::lcd::{
    brightness_level, flush_start, frame_bytes, send_touch_press, send_touch_release, touch_reading,
    FlushNext, FlushStart, ReleaseSend, SendOutcome, TouchEvent, TouchPoint, TouchWorker,
    TouchWorkerStep,
};
use vibewatch::touch::{
    swipe_direction, SwipeDirection, TouchGesture, TouchGestureConfig, TouchInput, TouchWait,
};

fn at(x: u16, y: u16) -> TouchPoint {
    TouchPoint { x, y, strength: 7 }
}

const MS: u64 = 1_000_000;

#[test]
fn directions_follow_the_larger_axis() {
    assert_eq!(swipe_direction(40, 39, -39), None);
    assert_eq!(swipe_direction(40, 40, 0), Some(SwipeDirection::Right));
    assert_eq!(swipe_direction(40, -40, 40), Some(SwipeDirection::Left));
    assert_eq!(swipe_direction(40, 10, 41), Some(SwipeDirection::Down));
    assert_eq!(swipe_direction(40, 10, -41), Some(SwipeDirection::Up));
}

#[test]
fn default_thresholds() {
    let config = TouchGestureConfig::default();
    assert_eq!(config.swipe_threshold_px, 40);
    assert_eq!(config.long_press_delay, 200 * MS);
    assert_eq!(config.long_press_interval, 100 * MS);
}

#[test]
fn still_finger_is_press_long_press_and_click() {
    let mut input = TouchInput::new();
    assert_eq!(input.next_wait(), TouchWait::Event);
    assert_eq!(input.on_event(TouchEvent::Release(at(1, 1)), 0), None);
    assert_eq!(input.on_event(TouchEvent::Press(at(10, 10)), 1000), None);
    assert_eq!(
        input.next_wait(),
        TouchWait::Emit(TouchGesture::Press { point: at(10, 10) })
    );
    assert_eq!(input.next_wait(), TouchWait::EventOrTime(1000 + 200 * MS));
    assert_eq!(input.on_event(TouchEvent::Press(at(12, 10)), 2000), None);
    assert_eq!(
        input.on_time(1000 + 200 * MS),
        Some(TouchGesture::LongPress {
            start: at(10, 10),
            end: at(12, 10),
            duration: 200 * MS
        })
    );
    assert_eq!(input.next_wait(), TouchWait::EventOrTime(1000 + 300 * MS));
    assert_eq!(
        input.on_event(TouchEvent::Release(at(13, 10)), 400 * MS),
        Some(TouchGesture::Click {
            start: at(10, 10),
            end: at(13, 10)
        })
    );
    assert_eq!(input.next_wait(), TouchWait::Event);
}

#[test]
fn moved_finger_is_a_swipe_even_when_it_returns() {
    let mut input = TouchInput::new();
    input.on_event(TouchEvent::Press(at(100, 100)), 0);
    input.next_wait();
    input.on_event(TouchEvent::Press(at(100, 150)), 1);
    assert_eq!(input.next_wait(), TouchWait::Event);
    assert_eq!(input.on_time(500 * MS), None);
    input.on_event(TouchEvent::Press(at(100, 101)), 2);
    assert_eq!(
        input.on_event(TouchEvent::Release(at(100, 101)), 3),
        Some(TouchGesture::Swipe {
            start: at(100, 100),
            end: at(100, 150),
            direction: SwipeDirection::Down,
            dx: 0,
            dy: 50
        })
    );
}

#[test]
fn cancelled_gesture_is_forgotten() {
    let mut input = TouchInput::with_config(TouchGestureConfig {
        swipe_threshold_px: 5,
        long_press_delay: 1,
        long_press_interval: 1,
    });
    input.on_event(TouchEvent::Press(at(1, 1)), 0);
    input.cancel_active_gesture();
    assert_eq!(input.on_event(TouchEvent::Release(at(9, 9)), 1), None);
    assert_eq!(input.wait_release(TouchEvent::Press(at(1, 1))), None);
    assert_eq!(
        input.wait_release(TouchEvent::Release(at(2, 1))),
        Some(at(2, 1))
    );
}

#[test]
fn worker_turns_readings_into_events() {
    let mut worker = TouchWorker::new();
    assert_eq!(worker.on_reading(None), TouchWorkerStep::Idle);
    assert_eq!(
        worker.on_reading(touch_reading(true, 3, 4, 7)),
        TouchWorkerStep::Press(at(3, 4))
    );
    assert_eq!(
        worker.on_reading(touch_reading(false, 9, 9, 9)),
        TouchWorkerStep::Release(at(3, 4))
    );
    assert!(send_touch_press(SendOutcome::Full));
    assert!(!send_touch_press(SendOutcome::Closed));
    assert_eq!(
        send_touch_release(19, SendOutcome::Full),
        ReleaseSend::RetryAfterDelay
    );
    assert_eq!(
        send_touch_release(20, SendOutcome::Full),
        ReleaseSend::KeepRunning
    );
    assert_eq!(send_touch_release(0, SendOutcome::Closed), ReleaseSend::Stop);
    assert_eq!(
        send_touch_release(3, SendOutcome::Sent),
        ReleaseSend::KeepRunning
    );
}

#[test]
fn flush_goes_chunk_by_chunk() {
    assert_eq!(frame_bytes(), 411_640);
    assert_eq!(brightness_level(30), 30);
    assert_eq!(brightness_level(200), 100);
    assert!(matches!(flush_start(10, 0, 0, 0, 5), FlushStart::Empty));
    assert!(matches!(
        flush_start(411_639, 0, 0, 410, 502),
        FlushStart::TooSmall(260)
    ));
    let mut state = match flush_start(411_640, 0, 0, 410, 502) {
        FlushStart::Run(state) => state,
        _ => panic!("the frame fits"),
    };
    let mut next_row = 0;
    let mut next_byte = 0;
    loop {
        let chunk = state.chunk(411_640);
        assert_eq!((chunk.y, chunk.start), (next_row, next_byte));
        next_row = chunk.y_bottom;
        next_byte = chunk.end;
        match state.on_attempt(411_640, 0, true) {
            FlushNext::NextChunk => {}
            FlushNext::Finished => break,
            other => panic!("{other:?}"),
        }
    }
    assert_eq!((next_row, next_byte), (502, 411_640));
}

#[test]
fn flush_gives_up_after_five_errors_and_passes_over_timeouts() {
    let run = || match flush_start(40, 0, 0, 2, 10) {
        FlushStart::Run(state) => state,
        _ => panic!("the region fits"),
    };
    let mut state = run();
    for _ in 0..4 {
        assert_eq!(state.on_attempt(40, 17, true), FlushNext::Retry);
    }
    assert_eq!(state.on_attempt(40, 18, false), FlushNext::Failed(18));
    let mut state = run();
    for _ in 0..4 {
        assert_eq!(state.on_attempt(40, 0, false), FlushNext::Retry);
    }
    assert_eq!(state.on_attempt(40, 0, false), FlushNext::Finished);
    let mut state = run();
    assert_eq!(state.on_attempt(40, 17, true), FlushNext::Retry);
    assert_eq!(state.on_attempt(40, 0, true), FlushNext::Finished);
}
