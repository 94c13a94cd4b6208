//! From press and release events to gestures. A press starts an interaction; a release
//! ends it as a click or a swipe; a finger that stays gives long presses meanwhile,
//! unless it has moved far enough for a swipe.
//!
//! Times are nanoseconds on a clock of the caller's choice.
use crate::lcd::{TouchEvent, TouchPoint};
use vstd::prelude::*;

verus! {

pub const DEFAULT_SWIPE_THRESHOLD_PX: i32 = 40;
/// How long a finger stays before the first long press.
pub const DEFAULT_LONG_PRESS_DELAY: u64 = 200_000_000;
/// The time between two long presses of one finger.
pub const DEFAULT_LONG_PRESS_INTERVAL: u64 = 100_000_000;

#[derive(Debug, Clone, Copy, PartialEq, Eq, Structural)]
pub enum SwipeDirection {
    Left,
    Right,
    Up,
    Down,
}

#[derive(Debug, Clone, Copy, PartialEq, Eq, Structural)]
pub enum TouchGesture {
    Press { point: TouchPoint },
    Click { start: TouchPoint, end: TouchPoint },
    LongPress { start: TouchPoint, end: TouchPoint, duration: u64 },
    Swipe {
        start: TouchPoint,
        end: TouchPoint,
        direction: SwipeDirection,
        dx: i32,
        dy: i32,
    },
}

#[derive(Debug, Clone, Copy, PartialEq, Eq, Structural)]
pub struct TouchGestureConfig {
    pub swipe_threshold_px: i32,
    pub long_press_delay: u64,
    pub long_press_interval: u64,
}

impl Default for TouchGestureConfig {
    fn default() -> (r: Self)
        ensures
            r.swipe_threshold_px == 40,
            r.long_press_delay == 200_000_000,
            r.long_press_interval == 100_000_000,
    {
        TouchGestureConfig {
            swipe_threshold_px: DEFAULT_SWIPE_THRESHOLD_PX,
            long_press_delay: DEFAULT_LONG_PRESS_DELAY,
            long_press_interval: DEFAULT_LONG_PRESS_INTERVAL,
        }
    }
}

/// An interaction that a press has started and no release has ended yet.
#[derive(Debug, Clone, Copy, PartialEq, Eq, Structural)]
pub struct TouchGestureInProgress {
    pub start: TouchPoint,
    pub started_at: u64,
    pub next_long_press_at: u64,
    pub last_press: TouchPoint,
    pub swipe_candidate: Option<TouchPoint>,
    pub press_emitted: bool,
}

/// The gesture recogniser.
#[derive(Debug, Clone, Copy, PartialEq, Eq, Structural)]
pub struct TouchInput {
    pub config: TouchGestureConfig,
    pub active: Option<TouchGestureInProgress>,
}

/// What the recogniser needs next.
#[derive(Debug, Clone, Copy, PartialEq, Eq, Structural)]
pub enum TouchWait {
    /// This gesture is due at once.
    Emit(TouchGesture),
    /// Wait for the next touch event.
    Event,
    /// Wait for the next touch event, or for this point in time.
    EventOrTime(u64),
}

pub open spec fn abs(v: int) -> int {
    if v < 0 {
        -v
    } else {
        v
    }
}

/// The direction of a movement: none below the threshold on both axes; otherwise along
/// the axis with the larger movement, the horizontal one where they are equal.
pub open spec fn direction_of(threshold_px: int, dx: int, dy: int) -> Option<SwipeDirection> {
    if abs(dx) < threshold_px && abs(dy) < threshold_px {
        None
    } else if abs(dx) >= abs(dy) {
        Some(
            if dx > 0 {
                SwipeDirection::Right
            } else {
                SwipeDirection::Left
            },
        )
    } else {
        Some(
            if dy > 0 {
                SwipeDirection::Down
            } else {
                SwipeDirection::Up
            },
        )
    }
}

/// The direction of a movement by `dx`, `dy`, if it reaches the threshold.
pub fn swipe_direction(threshold_px: i32, dx: i32, dy: i32) -> (r: Option<SwipeDirection>)
    requires
        dx > i32::MIN,
        dy > i32::MIN,
    ensures
        r == direction_of(threshold_px as int, dx as int, dy as int),
{
    let abs_dx: i32 = if dx < 0 {
        -dx
    } else {
        dx
    };
    let abs_dy: i32 = if dy < 0 {
        -dy
    } else {
        dy
    };
    if abs_dx < threshold_px && abs_dy < threshold_px {
        return None;
    }
    if abs_dx >= abs_dy {
        if dx > 0 {
            Some(SwipeDirection::Right)
        } else {
            Some(SwipeDirection::Left)
        }
    } else if dy > 0 {
        Some(SwipeDirection::Down)
    } else {
        Some(SwipeDirection::Up)
    }
}

/// The swipe from `start` to `end`, if the movement reaches the threshold.
pub open spec fn swipe_between(threshold_px: int, start: TouchPoint, end: TouchPoint) -> Option<
    TouchGesture,
> {
    let dx = end.x - start.x;
    let dy = end.y - start.y;
    match direction_of(threshold_px, dx, dy) {
        Some(direction) => Some(
            TouchGesture::Swipe { start, end, direction, dx: dx as i32, dy: dy as i32 },
        ),
        None => None,
    }
}

/// How an interaction ends: as a swipe to where the finger was lifted, else as a swipe to
/// where it had moved far enough, else as a click.
pub open spec fn release_gesture(
    threshold_px: int,
    start: TouchPoint,
    end: TouchPoint,
    candidate: Option<TouchPoint>,
) -> TouchGesture {
    match swipe_between(threshold_px, start, end) {
        Some(swipe) => swipe,
        None => match candidate {
            Some(c) => match swipe_between(threshold_px, start, c) {
                Some(swipe) => swipe,
                None => TouchGesture::Click { start, end },
            },
            None => TouchGesture::Click { start, end },
        },
    }
}

impl TouchInput {
    /// What is recorded of an interaction is consistent: a swipe candidate is a position
    /// at which the movement had reached the threshold.
    pub open spec fn wf(self) -> bool {
        match self.active {
            Some(a) => match a.swipe_candidate {
                Some(c) => swipe_between(self.config.swipe_threshold_px as int, a.start, c) is Some,
                None => true,
            },
            None => true,
        }
    }

    /// A recogniser with the usual thresholds.
    pub fn new() -> (r: Self)
        ensures
            r.config == (TouchGestureConfig {
                swipe_threshold_px: 40,
                long_press_delay: 200_000_000,
                long_press_interval: 100_000_000,
            }),
            r.active is None,
            r.wf(),
    {
        Self::with_config(TouchGestureConfig::default())
    }

    /// A recogniser with the given thresholds.
    pub fn with_config(config: TouchGestureConfig) -> (r: Self)
        ensures
            r == (TouchInput { config, active: None }),
            r.wf(),
    {
        TouchInput { config, active: None }
    }

    /// Forgets the interaction in progress.
    pub fn cancel_active_gesture(&mut self)
        ensures
            *final(self) == (TouchInput { active: None, ..*old(self) }),
            final(self).wf(),
    {
        self.active = None;
    }

    /// What is waited for, and the recogniser once that was told.
    pub open spec fn wait_and_after(self) -> (TouchWait, TouchInput) {
        match self.active {
            None => (TouchWait::Event, self),
            Some(a) => if !a.press_emitted {
                (
                    TouchWait::Emit(TouchGesture::Press { point: a.start }),
                    TouchInput {
                        active: Some(TouchGestureInProgress { press_emitted: true, ..a }),
                        ..self
                    },
                )
            } else if a.swipe_candidate is None {
                (TouchWait::EventOrTime(a.next_long_press_at), self)
            } else {
                (TouchWait::Event, self)
            },
        }
    }

    /// Tells what to wait for. A press that was not reported yet is due at once, and is
    /// reported once; a long press is waited for only while the finger has not moved far
    /// enough for a swipe.
    pub fn next_wait(&mut self) -> (r: TouchWait)
        ensures
            (r, *final(self)) == old(self).wait_and_after(),
            old(self).wf() ==> final(self).wf(),
    {
        match self.active {
            None => TouchWait::Event,
            Some(a) => {
                if !a.press_emitted {
                    self.active = Some(TouchGestureInProgress { press_emitted: true, ..a });
                    TouchWait::Emit(TouchGesture::Press { point: a.start })
                } else if a.swipe_candidate.is_none() {
                    TouchWait::EventOrTime(a.next_long_press_at)
                } else {
                    TouchWait::Event
                }
            },
        }
    }

    /// The recogniser after a touch event.
    pub open spec fn after_event(self, event: TouchEvent, now: u64) -> TouchInput {
        match (self.active, event) {
            (None, TouchEvent::Press(start)) => TouchInput {
                active: Some(
                    TouchGestureInProgress {
                        start,
                        started_at: now,
                        next_long_press_at: (now + self.config.long_press_delay) as u64,
                        last_press: start,
                        swipe_candidate: None,
                        press_emitted: false,
                    },
                ),
                ..self
            },
            (None, TouchEvent::Release(_)) => self,
            (Some(a), TouchEvent::Press(touch)) => TouchInput {
                active: Some(
                    TouchGestureInProgress {
                        last_press: touch,
                        swipe_candidate: if swipe_between(
                            self.config.swipe_threshold_px as int,
                            a.start,
                            touch,
                        ) is Some {
                            Some(touch)
                        } else {
                            a.swipe_candidate
                        },
                        ..a
                    },
                ),
                ..self
            },
            (Some(_), TouchEvent::Release(_)) => TouchInput { active: None, ..self },
        }
    }

    /// The gesture that a touch event completes, if it completes one.
    pub open spec fn event_gesture(self, event: TouchEvent) -> Option<TouchGesture> {
        match (self.active, event) {
            (Some(a), TouchEvent::Release(end)) => Some(
                release_gesture(
                    self.config.swipe_threshold_px as int,
                    a.start,
                    end,
                    a.swipe_candidate,
                ),
            ),
            _ => None,
        }
    }

    /// Takes a touch event that arrived at `now`.
    pub fn on_event(&mut self, event: TouchEvent, now: u64) -> (r: Option<TouchGesture>)
        requires
            now + old(self).config.long_press_delay <= u64::MAX,
        ensures
            *final(self) == old(self).after_event(event, now),
            r == old(self).event_gesture(event),
            old(self).wf() ==> final(self).wf(),
    {
        match self.active {
            None => {
                match event {
                    TouchEvent::Press(start) => {
                        self.active = Some(
                            TouchGestureInProgress {
                                start,
                                started_at: now,
                                next_long_press_at: now + self.config.long_press_delay,
                                last_press: start,
                                swipe_candidate: None,
                                press_emitted: false,
                            },
                        );
                    },
                    TouchEvent::Release(_) => {},
                }
                None
            },
            Some(a) => match event {
                TouchEvent::Press(touch) => {
                    let dx: i32 = touch.x as i32 - a.start.x as i32;
                    let dy: i32 = touch.y as i32 - a.start.y as i32;
                    let candidate = if swipe_direction(
                        self.config.swipe_threshold_px,
                        dx,
                        dy,
                    ).is_some() {
                        Some(touch)
                    } else {
                        a.swipe_candidate
                    };
                    self.active = Some(
                        TouchGestureInProgress { last_press: touch, swipe_candidate: candidate, ..a },
                    );
                    None
                },
                TouchEvent::Release(end) => {
                    self.active = None;
                    Some(self.classify_release(a.start, end, a.swipe_candidate))
                },
            },
        }
    }

    /// Whether a long press may be reported now.
    pub open spec fn can_long_press(self) -> bool {
        match self.active {
            Some(a) => a.press_emitted && a.swipe_candidate is None,
            None => false,
        }
    }

    /// The long press that is reported when its time has come, if one may be.
    pub open spec fn time_gesture(self, now: u64) -> Option<TouchGesture> {
        if self.can_long_press() {
            let a = self.active->0;
            Some(
                TouchGesture::LongPress {
                    start: a.start,
                    end: a.last_press,
                    duration: if now >= a.started_at {
                        (now - a.started_at) as u64
                    } else {
                        0
                    },
                },
            )
        } else {
            None
        }
    }

    /// The recogniser after the time of a long press has come.
    pub open spec fn after_time(self, now: u64) -> TouchInput {
        if self.can_long_press() {
            TouchInput {
                active: Some(
                    TouchGestureInProgress {
                        next_long_press_at: (now + self.config.long_press_interval) as u64,
                        ..self.active->0
                    },
                ),
                ..self
            }
        } else {
            self
        }
    }

    /// Takes the news that the point in time of [`TouchWait::EventOrTime`] has come.
    pub fn on_time(&mut self, now: u64) -> (r: Option<TouchGesture>)
        requires
            now + old(self).config.long_press_interval <= u64::MAX,
        ensures
            r == old(self).time_gesture(now),
            *final(self) == old(self).after_time(now),
            old(self).wf() ==> final(self).wf(),
    {
        match self.active {
            Some(a) => {
                if !a.press_emitted || a.swipe_candidate.is_some() {
                    return None;
                }
                self.active = Some(
                    TouchGestureInProgress {
                        next_long_press_at: now + self.config.long_press_interval,
                        ..a
                    },
                );
                Some(
                    TouchGesture::LongPress {
                        start: a.start,
                        end: a.last_press,
                        duration: now.saturating_sub(a.started_at),
                    },
                )
            },
            None => None,
        }
    }

    /// The position that was lifted, if this event is a release.
    pub fn wait_release(&self, event: TouchEvent) -> (r: Option<TouchPoint>)
        ensures
            r == (match event {
                TouchEvent::Press(_) => None,
                TouchEvent::Release(p) => Some(p),
            }),
    {
        match event {
            TouchEvent::Press(_) => None,
            TouchEvent::Release(p) => Some(p),
        }
    }

    fn classify_release(
        &self,
        start: TouchPoint,
        end: TouchPoint,
        swipe_candidate: Option<TouchPoint>,
    ) -> (r: TouchGesture)
        ensures
            r == release_gesture(
                self.config.swipe_threshold_px as int,
                start,
                end,
                swipe_candidate,
            ),
    {
        match swipe_candidate {
            Some(candidate) => match self.classify_swipe(start, end) {
                Some(swipe) => swipe,
                None => match self.classify_swipe(start, candidate) {
                    Some(swipe) => swipe,
                    None => TouchGesture::Click { start, end },
                },
            },
            None => self.classify_click_or_swipe(start, end),
        }
    }

    fn classify_click_or_swipe(&self, start: TouchPoint, end: TouchPoint) -> (r: TouchGesture)
        ensures
            r == release_gesture(self.config.swipe_threshold_px as int, start, end, None),
    {
        match self.classify_swipe(start, end) {
            Some(swipe) => swipe,
            None => TouchGesture::Click { start, end },
        }
    }

    fn classify_swipe(&self, start: TouchPoint, end: TouchPoint) -> (r: Option<TouchGesture>)
        ensures
            r == swipe_between(self.config.swipe_threshold_px as int, start, end),
    {
        let dx: i32 = end.x as i32 - start.x as i32;
        let dy: i32 = end.y as i32 - start.y as i32;
        match swipe_direction(self.config.swipe_threshold_px, dx, dy) {
            Some(direction) => Some(TouchGesture::Swipe { start, end, direction, dx, dy }),
            None => None,
        }
    }
}

// ---------------------------------------------------------------------------------------
// Laws
// ---------------------------------------------------------------------------------------

/// The recogniser after a run of touch events, each with its time.
pub open spec fn after_events(s: TouchInput, events: Seq<(TouchEvent, u64)>) -> TouchInput
    decreases events.len(),
{
    if events.len() == 0 {
        s
    } else {
        after_events(s, events.drop_last()).after_event(events.last().0, events.last().1)
    }
}

/// Whether every event of the run is a press.
pub open spec fn all_presses(events: Seq<(TouchEvent, u64)>) -> bool {
    forall|i: int| 0 <= i < events.len() ==> (#[trigger] events[i]).0 is Press
}

/// A finger that has once moved far enough for a swipe, and is not lifted, stays a swipe:
/// however it moves on, no long press is reported any more, and lifting it anywhere is a
/// swipe and never a click.
pub proof fn law_moved_finger_is_a_swipe(
    s: TouchInput,
    moves: Seq<(TouchEvent, u64)>,
    lifted: TouchPoint,
)
    requires
        s.wf(),
        s.active matches Some(a) && a.swipe_candidate is Some,
        all_presses(moves),
    ensures
        !after_events(s, moves).can_long_press(),
        after_events(s, moves).event_gesture(TouchEvent::Release(lifted)) matches Some(g)
            && g is Swipe,
{
    lemma_candidate_stays(s, moves);
}

proof fn lemma_candidate_stays(s: TouchInput, moves: Seq<(TouchEvent, u64)>)
    requires
        s.wf(),
        s.active matches Some(a) && a.swipe_candidate is Some,
        all_presses(moves),
    ensures
        after_events(s, moves).wf(),
        after_events(s, moves).active matches Some(a) && a.swipe_candidate is Some,
    decreases moves.len(),
{
    if moves.len() > 0 {
        assert(moves.last() == moves[moves.len() - 1]);
        lemma_candidate_stays(s, moves.drop_last());
    }
}

/// Lifting the finger always ends the interaction, with exactly one click or swipe that
/// starts where the finger was put down.
pub proof fn law_release_ends_interaction(s: TouchInput, lifted: TouchPoint, now: u64)
    requires
        s.active is Some,
    ensures
        s.after_event(TouchEvent::Release(lifted), now).active is None,
        match s.event_gesture(TouchEvent::Release(lifted)) {
            Some(TouchGesture::Click { start, end }) => start == s.active->0.start && end == lifted,
            Some(TouchGesture::Swipe { start, .. }) => start == s.active->0.start,
            _ => false,
        },
{
}

/// A finger that is put down and lifted within the threshold, without ever having reached
/// it, is a click between the two positions; no long press changes that.
pub proof fn law_still_finger_is_a_click(s: TouchInput, lifted: TouchPoint)
    requires
        s.active matches Some(a) && a.swipe_candidate is None && swipe_between(
            s.config.swipe_threshold_px as int,
            a.start,
            lifted,
        ) is None,
    ensures
        s.event_gesture(TouchEvent::Release(lifted)) == Some(
            TouchGesture::Click { start: s.active->0.start, end: lifted },
        ),
{
}

/// A movement has a direction if and only if it reaches the threshold on an axis; the direction
/// is along the axis on which it is longer, and the opposite movement has the opposite one. To
/// the right is where the columns grow, down is where the rows grow.
pub proof fn law_direction_follows_the_movement(threshold: int, dx: int, dy: int)
    requires
        threshold > 0,
    ensures
        ({
            let d = direction_of(threshold, dx, dy);
            let back = direction_of(threshold, -dx, -dy);
            &&& d is Some <==> dx >= threshold || -dx >= threshold || dy >= threshold || -dy
                >= threshold
            &&& d == Some(SwipeDirection::Right) ==> dx > 0 && dx >= dy && dx >= -dy
            &&& d == Some(SwipeDirection::Left) ==> dx < 0 && -dx >= dy && -dx >= -dy
            &&& d == Some(SwipeDirection::Down) ==> dy > 0 && dy > dx && dy > -dx
            &&& d == Some(SwipeDirection::Up) ==> dy < 0 && -dy > dx && -dy > -dx
            &&& d == Some(SwipeDirection::Right) <==> back == Some(SwipeDirection::Left)
            &&& d == Some(SwipeDirection::Up) <==> back == Some(SwipeDirection::Down)
        }),
{
}

/// A swipe goes from where the finger was put down to where it was lifted, or, where it came
/// back, to the last place at which it was far enough away; it tells the movement between them.
pub proof fn law_swipe_tells_its_movement(s: TouchInput, lifted: TouchPoint)
    requires
        s.wf(),
        s.active is Some,
        s.event_gesture(TouchEvent::Release(lifted)) is Some,
        s.event_gesture(TouchEvent::Release(lifted))->0 is Swipe,
    ensures
        s.event_gesture(TouchEvent::Release(lifted)) matches Some(TouchGesture::Swipe {
            start,
            end,
            direction,
            dx,
            dy,
        }) && {
            &&& start == s.active->0.start
            &&& end == lifted || s.active->0.swipe_candidate == Some(end)
            &&& start.x + dx == end.x && start.y + dy == end.y
            &&& direction_of(s.config.swipe_threshold_px as int, dx as int, dy as int) == Some(
                direction,
            )
        },
{
}

/// A finger that is put down is reported once, where it was put down, and only then waited on;
/// if it stays, its first long press is due after the delay and each further one after the
/// interval. A long press tells where the finger was put down, where it is, and for how long it
/// has been there.
pub proof fn law_still_finger_gives_press_and_long_presses(
    s: TouchInput,
    point: TouchPoint,
    t: u64,
    t1: u64,
    t2: u64,
)
    requires
        s.active is None,
        t <= t1 <= t2,
        t + s.config.long_press_delay <= u64::MAX,
        t2 + s.config.long_press_interval <= u64::MAX,
    ensures
        ({
            let down = s.after_event(TouchEvent::Press(point), t);
            let told = down.wait_and_after().1;
            let once = told.after_time(t1);
            &&& s.event_gesture(TouchEvent::Press(point)) is None
            &&& down.wait_and_after().0 == TouchWait::Emit(TouchGesture::Press { point })
            &&& told.wait_and_after().0 == TouchWait::EventOrTime(
                (t + s.config.long_press_delay) as u64,
            )
            &&& told.wait_and_after().1 == told
            &&& told.time_gesture(t1) == Some(
                TouchGesture::LongPress { start: point, end: point, duration: (t1 - t) as u64 },
            )
            &&& once.wait_and_after().0 == TouchWait::EventOrTime(
                (t1 + s.config.long_press_interval) as u64,
            )
            &&& once.time_gesture(t2) == Some(
                TouchGesture::LongPress { start: point, end: point, duration: (t2 - t) as u64 },
            )
            &&& once.event_gesture(TouchEvent::Release(point)) is Some
        }),
        s.wait_and_after() == (TouchWait::Event, s),
{
}

/// A finger that moves is kept track of: a long press tells where it is now, and moving far
/// enough makes that place the end of a swipe.
pub proof fn law_moving_finger_is_followed(s: TouchInput, to: TouchPoint, now: u64)
    requires
        s.active is Some,
    ensures
        ({
            let a = s.active->0;
            let moved = s.after_event(TouchEvent::Press(to), now);
            let dx = to.x - a.start.x;
            let dy = to.y - a.start.y;
            let far = direction_of(s.config.swipe_threshold_px as int, dx, dy) is Some;
            &&& s.event_gesture(TouchEvent::Press(to)) is None
            &&& moved.active matches Some(b) && b.start == a.start && b.started_at == a.started_at
                && b.last_press == to && b.next_long_press_at == a.next_long_press_at
                && b.swipe_candidate == (if far {
                Some(to)
            } else {
                a.swipe_candidate
            })
            &&& moved.time_gesture(now) matches Some(TouchGesture::LongPress { end, .. }) ==> end
                == to
        }),
{
}

} // verus!
