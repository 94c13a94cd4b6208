//! The panel and its touch sensor: how a frame is cut into transfers and retried, and
//! how raw touch readings become press and release events.
use vstd::prelude::*;

verus! {

pub const LCD_WIDTH: u16 = 410;
pub const LCD_HEIGHT: u16 = 502;
pub const LCD_COLOR_BITS: u16 = 16;
pub const FLUSH_CHUNK_ROWS: i32 = 64;
/// How often one chunk is submitted before its last error is reported.
pub const FLUSH_ATTEMPTS: u32 = 5;
/// How long one transfer is waited for.
pub const FLUSH_RETRY_WAIT_MS: u64 = 100;
/// The pause before a release event is offered again to a full channel.
pub const TOUCH_RELEASE_SEND_RETRY_DELAY_MS: u64 = 100;
pub const TOUCH_RELEASE_SEND_RETRIES: usize = 20;
/// The pause between two readings of a touched panel.
pub const TOUCH_POLL_DELAY_MS: u64 = 100;
/// The error code for a buffer that is too small for the area.
pub const ESP_ERR_INVALID_SIZE: i32 = 260;
/// The code of a call that succeeded.
pub const ESP_OK: i32 = 0;
pub const MAX_BRIGHTNESS: u8 = 100;

/// One reading of the touch sensor.
#[derive(Clone, Copy, Debug, PartialEq, Eq, Structural)]
pub struct TouchPoint {
    pub x: u16,
    pub y: u16,
    pub strength: u16,
}

/// A touch event: a finger is down, or was lifted.
#[derive(Clone, Copy, Debug, PartialEq, Eq, Structural)]
pub enum TouchEvent {
    Press(TouchPoint),
    Release(TouchPoint),
}

/// A reading, if the panel was touched.
pub fn touch_reading(touched: bool, x: u16, y: u16, strength: u16) -> (r: Option<TouchPoint>)
    ensures
        r == (if touched {
            Some(TouchPoint { x, y, strength })
        } else {
            None
        }),
{
    if touched {
        Some(TouchPoint { x, y, strength })
    } else {
        None
    }
}

/// The brightness that is asked of the panel.
pub open spec fn level_of(light: u8) -> u8 {
    if light <= 100 {
        light
    } else {
        100
    }
}

/// The brightness that is asked of the panel: never above one hundred percent.
pub fn brightness_level(light: u8) -> (r: u8)
    ensures
        r == level_of(light),
{
    if light <= MAX_BRIGHTNESS {
        light
    } else {
        MAX_BRIGHTNESS
    }
}

/// The number of bytes of one full frame.
pub fn frame_bytes() -> (r: usize)
    ensures
        r == 410 * 502 * 2,
{
    let row: usize = LCD_WIDTH as usize * 2;
    row * 502
}

// ---------------------------------------------------------------------------------------
// Flushing a region
// ---------------------------------------------------------------------------------------

/// The distance from `start` to `end`, no more than a 32-bit number can hold.
pub open spec fn span(start: int, end: int) -> int {
    if end - start > i32::MAX {
        i32::MAX as int
    } else {
        end - start
    }
}

/// The bytes of one row of the region between two columns.
pub open spec fn row_bytes(x_start: int, x_end: int) -> int {
    span(x_start, x_end) * 2
}

/// The bytes that a region takes.
pub open spec fn region_bytes(x_start: int, y_start: int, x_end: int, y_end: int) -> int {
    span(y_start, y_end) * row_bytes(x_start, x_end)
}

fn span_of(start: i32, end: i32) -> (r: i32)
    requires
        start < end,
    ensures
        r == span(start as int, end as int),
{
    let wide: i64 = end as i64 - start as i64;
    if wide > i32::MAX as i64 {
        i32::MAX
    } else {
        wide as i32
    }
}

/// What a flush request comes to before anything is sent.
pub enum FlushStart {
    /// The region is empty: nothing to send, success.
    Empty,
    /// The buffer does not hold the region: fails with this code.
    TooSmall(i32),
    /// Chunks are to be sent.
    Run(FlushState),
}

/// The progress of one flush: the rows above `y` were sent, `attempts` submissions of the
/// current chunk were made, and `last_error` is what the failed ones among them left.
#[derive(Clone, Copy, Debug)]
pub struct FlushState {
    pub x_start: i32,
    pub x_end: i32,
    pub y_start: i32,
    pub y_end: i32,
    pub y: i32,
    pub offset: usize,
    pub attempts: u32,
    pub last_error: i32,
}

/// One transfer: the rows `y..y_bottom` of the columns `x_start..x_end`, from the bytes
/// `start..end` of the buffer.
#[derive(Clone, Copy, Debug, PartialEq, Eq, Structural)]
pub struct FlushChunk {
    pub x_start: i32,
    pub y: i32,
    pub x_end: i32,
    pub y_bottom: i32,
    pub start: usize,
    pub end: usize,
}

/// What follows one submission.
#[derive(Clone, Copy, Debug, PartialEq, Eq, Structural)]
pub enum FlushNext {
    /// Submit the same chunk again.
    Retry,
    /// Submit the next chunk.
    NextChunk,
    /// The whole region was sent.
    Finished,
    /// Give up with this code.
    Failed(i32),
}

impl FlushState {
    /// The region is not empty, the buffer holds it, and what was sent so far are the
    /// whole rows above `y`, which occupy the first `offset` bytes.
    pub open spec fn wf(self, data_len: nat) -> bool {
        &&& self.x_start < self.x_end
        &&& self.y_start <= self.y < self.y_end
        &&& self.y_end - self.y_start <= i32::MAX
        &&& self.offset == (self.y - self.y_start) * row_bytes(
            self.x_start as int,
            self.x_end as int,
        )
        &&& (self.y_end - self.y_start) * row_bytes(self.x_start as int, self.x_end as int)
            <= data_len
        &&& data_len <= usize::MAX
        &&& self.attempts < FLUSH_ATTEMPTS
    }

    /// The rows of the current chunk.
    pub open spec fn chunk_rows(self) -> int {
        if self.y_end - self.y <= 64 {
            self.y_end - self.y
        } else {
            64
        }
    }

    /// The chunk to submit now: at most sixty-four rows, in full width, from where the
    /// previous one ended.
    pub fn chunk(&self, data_len: usize) -> (r: FlushChunk)
        requires
            self.wf(data_len as nat),
        ensures
            r.x_start == self.x_start,
            r.x_end == self.x_end,
            r.y == self.y,
            r.y_bottom == self.y + self.chunk_rows(),
            r.start == self.offset,
            r.end - r.start == self.chunk_rows() * row_bytes(
                self.x_start as int,
                self.x_end as int,
            ),
            r.end <= data_len,
            r.start < r.end,
    {
        let left: i32 = self.y_end - self.y;
        let rows: i32 = if left <= FLUSH_CHUNK_ROWS {
            left
        } else {
            FLUSH_CHUNK_ROWS
        };
        let row: usize = span_of(self.x_start, self.x_end) as usize * 2;
        proof {
            lemma_chunk_fits(*self, rows as int, row as int, data_len as nat);
        }
        let len: usize = row * rows as usize;
        FlushChunk {
            x_start: self.x_start,
            y: self.y,
            x_end: self.x_end,
            y_bottom: self.y + rows,
            start: self.offset,
            end: self.offset + len,
        }
    }

    /// The error that stands after one more submission: a completed transfer clears it,
    /// a refused submission sets it, and a transfer that was accepted but not seen to
    /// complete leaves it.
    pub open spec fn error_after(self, code: i32, transfer_done: bool) -> i32 {
        if code != 0 {
            code
        } else if transfer_done {
            0
        } else {
            self.last_error
        }
    }

    /// Whether the current chunk is settled by this submission: its transfer completed,
    /// or it was the last attempt.
    pub open spec fn settled(self, code: i32, transfer_done: bool) -> bool {
        (code == 0 && transfer_done) || self.attempts + 1 == FLUSH_ATTEMPTS
    }

    /// Takes the outcome of one submission: the driver's code, and whether the transfer
    /// was seen to complete in time. A chunk is given up only if an error stands after
    /// its last attempt; otherwise the flush moves on by whole chunks to the last row.
    pub fn on_attempt(&mut self, data_len: usize, code: i32, transfer_done: bool) -> (r: FlushNext)
        requires
            old(self).wf(data_len as nat),
        ensures
            !old(self).settled(code, transfer_done) ==> {
                &&& r == FlushNext::Retry
                &&& *final(self) == (FlushState {
                    attempts: (old(self).attempts + 1) as u32,
                    last_error: old(self).error_after(code, transfer_done),
                    ..*old(self)
                })
                &&& final(self).wf(data_len as nat)
            },
            old(self).settled(code, transfer_done) && old(self).error_after(code, transfer_done)
                != 0 ==> {
                &&& r == FlushNext::Failed(old(self).error_after(code, transfer_done))
                &&& *final(self) == *old(self)
            },
            old(self).settled(code, transfer_done) && old(self).error_after(code, transfer_done)
                == 0 ==> {
                &&& final(self).y == old(self).y + old(self).chunk_rows()
                &&& final(self).offset == old(self).offset + old(self).chunk_rows() * row_bytes(
                    old(self).x_start as int,
                    old(self).x_end as int,
                )
                &&& *final(self) == (FlushState {
                    y: final(self).y,
                    offset: final(self).offset,
                    attempts: 0,
                    last_error: 0,
                    ..*old(self)
                })
                &&& r == (if final(self).y == old(self).y_end {
                    FlushNext::Finished
                } else {
                    FlushNext::NextChunk
                })
                &&& r == FlushNext::NextChunk ==> final(self).wf(data_len as nat)
            },
    {
        let chunk = self.chunk(data_len);
        let error: i32 = if code != 0 {
            code
        } else if transfer_done {
            0
        } else {
            self.last_error
        };
        if !(code == 0 && transfer_done) && self.attempts + 1 < FLUSH_ATTEMPTS {
            self.attempts = self.attempts + 1;
            self.last_error = error;
            return FlushNext::Retry;
        }
        if error != 0 {
            return FlushNext::Failed(error);
        }
        proof {
            let row = row_bytes(self.x_start as int, self.x_end as int);
            let rows = self.chunk_rows();
            assert((self.y - self.y_start) * row + rows * row == (self.y + rows - self.y_start)
                * row) by (nonlinear_arith);
        }
        self.y = chunk.y_bottom;
        self.offset = chunk.end;
        self.attempts = 0;
        self.last_error = 0;
        if self.y < self.y_end {
            FlushNext::NextChunk
        } else {
            FlushNext::Finished
        }
    }
}

proof fn lemma_chunk_fits(s: FlushState, rows: int, row: int, data_len: nat)
    requires
        s.wf(data_len),
        rows == s.chunk_rows(),
        row == row_bytes(s.x_start as int, s.x_end as int),
    ensures
        0 < row * rows <= usize::MAX,
        row * rows == rows * row,
        s.offset + row * rows <= data_len,
{
    let done = s.y - s.y_start;
    let total = s.y_end - s.y_start;
    assert(row * rows == rows * row && done * row + rows * row == (done + rows) * row && (done
        + rows) * row <= total * row && 0 < rows * row && 0 <= done * row) by (nonlinear_arith)
        requires
            0 < row,
            0 < rows,
            0 <= done,
            done + rows <= total,
    ;
}

/// The rows that are sent from row `y` on, chunk by chunk.
pub open spec fn rows_sent(y: int, y_end: int) -> Seq<int>
    decreases y_end - y,
{
    if y >= y_end {
        Seq::empty()
    } else {
        let rows = if y_end - y <= 64 {
            y_end - y
        } else {
            64
        };
        Seq::new(rows as nat, |i: int| y + i) + rows_sent(y + rows, y_end)
    }
}

/// Chunk by chunk, every row of a region is sent once, from the top to the bottom.
pub proof fn law_every_row_is_sent_once(y: int, y_end: int)
    requires
        y <= y_end,
    ensures
        rows_sent(y, y_end) == Seq::new((y_end - y) as nat, |i: int| y + i),
    decreases y_end - y,
{
    if y < y_end {
        let rows = if y_end - y <= 64 {
            y_end - y
        } else {
            64
        };
        law_every_row_is_sent_once(y + rows, y_end);
    }
    assert(rows_sent(y, y_end) =~= Seq::new((y_end - y) as nat, |i: int| y + i));
}

/// Checks a flush request against the buffer it is to be taken from and prepares its
/// first chunk. The columns and rows run up to, and not including, the end values.
pub fn flush_start(data_len: usize, x_start: i32, y_start: i32, x_end: i32, y_end: i32) -> (r:
    FlushStart)
    requires
        y_end - y_start > i32::MAX && x_start < x_end ==> data_len < region_bytes(
            x_start as int,
            y_start as int,
            x_end as int,
            y_end as int,
        ),
    ensures
        match r {
            FlushStart::Empty => x_end <= x_start || y_end <= y_start,
            FlushStart::TooSmall(code) => {
                &&& x_start < x_end && y_start < y_end
                &&& data_len < region_bytes(
                    x_start as int,
                    y_start as int,
                    x_end as int,
                    y_end as int,
                )
                &&& code == ESP_ERR_INVALID_SIZE
            },
            FlushStart::Run(s) => {
                &&& x_start < x_end && y_start < y_end
                &&& data_len >= region_bytes(
                    x_start as int,
                    y_start as int,
                    x_end as int,
                    y_end as int,
                )
                &&& s == (FlushState {
                    x_start,
                    x_end,
                    y_start,
                    y_end,
                    y: y_start,
                    offset: 0,
                    attempts: 0,
                    last_error: 0,
                })
                &&& s.wf(data_len as nat)
            },
        },
{
    if x_end <= x_start || y_end <= y_start {
        return FlushStart::Empty;
    }
    let width: i32 = span_of(x_start, x_end);
    let height: i32 = span_of(y_start, y_end);
    let row: usize = width as usize * 2;
    let ghost region = region_bytes(x_start as int, y_start as int, x_end as int, y_end as int);
    proof {
        assert(row * height == height * row) by (nonlinear_arith);
        assert(0 * row == 0) by (nonlinear_arith);
        assert(row as int == row_bytes(x_start as int, x_end as int));
        assert(region == height * row);
        assert(y_end - y_start <= i32::MAX ==> height == y_end - y_start);
    }
    match row.checked_mul(height as usize) {
        Some(required) => if data_len < required {
            FlushStart::TooSmall(ESP_ERR_INVALID_SIZE)
        } else {
            FlushStart::Run(
                FlushState {
                    x_start,
                    x_end,
                    y_start,
                    y_end,
                    y: y_start,
                    offset: 0,
                    attempts: 0,
                    last_error: 0,
                },
            )
        },
        None => FlushStart::TooSmall(ESP_ERR_INVALID_SIZE),
    }
}

// ---------------------------------------------------------------------------------------
// The touch worker
// ---------------------------------------------------------------------------------------

/// What happened to an event that was offered to the channel.
#[derive(Clone, Copy, Debug, PartialEq, Eq, Structural)]
pub enum SendOutcome {
    Sent,
    Full,
    Closed,
}

/// What a release event that was offered comes to.
#[derive(Clone, Copy, Debug, PartialEq, Eq, Structural)]
pub enum ReleaseSend {
    /// The worker goes on.
    KeepRunning,
    /// The receiver is gone: the worker ends.
    Stop,
    /// Offer the event again after a pause.
    RetryAfterDelay,
}

/// Whether the worker goes on after a press was offered: a full channel drops the press.
pub fn send_touch_press(outcome: SendOutcome) -> (r: bool)
    ensures
        r == (outcome != SendOutcome::Closed),
{
    match outcome {
        SendOutcome::Sent => true,
        SendOutcome::Full => true,
        SendOutcome::Closed => false,
    }
}

/// What the offer number `attempt` of a release, counted from zero, comes to: a full
/// channel is retried twenty times, after which the event is dropped.
pub open spec fn release_send(attempt: int, outcome: SendOutcome) -> ReleaseSend {
    match outcome {
        SendOutcome::Sent => ReleaseSend::KeepRunning,
        SendOutcome::Closed => ReleaseSend::Stop,
        SendOutcome::Full => if attempt >= TOUCH_RELEASE_SEND_RETRIES {
            ReleaseSend::KeepRunning
        } else {
            ReleaseSend::RetryAfterDelay
        },
    }
}

/// What the offer number `attempt` of a release, counted from zero, comes to.
pub fn send_touch_release(attempt: usize, outcome: SendOutcome) -> (r: ReleaseSend)
    ensures
        r == release_send(attempt as int, outcome),
{
    match outcome {
        SendOutcome::Sent => ReleaseSend::KeepRunning,
        SendOutcome::Closed => ReleaseSend::Stop,
        SendOutcome::Full => if attempt >= TOUCH_RELEASE_SEND_RETRIES {
            ReleaseSend::KeepRunning
        } else {
            ReleaseSend::RetryAfterDelay
        },
    }
}

/// The reading that a touch in progress last gave.
#[derive(Clone, Copy, Debug)]
pub struct TouchWorker {
    pub last_touch: Option<TouchPoint>,
}

/// What the worker does with one reading.
#[derive(Clone, Copy, Debug, PartialEq, Eq, Structural)]
pub enum TouchWorkerStep {
    /// Offer this press, then read again after a pause.
    Press(TouchPoint),
    /// Offer this release, then wait for the next interrupt.
    Release(TouchPoint),
    /// Wait for the next interrupt.
    Idle,
}

impl TouchWorker {
    /// The worker after an interrupt, before the first reading.
    pub fn new() -> (r: TouchWorker)
        ensures
            r.last_touch is None,
    {
        TouchWorker { last_touch: None }
    }

    /// The worker after one reading.
    pub open spec fn after_reading(self, reading: Option<TouchPoint>) -> TouchWorker {
        TouchWorker { last_touch: reading }
    }

    /// What is done with one reading.
    pub open spec fn reading_step(self, reading: Option<TouchPoint>) -> TouchWorkerStep {
        match reading {
            Some(p) => TouchWorkerStep::Press(p),
            None => match self.last_touch {
                Some(p) => TouchWorkerStep::Release(p),
                None => TouchWorkerStep::Idle,
            },
        }
    }

    /// Takes one reading: every touched reading is a press, and the first untouched one
    /// after it is the release of the last touched position.
    pub fn on_reading(&mut self, reading: Option<TouchPoint>) -> (r: TouchWorkerStep)
        ensures
            r == old(self).reading_step(reading),
            *final(self) == old(self).after_reading(reading),
    {
        match reading {
            Some(p) => {
                self.last_touch = Some(p);
                TouchWorkerStep::Press(p)
            },
            None => {
                let last = self.last_touch;
                self.last_touch = None;
                match last {
                    Some(p) => TouchWorkerStep::Release(p),
                    None => TouchWorkerStep::Idle,
                }
            },
        }
    }
}

// ---------------------------------------------------------------------------------------
// Light
// ---------------------------------------------------------------------------------------

/// One step of lighting up the display or turning it dark.
#[derive(Debug, Clone, Copy, PartialEq, Eq, Structural)]
pub enum BacklightStep {
    HoldSleepLock,
    OpenAudio,
    SetLevel(u8),
    CloseAudio,
    ReleaseSleepLock,
}

// ---------------------------------------------------------------------------------------
// Laws
// ---------------------------------------------------------------------------------------

/// Every reading of a touched panel is a press at the place that was read, and the first
/// untouched reading after it the release of that place; without a touch before it there is
/// nothing to release.
pub proof fn law_readings_become_presses_and_a_release(
    w: TouchWorker,
    a: TouchPoint,
    b: TouchPoint,
)
    ensures
        ({
            let after_a = w.after_reading(Some(a));
            let after_b = after_a.after_reading(Some(b));
            let lifted = after_b.after_reading(None);
            &&& w.reading_step(Some(a)) == TouchWorkerStep::Press(a)
            &&& after_a.reading_step(Some(b)) == TouchWorkerStep::Press(b)
            &&& after_b.reading_step(None) == TouchWorkerStep::Release(b)
            &&& lifted.reading_step(None) == TouchWorkerStep::Idle
        }),
{
}

/// A release that finds the channel full is offered twenty-one times in all, and then dropped;
/// one that was sent is not offered again, and only a closed channel ends the worker.
pub proof fn law_release_is_offered_again(attempt: int, outcome: SendOutcome)
    requires
        0 <= attempt,
    ensures
        release_send(attempt, outcome) == ReleaseSend::RetryAfterDelay <==> outcome
            == SendOutcome::Full && attempt < 20,
        release_send(attempt, outcome) == ReleaseSend::Stop <==> outcome == SendOutcome::Closed,
{
}

/// A chunk is whole rows, at least one, at most sixty-four, never more than are left, and fewer
/// than sixty-four only where it is the last.
pub proof fn law_chunks_are_as_large_as_may_be(s: FlushState, data_len: nat)
    requires
        s.wf(data_len),
    ensures
        1 <= s.chunk_rows() <= 64,
        s.y + s.chunk_rows() <= s.y_end,
        s.chunk_rows() < 64 ==> s.y + s.chunk_rows() == s.y_end,
        rows_sent(s.y as int, s.y_end as int) == Seq::new(
            s.chunk_rows() as nat,
            |i: int| s.y + i,
        ) + rows_sent(s.y + s.chunk_rows(), s.y_end as int),
{
}

/// A transfer that completed settles its chunk without an error, whatever went wrong before;
/// one that did not is tried again, five times in all. The error that counts is the last one
/// that the driver gave and no completed transfer has cleared.
pub proof fn law_chunk_is_tried_five_times(s: FlushState, code: i32, done: bool)
    requires
        s.attempts < 5,
    ensures
        code == 0 && done ==> s.settled(code, done) && s.error_after(code, done) == 0,
        !(code == 0 && done) ==> (s.settled(code, done) <==> s.attempts == 4),
        code != 0 ==> s.error_after(code, done) == code,
        code == 0 && !done ==> s.error_after(code, done) == s.last_error,
{
}

/// A region of the display takes two bytes for each of its pixels.
pub proof fn law_region_takes_two_bytes_a_pixel(x0: int, y0: int, x1: int, y1: int)
    requires
        0 <= x0 < x1 <= 410,
        0 <= y0 < y1 <= 502,
    ensures
        region_bytes(x0, y0, x1, y1) == 2 * ((x1 - x0) * (y1 - y0)),
{
    assert((y1 - y0) * ((x1 - x0) * 2) == 2 * ((x1 - x0) * (y1 - y0))) by (nonlinear_arith);
}

/// A light within the panel's range is taken as it is, and a brighter one as the brightest; a
/// brighter light never makes the panel darker.
pub proof fn law_light_stays_in_range(a: u8, b: u8)
    requires
        a <= b,
    ensures
        level_of(a) <= level_of(b) <= 100,
        b <= 100 ==> level_of(b) == b,
{
}

} // verus!
