use vstd::prelude::*;

verus! {

pub const NANOS_PER_SEC: u64 = 1_000_000_000;

/// The abstract value of a [`FrameTimer`].
pub struct TimerView {
    /// Frames counted in the current one-second window.
    pub frame_count: u64,
    /// Nanoseconds elapsed in the current window.
    pub accumulated: u64,
    /// Nanoseconds between the last two updates.
    pub delta: u64,
    /// Whole frames per second over the last completed window.
    pub fps: u64,
}

/// Frame timing: the delta between updates and a rate over windows of at
/// least one second. Time is handed in as elapsed nanoseconds.
pub struct FrameTimer {
    frame_count: u64,
    accumulated: u64,
    delta: u64,
    fps: u64,
}

impl View for FrameTimer {
    type V = TimerView;

    closed spec fn view(&self) -> TimerView {
        TimerView {
            frame_count: self.frame_count,
            accumulated: self.accumulated,
            delta: self.delta,
            fps: self.fps,
        }
    }
}

/// The frame counter after one more frame; it stops at the largest value.
pub open spec fn next_count(c: u64) -> u64 {
    if c < u64::MAX {
        (c + 1) as u64
    } else {
        c
    }
}

/// Whole frames per second for `frames` frames over `nanos` nanoseconds.
pub open spec fn rate(frames: int, nanos: int) -> int {
    frames * NANOS_PER_SEC / nanos
}

/// The timer after a frame that took `elapsed` nanoseconds: the window
/// closes, and the rate is taken, once it spans a second or more.
pub open spec fn after_update(t: TimerView, elapsed: u64) -> TimerView {
    let n = next_count(t.frame_count);
    let total = t.accumulated + elapsed;
    if total >= NANOS_PER_SEC {
        TimerView { frame_count: 0, accumulated: 0, delta: elapsed, fps: rate(n as int, total) as u64 }
    } else {
        TimerView { frame_count: n, accumulated: total as u64, delta: elapsed, fps: t.fps }
    }
}

impl Default for FrameTimer {
    fn default() -> (r: Self)
        ensures
            r.wf(),
            r@ == (TimerView { frame_count: 0, accumulated: 0, delta: 0, fps: 0 }),
    {
        FrameTimer::new()
    }
}

impl FrameTimer {
    pub open spec fn wf(&self) -> bool {
        self@.accumulated < NANOS_PER_SEC
    }

    pub fn new() -> (r: Self)
        ensures
            r.wf(),
            r@ == (TimerView { frame_count: 0, accumulated: 0, delta: 0, fps: 0 }),
    {
        FrameTimer { frame_count: 0, accumulated: 0, delta: 0, fps: 0 }
    }

    /// Records a frame that took `elapsed` nanoseconds.
    pub fn update(&mut self, elapsed: u64)
        requires
            old(self).wf(),
        ensures
            final(self).wf(),
            final(self)@ == after_update(old(self)@, elapsed),
            old(self)@.accumulated + elapsed >= NANOS_PER_SEC ==> final(self)@.fps == rate(
                next_count(old(self)@.frame_count) as int,
                old(self)@.accumulated + elapsed,
            ),
    {
        let n: u64 = if self.frame_count < u64::MAX {
            self.frame_count + 1
        } else {
            self.frame_count
        };
        self.delta = elapsed;
        if elapsed >= NANOS_PER_SEC - self.accumulated {
            let total: u128 = self.accumulated as u128 + elapsed as u128;
            let scaled: u128 = n as u128 * NANOS_PER_SEC as u128;
            proof {
                assert(scaled / total <= n) by (nonlinear_arith)
                    requires
                        scaled == n * NANOS_PER_SEC,
                        total >= NANOS_PER_SEC,
                ;
            }
            self.fps = (scaled / total) as u64;
            self.frame_count = 0;
            self.accumulated = 0;
        } else {
            self.frame_count = n;
            self.accumulated = self.accumulated + elapsed;
        }
    }

    /// Whole frames per second over the last completed window.
    pub fn fps(&self) -> (r: u64)
        ensures
            r == self@.fps,
    {
        self.fps
    }

    /// Nanoseconds between the last two updates.
    pub fn delta_nanos(&self) -> (r: u64)
        ensures
            r == self@.delta,
    {
        self.delta
    }
}

} // verus!
