//! The flip animation's state machine.

use vstd::prelude::*;
use crate::clock::{elapsed_since, now};
use crate::duration::{Duration, MAX_NANOS};

verus! {

/// Length of one animation frame while a flip is in flight (about 30 fps).
pub const FRAME_MILLIS: u64 = 33;

/// The abstract state of a [`FlipState`].
pub struct FlipModel {
    /// The face that rests in front when no flip is running.
    pub back: bool,
    /// A flip has started and `tick` has not yet finalised it.
    pub animating: bool,
    /// How long a flip takes, in nanoseconds.
    pub duration: nat,
}

/// A frame in nanoseconds.
pub open spec fn frame_nanos() -> nat {
    FRAME_MILLIS as nat * 1_000_000
}

/// Whether `elapsed` has reached the middle of a flip lasting `duration`,
/// both counted in whole microseconds. A flip shorter than a microsecond is
/// past its middle as soon as a whole microsecond has elapsed.
pub open spec fn past_midpoint(elapsed: nat, duration: nat) -> bool {
    let e = elapsed / 1000;
    let t = duration / 1000;
    if t == 0 {
        e > 0
    } else {
        2 * e >= t
    }
}

impl FlipModel {
    /// The state after a flip has been started.
    pub open spec fn started(self) -> FlipModel {
        FlipModel { animating: true, ..self }
    }

    /// Whether a tick at `elapsed` since the start finalises the flip.
    pub open spec fn completes(self, elapsed: nat) -> bool {
        self.animating && elapsed >= self.duration
    }

    /// The state after a tick at `elapsed` since the start.
    pub open spec fn ticked(self, elapsed: nat) -> FlipModel {
        if self.completes(elapsed) {
            FlipModel { back: !self.back, animating: false, duration: self.duration }
        } else {
            self
        }
    }

    /// Whether `elapsed` lies within the flip's wall-clock window.
    pub open spec fn in_visual_window(self, elapsed: nat) -> bool {
        self.animating && elapsed < self.duration
    }

    /// The face on view at `elapsed`: the resting face until the flip's
    /// middle, the other face after it.
    pub open spec fn visible_back(self, elapsed: nat) -> bool {
        if self.animating && past_midpoint(elapsed, self.duration) {
            !self.back
        } else {
            self.back
        }
    }

    /// The delay until the next frame at `elapsed`: none when idle, zero
    /// once the window is over, else a frame or what is left of the window,
    /// whichever is shorter.
    pub open spec fn next_tick(self, elapsed: nat) -> Option<nat> {
        if !self.animating {
            None
        } else if elapsed >= self.duration {
            Some(0)
        } else if frame_nanos() <= self.duration - elapsed {
            Some(frame_nanos())
        } else {
            Some((self.duration - elapsed) as nat)
        }
    }
}

/// The nanosecond count of an optional span.
pub open spec fn opt_nanos(d: Option<Duration>) -> Option<nat> {
    match d {
        Some(d) => Some(d@),
        None => None,
    }
}

/// Long-lived animation state for a flippable panel.
///
/// Holds the resting face (front or back), the clock reading at which an
/// in-flight flip started, if any, and how long a flip takes. The
/// application calls `flip` when the user asks for the other side; each
/// render calls `tick` and reads the face to draw.
#[derive(Debug)]
pub struct FlipState {
    /// Side that is stable when no animation is running.
    showing_back: bool,
    /// When the in-flight animation started, if any.
    started: Option<std::time::Instant>,
    /// How long the flip animation takes from start to settle.
    duration: Duration,
}

impl View for FlipState {
    type V = FlipModel;

    closed spec fn view(&self) -> FlipModel {
        FlipModel {
            back: self.showing_back,
            animating: self.started is Some,
            duration: self.duration@,
        }
    }
}

impl FlipState {
    /// A state that rests on the front face, with flips lasting `duration`.
    pub fn new(duration: Duration) -> (s: FlipState)
        ensures
            s@ == (FlipModel { back: false, animating: false, duration: duration@ }),
    {
        FlipState { showing_back: false, started: None, duration }
    }

    /// How long a flip takes.
    pub fn duration(&self) -> (d: Duration)
        ensures
            d@ == self@.duration,
    {
        self.duration
    }

    /// True from the call to `flip` until `tick` finalises the side swap.
    pub fn is_animating(&self) -> (b: bool)
        ensures
            b == self@.animating,
    {
        self.started.is_some()
    }

    /// Begins a flip, unless one is already in flight, in which case
    /// nothing changes. Returns whether a new flip was started.
    pub fn flip(&mut self) -> (started: bool)
        ensures
            started == !old(self)@.animating,
            started ==> final(self)@ == old(self)@.started(),
            !started ==> *final(self) == *old(self),
    {
        if self.is_animating() {
            return false;
        }
        self.started = Some(now());
        true
    }

    /// Sets the resting face to `b` without animating; any flip in flight
    /// is dropped.
    pub fn set_showing_back(&mut self, b: bool)
        ensures
            final(self)@ == (FlipModel { back: b, animating: false, duration: old(self)@.duration }),
    {
        self.showing_back = b;
        self.started = None;
    }

    /// Whether `elapsed`, the time since the flip started, lies within the
    /// flip's wall-clock window.
    pub fn is_in_visual_window_at(&self, elapsed: Duration) -> (b: bool)
        ensures
            b == self@.in_visual_window(elapsed@),
    {
        self.started.is_some() && elapsed.as_nanos() < self.duration.as_nanos()
    }

    /// The face on view when `elapsed` has passed since the flip started:
    /// the resting face before the flip's middle, the other one after it.
    pub fn showing_back_at(&self, elapsed: Duration) -> (b: bool)
        ensures
            b == self@.visible_back(elapsed@),
    {
        let e = elapsed.as_micros();
        let t = self.duration.as_micros();
        let past = if t == 0 {
            e > 0
        } else {
            2 * e >= t
        };
        if self.started.is_some() && past {
            !self.showing_back
        } else {
            self.showing_back
        }
    }

    /// The delay until the next frame should render when `elapsed` has
    /// passed since the flip started; `None` when no flip is in flight.
    pub fn next_tick_in_at(&self, elapsed: Duration) -> (d: Option<Duration>)
        ensures
            opt_nanos(d) == self@.next_tick(elapsed@),
    {
        if self.started.is_none() {
            return None;
        }
        if elapsed.as_nanos() >= self.duration.as_nanos() {
            return Some(Duration::from_nanos(0));
        }
        let frame = Duration::from_millis(FRAME_MILLIS);
        let remaining = self.duration.saturating_sub(&elapsed);
        Some(frame.min(&remaining))
    }

    /// Drives the state machine when `elapsed` has passed since the flip
    /// started: once the window is over, the side swap is finalised and the
    /// in-flight marker cleared. Returns whether that happened.
    pub fn tick_at(&mut self, elapsed: Duration) -> (done: bool)
        ensures
            done == old(self)@.completes(elapsed@),
            final(self)@ == old(self)@.ticked(elapsed@),
            !done ==> *final(self) == *old(self),
    {
        if self.started.is_some() && elapsed.as_nanos() >= self.duration.as_nanos() {
            self.started = None;
            self.showing_back = !self.showing_back;
            return true;
        }
        false
    }

    /// The time since the in-flight flip started, read from the clock;
    /// `None` when no flip is in flight.
    pub fn elapsed(&self) -> (e: Option<Duration>)
        ensures
            e is Some <==> self@.animating,
    {
        match &self.started {
            Some(t) => Some(elapsed_since(t)),
            None => None,
        }
    }

    /// True while the wall-clock window of the in-flight flip is still
    /// running. The answer is `is_in_visual_window_at` on the time read
    /// from the clock.
    pub fn is_in_visual_window(&self) -> (b: bool)
        ensures
            exists|e: nat| e <= MAX_NANOS && b == #[trigger] self@.in_visual_window(e),
            b ==> self@.animating,
            self@.duration == 0 ==> !b,
    {
        match &self.started {
            Some(t) => {
                let e = elapsed_since(t);
                self.is_in_visual_window_at(e)
            },
            None => {
                assert(!self@.in_visual_window(0));
                false
            },
        }
    }

    /// The face to draw now: `showing_back_at` on the time read from the
    /// clock. With no flip in flight it is the resting face.
    pub fn showing_back(&self) -> (b: bool)
        ensures
            exists|e: nat| e <= MAX_NANOS && b == #[trigger] self@.visible_back(e),
            !self@.animating ==> b == self@.back,
    {
        match &self.started {
            Some(t) => {
                let e = elapsed_since(t);
                self.showing_back_at(e)
            },
            None => {
                assert(self@.visible_back(0) == self@.back);
                self.showing_back
            },
        }
    }

    /// Suggested delay until the next animation frame: `next_tick_in_at` on
    /// the time read from the clock. `None` exactly when no flip is in
    /// flight; otherwise at most one frame.
    pub fn next_tick_in(&self) -> (d: Option<Duration>)
        ensures
            exists|e: nat| e <= MAX_NANOS && opt_nanos(d) == #[trigger] self@.next_tick(e),
            d is None <==> !self@.animating,
            d matches Some(d) ==> d@ <= frame_nanos() && d@ <= self@.duration,
    {
        match &self.started {
            Some(t) => {
                let e = elapsed_since(t);
                self.next_tick_in_at(e)
            },
            None => {
                assert(self@.next_tick(0) is None);
                None
            },
        }
    }

    /// Drives the state machine: `tick_at` on the time read from the clock.
    /// Call once per render. Returns whether a flip was finalised.
    pub fn tick(&mut self) -> (done: bool)
        ensures
            exists|e: nat|
                e <= MAX_NANOS && done == old(self)@.completes(e) && final(self)@ == #[trigger] old(
                    self,
                )@.ticked(e),
            !done ==> *final(self) == *old(self),
            done ==> old(self)@.animating && final(self)@ == (FlipModel {
                back: !old(self)@.back,
                animating: false,
                duration: old(self)@.duration,
            }),
            old(self)@.animating && old(self)@.duration == 0 ==> done,
    {
        match &self.started {
            Some(t) => {
                let e = elapsed_since(t);
                self.tick_at(e)
            },
            None => {
                assert(self@.ticked(0) == self@);
                false
            },
        }
    }
}

impl Clone for FlipState {
    /// A copy of the state, start reading included.
    fn clone(&self) -> (s: FlipState)
        ensures
            s == *self,
    {
        FlipState { showing_back: self.showing_back, started: self.started, duration: self.duration }
    }
}

impl Default for FlipState {
    /// Rests on the front face; flips take 300 ms.
    fn default() -> (s: FlipState)
        ensures
            s@ == (FlipModel { back: false, animating: false, duration: 300_000_000 }),
    {
        FlipState::new(Duration::from_millis(300))
    }
}

} // verus!
