//! A timer that shows how long ago it was last reset, up to a limit that
//! can be moved while it runs.
//!
//! The timer has no clock of its own. The host reads a clock that never
//! goes back and hands the reading in, in milliseconds, with every reset
//! and every tick; durations are in milliseconds throughout.

use vstd::prelude::*;

verus! {

/// The shortest limit that can be set: one second.
pub const MIN_DURATION: u64 = 1_000;

/// The longest limit that can be set: one minute.
pub const MAX_DURATION: u64 = 60_000;

/// The limit of a new timer: half a minute.
pub const DEFAULT_DURATION: u64 = 30_000;

/// The elapsed time shown for a clock reading of `now` by a timer that was
/// reset at `start_reference` and has the limit `max_duration`: the time
/// since the reset, no less than zero and no more than the limit.
pub open spec fn elapsed_at(start_reference: int, max_duration: int, now: int) -> int {
    if now - start_reference <= 0 {
        0
    } else if now - start_reference <= max_duration {
        now - start_reference
    } else {
        max_duration
    }
}

/// Whether `duration` can be set as the limit.
pub open spec fn duration_in_range(duration: int) -> bool {
    MIN_DURATION <= duration <= MAX_DURATION
}

/// The timer as contracts see it.
pub struct TimerView {
    /// The clock reading at the last reset.
    pub start_reference: int,
    /// The limit on the elapsed time.
    pub max_duration: int,
    /// The elapsed time as of the last tick.
    pub elapsed: int,
}

impl TimerView {
    /// What holds of every timer: the limit is one that can be set, and the
    /// elapsed time is between zero and the limit.
    pub open spec fn wf(self) -> bool {
        &&& duration_in_range(self.max_duration)
        &&& 0 <= self.elapsed <= self.max_duration
    }

    /// A timer started at the clock reading `now`.
    pub open spec fn started(now: int) -> TimerView {
        TimerView { start_reference: now, max_duration: DEFAULT_DURATION as int, elapsed: 0 }
    }

    /// The timer after a tick at the clock reading `now`: the elapsed time
    /// is taken anew from the clock, whatever it was before.
    pub open spec fn ticked(self, now: int) -> TimerView {
        TimerView { elapsed: elapsed_at(self.start_reference, self.max_duration, now), ..self }
    }

    /// The timer after a reset at the clock reading `now`.
    pub open spec fn reset(self, now: int) -> TimerView {
        TimerView { start_reference: now, elapsed: 0, ..self }
    }

    /// The timer after `duration` was asked for as its limit. A duration
    /// out of range changes nothing. One in range becomes the limit; the
    /// time of the last reset stays, and an elapsed time above the new
    /// limit comes down to it.
    pub open spec fn with_max_duration(self, duration: int) -> TimerView {
        if duration_in_range(duration) {
            TimerView {
                max_duration: duration,
                elapsed: if self.elapsed <= duration {
                    self.elapsed
                } else {
                    duration
                },
                ..self
            }
        } else {
            self
        }
    }

    /// The timer after `message` was taken in.
    pub open spec fn received(self, message: Message) -> TimerView {
        match message {
            Message::ResetPressed(now) => self.reset(now as int),
            Message::SliderChange(duration) => self.with_max_duration(duration as int),
            Message::Tic(now) => self.ticked(now as int),
        }
    }

    /// The timer after a tick at each of the clock readings `nows`, in
    /// order.
    pub open spec fn ticked_through(self, nows: Seq<int>) -> TimerView
        decreases nows.len(),
    {
        if nows.len() == 0 {
            self
        } else {
            self.ticked_through(nows.drop_last()).ticked(nows.last())
        }
    }
}

/// What the host can tell the timer. Clock readings and durations are in
/// milliseconds.
#[derive(Debug, Clone, Copy)]
pub enum Message {
    /// Reset, at this clock reading.
    ResetPressed(u64),
    /// This duration is asked for as the limit.
    SliderChange(u64),
    /// The clock now reads this.
    Tic(u64),
}

/// The timer: when it was last reset, its limit, and the elapsed time as of
/// the last tick.
pub struct Timer {
    start_reference: u64,
    max_duration: u64,
    elapsed: u64,
}

impl View for Timer {
    type V = TimerView;

    closed spec fn view(&self) -> TimerView {
        TimerView {
            start_reference: self.start_reference as int,
            max_duration: self.max_duration as int,
            elapsed: self.elapsed as int,
        }
    }
}

impl Timer {
    /// What holds of every timer, at all times.
    #[verifier::type_invariant]
    spec fn inv(self) -> bool {
        self@.wf()
    }

    /// A timer started at the clock reading `now`, with the default limit
    /// and nothing elapsed.
    pub fn new(now: u64) -> (timer: Self)
        ensures
            timer@ == TimerView::started(now as int),
            timer@.wf(),
    {
        Timer { start_reference: now, max_duration: DEFAULT_DURATION, elapsed: 0 }
    }

    /// The elapsed time as of the last tick.
    pub fn elapsed(&self) -> (elapsed: u64)
        ensures
            elapsed == self@.elapsed,
            self@.wf(),
    {
        proof {
            use_type_invariant(self);
        }
        self.elapsed
    }

    /// The limit on the elapsed time.
    pub fn max_duration(&self) -> (max_duration: u64)
        ensures
            max_duration == self@.max_duration,
            self@.wf(),
    {
        proof {
            use_type_invariant(self);
        }
        self.max_duration
    }

    /// The clock reading at the last reset.
    pub fn start_reference(&self) -> (start_reference: u64)
        ensures
            start_reference == self@.start_reference,
    {
        self.start_reference
    }

    /// Takes the elapsed time anew from the clock reading `now`: the time
    /// since the last reset, or the limit where more than that has passed.
    /// A reading from before the last reset counts as no time passed.
    pub fn tick(&mut self, now: u64)
        ensures
            final(self)@ == old(self)@.ticked(now as int),
            final(self)@.wf(),
    {
        proof {
            use_type_invariant(&*self);
        }
        let since_reset: u64 = if now >= self.start_reference {
            now - self.start_reference
        } else {
            0
        };
        self.elapsed = if since_reset <= self.max_duration {
            since_reset
        } else {
            self.max_duration
        };
    }

    /// Asks for `duration` as the limit, and says whether it was taken. A
    /// duration under [`MIN_DURATION`] or over [`MAX_DURATION`] is refused
    /// and changes nothing. One in range becomes the limit at once: the
    /// time of the last reset stays as it is, and an elapsed time above the
    /// new limit comes down to it.
    pub fn set_max_duration(&mut self, duration: u64) -> (accepted: bool)
        ensures
            accepted == duration_in_range(duration as int),
            final(self)@ == old(self)@.with_max_duration(duration as int),
            final(self)@.wf(),
    {
        proof {
            use_type_invariant(&*self);
        }
        if MIN_DURATION <= duration && duration <= MAX_DURATION {
            if self.elapsed > duration {
                self.elapsed = duration;
            }
            self.max_duration = duration;
            true
        } else {
            false
        }
    }

    /// Starts the timer anew at the clock reading `now`: nothing has
    /// elapsed, and later ticks count from `now`. The limit stays.
    pub fn reset(&mut self, now: u64)
        ensures
            final(self)@ == old(self)@.reset(now as int),
            final(self)@.wf(),
    {
        proof {
            use_type_invariant(&*self);
        }
        self.start_reference = now;
        self.elapsed = 0;
    }

    /// Takes in one message.
    pub fn update(&mut self, message: Message)
        ensures
            final(self)@ == old(self)@.received(message),
            final(self)@.wf(),
    {
        match message {
            Message::ResetPressed(now) => {
                self.reset(now);
            },
            Message::SliderChange(duration) => {
                let _ = self.set_max_duration(duration);
            },
            Message::Tic(now) => {
                self.tick(now);
            },
        }
    }
}

/// A later tick never shows less: of two clock readings, the later one
/// gives an elapsed time at least as large, as long as the timer is neither
/// reset nor given another limit in between.
pub proof fn lemma_tick_monotonic(timer: TimerView, earlier: int, later: int)
    requires
        timer.wf(),
        earlier <= later,
    ensures
        timer.ticked(earlier).elapsed <= timer.ticked(later).elapsed,
        timer.ticked(earlier).ticked(later).elapsed >= timer.ticked(earlier).elapsed,
{
}

/// A tick leaves the time of the last reset and the limit as they are, so
/// what a tick shows does not depend on the ticks before it.
pub proof fn lemma_ticks_keep_settings(timer: TimerView, nows: Seq<int>)
    ensures
        timer.ticked_through(nows).start_reference == timer.start_reference,
        timer.ticked_through(nows).max_duration == timer.max_duration,
        nows.len() > 0 ==> timer.ticked_through(nows).elapsed == elapsed_at(
            timer.start_reference,
            timer.max_duration,
            nows.last(),
        ),
    decreases nows.len(),
{
    if nows.len() > 0 {
        lemma_ticks_keep_settings(timer, nows.drop_last());
    }
}

/// Over a run of ticks at clock readings that never go back, with no reset
/// and no change of the limit in between, the elapsed times shown never go
/// back either: the time shown after the first `j` ticks is at least the
/// time shown after the first `i`, for `1 <= i <= j`.
pub proof fn lemma_elapsed_never_decreases(timer: TimerView, nows: Seq<int>, i: int, j: int)
    requires
        timer.wf(),
        forall|a: int, b: int| 0 <= a <= b < nows.len() ==> nows[a] <= nows[b],
        1 <= i <= j <= nows.len(),
    ensures
        timer.ticked_through(nows.take(i)).elapsed <= timer.ticked_through(nows.take(j)).elapsed,
{
    lemma_ticks_keep_settings(timer, nows.take(i));
    lemma_ticks_keep_settings(timer, nows.take(j));
    assert(nows.take(i).last() == nows[i - 1]);
    assert(nows.take(j).last() == nows[j - 1]);
}

/// Ticking twice at the same clock reading is the same as ticking once.
pub proof fn lemma_tick_idempotent(timer: TimerView, now: int)
    ensures
        timer.ticked(now).ticked(now) == timer.ticked(now),
{
}

/// The elapsed time is never stored apart from the clock: after the limit
/// was moved, the next tick shows the time since the last reset under the
/// new limit, be that less than was shown before or more.
pub proof fn lemma_tick_after_new_limit(timer: TimerView, duration: int, now: int)
    requires
        duration_in_range(duration),
    ensures
        timer.with_max_duration(duration).ticked(now).elapsed == elapsed_at(
            timer.start_reference,
            duration,
            now,
        ),
        timer.with_max_duration(duration).start_reference == timer.start_reference,
{
}

/// A reset makes later ticks count from the clock reading of the reset.
pub proof fn lemma_tick_after_reset(timer: TimerView, reset_at: int, now: int)
    ensures
        timer.reset(reset_at).ticked(now).elapsed == elapsed_at(
            reset_at,
            timer.max_duration,
            now,
        ),
{
}

} // verus!
