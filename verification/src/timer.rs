//! One-shot countdown timers.
//!
//! A timer is made with a duration, gathers the time it is ticked with, and is
//! finished from the tick on which the gathered time reaches the duration.
//! Once finished it stays so, and gathers nothing more, until it is reset.

use vstd::prelude::*;

verus! {

/// What a [`Timer`] stands for: all times in nanoseconds.
pub struct TimerView {
    pub duration: nat,
    pub elapsed: nat,
    pub finished: bool,
}

impl TimerView {
    /// A timer never holds more than its duration, and a finished one holds
    /// exactly that.
    pub open spec fn wf(self) -> bool {
        &&& self.duration <= u64::MAX
        &&& self.elapsed <= self.duration
        &&& self.finished ==> self.elapsed == self.duration
    }

    /// A timer of the given duration that has gathered nothing.
    pub open spec fn fresh(duration: nat) -> TimerView {
        TimerView { duration, elapsed: 0, finished: false }
    }

    /// A timer of the given duration that has run out.
    pub open spec fn spent(duration: nat) -> TimerView {
        TimerView { duration, elapsed: duration, finished: true }
    }

    /// The timer after `delta` more nanoseconds.
    pub open spec fn tick(self, delta: nat) -> TimerView {
        if self.finished {
            self
        } else if self.elapsed + delta >= self.duration {
            TimerView { duration: self.duration, elapsed: self.duration, finished: true }
        } else {
            TimerView { duration: self.duration, elapsed: self.elapsed + delta, finished: false }
        }
    }

    /// The timer started anew.
    pub open spec fn reset(self) -> TimerView {
        TimerView { duration: self.duration, elapsed: 0, finished: false }
    }

    /// The timer after one tick for each of `deltas`, in order.
    pub open spec fn tick_all(self, deltas: Seq<nat>) -> TimerView
        decreases deltas.len(),
    {
        if deltas.len() == 0 {
            self
        } else {
            self.tick_all(deltas.drop_last()).tick(deltas.last())
        }
    }
}

/// The sum of `deltas`.
pub open spec fn total(deltas: Seq<nat>) -> nat
    decreases deltas.len(),
{
    if deltas.len() == 0 {
        0
    } else {
        total(deltas.drop_last()) + deltas.last()
    }
}

/// A timer that has not run out has gathered exactly the time it was ticked
/// with since it was started, and it runs out on the first tick that brings
/// this time up to its duration.
pub proof fn lemma_tick_all(t: TimerView, deltas: Seq<nat>)
    requires
        t.wf(),
        !t.finished,
    ensures
        t.tick_all(deltas).wf(),
        t.tick_all(deltas).duration == t.duration,
        t.tick_all(deltas).finished <==> deltas.len() > 0 && t.elapsed + total(deltas)
            >= t.duration,
        !t.tick_all(deltas).finished ==> t.tick_all(deltas).elapsed == t.elapsed + total(deltas),
    decreases deltas.len(),
{
    if deltas.len() > 0 {
        lemma_tick_all(t, deltas.drop_last());
    }
}

/// A one-shot countdown timer.
#[derive(Clone, Copy, Debug)]
pub struct Timer {
    duration: u64,
    elapsed: u64,
    finished: bool,
}

impl View for Timer {
    type V = TimerView;

    closed spec fn view(&self) -> TimerView {
        TimerView {
            duration: self.duration as nat,
            elapsed: self.elapsed as nat,
            finished: self.finished,
        }
    }
}

impl Timer {
    #[verifier::type_invariant]
    pub open spec fn inv(self) -> bool {
        self@.wf()
    }

    /// A timer of `duration` nanoseconds that has gathered nothing.
    pub fn new(duration: u64) -> (t: Timer)
        ensures
            t@ == TimerView::fresh(duration as nat),
    {
        Timer { duration, elapsed: 0, finished: false }
    }

    /// A timer of `duration` nanoseconds that has already run out.
    pub fn new_finished(duration: u64) -> (t: Timer)
        ensures
            t@ == TimerView::spent(duration as nat),
    {
        Timer { duration, elapsed: duration, finished: true }
    }

    /// Gathers `delta` more nanoseconds.
    pub fn tick(&mut self, delta: u64)
        ensures
            final(self)@ == old(self)@.tick(delta as nat),
    {
        proof {
            use_type_invariant(&*self);
        }
        if !self.finished {
            if delta >= self.duration - self.elapsed {
                *self = Timer { duration: self.duration, elapsed: self.duration, finished: true };
            } else {
                self.elapsed = self.elapsed + delta;
            }
        }
    }

    /// Starts the timer anew.
    pub fn reset(&mut self)
        ensures
            final(self)@ == old(self)@.reset(),
    {
        proof {
            use_type_invariant(&*self);
        }
        *self = Timer { duration: self.duration, elapsed: 0, finished: false };
    }

    /// Whether the timer has run out.
    pub fn finished(&self) -> (b: bool)
        ensures
            b == self@.finished,
    {
        self.finished
    }

    /// The nanoseconds gathered so far.
    pub fn elapsed(&self) -> (e: u64)
        ensures
            e == self@.elapsed,
            self@.wf(),
    {
        proof {
            use_type_invariant(self);
        }
        self.elapsed
    }

    /// The nanoseconds after which the timer runs out.
    pub fn duration(&self) -> (d: u64)
        ensures
            d == self@.duration,
    {
        self.duration
    }
}

} // verus!
