//! The dash of the player: a short burst that a cooldown keeps apart from the
//! next one.

use vstd::prelude::*;
use crate::timer::{Timer, TimerView};

verus! {

/// The ticks that a dash lasts.
pub const DASH_FRAMES: u8 = 7;

/// The percentage of its horizontal velocity that a dashing player keeps per
/// tick.
pub const DASH_SPEED_FACTOR: u8 = 10;

/// The nanoseconds that have to pass after a dash before the next.
pub const DASH_COOLDOWN: u64 = 350_000_000;

/// The nanoseconds of evasion at the start of a dash.
pub const DASH_EVADE: u64 = 50_000_000;

/// What a [`DashInfo`] stands for.
pub struct DashView {
    pub cooldown_time: TimerView,
    pub evade_time: TimerView,
    pub is_used: bool,
    pub frames_count: nat,
}

impl DashView {
    pub open spec fn wf(self) -> bool {
        &&& self.cooldown_time.wf()
        &&& self.cooldown_time.duration == DASH_COOLDOWN
        &&& self.evade_time.wf()
        &&& self.evade_time.duration == DASH_EVADE
        &&& self.frames_count <= DASH_FRAMES
        &&& self.is_used ==> self.frames_count < DASH_FRAMES
        &&& self.is_used ==> self.cooldown_time.finished
    }

    /// No dash under way, and the cooldown already over.
    pub open spec fn fresh() -> DashView {
        DashView {
            cooldown_time: TimerView::spent(DASH_COOLDOWN as nat),
            evade_time: TimerView::fresh(DASH_EVADE as nat),
            is_used: false,
            frames_count: 0,
        }
    }

    /// Whether a dash request is granted.
    pub open spec fn can_dash(self) -> bool {
        self.cooldown_time.finished
    }

    /// After a dash request: a granted one starts a dash at frame zero, a
    /// refused one changes nothing.
    pub open spec fn dash(self) -> DashView {
        if self.can_dash() {
            DashView {
                cooldown_time: self.cooldown_time,
                evade_time: self.evade_time.reset(),
                is_used: true,
                frames_count: 0,
            }
        } else {
            self
        }
    }

    /// After a dash was called off.
    pub open spec fn cancel(self) -> DashView {
        DashView { is_used: false, ..self }
    }

    /// After `delta` more nanoseconds of cooldown.
    pub open spec fn cool(self, delta: nat) -> DashView {
        DashView { cooldown_time: self.cooldown_time.tick(delta), ..self }
    }

    /// After one more frame of `delta` nanoseconds: a dash under way gains a
    /// frame, and on its last frame it ends and the cooldown starts anew.
    pub open spec fn advance(self, delta: nat) -> DashView {
        if !self.is_used {
            self
        } else if self.frames_count + 1 == DASH_FRAMES {
            DashView {
                cooldown_time: self.cooldown_time.reset(),
                evade_time: self.evade_time.tick(delta),
                is_used: false,
                frames_count: self.frames_count + 1,
            }
        } else {
            DashView {
                cooldown_time: self.cooldown_time,
                evade_time: self.evade_time.tick(delta),
                is_used: true,
                frames_count: self.frames_count + 1,
            }
        }
    }
}

/// The dash of the player.
#[derive(Clone, Copy, Debug)]
pub struct DashInfo {
    cooldown_time: Timer,
    evade_time: Timer,
    is_used: bool,
    frames_count: u8,
}

impl View for DashInfo {
    type V = DashView;

    closed spec fn view(&self) -> DashView {
        DashView {
            cooldown_time: self.cooldown_time@,
            evade_time: self.evade_time@,
            is_used: self.is_used,
            frames_count: self.frames_count as nat,
        }
    }
}

impl Default for DashInfo {
    fn default() -> (d: DashInfo)
        ensures
            d@ == DashView::fresh(),
    {
        DashInfo {
            cooldown_time: Timer::new_finished(DASH_COOLDOWN),
            evade_time: Timer::new(DASH_EVADE),
            is_used: false,
            frames_count: 0,
        }
    }
}

impl DashInfo {
    #[verifier::type_invariant]
    pub open spec fn inv(self) -> bool {
        self@.wf()
    }

    /// Whether a dash is under way.
    pub fn is_used(&self) -> (b: bool)
        ensures
            b == self@.is_used,
    {
        self.is_used
    }

    /// The frames that the last dash has had: never more than
    /// [`DASH_FRAMES`], and fewer while it is under way.
    pub fn frames_count(&self) -> (n: u8)
        ensures
            n == self@.frames_count,
            n <= DASH_FRAMES,
            self@.is_used ==> n < DASH_FRAMES,
    {
        proof {
            use_type_invariant(self);
        }
        self.frames_count
    }

    /// The timer of the cooldown.
    pub fn cooldown_time(&self) -> (t: Timer)
        ensures
            t@ == self@.cooldown_time,
    {
        self.cooldown_time
    }

    /// The timer of the evasion.
    pub fn evade_time(&self) -> (t: Timer)
        ensures
            t@ == self@.evade_time,
    {
        self.evade_time
    }

    /// Asks for a dash, and says whether it was granted.
    pub fn dash(&mut self) -> (granted: bool)
        ensures
            granted == old(self)@.can_dash(),
            final(self)@ == old(self)@.dash(),
    {
        proof {
            use_type_invariant(&*self);
        }
        if self.cooldown_time.finished() {
            let mut evade_time = self.evade_time;
            evade_time.reset();
            *self = DashInfo {
                cooldown_time: self.cooldown_time,
                evade_time,
                is_used: true,
                frames_count: 0,
            };
            true
        } else {
            false
        }
    }

    /// Calls off a dash under way. The cooldown is left as it is.
    pub fn cancel(&mut self)
        ensures
            final(self)@ == old(self)@.cancel(),
    {
        proof {
            use_type_invariant(&*self);
        }
        self.is_used = false;
    }

    /// Advances the cooldown by `delta` nanoseconds.
    pub fn cool(&mut self, delta: u64)
        ensures
            final(self)@ == old(self)@.cool(delta as nat),
    {
        proof {
            use_type_invariant(&*self);
        }
        let mut cooldown_time = self.cooldown_time;
        cooldown_time.tick(delta);
        *self = DashInfo {
            cooldown_time,
            evade_time: self.evade_time,
            is_used: self.is_used,
            frames_count: self.frames_count,
        };
    }

    /// Advances a dash by one frame of `delta` nanoseconds, and says whether
    /// one was under way.
    pub fn advance(&mut self, delta: u64) -> (dashing: bool)
        ensures
            dashing == old(self)@.is_used,
            final(self)@ == old(self)@.advance(delta as nat),
    {
        proof {
            use_type_invariant(&*self);
        }
        if !self.is_used {
            return false;
        }
        let mut evade_time = self.evade_time;
        evade_time.tick(delta);
        let frames_count: u8 = self.frames_count + 1;
        if frames_count == DASH_FRAMES {
            let mut cooldown_time = self.cooldown_time;
            cooldown_time.reset();
            *self = DashInfo { cooldown_time, evade_time, is_used: false, frames_count };
        } else {
            *self = DashInfo {
                cooldown_time: self.cooldown_time,
                evade_time,
                is_used: true,
                frames_count,
            };
        }
        true
    }
}

} // verus!
