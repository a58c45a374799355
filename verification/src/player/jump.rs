//! The jump budget of the player: how many jumps it has made since it last
//! stood on the ground, and for how long the current jump still rises.

use vstd::prelude::*;
use crate::timer::{Timer, TimerView};

verus! {

/// The jumps that the player can make before it has to land.
pub const MAX_JUMP: u8 = 2;

/// The nanoseconds for which a jump rises before it turns into a fall.
pub const JUMP_TIME: u64 = 500_000_000;

/// The nanoseconds by which a ceiling hit advances the time aloft.
pub const CEILING_ADVANCE: u64 = 1_000_000_000;

/// What a [`JumpInfo`] stands for.
pub struct JumpView {
    pub count: nat,
    pub time_up: TimerView,
}

impl JumpView {
    pub open spec fn wf(self) -> bool {
        &&& self.count <= MAX_JUMP
        &&& self.time_up.wf()
        &&& self.time_up.duration == JUMP_TIME
    }

    /// No jump made, the time aloft not started.
    pub open spec fn fresh() -> JumpView {
        JumpView { count: 0, time_up: TimerView::fresh(JUMP_TIME as nat) }
    }

    /// Whether a jump request is granted.
    pub open spec fn can_jump(self) -> bool {
        self.count < MAX_JUMP
    }

    /// After a jump request: a granted one counts and restarts the time
    /// aloft, a refused one changes nothing.
    pub open spec fn jump(self) -> JumpView {
        if self.can_jump() {
            JumpView { count: self.count + 1, time_up: self.time_up.reset() }
        } else {
            self
        }
    }

    /// After a wall slide: exactly one more jump is left.
    pub open spec fn slide(self) -> JumpView {
        JumpView { count: 1, time_up: self.time_up }
    }

    /// After standing on the ground outside of a jump: the budget is whole.
    pub open spec fn land(self) -> JumpView {
        JumpView { count: 0, time_up: self.time_up }
    }

    /// After `delta` more nanoseconds aloft.
    pub open spec fn rise(self, delta: nat) -> JumpView {
        JumpView { count: self.count, time_up: self.time_up.tick(delta) }
    }
}

/// The jump budget of the player.
#[derive(Clone, Copy, Debug)]
pub struct JumpInfo {
    count: u8,
    time_up: Timer,
}

impl View for JumpInfo {
    type V = JumpView;

    closed spec fn view(&self) -> JumpView {
        JumpView { count: self.count as nat, time_up: self.time_up@ }
    }
}

impl Default for JumpInfo {
    fn default() -> (j: JumpInfo)
        ensures
            j@ == JumpView::fresh(),
    {
        JumpInfo { count: 0, time_up: Timer::new(JUMP_TIME) }
    }
}

impl JumpInfo {
    #[verifier::type_invariant]
    pub open spec fn inv(self) -> bool {
        self@.wf()
    }

    /// The jumps made since the budget was last whole: never more than
    /// [`MAX_JUMP`].
    pub fn count(&self) -> (c: u8)
        ensures
            c == self@.count,
            c <= MAX_JUMP,
    {
        proof {
            use_type_invariant(self);
        }
        self.count
    }

    /// The timer of the time aloft.
    pub fn time_up(&self) -> (t: Timer)
        ensures
            t@ == self@.time_up,
    {
        self.time_up
    }

    /// Asks for a jump, and says whether it was granted.
    pub fn jump(&mut self) -> (granted: bool)
        ensures
            granted == old(self)@.can_jump(),
            final(self)@ == old(self)@.jump(),
    {
        proof {
            use_type_invariant(&*self);
        }
        if self.count >= MAX_JUMP {
            false
        } else {
            let mut time_up = self.time_up;
            time_up.reset();
            *self = JumpInfo { count: self.count + 1, time_up };
            true
        }
    }

    /// Records a wall slide.
    pub fn slide(&mut self)
        ensures
            final(self)@ == old(self)@.slide(),
    {
        proof {
            use_type_invariant(&*self);
        }
        self.count = 1;
    }

    /// Records that the player stands on the ground outside of a jump.
    pub fn land(&mut self)
        ensures
            final(self)@ == old(self)@.land(),
    {
        proof {
            use_type_invariant(&*self);
        }
        self.count = 0;
    }

    /// Advances the time aloft by `delta` nanoseconds, and says whether it
    /// has run out.
    pub fn rise(&mut self, delta: u64) -> (over: bool)
        ensures
            final(self)@ == old(self)@.rise(delta as nat),
            over == final(self)@.time_up.finished,
    {
        proof {
            use_type_invariant(&*self);
        }
        let mut time_up = self.time_up;
        time_up.tick(delta);
        *self = JumpInfo { count: self.count, time_up };
        time_up.finished()
    }
}

} // verus!
