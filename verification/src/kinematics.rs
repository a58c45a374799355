//! The kinematic integrator: one tick of velocity and translation for one
//! actor, shared by the player and the enemies.
//!
//! Horizontal velocity is worn down by friction, which differs on the ground
//! and in the air. Vertical velocity gathers gravity while the actor is
//! airborne. What the actor's controller decided for the tick comes in as a
//! [`Control`]. The new velocity and the translation request both stay in the
//! box of half side [`LIMIT`].

use vstd::prelude::*;
use crate::fixed::{
    boxed, clamp_to_box, over_time, percent_of, scale_percent, scale_time, Vec2, LIMIT,
};

verus! {

/// The vertical velocity that a jump, a wall slide or a ceiling hit starts
/// from: one world unit per second, upward.
pub const NOMINAL_VERTICAL: i64 = 1_000_000;

/// The damping that keeps the whole velocity.
pub const NO_DAMPING: u8 = 100;

/// An actor without a report from the physics engine is not grounded.
pub open spec fn is_grounded(controller_output: Option<bool>) -> bool {
    controller_output == Some(true)
}

/// Whether an actor stands on the ground, from the grounded flag that the
/// physics engine reported for it, if it reported.
pub fn grounded_of(controller_output: Option<bool>) -> (grounded: bool)
    ensures
        grounded == is_grounded(controller_output),
{
    match controller_output {
        Some(grounded) => grounded,
        None => false,
    }
}

/// The percentage of its horizontal velocity that an actor keeps per tick.
#[derive(Clone, Copy, Debug, PartialEq, Eq, Structural)]
pub struct Friction {
    pub ground: u8,
    pub air: u8,
}

impl Friction {
    /// The percentage kept on this tick.
    pub open spec fn kept(self, grounded: bool) -> int {
        if grounded {
            self.ground as int
        } else {
            self.air as int
        }
    }
}

/// What an actor's controller adds to its free motion on one tick.
#[derive(Clone, Copy, Debug, PartialEq, Eq, Structural)]
pub struct Control {
    /// Velocity added to what friction left: steering and impulses.
    pub push: Vec2,
    /// The vertical velocity starts from [`NOMINAL_VERTICAL`], not from what
    /// the actor had.
    pub reset_vertical: bool,
    /// Vertical acceleration added to gravity's.
    pub lift: i64,
    /// The percentage of the horizontal velocity that is kept after friction;
    /// 100 keeps all of it.
    pub damping: u8,
}

/// The vertical acceleration of the tick: gravity only pulls on an airborne
/// actor.
pub open spec fn vertical_acceleration(grounded: bool, gravity: Vec2, control: Control) -> int {
    (if grounded {
        0
    } else {
        gravity.y as int
    }) + control.lift
}

/// The horizontal velocity after the tick.
pub open spec fn next_velocity_x(
    grounded: bool,
    velocity: Vec2,
    friction: Friction,
    control: Control,
) -> int {
    boxed(
        percent_of(percent_of(velocity.x as int, friction.kept(grounded)), control.damping as int)
            + control.push.x,
    )
}

/// The vertical velocity after the tick.
pub open spec fn next_velocity_y(
    grounded: bool,
    velocity: Vec2,
    gravity: Vec2,
    dt: u64,
    control: Control,
) -> int {
    boxed(
        (if control.reset_vertical {
            NOMINAL_VERTICAL as int
        } else {
            velocity.y as int
        }) + control.push.y + over_time(vertical_acceleration(grounded, gravity, control), dt as int),
    )
}

/// One component of the translation request: what is pending, if anything,
/// and the way made at `velocity` over `dt`.
pub open spec fn next_translation(pending: int, velocity: int, dt: u64) -> int {
    boxed(pending + over_time(velocity, dt as int))
}

/// The component of a pending translation; none pending counts as zero.
pub open spec fn pending_x(pending: Option<Vec2>) -> int {
    match pending {
        Some(p) => p.x as int,
        None => 0,
    }
}

pub open spec fn pending_y(pending: Option<Vec2>) -> int {
    match pending {
        Some(p) => p.y as int,
        None => 0,
    }
}

/// What one tick of the integrator gives.
#[derive(Clone, Copy, Debug, PartialEq, Eq, Structural)]
pub struct Step {
    /// The actor's velocity after the tick.
    pub velocity: Vec2,
    /// The translation to request for the tick.
    pub translation: Vec2,
}

/// What [`integrate`] returns.
pub open spec fn integrated(
    grounded: bool,
    velocity: Vec2,
    gravity: Vec2,
    dt: u64,
    friction: Friction,
    control: Control,
    pending: Option<Vec2>,
    step: Step,
) -> bool {
    &&& step.velocity.x == next_velocity_x(grounded, velocity, friction, control)
    &&& step.velocity.y == next_velocity_y(grounded, velocity, gravity, dt, control)
    &&& step.translation.x == next_translation(pending_x(pending), step.velocity.x as int, dt)
    &&& step.translation.y == next_translation(pending_y(pending), step.velocity.y as int, dt)
}

/// One tick of an actor: from whether it stands on the ground, the velocity
/// it had, gravity and the length of the tick in nanoseconds to its new
/// velocity and the translation to request.
pub fn integrate(
    grounded: bool,
    velocity: Vec2,
    gravity: Vec2,
    dt: u64,
    friction: Friction,
    control: Control,
    pending: Option<Vec2>,
) -> (step: Step)
    ensures
        integrated(grounded, velocity, gravity, dt, friction, control, pending, step),
        step.velocity.in_box(),
        step.translation.in_box(),
{
    let kept: u8 = if grounded {
        friction.ground
    } else {
        friction.air
    };
    let worn: i128 = scale_percent(velocity.x as i128, kept);
    proof {
        lemma_percent_bound(velocity.x as int, kept as int);
    }
    let damped: i128 = scale_percent(worn, control.damping);
    proof {
        lemma_percent_bound(worn as int, control.damping as int);
    }
    let vx: i64 = clamp_to_box(damped + control.push.x as i128);

    let pull: i128 = if grounded {
        0
    } else {
        gravity.y as i128
    };
    let acceleration: i128 = pull + control.lift as i128;
    let gained: i128 = scale_time(acceleration, dt);
    proof {
        lemma_over_time_bound(acceleration as int, dt as int);
    }
    let base: i128 = if control.reset_vertical {
        NOMINAL_VERTICAL as i128
    } else {
        velocity.y as i128
    };
    let vy: i64 = clamp_to_box(base + control.push.y as i128 + gained);

    let (px, py): (i128, i128) = match pending {
        Some(p) => (p.x as i128, p.y as i128),
        None => (0, 0),
    };
    let way_x: i128 = scale_time(vx as i128, dt);
    let way_y: i128 = scale_time(vy as i128, dt);
    proof {
        lemma_over_time_bound(vx as int, dt as int);
        lemma_over_time_bound(vy as int, dt as int);
    }
    let tx: i64 = clamp_to_box(px + way_x);
    let ty: i64 = clamp_to_box(py + way_y);
    Step { velocity: Vec2 { x: vx, y: vy }, translation: Vec2 { x: tx, y: ty } }
}

/// Whatever the actor and whatever the tick, the velocity that the integrator
/// leaves and the translation that it asks for lie in the box of half side
/// [`LIMIT`].
pub proof fn lemma_step_in_box(
    grounded: bool,
    velocity: Vec2,
    gravity: Vec2,
    dt: u64,
    friction: Friction,
    control: Control,
    pending: Option<Vec2>,
    step: Step,
)
    requires
        integrated(grounded, velocity, gravity, dt, friction, control, pending, step),
    ensures
        step.velocity.in_box(),
        step.translation.in_box(),
{
}

/// A percentage of at most 255 grows a value less than threefold.
pub proof fn lemma_percent_bound(v: int, percent: int)
    requires
        0 <= percent <= 255,
    ensures
        v >= 0 ==> 0 <= percent_of(v, percent) <= 3 * v,
        v <= 0 ==> 3 * v <= percent_of(v, percent) <= 0,
{
    if v >= 0 {
        assert(0 <= v * percent <= v * 255) by (nonlinear_arith)
            requires
                v >= 0,
                0 <= percent <= 255,
        ;
    } else {
        assert(0 <= (-v) * percent <= (-v) * 255 && v * percent == -((-v) * percent))
            by (nonlinear_arith)
            requires
                v < 0,
                0 <= percent <= 255,
        ;
    }
}

/// Over any span that a `u64` holds, a rate comes to less than 2^35 times
/// itself.
pub proof fn lemma_over_time_bound(rate: int, dt: int)
    requires
        0 <= dt <= u64::MAX,
    ensures
        rate >= 0 ==> 0 <= over_time(rate, dt) <= rate * 0x8_0000_0000,
        rate <= 0 ==> rate * 0x8_0000_0000 <= over_time(rate, dt) <= 0,
{
    if rate >= 0 {
        assert(0 <= rate * dt <= rate * 0xffff_ffff_ffff_ffff) by (nonlinear_arith)
            requires
                rate >= 0,
                0 <= dt <= 0xffff_ffff_ffff_ffff,
        ;
    } else {
        assert(0 <= (-rate) * dt <= (-rate) * 0xffff_ffff_ffff_ffff && rate * dt == -((-rate)
            * dt)) by (nonlinear_arith)
            requires
                rate < 0,
                0 <= dt <= 0xffff_ffff_ffff_ffff,
        ;
    }
}

} // verus!
