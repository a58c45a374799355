//! The slime: it chases the player in hops, one from every tick on which it
//! touches the ground.

use vstd::prelude::*;
use crate::enemy::{steer, steering, EnemyStates, ENEMY_SPEED};
use crate::entities::ActiveEntity;
use crate::fixed::Vec2;
use crate::kinematics::{
    grounded_of, integrate, integrated, is_grounded, Control, Friction, Step, NO_DAMPING,
};

verus! {

/// The vertical velocity that a hop adds.
pub const HOP_IMPULSE: i64 = 1_000_000_000;

/// The mark of a slime.
#[derive(Clone, Copy, Debug, PartialEq, Eq, Structural)]
pub struct Slime;

impl Default for Slime {
    fn default() -> (s: Slime) {
        Slime
    }
}

/// The friction of a slime.
pub open spec fn slime_friction() -> Friction {
    Friction { ground: 90, air: 80 }
}

/// What a slime's chase hands to the integrator: on the ground it hops.
pub open spec fn slime_control(grounded: bool, enemy: Vec2, player: Vec2) -> Control {
    Control {
        push: Vec2 {
            x: (steering(enemy, player) * ENEMY_SPEED) as i64,
            y: if grounded {
                HOP_IMPULSE
            } else {
                0
            },
        },
        reset_vertical: false,
        lift: 0,
        damping: NO_DAMPING,
    }
}

/// One tick of one slime that stands at `enemy_pos` while the player stands
/// at `player_pos`.
///
/// `dt` is the length of the tick in nanoseconds. `translation` holds what
/// is pending for the physics engine and receives the request of this tick.
pub fn move_slime(
    dt: u64,
    gravity: Vec2,
    enemy: &mut ActiveEntity<EnemyStates>,
    translation: &mut Option<Vec2>,
    enemy_pos: Vec2,
    player_pos: Vec2,
    controller_output: Option<bool>,
)
    ensures
        final(enemy).rotation == steering(enemy_pos, player_pos),
        final(enemy).current_state == old(enemy).current_state,
        *final(translation) is Some,
        integrated(
            is_grounded(controller_output),
            old(enemy).velocity,
            gravity,
            dt,
            slime_friction(),
            slime_control(is_grounded(controller_output), enemy_pos, player_pos),
            *old(translation),
            Step { velocity: final(enemy).velocity, translation: final(translation)->Some_0 },
        ),
        final(enemy).velocity.in_box(),
        final(translation)->Some_0.in_box(),
{
    let grounded = grounded_of(controller_output);
    let rotation = steer(enemy_pos, player_pos);
    let chase = Control {
        push: Vec2 {
            x: rotation as i64 * ENEMY_SPEED,
            y: if grounded {
                HOP_IMPULSE
            } else {
                0
            },
        },
        reset_vertical: false,
        lift: 0,
        damping: NO_DAMPING,
    };
    let step = integrate(
        grounded,
        enemy.velocity,
        gravity,
        dt,
        Friction { ground: 90, air: 80 },
        chase,
        *translation,
    );
    enemy.rotation = rotation;
    enemy.velocity = step.velocity;
    *translation = Some(step.translation);
}

} // verus!
