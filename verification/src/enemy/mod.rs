//! The enemies: they chase the player, each species in its own way.

pub mod goblin;
pub mod slime;

use vstd::prelude::*;
use crate::fixed::Vec2;

verus! {

/// The horizontal speed, in steps per second, at which every species chases.
pub const ENEMY_SPEED: i64 = 47_000_000;

/// The movement states of an enemy.
#[derive(Clone, Copy, Debug, PartialEq, Eq, Structural, Hash)]
pub enum EnemyStates {
    Idle,
    Run,
    Attack,
}

impl Default for EnemyStates {
    fn default() -> (s: EnemyStates)
        ensures
            s == EnemyStates::Idle,
    {
        EnemyStates::Idle
    }
}

/// The name tag of an enemy.
#[derive(Clone, Debug)]
pub struct Enemy(pub String);

/// The sign of the direction in which an enemy chases: toward smaller `x`
/// if it stands to the right of the player, toward greater `x` if not.
pub open spec fn steering(enemy: Vec2, player: Vec2) -> i8 {
    if enemy.x > player.x {
        -1i8
    } else {
        1i8
    }
}

/// The direction in which the enemy at `enemy` chases the player at `player`.
pub fn steer(enemy: Vec2, player: Vec2) -> (sign: i8)
    ensures
        sign == steering(enemy, player),
{
    if enemy.x > player.x {
        -1
    } else {
        1
    }
}

} // verus!
