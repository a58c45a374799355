//! Movement, collision response and combat timing for a 2D platformer.
//!
//! Every quantity of the simulation is an integer: lengths and speeds are
//! counted in millionths of a world unit, time in nanoseconds. One call of a
//! `move_*` function is one tick of one actor.

pub mod fixed;
pub mod timer;
pub mod kinematics;
pub mod entities;
pub mod events;
pub mod player;
pub mod collision;
pub mod enemy;
pub mod combat;
