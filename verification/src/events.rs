//! Messages that live for one tick.

use vstd::prelude::*;
use crate::entities::Entity;

verus! {

/// An attack aimed at an entity.
#[derive(Clone, Debug)]
pub struct AttackEvent {
    pub entity: Entity,
    pub damage: isize,
    pub effects: Vec<isize>,
}

/// The side of an actor on which a wall stands.
#[derive(Clone, Copy, Debug, PartialEq, Eq, Structural)]
pub enum WallPosition {
    Right,
    Left,
}

impl Default for WallPosition {
    fn default() -> (w: WallPosition)
        ensures
            w == WallPosition::Right,
    {
        WallPosition::Right
    }
}

impl WallPosition {
    /// The sign of the horizontal direction that leads into the wall.
    pub open spec fn sign(self) -> int {
        match self {
            WallPosition::Left => -1,
            WallPosition::Right => 1,
        }
    }
}

/// The actor hit a ceiling: upward motion is to stop.
#[derive(Clone, Copy, Debug, PartialEq, Eq, Structural)]
pub struct StopJump;

impl Default for StopJump {
    fn default() -> (s: StopJump) {
        StopJump
    }
}

/// The actor touches a wall on the given side.
#[derive(Clone, Copy, Debug, PartialEq, Eq, Structural)]
pub struct SlideEvent(pub WallPosition);

impl Default for SlideEvent {
    fn default() -> (s: SlideEvent)
        ensures
            s.0 == WallPosition::Right,
    {
        SlideEvent(WallPosition::Right)
    }
}

/// A contact between two entities began or ended.
#[derive(Clone, Copy, Debug, PartialEq, Eq, Structural)]
pub enum CollisionEvent {
    Started(Entity, Entity),
    Stopped(Entity, Entity),
}

} // verus!
