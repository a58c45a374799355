//! The reading of the player's contacts.

use vstd::prelude::*;
use crate::collision::{ceiling_hits, collide, wall_hits, Bounds, ContactEvents};
use crate::fixed::Vec2;

verus! {

/// Half the height of the player's box.
pub const HEIGHT_PLAYER: i64 = 58_000_000;

/// Half the width of the player's box.
pub const WIDTH_PLAYER: i64 = 28_000_000;

/// The box of a player that stands at `translation`.
pub open spec fn player_bounds(translation: Vec2) -> Bounds {
    Bounds { center: translation, half_width: WIDTH_PLAYER, half_height: HEIGHT_PLAYER }
}

/// Reads the contacts that the physics engine reported for the player's last
/// translation: a [`crate::events::StopJump`] for each ceiling hit and a
/// [`crate::events::SlideEvent`] for each wall contact, in the order of the
/// contacts.
pub fn player_collision(translation: Vec2, collisions: &Vec<Vec2>) -> (events: ContactEvents)
    ensures
        events.stop_jump.len() == ceiling_hits(player_bounds(translation), collisions@),
        events.slide@ == wall_hits(player_bounds(translation), collisions@),
{
    collide(
        Bounds { center: translation, half_width: WIDTH_PLAYER, half_height: HEIGHT_PLAYER },
        collisions,
    )
}

} // verus!
