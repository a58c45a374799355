//! The collision classifier: what the contacts of one tick mean to an actor.
//!
//! A contact is the witness point that the physics engine reported for it. It
//! is read against the actor's box, its centre and its half extents. A point
//! above the box within the box's width is a ceiling hit; a point level
//! with the box is a wall on the side of the centre on which it lies; a
//! point below the box is ground.

use vstd::prelude::*;
use crate::events::{SlideEvent, StopJump, WallPosition};
use crate::fixed::Vec2;

verus! {

/// The box of an actor.
#[derive(Clone, Copy, Debug, PartialEq, Eq, Structural)]
pub struct Bounds {
    pub center: Vec2,
    pub half_width: i64,
    pub half_height: i64,
}

impl Bounds {
    pub open spec fn left(self) -> int {
        self.center.x - self.half_width
    }

    pub open spec fn right(self) -> int {
        self.center.x + self.half_width
    }

    pub open spec fn top(self) -> int {
        self.center.y + self.half_height
    }

    pub open spec fn bottom(self) -> int {
        self.center.y - self.half_height
    }
}

/// What a contact is to an actor.
#[derive(Clone, Copy, Debug, PartialEq, Eq, Structural)]
pub enum Contact {
    /// Above the box and strictly within its width: it blocks the way up.
    Ceiling,
    /// Above the box but beside it: it blocks nothing.
    Glancing,
    /// Strictly between the top and the bottom of the box: a wall on this
    /// side.
    Side(WallPosition),
    /// Below the box.
    Ground,
    /// Level with the top or the bottom edge: none of the others.
    Edge,
}

/// The meaning of the contact at `witness` for the actor in `bounds`.
pub open spec fn classified(bounds: Bounds, witness: Vec2) -> Contact {
    if bounds.top() < witness.y {
        if bounds.left() < witness.x < bounds.right() {
            Contact::Ceiling
        } else {
            Contact::Glancing
        }
    } else if bounds.bottom() < witness.y < bounds.top() {
        if witness.x > bounds.center.x {
            Contact::Side(WallPosition::Right)
        } else {
            Contact::Side(WallPosition::Left)
        }
    } else if witness.y < bounds.bottom() {
        Contact::Ground
    } else {
        Contact::Edge
    }
}

/// The ceiling hits among `contacts`: one for each, none merged.
pub open spec fn ceiling_hits(bounds: Bounds, contacts: Seq<Vec2>) -> nat
    decreases contacts.len(),
{
    if contacts.len() == 0 {
        0
    } else {
        ceiling_hits(bounds, contacts.drop_last()) + if classified(bounds, contacts.last())
            == Contact::Ceiling {
            1nat
        } else {
            0nat
        }
    }
}

/// The wall contacts among `contacts`, in their order.
pub open spec fn wall_hits(bounds: Bounds, contacts: Seq<Vec2>) -> Seq<SlideEvent>
    decreases contacts.len(),
{
    if contacts.len() == 0 {
        Seq::empty()
    } else {
        match classified(bounds, contacts.last()) {
            Contact::Side(side) => wall_hits(bounds, contacts.drop_last()).push(SlideEvent(side)),
            _ => wall_hits(bounds, contacts.drop_last()),
        }
    }
}

/// The events that the contacts of one tick give rise to.
#[derive(Debug)]
pub struct ContactEvents {
    pub stop_jump: Vec<StopJump>,
    pub slide: Vec<SlideEvent>,
}

/// Classifies one contact.
pub fn classify(bounds: Bounds, witness: Vec2) -> (contact: Contact)
    ensures
        contact == classified(bounds, witness),
{
    let x: i128 = witness.x as i128;
    let y: i128 = witness.y as i128;
    let left: i128 = bounds.center.x as i128 - bounds.half_width as i128;
    let right: i128 = bounds.center.x as i128 + bounds.half_width as i128;
    let top: i128 = bounds.center.y as i128 + bounds.half_height as i128;
    let bottom: i128 = bounds.center.y as i128 - bounds.half_height as i128;
    if top < y {
        if left < x && x < right {
            Contact::Ceiling
        } else {
            Contact::Glancing
        }
    } else if bottom < y && y < top {
        if witness.x > bounds.center.x {
            Contact::Side(WallPosition::Right)
        } else {
            Contact::Side(WallPosition::Left)
        }
    } else if y < bottom {
        Contact::Ground
    } else {
        Contact::Edge
    }
}

/// Reads the contacts of one tick against the box of an actor.
pub fn collide(bounds: Bounds, contacts: &Vec<Vec2>) -> (events: ContactEvents)
    ensures
        events.stop_jump.len() == ceiling_hits(bounds, contacts@),
        events.slide@ == wall_hits(bounds, contacts@),
{
    let mut stop_jump: Vec<StopJump> = Vec::new();
    let mut slide: Vec<SlideEvent> = Vec::new();
    let mut i: usize = 0;
    while i < contacts.len()
        invariant
            i <= contacts.len(),
            stop_jump.len() == ceiling_hits(bounds, contacts@.take(i as int)),
            slide@ == wall_hits(bounds, contacts@.take(i as int)),
            stop_jump.len() <= i,
        decreases contacts.len() - i,
    {
        assert(contacts@.take(i + 1).drop_last() == contacts@.take(i as int));
        match classify(bounds, contacts[i]) {
            Contact::Ceiling => {
                stop_jump.push(StopJump);
            },
            Contact::Side(side) => {
                slide.push(SlideEvent(side));
            },
            _ => {},
        }
        i = i + 1;
    }
    assert(contacts@.take(i as int) == contacts@);
    ContactEvents { stop_jump, slide }
}

} // verus!
