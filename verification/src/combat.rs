//! The bridge from contacts to damage.
//!
//! Every contact that begins and names an enemy as its first entity costs
//! that enemy [`CONTACT_DAMAGE`] health, whatever touched it and however
//! often: a contact reported again is paid again. Nothing happens to an
//! enemy whose health is used up.

use vstd::prelude::*;
use crate::entities::{Entity, Health};
use crate::events::CollisionEvent;

verus! {

/// The health that one contact costs.
pub const CONTACT_DAMAGE: i32 = 10;

/// Whether `event` is the start of a contact whose first entity is `enemy`.
pub open spec fn strikes(event: CollisionEvent, enemy: Entity) -> bool {
    event matches CollisionEvent::Started(first, _) && first == enemy
}

/// How many of `events` strike `enemy`.
pub open spec fn hits(events: Seq<CollisionEvent>, enemy: Entity) -> nat
    decreases events.len(),
{
    if events.len() == 0 {
        0
    } else {
        hits(events.drop_last(), enemy) + if strikes(events.last(), enemy) {
            1nat
        } else {
            0nat
        }
    }
}

/// The health left after the contacts `events`.
pub open spec fn health_after(health: Health, events: Seq<CollisionEvent>, enemy: Entity) -> int {
    health.0 - CONTACT_DAMAGE * hits(events, enemy)
}

/// Counts the contacts among `events` that strike `enemy`.
pub fn count_hits(enemy: Entity, events: &Vec<CollisionEvent>) -> (n: usize)
    ensures
        n == hits(events@, enemy),
{
    let mut n: usize = 0;
    let mut i: usize = 0;
    while i < events.len()
        invariant
            i <= events.len(),
            n <= i,
            n == hits(events@.take(i as int), enemy),
        decreases events.len() - i,
    {
        assert(events@.take(i + 1).drop_last() == events@.take(i as int));
        match events[i] {
            CollisionEvent::Started(first, _) => {
                if first.0 == enemy.0 {
                    n = n + 1;
                }
            },
            CollisionEvent::Stopped(_, _) => {},
        }
        i = i + 1;
    }
    assert(events@.take(i as int) == events@);
    n
}

/// Takes from the health of `enemy` what the contacts of one tick cost it.
///
/// The health left has to fit the machine's integer.
pub fn contact_damage(enemy: Entity, health: &mut Health, events: &Vec<CollisionEvent>)
    requires
        health_after(*old(health), events@, enemy) >= i32::MIN,
    ensures
        final(health).0 == health_after(*old(health), events@, enemy),
{
    let n = count_hits(enemy, events);
    let left: i128 = health.0 as i128 - (CONTACT_DAMAGE as i128) * (n as i128);
    health.0 = left as i32;
}

/// Whether the health left after `events` fits the machine's integer, so
/// that [`contact_damage`] may be called.
pub fn can_take_damage(enemy: Entity, health: &Health, events: &Vec<CollisionEvent>) -> (fits: bool)
    ensures
        fits == (health_after(*health, events@, enemy) >= i32::MIN),
{
    let n = count_hits(enemy, events);
    health.0 as i128 - (CONTACT_DAMAGE as i128) * (n as i128) >= i32::MIN as i128
}

} // verus!
