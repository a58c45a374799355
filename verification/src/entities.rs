//! What an actor is made of: its identity, its stat block and its motion.

use vstd::prelude::*;
use crate::fixed::Vec2;
use crate::timer::{Timer, TimerView};

verus! {

/// The identity of an entity in the host's registry.
#[derive(Clone, Copy, Debug, PartialEq, Eq, Structural, Hash)]
pub struct Entity(pub u64);

/// The health that an actor starts with.
pub const FULL_HEALTH: i32 = 100;

/// Health points. Nothing keeps them above zero.
#[derive(Clone, Copy, Debug, PartialEq, Eq, Structural)]
pub struct Health(pub i32);

impl Default for Health {
    fn default() -> (h: Health)
        ensures
            h.0 == FULL_HEALTH,
    {
        Health(FULL_HEALTH)
    }
}

#[derive(Clone, Copy, Debug, PartialEq, Eq, Structural)]
pub struct Armor(pub i32);

impl Default for Armor {
    fn default() -> (a: Armor)
        ensures
            a.0 == 0,
    {
        Armor(0)
    }
}

#[derive(Clone, Copy, Debug, PartialEq, Eq, Structural)]
pub struct Strength(pub i32);

impl Default for Strength {
    fn default() -> (s: Strength)
        ensures
            s.0 == 0,
    {
        Strength(0)
    }
}

/// The stat block of an actor.
#[derive(Clone, Copy, Debug, PartialEq, Eq, Structural)]
pub struct Stats {
    pub health: Health,
    pub armor: Armor,
    pub strength: Strength,
}

impl Default for Stats {
    fn default() -> (s: Stats)
        ensures
            s == (Stats { health: Health(FULL_HEALTH), armor: Armor(0), strength: Strength(0) }),
    {
        Stats { health: Health::default(), armor: Armor::default(), strength: Strength::default() }
    }
}

/// The attack hitbox that an actor has outstanding, if any. Being an
/// `Option`, it holds at most one.
#[derive(Clone, Copy, Debug, PartialEq, Eq, Structural)]
pub struct AttackCollider(pub Option<Entity>);

impl Default for AttackCollider {
    fn default() -> (a: AttackCollider)
        ensures
            a.0 is None,
    {
        AttackCollider(None)
    }
}

/// The motion of an actor: the sign of the side it faces, its velocity, which
/// lasts from tick to tick, and its movement state.
#[derive(Clone, Debug)]
pub struct ActiveEntity<T: Default> {
    pub rotation: i8,
    pub velocity: Vec2,
    pub current_state: T,
}

impl<T: Default> Default for ActiveEntity<T> {
    fn default() -> (e: ActiveEntity<T>)
        ensures
            e.rotation == 0,
            e.velocity == (Vec2 { x: 0, y: 0 }),
    {
        ActiveEntity { rotation: 0, velocity: Vec2::zero(), current_state: T::default() }
    }
}

#[derive(Clone, Copy, Debug, PartialEq, Eq, Structural)]
pub struct Damage(pub isize);

impl Default for Damage {
    fn default() -> (d: Damage)
        ensures
            d.0 == 0,
    {
        Damage(0)
    }
}

/// A colour of eight bits to the channel.
#[derive(Clone, Copy, Debug, PartialEq, Eq, Structural)]
pub struct Color {
    pub red: u8,
    pub green: u8,
    pub blue: u8,
    pub alpha: u8,
}

/// A passing change of an actor's speed, shown by a tint.
#[derive(Clone, Copy, Debug)]
pub struct ModifyStat {
    pub time: Timer,
    pub speed_scale: isize,
    pub effect: Color,
}

impl Default for ModifyStat {
    fn default() -> (m: ModifyStat)
        ensures
            m.time@ == TimerView::fresh(0),
            m.speed_scale == 0,
            m.effect == (Color { red: 255, green: 255, blue: 255, alpha: 255 }),
    {
        ModifyStat {
            time: Timer::new(0),
            speed_scale: 0,
            effect: Color { red: 255, green: 255, blue: 255, alpha: 255 },
        }
    }
}

/// Damage dealt over time.
#[derive(Clone, Copy, Debug)]
pub struct DoTStat {
    pub time: Timer,
    pub tick_dot: Timer,
    pub damage: Damage,
    pub stuck: isize,
}

pub enum StatType {
    AttackDamage,
    MoveSpeed,
}

pub enum StatModificationType {
    Percentage,
    Numerical,
    Absolute,
    Unmodified,
}

} // verus!
