//! The attack hitbox of the player: a sensor volume that lives for a fixed
//! time, of which the player never has more than one.
//!
//! The host owns the entities. [`player_attack`] decides, tick by tick, what
//! the host is to do with the hitbox, and the host reports a hitbox it has
//! spawned by writing it into the [`AttackCollider`].

use vstd::prelude::*;
use crate::entities::{AttackCollider, Entity};
use crate::fixed::Vec2;
use crate::timer::{Timer, TimerView};

verus! {

/// The nanoseconds that an attack hitbox lives.
pub const ATTACK_TIME: u64 = 380_000_000;

/// The sensor volume of an attack: a box about a point given from the
/// attacker's own position.
#[derive(Clone, Copy, Debug, PartialEq, Eq, Structural)]
pub struct Hitbox {
    pub offset: Vec2,
    pub half_width: i64,
    pub half_height: i64,
}

/// The hitbox of the player's attack: 10 by 20 world units, 5 to the right.
pub open spec fn player_hitbox() -> Hitbox {
    Hitbox { offset: Vec2 { x: 5_000_000, y: 0 }, half_width: 5_000_000, half_height: 10_000_000 }
}

/// What the host is to do with the attack hitbox on a tick.
#[derive(Clone, Copy, Debug, PartialEq, Eq, Structural)]
pub enum AttackCommand {
    /// Nothing.
    Keep,
    /// Spawn this hitbox as a child of the attacker, and write its entity
    /// into the attacker's [`AttackCollider`].
    Spawn(Hitbox),
    /// Detach this hitbox from the attacker and destroy it.
    Despawn(Entity),
}

/// The timer of the player's attack.
#[derive(Clone, Copy, Debug)]
pub struct TimeAttack(Timer);

impl View for TimeAttack {
    type V = TimerView;

    closed spec fn view(&self) -> TimerView {
        self.0@
    }
}

impl Default for TimeAttack {
    fn default() -> (t: TimeAttack)
        ensures
            t@ == TimerView::fresh(ATTACK_TIME as nat),
    {
        TimeAttack(Timer::new(ATTACK_TIME))
    }
}

impl TimeAttack {
    #[verifier::type_invariant]
    pub open spec fn inv(self) -> bool {
        self@.wf() && self@.duration == ATTACK_TIME
    }

    /// The timer itself.
    pub fn timer(&self) -> (t: Timer)
        ensures
            t@ == self@,
            self@.wf(),
            self@.duration == ATTACK_TIME,
    {
        proof {
            use_type_invariant(self);
        }
        self.0
    }
}

/// An attack as the library sees it: the outstanding hitbox, if any, and the
/// timer.
pub struct AttackView {
    pub collider: Option<Entity>,
    pub timer: TimerView,
}

/// One tick of `dt` nanoseconds on which an attack is or is not asked for.
pub struct AttackTick {
    pub dt: nat,
    pub is_attack: bool,
}

impl AttackView {
    pub open spec fn wf(self) -> bool {
        self.timer.wf() && self.timer.duration == ATTACK_TIME
    }

    /// What the host is told on a tick. While a hitbox is outstanding the
    /// request is not looked at.
    pub open spec fn command(self, tick: AttackTick) -> AttackCommand {
        match self.collider {
            Some(hitbox) => if self.timer.tick(tick.dt).finished {
                AttackCommand::Despawn(hitbox)
            } else {
                AttackCommand::Keep
            },
            None => if tick.is_attack {
                AttackCommand::Spawn(player_hitbox())
            } else {
                AttackCommand::Keep
            },
        }
    }

    /// The attack after a tick, before the host has acted on the command.
    pub open spec fn step(self, tick: AttackTick) -> AttackView {
        match self.collider {
            Some(hitbox) => AttackView {
                collider: if self.timer.tick(tick.dt).finished {
                    None
                } else {
                    Some(hitbox)
                },
                timer: self.timer.tick(tick.dt),
            },
            None => AttackView {
                collider: None,
                timer: if tick.is_attack {
                    self.timer.reset()
                } else {
                    self.timer
                },
            },
        }
    }

    /// The attack after the ticks `ticks`, in order, on which the host
    /// spawned nothing.
    pub open spec fn run(self, ticks: Seq<AttackTick>) -> AttackView
        decreases ticks.len(),
    {
        if ticks.len() == 0 {
            self
        } else {
            self.run(ticks.drop_last()).step(ticks.last())
        }
    }
}

/// The time that `ticks` take together.
pub open spec fn time_of(ticks: Seq<AttackTick>) -> nat
    decreases ticks.len(),
{
    if ticks.len() == 0 {
        0
    } else {
        time_of(ticks.drop_last()) + ticks.last().dt
    }
}

/// One tick of the player's attack.
///
/// `dt` is the length of the tick in nanoseconds, `is_attack` whether an
/// attack was asked for on it.
pub fn player_attack(
    dt: u64,
    is_attack: bool,
    attack_collider: &mut AttackCollider,
    time_attack: &mut TimeAttack,
) -> (command: AttackCommand)
    ensures
        ({
            let before = AttackView { collider: old(attack_collider).0, timer: old(time_attack)@ };
            let tick = AttackTick { dt: dt as nat, is_attack };
            &&& command == before.command(tick)
            &&& (AttackView { collider: final(attack_collider).0, timer: final(time_attack)@ })
                == before.step(tick)
        }),
        old(attack_collider).0 is Some ==> !(command is Spawn),
{
    proof {
        use_type_invariant(&*time_attack);
    }
    let mut timer = time_attack.0;
    match attack_collider.0 {
        Some(hitbox) => {
            timer.tick(dt);
            *time_attack = TimeAttack(timer);
            if timer.finished() {
                attack_collider.0 = None;
                AttackCommand::Despawn(hitbox)
            } else {
                AttackCommand::Keep
            }
        },
        None => {
            if is_attack {
                timer.reset();
                *time_attack = TimeAttack(timer);
                AttackCommand::Spawn(
                    Hitbox {
                        offset: Vec2 { x: 5_000_000, y: 0 },
                        half_width: 5_000_000,
                        half_height: 10_000_000,
                    },
                )
            } else {
                AttackCommand::Keep
            }
        },
    }
}

/// At most one hitbox is outstanding: while there is one, no tick asks the
/// host for another, whatever the input, and the one there is stays the same
/// or goes.
pub proof fn lemma_one_hitbox(attack: AttackView, tick: AttackTick)
    requires
        attack.collider is Some,
    ensures
        !(attack.command(tick) is Spawn),
        attack.step(tick).collider == attack.collider || attack.step(tick).collider is None,
        attack.command(tick) == attack.command(AttackTick { dt: tick.dt, is_attack: !tick.is_attack }),
        attack.step(tick) == attack.step(AttackTick { dt: tick.dt, is_attack: !tick.is_attack }),
{
}

/// A hitbox spawned with a fresh timer is outstanding for as long as the
/// ticks since have taken less than [`ATTACK_TIME`] together, and no longer:
/// it goes on the first tick that brings the time up to that.
pub proof fn lemma_hitbox_lifetime(hitbox: Entity, ticks: Seq<AttackTick>)
    ensures
        ({
            let spawned = AttackView {
                collider: Some(hitbox),
                timer: TimerView::fresh(ATTACK_TIME as nat),
            };
            &&& spawned.run(ticks).wf()
            &&& time_of(ticks) < ATTACK_TIME ==> spawned.run(ticks).collider == Some(hitbox)
                && spawned.run(ticks).timer.elapsed == time_of(ticks)
                && !spawned.run(ticks).timer.finished
            &&& time_of(ticks) >= ATTACK_TIME ==> spawned.run(ticks).collider is None
            &&& ticks.len() > 0 ==> (spawned.run(ticks.drop_last()).command(ticks.last())
                == AttackCommand::Despawn(hitbox) <==> time_of(ticks.drop_last()) < ATTACK_TIME
                <= time_of(ticks))
        }),
    decreases ticks.len(),
{
    if ticks.len() > 0 {
        lemma_hitbox_lifetime(hitbox, ticks.drop_last());
    }
}

} // verus!
