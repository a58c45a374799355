use first_game::combat::{can_take_damage, contact_damage, count_hits, CONTACT_DAMAGE};
use first_game::entities::{
    Armor, AttackCollider, Damage, Entity, Health, ModifyStat, Stats, Strength, FULL_HEALTH,
};
use first_game::events::{CollisionEvent, SlideEvent, WallPosition};

#[test]
fn health_starts_at_a_hundred() {
    assert_eq!(FULL_HEALTH, 100);
    assert_eq!(Health::default(), Health(100));
    assert_eq!(Armor::default(), Armor(0));
    assert_eq!(Strength::default(), Strength(0));
    assert_eq!(Damage::default(), Damage(0));
    assert_eq!(
        Stats::default(),
        Stats { health: Health(100), armor: Armor(0), strength: Strength(0) }
    );
    assert_eq!(AttackCollider::default(), AttackCollider(None));
    assert_eq!(WallPosition::default(), WallPosition::Right);
    assert_eq!(SlideEvent::default(), SlideEvent(WallPosition::Right));
    let m = ModifyStat::default();
    assert_eq!(m.time.duration(), 0);
    assert_eq!(m.speed_scale, 0);
}

#[test]
fn a_contact_that_names_the_enemy_first_costs_ten() {
    assert_eq!(CONTACT_DAMAGE, 10);
    let enemy = Entity(3);
    let mut health = Health::default();
    let events = vec![CollisionEvent::Started(enemy, Entity(9))];
    contact_damage(enemy, &mut health, &events);
    assert_eq!(health, Health(90));
}

#[test]
fn only_the_first_entity_of_a_started_contact_counts() {
    let enemy = Entity(3);
    let events = vec![
        CollisionEvent::Started(enemy, Entity(9)),
        CollisionEvent::Started(Entity(9), enemy),
        CollisionEvent::Stopped(enemy, Entity(9)),
        CollisionEvent::Started(Entity(4), Entity(9)),
        CollisionEvent::Started(enemy, enemy),
        CollisionEvent::Stopped(Entity(9), enemy),
        CollisionEvent::Started(enemy, Entity(1)),
    ];
    assert_eq!(count_hits(enemy, &events), 3);
    assert_eq!(count_hits(Entity(9), &events), 1);
    assert_eq!(count_hits(Entity(1), &events), 0);
    let mut health = Health(100);
    contact_damage(enemy, &mut health, &events);
    assert_eq!(health, Health(70));
    let mut other = Health(100);
    contact_damage(Entity(1), &mut other, &events);
    assert_eq!(other, Health(100));
}

#[test]
fn a_contact_that_lasts_is_paid_on_every_tick() {
    let enemy = Entity(3);
    let mut health = Health(100);
    let events = vec![CollisionEvent::Started(enemy, Entity(9))];
    for tick in 1..=4 {
        contact_damage(enemy, &mut health, &events);
        assert_eq!(health.0, 100 - 10 * tick);
    }
}

#[test]
fn health_goes_below_zero() {
    let enemy = Entity(3);
    let mut health = Health(5);
    let events = vec![
        CollisionEvent::Started(enemy, Entity(9)),
        CollisionEvent::Started(enemy, Entity(8)),
    ];
    contact_damage(enemy, &mut health, &events);
    assert_eq!(health, Health(-15));
    contact_damage(enemy, &mut health, &events);
    assert_eq!(health, Health(-35));
}

#[test]
fn no_contact_costs_nothing() {
    let mut health = Health(-3);
    contact_damage(Entity(0), &mut health, &vec![]);
    assert_eq!(health, Health(-3));
}

#[test]
fn the_health_left_has_to_fit() {
    let enemy = Entity(3);
    let events = vec![CollisionEvent::Started(enemy, Entity(9))];
    assert!(can_take_damage(enemy, &Health(i32::MIN + 10), &events));
    assert!(!can_take_damage(enemy, &Health(i32::MIN + 9), &events));
    assert!(can_take_damage(Entity(4), &Health(i32::MIN), &events));
    let mut health = Health(i32::MIN + 10);
    contact_damage(enemy, &mut health, &events);
    assert_eq!(health, Health(i32::MIN));
}
