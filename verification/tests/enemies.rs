use first_game::enemy::goblin::{move_goblins, Goblin};
use first_game::enemy::slime::{move_slime, Slime, HOP_IMPULSE};
use first_game::enemy::{steer, EnemyStates, ENEMY_SPEED};
use first_game::entities::ActiveEntity;
use first_game::fixed::Vec2;

const UNIT: i64 = 1_000_000;
const MS: u64 = 1_000_000;

fn enemy() -> ActiveEntity<EnemyStates> {
    ActiveEntity { rotation: 1, velocity: Vec2::zero(), current_state: EnemyStates::Idle }
}

fn gravity() -> Vec2 {
    Vec2::new(0, -2000 * UNIT)
}

fn at(x: i64) -> Vec2 {
    Vec2::new(x * UNIT, 100 * UNIT)
}

#[test]
fn an_enemy_to_the_right_of_the_player_moves_left() {
    let mut goblin = enemy();
    let mut translation = None;
    move_goblins(16 * MS, gravity(), &mut goblin, &mut translation, at(200), at(0), Some(true));
    assert_eq!(goblin.velocity, Vec2::new(-47 * UNIT, 0));
    assert!(goblin.velocity.x < 0);
    assert_eq!(goblin.rotation, -1);
    assert_eq!(translation, Some(Vec2::new(-752_000, 0)));

    let mut slime = enemy();
    let mut translation = None;
    move_slime(16 * MS, gravity(), &mut slime, &mut translation, at(200), at(0), Some(false));
    assert_eq!(slime.velocity, Vec2::new(-47 * UNIT, -32 * UNIT));
    assert_eq!(slime.rotation, -1);
}

#[test]
fn an_enemy_to_the_left_of_the_player_or_level_with_it_moves_right() {
    assert_eq!(steer(at(-5), at(0)), 1);
    assert_eq!(steer(at(0), at(0)), 1);
    assert_eq!(steer(at(1), at(0)), -1);
    assert_eq!(steer(Vec2::new(i64::MAX, 0), Vec2::new(i64::MIN, 0)), -1);
    assert_eq!(steer(Vec2::new(i64::MIN, 0), Vec2::new(i64::MAX, 0)), 1);
    assert_eq!(ENEMY_SPEED, 47 * UNIT);
    let mut goblin = enemy();
    goblin.rotation = -1;
    let mut translation = None;
    move_goblins(16 * MS, gravity(), &mut goblin, &mut translation, at(0), at(0), Some(true));
    assert_eq!(goblin.velocity, Vec2::new(47 * UNIT, 0));
    assert_eq!(goblin.rotation, 1);
}

#[test]
fn the_chase_has_no_range() {
    let mut goblin = enemy();
    let mut translation = None;
    move_goblins(
        16 * MS,
        gravity(),
        &mut goblin,
        &mut translation,
        Vec2::new(i64::MAX, 0),
        Vec2::new(i64::MIN, 0),
        Some(true),
    );
    assert_eq!(goblin.velocity.x, -47 * UNIT);
}

#[test]
fn a_goblin_wears_its_velocity_down_and_never_hops() {
    let mut goblin = enemy();
    goblin.velocity = Vec2::new(100 * UNIT, 0);
    goblin.current_state = EnemyStates::Run;
    let mut translation = None;
    move_goblins(10 * MS, gravity(), &mut goblin, &mut translation, at(0), at(500), Some(true));
    // 100 * 0.9 + 47
    assert_eq!(goblin.velocity, Vec2::new(137 * UNIT, 0));
    assert_eq!(goblin.current_state, EnemyStates::Run);
    move_goblins(10 * MS, gravity(), &mut goblin, &mut translation, at(0), at(500), None);
    // 137 * 0.95 + 47 and -2000 * 0.01
    assert_eq!(goblin.velocity, Vec2::new(177_150_000, -20 * UNIT));
}

#[test]
fn a_slime_hops_on_every_tick_on_the_ground() {
    assert_eq!(HOP_IMPULSE, 1000 * UNIT);
    let mut slime = enemy();
    slime.velocity = Vec2::new(0, -500 * UNIT);
    let mut translation = None;
    move_slime(16 * MS, gravity(), &mut slime, &mut translation, at(0), at(50), Some(true));
    assert_eq!(slime.velocity, Vec2::new(47 * UNIT, 500 * UNIT));
    for _ in 0..5 {
        let before = slime.velocity.y;
        translation = None;
        move_slime(16 * MS, gravity(), &mut slime, &mut translation, at(0), at(50), Some(true));
        assert_eq!(slime.velocity.y, (before + 1000 * UNIT).min(1000 * UNIT));
        assert_eq!(slime.velocity.y, 1000 * UNIT);
        assert_eq!(translation.unwrap().y, 16 * UNIT);
    }
}

#[test]
fn a_slime_in_the_air_does_not_hop_and_loses_more_speed() {
    let mut slime = enemy();
    slime.velocity = Vec2::new(100 * UNIT, 0);
    let mut translation = None;
    move_slime(10 * MS, gravity(), &mut slime, &mut translation, at(0), at(50), Some(false));
    // 100 * 0.8 + 47 and -2000 * 0.01
    assert_eq!(slime.velocity, Vec2::new(127 * UNIT, -20 * UNIT));
    let mut slime = enemy();
    slime.velocity = Vec2::new(100 * UNIT, 0);
    move_slime(10 * MS, gravity(), &mut slime, &mut translation, at(0), at(50), None);
    assert_eq!(slime.velocity, Vec2::new(127 * UNIT, -20 * UNIT));
}

#[test]
fn the_enemies_stay_in_the_box() {
    for v in [i64::MIN, i64::MAX] {
        let mut slime = enemy();
        slime.velocity = Vec2::new(v, v);
        let mut translation = Some(Vec2::new(v, v));
        move_slime(u64::MAX, gravity(), &mut slime, &mut translation, at(0), at(50), Some(true));
        let t = translation.unwrap();
        for c in [slime.velocity.x, slime.velocity.y, t.x, t.y] {
            assert!(-1000 * UNIT <= c && c <= 1000 * UNIT);
        }
    }
}

#[test]
fn the_marks_and_states_have_their_defaults() {
    assert_eq!(Goblin::default(), Goblin);
    assert_eq!(Slime::default(), Slime);
    assert_eq!(EnemyStates::default(), EnemyStates::Idle);
    let e: ActiveEntity<EnemyStates> = ActiveEntity::default();
    assert_eq!(e.rotation, 0);
    assert_eq!(e.velocity, Vec2::zero());
    assert_eq!(e.current_state, EnemyStates::Idle);
}
