use first_game::collision::{classify, collide, Bounds, Contact};
use first_game::events::{SlideEvent, WallPosition};
use first_game::fixed::Vec2;
use first_game::player::collision::{player_collision, HEIGHT_PLAYER, WIDTH_PLAYER};

const UNIT: i64 = 1_000_000;

fn p(x: i64, y: i64) -> Vec2 {
    Vec2::new(x * UNIT, y * UNIT)
}

fn player_at(x: i64, y: i64) -> Bounds {
    Bounds { center: p(x, y), half_width: WIDTH_PLAYER, half_height: HEIGHT_PLAYER }
}

#[test]
fn the_player_is_56_by_116() {
    assert_eq!(WIDTH_PLAYER, 28 * UNIT);
    assert_eq!(HEIGHT_PLAYER, 58 * UNIT);
}

#[test]
fn a_point_above_within_the_width_is_a_ceiling() {
    let b = player_at(100, 200);
    assert_eq!(classify(b, p(100, 259)), Contact::Ceiling);
    assert_eq!(classify(b, p(73, 300)), Contact::Ceiling);
    assert_eq!(classify(b, p(127, 300)), Contact::Ceiling);
    assert_eq!(classify(b, Vec2::new(100 * UNIT, 258 * UNIT + 1)), Contact::Ceiling);
}

#[test]
fn a_point_above_beside_the_box_is_ignored() {
    let b = player_at(100, 200);
    assert_eq!(classify(b, p(72, 300)), Contact::Glancing);
    assert_eq!(classify(b, p(128, 300)), Contact::Glancing);
    assert_eq!(classify(b, p(-500, 259)), Contact::Glancing);
}

#[test]
fn a_point_level_with_the_box_is_a_wall_on_its_side() {
    let b = player_at(100, 200);
    assert_eq!(classify(b, p(130, 200)), Contact::Side(WallPosition::Right));
    assert_eq!(classify(b, p(70, 143)), Contact::Side(WallPosition::Left));
    assert_eq!(classify(b, Vec2::new(100 * UNIT + 1, 257 * UNIT)), Contact::Side(WallPosition::Right));
    // Level with the centre counts as left.
    assert_eq!(classify(b, p(100, 200)), Contact::Side(WallPosition::Left));
    // The width does not matter for a wall.
    assert_eq!(classify(b, p(5000, 200)), Contact::Side(WallPosition::Right));
}

#[test]
fn a_point_below_is_ground_and_a_point_on_an_edge_is_nothing() {
    let b = player_at(100, 200);
    assert_eq!(classify(b, p(100, 141)), Contact::Ground);
    assert_eq!(classify(b, p(9000, -9000)), Contact::Ground);
    assert_eq!(classify(b, p(100, 258)), Contact::Edge);
    assert_eq!(classify(b, p(100, 142)), Contact::Edge);
}

#[test]
fn the_extremes_do_not_overflow() {
    let b = Bounds {
        center: Vec2::new(i64::MAX, i64::MAX),
        half_width: i64::MAX,
        half_height: i64::MAX,
    };
    assert_eq!(classify(b, Vec2::new(i64::MAX, i64::MAX)), Contact::Side(WallPosition::Left));
    assert_eq!(classify(b, Vec2::new(0, 0)), Contact::Edge);
    let b = Bounds {
        center: Vec2::new(i64::MIN, i64::MIN),
        half_width: i64::MAX,
        half_height: i64::MAX,
    };
    // The box ends at -1 on the right and at the top.
    assert_eq!(classify(b, Vec2::new(-2, 0)), Contact::Ceiling);
    assert_eq!(classify(b, Vec2::new(0, 0)), Contact::Glancing);
    assert_eq!(classify(b, Vec2::new(-1, 0)), Contact::Glancing);
    assert_eq!(classify(b, Vec2::new(-1, -1)), Contact::Edge);
    assert_eq!(classify(b, Vec2::new(-2, -2)), Contact::Side(WallPosition::Right));
}

#[test]
fn every_contact_gives_its_own_event() {
    let contacts = vec![
        p(0, 60),
        p(40, 0),
        p(0, -60),
        p(10, 70),
        p(-40, 10),
        p(30, 60),
        p(-27, 59),
        p(0, 58),
        p(1, 1),
    ];
    let events = player_collision(p(0, 0), &contacts);
    assert_eq!(events.stop_jump.len(), 3);
    assert_eq!(
        events.slide,
        vec![
            SlideEvent(WallPosition::Right),
            SlideEvent(WallPosition::Left),
            SlideEvent(WallPosition::Right),
        ]
    );
}

#[test]
fn no_contact_gives_no_event() {
    let events = player_collision(p(0, 0), &vec![]);
    assert!(events.stop_jump.is_empty());
    assert!(events.slide.is_empty());
    let events = collide(player_at(0, 0), &vec![p(0, -100), p(100, 100), p(0, 58)]);
    assert!(events.stop_jump.is_empty());
    assert!(events.slide.is_empty());
}

#[test]
fn the_box_may_belong_to_any_actor() {
    let tall = Bounds { center: p(0, 0), half_width: 20 * UNIT, half_height: 70 * UNIT };
    let events = collide(tall, &vec![p(0, 60), p(0, 71), p(25, 71)]);
    assert_eq!(events.stop_jump.len(), 1);
    assert_eq!(events.slide, vec![SlideEvent(WallPosition::Left)]);
}
