use bevy::time::{Timer as EngineTimer, TimerMode};
use first_game::timer::Timer;
use std::time::Duration;

const MS: u64 = 1_000_000;

#[test]
fn a_new_timer_has_gathered_nothing() {
    let t = Timer::new(500 * MS);
    assert_eq!(t.duration(), 500 * MS);
    assert_eq!(t.elapsed(), 0);
    assert!(!t.finished());
}

#[test]
fn a_timer_made_finished_holds_its_duration() {
    let t = Timer::new_finished(350 * MS);
    assert_eq!(t.duration(), 350 * MS);
    assert_eq!(t.elapsed(), 350 * MS);
    assert!(t.finished());
}

#[test]
fn a_timer_finishes_on_the_tick_that_reaches_its_duration() {
    let mut t = Timer::new(380 * MS);
    t.tick(379 * MS);
    assert!(!t.finished());
    assert_eq!(t.elapsed(), 379 * MS);
    t.tick(MS);
    assert!(t.finished());
    assert_eq!(t.elapsed(), 380 * MS);
}

#[test]
fn a_timer_holds_no_more_than_its_duration() {
    let mut t = Timer::new(380 * MS);
    t.tick(u64::MAX);
    assert!(t.finished());
    assert_eq!(t.elapsed(), 380 * MS);
    t.tick(u64::MAX);
    assert_eq!(t.elapsed(), 380 * MS);
}

#[test]
fn a_finished_timer_stays_finished_until_reset() {
    let mut t = Timer::new(50 * MS);
    t.tick(60 * MS);
    t.tick(0);
    t.tick(10 * MS);
    assert!(t.finished());
    t.reset();
    assert!(!t.finished());
    assert_eq!(t.elapsed(), 0);
    assert_eq!(t.duration(), 50 * MS);
    t.tick(49 * MS);
    assert!(!t.finished());
}

#[test]
fn a_tick_of_nothing_finishes_only_a_timer_of_no_duration() {
    let mut t = Timer::new(0);
    assert!(!t.finished());
    t.tick(0);
    assert!(t.finished());
    let mut t = Timer::new(1);
    t.tick(0);
    assert!(!t.finished());
}

#[test]
fn the_timer_agrees_with_the_engine_timer() {
    let runs: [(u64, &[u64]); 6] = [
        (500 * MS, &[16 * MS, 16 * MS, 400 * MS, 67 * MS, MS, 16 * MS]),
        (350 * MS, &[100 * MS, 100 * MS, 100 * MS, 50 * MS, 1]),
        (380 * MS, &[379_999_999, 1, 1]),
        (50 * MS, &[0, 0, 50 * MS, 0]),
        (0, &[0, 5]),
        (1, &[0, 0, 1, 1_000_000_000_000]),
    ];
    for (duration, deltas) in runs {
        let mut ours = Timer::new(duration);
        let mut theirs = EngineTimer::new(Duration::from_nanos(duration), TimerMode::Once);
        assert_eq!(ours.finished(), theirs.finished());
        for round in 0..2 {
            for &delta in deltas {
                ours.tick(delta);
                theirs.tick(Duration::from_nanos(delta));
                assert_eq!(ours.finished(), theirs.finished(), "{duration} {delta} {round}");
                assert_eq!(
                    ours.elapsed() as u128,
                    theirs.elapsed().as_nanos(),
                    "{duration} {delta} {round}"
                );
            }
            ours.reset();
            theirs.reset();
            assert_eq!(ours.finished(), theirs.finished());
            assert_eq!(ours.elapsed() as u128, theirs.elapsed().as_nanos());
        }
    }
}

#[test]
fn a_timer_made_finished_agrees_with_an_engine_timer_run_out() {
    let ours = Timer::new_finished(350 * MS);
    let mut theirs = EngineTimer::new(Duration::from_millis(350), TimerMode::Once);
    theirs.tick(Duration::from_millis(1500));
    assert_eq!(ours.finished(), theirs.finished());
    assert_eq!(ours.elapsed() as u128, theirs.elapsed().as_nanos());
}
