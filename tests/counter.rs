use cursor_steps::counter::{PIXELS_PER_STEP, SUBPIXELS_PER_STEP};
use cursor_steps::geometry::{floor_sqrt_exec, move_length_exec, SUBPIXELS_PER_PIXEL};
use cursor_steps::StepCounter;

fn reset_counter() -> StepCounter {
    let mut c = StepCounter::new();
    c.reset();
    c
}

#[test]
fn scenario_square_path_counts_two_steps() {
    let mut c = reset_counter();
    c.update(0, 0);
    assert_eq!(c.current_steps(), 0);
    assert_eq!(c.total_distance(), 0);
    c.update(100, 0);
    assert_eq!(c.total_distance(), 100 * SUBPIXELS_PER_PIXEL);
    assert_eq!(c.current_steps(), 1);
    c.update(100, 100);
    assert_eq!(c.total_distance(), 200 * SUBPIXELS_PER_PIXEL);
    assert_eq!(c.current_steps(), 2);
    c.update(150, 100);
    assert_eq!(c.total_distance(), 250 * SUBPIXELS_PER_PIXEL);
    assert_eq!(c.current_steps(), 2);
}

#[test]
fn scenario_stationary_cursor_counts_nothing() {
    let mut c = reset_counter();
    c.update(0, 0);
    c.update(0, 0);
    assert_eq!(c.current_steps(), 0);
    assert_eq!(c.total_distance(), 0);
}

#[test]
fn first_update_only_seeds() {
    let mut c = StepCounter::new();
    c.update(5000, -7000);
    assert_eq!(c.total_distance(), 0);
    assert_eq!(c.current_steps(), 0);
    assert_eq!(c.last_position(), Some((5000, -7000)));
}

#[test]
fn first_update_after_reset_only_seeds() {
    let mut c = StepCounter::new();
    c.update(0, 0);
    c.update(300, 400);
    assert_eq!(c.current_steps(), 5);
    c.reset();
    assert_eq!(c.last_position(), None);
    c.update(-1000, 1000);
    assert_eq!(c.total_distance(), 0);
    assert_eq!(c.current_steps(), 0);
    c.update(-1000, 1100);
    assert_eq!(c.current_steps(), 1);
}

#[test]
fn repeated_position_changes_nothing() {
    let mut c = StepCounter::new();
    c.update(10, 10);
    c.update(70, 90);
    let before = c;
    c.update(70, 90);
    assert_eq!(c, before);
    assert_eq!(c.total_distance(), 100 * SUBPIXELS_PER_PIXEL);
}

#[test]
fn reset_twice_equals_reset_once() {
    let mut c = StepCounter::new();
    c.update(0, 0);
    c.update(0, 250);
    c.set_permission_error(true);
    let mut once = c;
    once.reset();
    let mut twice = c;
    twice.reset();
    twice.reset();
    assert_eq!(once, twice);
    assert_eq!(twice.current_steps(), 0);
    assert_eq!(twice.total_distance(), 0);
    assert!(twice.permission_error());
}

#[test]
fn distance_and_steps_never_decrease() {
    let mut c = StepCounter::new();
    let path = [(0, 0), (3, 4), (3, 4), (-50, 20), (-50, -80), (0, 0), (1, 1), (1000, 1000)];
    let mut last_total = 0;
    let mut last_steps = 0;
    for (x, y) in path {
        c.update(x, y);
        assert!(c.total_distance() >= last_total);
        assert!(c.current_steps() >= last_steps);
        assert_eq!(c.current_steps(), c.total_distance() / SUBPIXELS_PER_STEP);
        last_total = c.total_distance();
        last_steps = c.current_steps();
    }
}

#[test]
fn partial_progress_is_kept() {
    let mut c = StepCounter::new();
    c.update(0, 0);
    c.update(60, 0);
    assert_eq!(c.current_steps(), 0);
    c.update(120, 0);
    assert_eq!(c.current_steps(), 1);
    assert_eq!(c.total_distance(), 120 * SUBPIXELS_PER_PIXEL);
}

#[test]
fn diagonal_move_is_rounded_down_to_subpixels() {
    let mut c = StepCounter::new();
    c.update(0, 0);
    c.update(1, 1);
    // sqrt(2) = 1.41421...
    assert_eq!(c.total_distance(), 1414);
    assert_eq!(c.last_position(), Some((1, 1)));
}

#[test]
fn extreme_coordinates_do_not_overflow() {
    let mut c = StepCounter::new();
    c.update(i32::MIN, i32::MIN);
    c.update(i32::MAX, i32::MAX);
    // sqrt(2) * (2^32 - 1) pixels
    assert_eq!(c.total_distance(), 6_074_000_998_537);
    assert_eq!(c.current_steps(), 60_740_009);
}

#[test]
fn default_matches_new() {
    assert_eq!(StepCounter::default(), StepCounter::new());
    assert_eq!(StepCounter::new().last_position(), None);
    assert!(!StepCounter::new().permission_error());
}

#[test]
fn constants_relate() {
    assert_eq!(SUBPIXELS_PER_STEP, PIXELS_PER_STEP * SUBPIXELS_PER_PIXEL);
    assert_eq!(SUBPIXELS_PER_STEP, 100_000);
}

#[test]
fn floor_sqrt_exact_values() {
    assert_eq!(floor_sqrt_exec(0), 0);
    assert_eq!(floor_sqrt_exec(1), 1);
    assert_eq!(floor_sqrt_exec(3), 1);
    assert_eq!(floor_sqrt_exec(4), 2);
    assert_eq!(floor_sqrt_exec(99), 9);
    assert_eq!(floor_sqrt_exec(10_000_000_000), 100_000);
    assert_eq!(floor_sqrt_exec(2_000_000), 1414);
}

#[test]
fn move_length_exact_values() {
    assert_eq!(move_length_exec(0, 0, 3, 4), 5000);
    assert_eq!(move_length_exec(3, 4, 0, 0), 5000);
    assert_eq!(move_length_exec(7, 7, 7, 7), 0);
    assert_eq!(move_length_exec(0, 0, 0, -50), 50_000);
}
