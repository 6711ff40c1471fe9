use actuators::fade::{compute_steps, fade_plan};

#[test]
fn five_seconds_at_100ms_is_50_steps() {
    assert_eq!(compute_steps(5000, 100), 50);
}

#[test]
fn a_duration_under_one_period_is_one_step() {
    assert_eq!(compute_steps(50, 100), 1);
}

#[test]
fn step_count_floors() {
    assert_eq!(compute_steps(250, 100), 2);
    assert_eq!(compute_steps(100, 100), 1);
    assert_eq!(compute_steps(0, 100), 1);
}

#[test]
fn ascending_plan_walks_evenly_to_the_target() {
    assert_eq!(fade_plan(0, 1000, 4), vec![250, 500, 750, 1000]);
}

#[test]
fn descending_plan_walks_evenly_to_the_target() {
    assert_eq!(fade_plan(1000, 0, 4), vec![750, 500, 250, 0]);
}

#[test]
fn uneven_steps_still_land_on_the_target() {
    assert_eq!(fade_plan(0, 10, 3), vec![3, 6, 10]);
    assert_eq!(fade_plan(10, 0, 3), vec![7, 4, 0]);
    let long = fade_plan(0, 90, 50);
    assert_eq!(long.len(), 50);
    assert_eq!(long[0], 1);
    assert_eq!(long[24], 45);
    assert_eq!(long[49], 90);
}

#[test]
fn single_step_jumps_to_the_target() {
    assert_eq!(fade_plan(5, 500, 1), vec![500]);
    assert_eq!(fade_plan(500, 5, 1), vec![5]);
}

#[test]
fn flat_plan_repeats_the_current_value() {
    assert_eq!(fade_plan(42, 42, 3), vec![42, 42, 42]);
}
