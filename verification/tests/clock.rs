//! The fixed-timestep clock: delta measurement, bounded catch-up, smoothing.

use foxy::time::{EngineTime, TimeSettings};

fn default_clock() -> EngineTime {
    TimeSettings::new().build()
}

#[test]
fn default_settings_step() {
    let t = default_clock();
    // 128 steps per second
    assert_eq!(t.fixed_step_nanos, 7_812_500);
    assert_eq!(t.max_catch_up_ticks, 1024);
    assert_eq!(t.lag_nanos, 0);
    assert_eq!(t.last_update_nanos, 0);
}

#[test]
fn update_measures_delta() {
    let mut t = default_clock();
    t.update(1_000);
    assert_eq!(t.delta(), 1_000);
    assert_eq!(t.lag_nanos, 1_000);
    t.update(4_000);
    assert_eq!(t.delta(), 3_000);
    assert_eq!(t.lag_nanos, 4_000);
    assert!(!t.should_do_tick());
}

#[test]
fn ticks_equal_elapsed_over_step() {
    // floor(elapsed / fixed_step) ticks after one update
    let mut t = default_clock();
    t.update(3 * 7_812_500 + 17);
    let n = t.run_pending_ticks();
    assert_eq!(n, 3);
    assert_eq!(t.lag_nanos, 17);
    assert!(!t.should_do_tick());
}

#[test]
fn catch_up_is_clamped() {
    // 100 steps per second, at most 4 catch-up ticks
    let settings = TimeSettings { tick_rate: 100, max_catch_up_ticks: 4 };
    let mut t = settings.build();
    assert_eq!(t.fixed_step_nanos, 10_000_000);
    // ten steps' worth of elapsed time, but the bound caps the debt at four
    t.update(100_000_000);
    let n = t.run_pending_ticks();
    assert_eq!(n, 4);
    assert_eq!(t.lag_nanos, 0);
}

#[test]
fn tick_consumes_one_step() {
    let mut t = default_clock();
    t.update(2 * 7_812_500);
    assert!(t.should_do_tick());
    t.tick();
    assert!(t.should_do_tick());
    t.tick();
    assert!(!t.should_do_tick());
    assert_eq!(t.lag_nanos, 0);
}

#[test]
fn average_delta_smooths() {
    let mut t = default_clock();
    t.update(8 * 7_812_500);
    // one tick folds the delta into the running average: (7 * 0 + d) / 8
    t.tick();
    assert_eq!(t.average_delta(), 7_812_500);
    // a second tick of the same frame folds the same delta in again
    t.tick();
    assert_eq!(t.average_delta(), (7 * 7_812_500 + 8 * 7_812_500) / 8);
}

#[test]
fn time_sample_reports_both_deltas() {
    let mut t = default_clock();
    t.update(7_812_500);
    t.tick();
    let sample = t.time();
    assert_eq!(sample.delta_nanos, 7_812_500);
    assert_eq!(sample.average_delta_nanos, t.average_delta());
}
