use rmm::config::Config;
use rmm::state::AppState;
use std::time::Instant;

#[test]
fn missing_settings_fall_back_to_the_defaults() {
    assert_eq!(Config::loaded_or_default(None), Config::default());
    assert_eq!(
        Config::loaded_or_default(None),
        Config {
            heartbeat_interval: 60,
            worker_interval: 10,
            inactivity_threshold: 60,
            movement_delta: 10,
            max_errors: 10,
            auto_start: false,
        }
    );
}

#[test]
fn loaded_settings_are_kept() {
    let loaded = Config {
        heartbeat_interval: 60,
        worker_interval: 30,
        inactivity_threshold: 300,
        movement_delta: 5,
        max_errors: 3,
        auto_start: true,
    };
    assert_eq!(Config::loaded_or_default(Some(loaded)), loaded);
}

#[test]
fn fresh_record_holds_the_time_it_was_made_at() {
    let now = Instant::now();
    let state = AppState::started_at(now);
    assert_eq!(state.is_running, false);
    assert_eq!(state.move_direction, 1);
    assert_eq!(state.error_count, 0);
    assert_eq!(state.last_activity, now);
    assert_eq!(state.last_moved, now);
    assert!(state.is_well_formed());
}

#[test]
fn new_record_reads_the_clock_once() {
    let before = Instant::now();
    let state = AppState::new();
    let after = Instant::now();
    assert_eq!(state.last_activity, state.last_moved);
    assert!(state.last_activity >= before);
    assert!(state.last_activity <= after);
    assert!(state.is_well_formed());
}

#[test]
fn direction_other_than_a_unit_is_not_well_formed() {
    let mut state = AppState::new();
    state.move_direction = 0;
    assert!(!state.is_well_formed());
    state.move_direction = 2;
    assert!(!state.is_well_formed());
    state.move_direction = -1;
    assert!(state.is_well_formed());
}
