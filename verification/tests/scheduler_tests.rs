use cloudflare_ddns::scheduler::{
    exit_code, run_mode, wait_time, NextCycle, RunMode, SchedulePhase, ScheduleState,
    NANOS_PER_SEC,
};

#[test]
fn wait_makes_up_for_a_short_pass() {
    assert_eq!(wait_time(60, 10 * NANOS_PER_SEC), 50 * NANOS_PER_SEC);
}

#[test]
fn no_wait_after_a_long_pass() {
    assert_eq!(wait_time(60, 70 * NANOS_PER_SEC), 0);
}

#[test]
fn wait_edges() {
    assert_eq!(wait_time(60, 0), 60 * NANOS_PER_SEC);
    assert_eq!(wait_time(60, 60 * NANOS_PER_SEC), 0);
    assert_eq!(wait_time(60, 60 * NANOS_PER_SEC - 1), 1);
    assert_eq!(wait_time(60, 60 * NANOS_PER_SEC + 1), 0);
    assert_eq!(wait_time(0, 0), 0);
    assert_eq!(wait_time(0, 5), 0);
    assert_eq!(wait_time(1, 250_000_000), 750_000_000);
    assert_eq!(wait_time(u64::MAX, 1), u64::MAX as u128 * NANOS_PER_SEC - 1);
    assert_eq!(wait_time(u64::MAX, u128::MAX), 0);
}

#[test]
fn new_schedule_is_idle() {
    let state = ScheduleState::new();
    assert_eq!(state.run_count, 0);
    assert_eq!(state.last_start, None);
    assert_eq!(state.last_elapsed, None);
    assert_eq!(state.phase, SchedulePhase::Idle);
}

#[test]
fn cycle_with_time_to_spare_sleeps_the_rest() {
    let mut state = ScheduleState::new();
    assert_eq!(state.begin_cycle(1_000 * NANOS_PER_SEC), Some(1));
    assert_eq!(state.phase, SchedulePhase::Running);
    assert_eq!(state.run_count, 1);
    assert_eq!(state.last_start, Some(1_000 * NANOS_PER_SEC));
    let next = state.complete_cycle(1_010 * NANOS_PER_SEC, 60);
    assert_eq!(next, Some(NextCycle::Sleep { nanos: 50 * NANOS_PER_SEC }));
    assert_eq!(state.phase, SchedulePhase::Waiting);
    assert_eq!(state.last_elapsed, Some(10 * NANOS_PER_SEC));
    assert_eq!(state.run_count, 1);
}

#[test]
fn cycle_that_overran_starts_the_next_at_once() {
    let mut state = ScheduleState::new();
    assert_eq!(state.begin_cycle(1_000 * NANOS_PER_SEC), Some(1));
    let next = state.complete_cycle(1_070 * NANOS_PER_SEC, 60);
    assert_eq!(next, Some(NextCycle::Immediately));
    assert_eq!(state.phase, SchedulePhase::Idle);
    assert_eq!(state.last_elapsed, Some(70 * NANOS_PER_SEC));
    assert_eq!(state.begin_cycle(1_070 * NANOS_PER_SEC), Some(2));
}

#[test]
fn no_second_pass_while_one_runs() {
    let mut state = ScheduleState::new();
    assert_eq!(state.begin_cycle(5), Some(1));
    assert_eq!(state.begin_cycle(6), None);
    assert_eq!(state.run_count, 1);
    assert_eq!(state.last_start, Some(5));
    assert_eq!(state.phase, SchedulePhase::Running);
}

#[test]
fn nothing_to_complete_when_idle() {
    let mut state = ScheduleState::new();
    assert_eq!(state.complete_cycle(5, 60), None);
    assert_eq!(state.phase, SchedulePhase::Idle);
    assert_eq!(state.last_elapsed, None);
}

#[test]
fn clock_that_went_back_counts_as_no_time() {
    let mut state = ScheduleState::new();
    assert_eq!(state.begin_cycle(100 * NANOS_PER_SEC), Some(1));
    let next = state.complete_cycle(90 * NANOS_PER_SEC, 60);
    assert_eq!(next, Some(NextCycle::Sleep { nanos: 60 * NANOS_PER_SEC }));
    assert_eq!(state.last_elapsed, Some(0));
}

#[test]
fn runs_are_counted_from_one() {
    let mut state = ScheduleState::new();
    let mut now: u128 = 0;
    for expected in 1..=5u64 {
        assert_eq!(state.begin_cycle(now), Some(expected));
        now += 3 * NANOS_PER_SEC;
        assert!(state.complete_cycle(now, 1).is_some());
    }
    assert_eq!(state.run_count, 5);
}

#[test]
fn interval_selects_the_mode() {
    assert_eq!(run_mode(None), RunMode::Once);
    assert_eq!(run_mode(Some(60)), RunMode::Every { interval_seconds: 60 });
    assert_eq!(run_mode(Some(0)), RunMode::Every { interval_seconds: 0 });
}

#[test]
fn exit_code_reflects_success() {
    assert_eq!(exit_code(true), 0);
    assert_eq!(exit_code(false), 1);
}
