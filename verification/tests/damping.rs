use fan_control::damping::{
    damp, is_overdue, scale_duty, FanCommand, FanState, TickStatus, Transition, AUTOMATIC_MODE,
    DAMPING_FLOOR, MAX_SPINDOWN, REFRESH_NANOS,
};

const SECOND: u64 = 1_000_000_000;

fn running_at(duty: u16, since: u64) -> FanState {
    FanState {
        duty: Some(duty),
        sliding_max_duty: Some(duty),
        last_updated: Some(since),
        last_max_updated: Some(since),
        spindown_count: 0,
    }
}

#[test]
fn constants() {
    assert_eq!(REFRESH_NANOS, 10 * SECOND);
    assert_eq!(MAX_SPINDOWN, 3);
    assert_eq!(DAMPING_FLOOR, 1000);
    assert_eq!(AUTOMATIC_MODE, 2);
}

#[test]
fn new_state() {
    let state = FanState::new(42);
    assert_eq!(
        state,
        FanState {
            duty: None,
            sliding_max_duty: Some(0),
            last_updated: None,
            last_max_updated: Some(42),
            spindown_count: 0,
        }
    );
}

#[test]
fn first_tick_writes_the_target() {
    let mut state = FanState::new(0);
    let status = state.update(1500, 1);
    assert_eq!(status, TickStatus::Applied { duty: 1500, transition: Some(Transition::SpinUp) });
    assert_eq!(
        state,
        FanState {
            duty: Some(1500),
            sliding_max_duty: Some(1500),
            last_updated: Some(1),
            last_max_updated: Some(1),
            spindown_count: 0,
        }
    );
}

#[test]
fn first_tick_with_zero_target_still_writes() {
    let mut state = FanState::new(0);
    let status = state.update(0, 1);
    assert_eq!(status, TickStatus::Applied { duty: 0, transition: Some(Transition::SpinUp) });
    assert_eq!(state.duty, Some(0));
    assert_eq!(state.sliding_max_duty, Some(0));
    assert_eq!(state.last_max_updated, Some(0));
}

#[test]
fn rising_target_is_written_at_once() {
    let mut state = running_at(2000, 0);
    let status = state.update(3500, SECOND);
    assert_eq!(status, TickStatus::Applied { duty: 3500, transition: Some(Transition::SpinUp) });
    assert_eq!(state, running_at(3500, SECOND));
}

#[test]
fn falling_target_waits_for_the_refresh() {
    let mut state = running_at(4000, 0);
    assert_eq!(state.update(1000, SECOND), TickStatus::Unchanged);
    assert_eq!(state.update(1000, 10 * SECOND), TickStatus::Unchanged);
    assert_eq!(state, running_at(4000, 0));
}

#[test]
fn deceleration_sequence() {
    let mut state = running_at(4000, 0);

    let first = state.update(1000, 11 * SECOND);
    assert_eq!(first, TickStatus::Applied { duty: 3000, transition: Some(Transition::SpinDown) });
    assert_eq!(state.duty, Some(3000));
    assert_eq!(state.sliding_max_duty, Some(3000));
    assert_eq!(state.spindown_count, 1);

    assert_eq!(state.update(1000, 12 * SECOND), TickStatus::Unchanged);
    assert_eq!(state.spindown_count, 1);

    let second = state.update(1000, 22 * SECOND);
    assert_eq!(second, TickStatus::Applied { duty: 2250, transition: Some(Transition::SpinDown) });
    assert_eq!(state.duty, Some(2250));
    assert_eq!(state.spindown_count, 2);

    let third = state.update(1000, 33 * SECOND);
    assert_eq!(third, TickStatus::Applied { duty: 1687, transition: Some(Transition::SpinDown) });
    assert_eq!(state.duty, Some(1687));
    assert_eq!(state.spindown_count, 3);

    let fourth = state.update(1000, 44 * SECOND);
    assert_eq!(fourth, TickStatus::Applied { duty: 1000, transition: Some(Transition::SpinUp) });
    assert_eq!(state.duty, Some(1000));
    assert_eq!(state.spindown_count, 0);
    assert_eq!(state.sliding_max_duty, Some(1687));
    assert_eq!(state.last_updated, Some(44 * SECOND));
}

#[test]
fn damped_step_that_would_undershoot_takes_the_target() {
    let mut state = running_at(4000, 0);
    let status = state.update(3500, 11 * SECOND);
    assert_eq!(status, TickStatus::Applied { duty: 3500, transition: Some(Transition::SpinUp) });
    assert_eq!(state.spindown_count, 0);
    assert_eq!(state.duty, Some(3500));

    let mut level = running_at(4000, 0);
    let status = level.update(3000, 11 * SECOND);
    assert_eq!(status, TickStatus::Applied { duty: 3000, transition: Some(Transition::SpinUp) });
    assert_eq!(level.spindown_count, 0);
}

#[test]
fn damped_step_below_the_floor_takes_the_target() {
    let mut state = running_at(1200, 0);
    let status = state.update(0, 11 * SECOND);
    assert_eq!(status, TickStatus::Applied { duty: 0, transition: Some(Transition::SpinUp) });
    assert_eq!(state.duty, Some(0));
    assert_eq!(state.spindown_count, 0);

    let mut at_floor = running_at(1334, 0);
    let status = at_floor.update(0, 11 * SECOND);
    assert_eq!(status, TickStatus::Applied { duty: 1000, transition: Some(Transition::SpinDown) });
    assert_eq!(at_floor.spindown_count, 1);
}

#[test]
fn third_damped_step_is_the_last() {
    let mut state = FanState {
        duty: Some(8000),
        sliding_max_duty: Some(8000),
        last_updated: Some(0),
        last_max_updated: Some(0),
        spindown_count: 3,
    };
    let status = state.update(1000, 11 * SECOND);
    assert_eq!(status, TickStatus::Applied { duty: 1000, transition: Some(Transition::SpinUp) });
    assert_eq!(state.spindown_count, 0);
    assert_eq!(state.sliding_max_duty, Some(8000));
}

#[test]
fn forced_refresh_applies_a_steady_target() {
    let mut state = running_at(2000, 0);
    assert_eq!(state.update(2000, 10 * SECOND), TickStatus::Unchanged);
    assert_eq!(state, running_at(2000, 0));
    let status = state.update(2000, 10 * SECOND + 1);
    assert_eq!(status, TickStatus::Applied { duty: 2000, transition: None });
    assert_eq!(state, running_at(2000, 10 * SECOND + 1));
}

#[test]
fn refresh_of_the_maximum_alone_writes_nothing() {
    let mut state = FanState {
        duty: Some(1000),
        sliding_max_duty: Some(1687),
        last_updated: Some(40 * SECOND),
        last_max_updated: Some(10 * SECOND),
        spindown_count: 0,
    };
    let status = state.update(1000, 41 * SECOND);
    assert_eq!(status, TickStatus::Unchanged);
    assert_eq!(status.command(), None);
    assert_eq!(
        state,
        FanState {
            duty: Some(1000),
            sliding_max_duty: Some(1000),
            last_updated: Some(40 * SECOND),
            last_max_updated: Some(41 * SECOND),
            spindown_count: 0,
        }
    );
}

#[test]
fn no_refresh_of_the_maximum_during_spindown() {
    let mut state = FanState {
        duty: Some(3000),
        sliding_max_duty: Some(3000),
        last_updated: Some(20 * SECOND),
        last_max_updated: Some(0),
        spindown_count: 1,
    };
    let before = state;
    assert_eq!(state.update(1000, 25 * SECOND), TickStatus::Unchanged);
    assert_eq!(state, before);
}

#[test]
fn idle_tick_leaves_the_state() {
    let mut state = running_at(2500, 5 * SECOND);
    let before = state;
    let status = state.update(2500, 6 * SECOND);
    assert_eq!(status, TickStatus::Unchanged);
    assert_eq!(status.command(), None);
    assert_eq!(state, before);
    let status = state.update(1200, 7 * SECOND);
    assert_eq!(status, TickStatus::Unchanged);
    assert_eq!(state, before);
}

#[test]
fn state_without_a_maximum_never_sets_one_from_a_target() {
    let mut state = FanState {
        duty: None,
        sliding_max_duty: None,
        last_updated: None,
        last_max_updated: None,
        spindown_count: 0,
    };
    let before = state;
    assert_eq!(state.update(3000, SECOND), TickStatus::Unchanged);
    assert_eq!(state, before);
}

#[test]
fn clock_that_ran_backwards_counts_as_no_time() {
    assert!(!is_overdue(Some(20 * SECOND), 5 * SECOND));
    assert!(!is_overdue(Some(u64::MAX), 0));
    let mut state = running_at(2000, 50 * SECOND);
    assert_eq!(state.update(2000, 0), TickStatus::Unchanged);
}

#[test]
fn overdue_is_strict() {
    assert!(!is_overdue(None, u64::MAX));
    assert!(!is_overdue(Some(0), 10 * SECOND));
    assert!(is_overdue(Some(0), 10 * SECOND + 1));
    assert!(is_overdue(Some(0), u64::MAX));
    assert!(!is_overdue(Some(7), 7));
}

#[test]
fn three_quarters_rounded_down() {
    assert_eq!(damp(4000), 3000);
    assert_eq!(damp(3000), 2250);
    assert_eq!(damp(2250), 1687);
    assert_eq!(damp(1), 0);
    assert_eq!(damp(0), 0);
    assert_eq!(damp(u16::MAX), 49151);
}

#[test]
fn duty_scaled_to_pwm_level() {
    assert_eq!(scale_duty(0), 0);
    assert_eq!(scale_duty(39), 0);
    assert_eq!(scale_duty(40), 1);
    assert_eq!(scale_duty(1000), 25);
    assert_eq!(scale_duty(1250), 31);
    assert_eq!(scale_duty(5000), 127);
    assert_eq!(scale_duty(9999), 254);
    assert_eq!(scale_duty(10000), 255);
    assert_eq!(scale_duty(u16::MAX), 1671);
}

#[test]
fn command_of_each_status() {
    let applied = TickStatus::Applied { duty: 3500, transition: None };
    assert_eq!(applied.command(), Some(FanCommand::SetDuty(89)));
    assert_eq!(TickStatus::Unchanged.command(), None);
    assert_eq!(TickStatus::SensorUnavailable.command(), Some(FanCommand::EnableAutomatic));
}

#[test]
fn command_attribute_and_value() {
    assert_eq!(FanCommand::SetDuty(89).attribute(), "pwm1");
    assert_eq!(FanCommand::SetDuty(89).value(), 89);
    assert_eq!(FanCommand::EnableAutomatic.attribute(), "pwm1_enable");
    assert_eq!(FanCommand::EnableAutomatic.value(), 2);
    assert_eq!(format!("{}", FanCommand::EnableAutomatic.value()), "2");
}

#[test]
fn whole_percent() {
    assert_eq!(fan_control::damping::percent(0), 0);
    assert_eq!(fan_control::damping::percent(99), 0);
    assert_eq!(fan_control::damping::percent(1250), 12);
    assert_eq!(fan_control::damping::percent(10000), 100);
}

#[test]
fn transition_labels() {
    assert_eq!(Transition::SpinUp.label(), "Spinup");
    assert_eq!(Transition::SpinDown.label(), "Spindown");
}
