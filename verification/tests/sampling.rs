use fan_control::damping::{TickStatus, Transition};
use fan_control::sampling::{after_tick, at_interval, Exit, LoopStep, INTERVAL_MILLIS};

#[test]
fn interval_is_a_tenth_of_a_second() {
    assert_eq!(INTERVAL_MILLIS, 100);
}

#[test]
fn stop_flag_is_looked_at_before_the_tick() {
    assert_eq!(at_interval(false), LoopStep::Tick);
    assert_eq!(at_interval(true), LoopStep::Leave(Exit::Stopped));
}

#[test]
fn loop_leaves_when_the_sensor_is_unavailable() {
    assert_eq!(
        after_tick(&TickStatus::SensorUnavailable),
        LoopStep::Leave(Exit::SensorUnavailable)
    );
}

#[test]
fn loop_sleeps_after_any_other_tick() {
    assert_eq!(after_tick(&TickStatus::Unchanged), LoopStep::Sleep(100));
    let applied = TickStatus::Applied { duty: 3000, transition: Some(Transition::SpinDown) };
    assert_eq!(after_tick(&applied), LoopStep::Sleep(100));
    let steady = TickStatus::Applied { duty: 3000, transition: None };
    assert_eq!(after_tick(&steady), LoopStep::Sleep(100));
}

#[test]
fn exit_codes() {
    assert_eq!(Exit::Stopped.code(), 0);
    assert_eq!(Exit::SensorUnavailable.code(), 1);
    assert_eq!(Exit::StartupFailed.code(), 1);
}
