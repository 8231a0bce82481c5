//! The decisions of the sampling loop that drives the daemon's ticks.

use vstd::prelude::*;
use crate::damping::TickStatus;

verus! {

/// The time from one tick to the next, in milliseconds.
pub const INTERVAL_MILLIS: u64 = 100;

/// Why the sampling loop ended.
#[derive(Clone, Copy, Debug, PartialEq, Eq, Structural)]
pub enum Exit {
    /// A stop was asked for.
    Stopped,
    /// A tick could not read the temperature.
    SensorUnavailable,
    /// The daemon could not be set up: a hardware monitor that it needs was
    /// not found.
    StartupFailed,
}

/// What the loop does next.
#[derive(Clone, Copy, Debug, PartialEq, Eq, Structural)]
pub enum LoopStep {
    /// Run a tick.
    Tick,
    /// Sleep for this many milliseconds, then look at the stop flag.
    Sleep(u64),
    /// Leave the loop.
    Leave(Exit),
}

/// The step at the start of an interval, where the stop flag is looked at
/// once: leave if a stop was asked for, else run a tick.
pub fn at_interval(stop_requested: bool) -> (step: LoopStep)
    ensures
        step == (if stop_requested {
            LoopStep::Leave(Exit::Stopped)
        } else {
            LoopStep::Tick
        }),
{
    if stop_requested {
        LoopStep::Leave(Exit::Stopped)
    } else {
        LoopStep::Tick
    }
}

/// The step after a tick: leave if the sensor was unavailable, else sleep
/// until the next interval.
pub fn after_tick(status: &TickStatus) -> (step: LoopStep)
    ensures
        step == (if *status == TickStatus::SensorUnavailable {
            LoopStep::Leave(Exit::SensorUnavailable)
        } else {
            LoopStep::Sleep(INTERVAL_MILLIS)
        }),
{
    match status {
        TickStatus::SensorUnavailable => LoopStep::Leave(Exit::SensorUnavailable),
        _ => LoopStep::Sleep(INTERVAL_MILLIS),
    }
}

impl Exit {
    /// The exit code of the process: 0 after a stop that was asked for, 1
    /// where the daemon could not be set up or the sensor became unavailable.
    pub fn code(&self) -> (code: i32)
        ensures
            code == (match *self {
                Exit::Stopped => 0i32,
                Exit::SensorUnavailable => 1i32,
                Exit::StartupFailed => 1i32,
            }),
    {
        match self {
            Exit::Stopped => 0,
            Exit::SensorUnavailable => 1,
            Exit::StartupFailed => 1,
        }
    }
}

} // verus!
