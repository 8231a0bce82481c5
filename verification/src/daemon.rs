//! The fan daemon: which hardware monitors it drives, and what one tick of it
//! does with a temperature reading.

use vstd::prelude::*;
use vstd::string::StringExecFns;
use crate::curve::{capped, lemma_lookup_capped, lemma_lookup_in_range, standard_points, FanCurve};
use crate::damping::{pwm_level, FanCommand, FanState, TickStatus};

verus! {

/// The part that a hardware monitor plays for the daemon.
#[derive(Clone, Copy, Debug, PartialEq, Eq, Structural)]
pub enum MonitorRole {
    /// The monitor that holds the fan's PWM attributes.
    Platform,
    /// The monitor that holds the CPU's temperature sensor.
    Cpu,
}

/// A hardware monitor that the daemon cannot do without was not found.
#[derive(Clone, Copy, Debug, PartialEq, Eq, Structural)]
pub enum MonitorError {
    PlatformNotFound,
    CpuNotFound,
}

/// The role that goes with the name of a hardware monitor.
pub open spec fn role_of(name: Seq<char>) -> Option<MonitorRole> {
    if name == "system76"@ {
        Some(MonitorRole::Platform)
    } else if name == "coretemp"@ || name == "k10temp"@ {
        Some(MonitorRole::Cpu)
    } else {
        None
    }
}

/// `index` is the place of the last name with the role `role`.
pub open spec fn is_last_with_role(names: Seq<String>, role: MonitorRole, index: int) -> bool {
    &&& 0 <= index < names.len()
    &&& role_of(names[index]@) == Some(role)
    &&& forall|later: int|
        index < later < names.len() ==> role_of(#[trigger] names[later]@) != Some(role)
}

/// No name has the role `role`.
pub open spec fn none_with_role(names: Seq<String>, role: MonitorRole) -> bool {
    forall|i: int| 0 <= i < names.len() ==> role_of(#[trigger] names[i]@) != Some(role)
}

/// The role that goes with the name of a hardware monitor.
pub fn classify(name: &String) -> (role: Option<MonitorRole>)
    ensures
        role == role_of(name@),
{
    if *name == String::from_str("system76") {
        Some(MonitorRole::Platform)
    } else if *name == String::from_str("coretemp") || *name == String::from_str("k10temp") {
        Some(MonitorRole::Cpu)
    } else {
        None
    }
}

impl MonitorError {
    /// The error in words.
    pub fn message(&self) -> (text: &'static str)
        ensures
            text@ == (match *self {
                MonitorError::PlatformNotFound => "platform hwmon not found"@,
                MonitorError::CpuNotFound => "cpu hwmon not found"@,
            }),
    {
        match self {
            MonitorError::PlatformNotFound => "platform hwmon not found",
            MonitorError::CpuNotFound => "cpu hwmon not found",
        }
    }
}

/// The daemon: the curve, the places of its two hardware monitors among those
/// that were enumerated, and the damping state.
#[derive(Clone, Debug, PartialEq)]
pub struct FanDaemon {
    pub curve: FanCurve,
    /// The place of the platform's monitor.
    pub platform: usize,
    /// The place of the CPU's monitor.
    pub cpu: usize,
    pub state: FanState,
}

impl FanDaemon {
    /// A daemon with the standard curve for the hardware monitors of the given
    /// names, at the time `now`. Of several monitors with one role the last
    /// is taken. Without a monitor for the platform, or else without one for
    /// the CPU, there is no daemon.
    pub fn new(names: &Vec<String>, now: u64) -> (daemon: Result<FanDaemon, MonitorError>)
        ensures
            match daemon {
                Ok(daemon) => {
                    &&& is_last_with_role(names@, MonitorRole::Platform, daemon.platform as int)
                    &&& is_last_with_role(names@, MonitorRole::Cpu, daemon.cpu as int)
                    &&& daemon.curve@ == standard_points()
                    &&& daemon.state == (FanState {
                        duty: None,
                        sliding_max_duty: Some(0),
                        last_updated: None,
                        last_max_updated: Some(now),
                        spindown_count: 0,
                    })
                },
                Err(MonitorError::PlatformNotFound) => none_with_role(
                    names@,
                    MonitorRole::Platform,
                ),
                Err(MonitorError::CpuNotFound) => !none_with_role(names@, MonitorRole::Platform)
                    && none_with_role(names@, MonitorRole::Cpu),
            },
    {
        let mut platform_opt: Option<usize> = None;
        let mut cpu_opt: Option<usize> = None;
        let state = FanState::new(now);
        let mut i: usize = 0;
        while i < names.len()
            invariant
                i <= names.len(),
                match platform_opt {
                    Some(p) => p < i && is_last_with_role(
                        names@.take(i as int),
                        MonitorRole::Platform,
                        p as int,
                    ),
                    None => none_with_role(names@.take(i as int), MonitorRole::Platform),
                },
                match cpu_opt {
                    Some(c) => c < i && is_last_with_role(
                        names@.take(i as int),
                        MonitorRole::Cpu,
                        c as int,
                    ),
                    None => none_with_role(names@.take(i as int), MonitorRole::Cpu),
                },
            decreases names.len() - i,
        {
            let role = classify(&names[i]);
            proof {
                let before = names@.take(i as int);
                let after = names@.take(i + 1);
                assert(after[i as int] == names@[i as int]);
                assert forall|k: int| 0 <= k < i implies #[trigger] after[k] == before[k] by {}
            }
            match role {
                Some(MonitorRole::Platform) => {
                    platform_opt = Some(i);
                },
                Some(MonitorRole::Cpu) => {
                    cpu_opt = Some(i);
                },
                None => {},
            }
            i += 1;
        }
        assert(names@.take(i as int) == names@);
        match (platform_opt, cpu_opt) {
            (Some(platform), Some(cpu)) => Ok(
                FanDaemon { curve: FanCurve::standard(), platform, cpu, state },
            ),
            (None, _) => Err(MonitorError::PlatformNotFound),
            (Some(platform), None) => {
                assert(role_of(names@[platform as int]@) == Some(MonitorRole::Platform));
                Err(MonitorError::CpuNotFound)
            },
        }
    }

    /// What a tick does with a reading, as the damping state sees it: the
    /// target duty that the curve gives for it, if it was read and the curve
    /// gives one.
    pub open spec fn target(&self, reading: Option<i16>) -> Option<u16> {
        match reading {
            Some(temp) => self.curve.target(temp),
            None => None,
        }
    }

    /// One tick at the time `now`, with the temperature read from the CPU's
    /// monitor in hundredths of a degree, or none where it could not be read.
    /// With a target duty the damping state moves on and says what to write;
    /// without one the state stays and the fan goes back to automatic control.
    pub fn step(&mut self, reading: Option<i16>, now: u64) -> (status: TickStatus)
        ensures
            final(self).curve == old(self).curve,
            final(self).platform == old(self).platform,
            final(self).cpu == old(self).cpu,
            match old(self).target(reading) {
                Some(target) => {
                    &&& final(self).state == old(self).state.after(target, now)
                    &&& status == old(self).state.status(target, now)
                },
                None => {
                    &&& final(self).state == old(self).state
                    &&& status == TickStatus::SensorUnavailable
                    &&& status.spec_command() == Some(FanCommand::EnableAutomatic)
                },
            },
            old(self).state.wf() ==> final(self).state.wf(),
    {
        let duty_opt = match reading {
            Some(temp) => self.curve.get_duty(temp),
            None => None,
        };
        match duty_opt {
            Some(target) => self.state.update(target, now),
            None => TickStatus::SensorUnavailable,
        }
    }

    /// The write that is owed when the daemon lets go of the hardware,
    /// however it came to stop: back to automatic control.
    pub fn release(&self) -> (command: FanCommand)
        ensures
            command == FanCommand::EnableAutomatic,
    {
        FanCommand::EnableAutomatic
    }
}

/// The PWM level stays within its range: with a curve whose duties are at
/// most 100% and a state whose duty last written is at most 100%, whatever a
/// tick writes is at most 100%, its PWM level is at most 255, and the state
/// after the tick is again such a state.
pub proof fn lemma_step_within_range(daemon: FanDaemon, reading: Option<i16>, now: u64)
    requires
        capped(daemon.curve@, 10000),
        daemon.state.duty matches Some(current) ==> current <= 10000,
        daemon.target(reading) is Some,
    ensures
        daemon.state.status(daemon.target(reading)->0, now) matches TickStatus::Applied {
            duty,
            transition,
        } ==> duty <= 10000 && pwm_level(duty) <= 255,
        daemon.state.after(daemon.target(reading)->0, now).duty matches Some(written) ==> written
            <= 10000,
{
    let temp = reading->0;
    lemma_lookup_capped(daemon.curve@, 10000, temp as int);
    lemma_lookup_in_range(daemon.curve@, temp as int);
}

} // verus!
