//! The damping state of the fan: the duty last written, the sliding maximum
//! that decides when the duty is looked at again, and the stepwise spindown.

use vstd::prelude::*;

verus! {

/// The time after which a value that did not change is written again, in
/// nanoseconds: ten seconds.
pub const REFRESH_NANOS: u64 = 10_000_000_000;

/// The number of damped steps a deceleration may take in a row.
pub const MAX_SPINDOWN: u8 = 3;

/// The smallest duty that a damped step may set: ten percent.
pub const DAMPING_FLOOR: u16 = 1000;

/// The value written to the control-mode attribute to hand the fan back to
/// the firmware.
pub const AUTOMATIC_MODE: u16 = 2;

/// How a change of duty is classed.
#[derive(Clone, Copy, Debug, PartialEq, Eq, Structural)]
pub enum Transition {
    /// The tick left no damped step pending.
    SpinUp,
    /// The tick took a damped step down.
    SpinDown,
}

/// A write to the platform's hardware monitor.
#[derive(Clone, Copy, Debug, PartialEq, Eq, Structural)]
pub enum FanCommand {
    /// Set the PWM attribute to this level; 0 to 255 span 0% to 100%.
    SetDuty(u16),
    /// Hand the fan back to automatic control.
    EnableAutomatic,
}

/// What a tick did.
#[derive(Clone, Copy, Debug, PartialEq, Eq)]
pub enum TickStatus {
    /// A duty was written; `transition` is set where it differs from the duty
    /// written before.
    Applied { duty: u16, transition: Option<Transition> },
    /// Nothing was due and nothing was written.
    Unchanged,
    /// No temperature could be had; the fan was handed back to automatic
    /// control.
    SensorUnavailable,
}

/// The state that one tick hands to the next. Times are nanoseconds on a
/// clock that never runs backwards.
#[derive(Clone, Copy, Debug, PartialEq, Eq)]
pub struct FanState {
    /// The duty last written; none before the first write.
    pub duty: Option<u16>,
    /// The ceiling against which a new target is held.
    pub sliding_max_duty: Option<u16>,
    /// When `duty` was last written.
    pub last_updated: Option<u64>,
    /// When `sliding_max_duty` was last set from a target.
    pub last_max_updated: Option<u64>,
    /// The damped steps taken in a row, 0 to 3.
    pub spindown_count: u8,
}

/// More than the refresh time has passed at `now` since `since`.
pub open spec fn overdue(since: Option<u64>, now: u64) -> bool {
    since matches Some(then) && now - then > REFRESH_NANOS
}

/// Three quarters of a duty, rounded down.
pub open spec fn damped(duty: u16) -> u16 {
    (duty * 3 / 4) as u16
}

/// The PWM level for a duty: the duty scaled from 0..=10000 to 0..=255,
/// rounded down.
pub open spec fn pwm_level(duty: u16) -> u16 {
    (duty * 255 / 10000) as u16
}

/// Tells whether more than the refresh time has passed at `now` since `since`.
pub fn is_overdue(since: Option<u64>, now: u64) -> (late: bool)
    ensures
        late == overdue(since, now),
{
    match since {
        Some(then) => now > then && now - then > REFRESH_NANOS,
        None => false,
    }
}

/// Three quarters of a duty, rounded down.
pub fn damp(duty: u16) -> (slower: u16)
    ensures
        slower == damped(duty),
        slower == duty * 3 / 4,
        duty > 0 ==> slower < duty,
{
    ((duty as u32 * 3) / 4) as u16
}

/// A duty in whole percent, rounded down.
pub fn percent(duty: u16) -> (whole: u16)
    ensures
        whole == duty / 100,
{
    duty / 100
}

/// Scales a duty to its PWM level.
pub fn scale_duty(duty: u16) -> (level: u16)
    ensures
        level == pwm_level(duty),
        level == duty * 255 / 10000,
        duty <= 10000 ==> level <= 255,
{
    ((duty as u32 * 255) / 10000) as u16
}

impl Transition {
    /// The name under which the transition is reported.
    pub fn label(&self) -> (name: &'static str)
        ensures
            name@ == (match *self {
                Transition::SpinUp => "Spinup"@,
                Transition::SpinDown => "Spindown"@,
            }),
    {
        match self {
            Transition::SpinUp => "Spinup",
            Transition::SpinDown => "Spindown",
        }
    }
}

impl FanCommand {
    /// The attribute of the hardware monitor that the command writes.
    pub fn attribute(&self) -> (name: &'static str)
        ensures
            name@ == (match *self {
                FanCommand::SetDuty(_) => "pwm1"@,
                FanCommand::EnableAutomatic => "pwm1_enable"@,
            }),
    {
        match self {
            FanCommand::SetDuty(_) => "pwm1",
            FanCommand::EnableAutomatic => "pwm1_enable",
        }
    }

    /// The number that the command writes, in decimal, to its attribute.
    pub fn value(&self) -> (value: u16)
        ensures
            value == (match *self {
                FanCommand::SetDuty(level) => level,
                FanCommand::EnableAutomatic => AUTOMATIC_MODE,
            }),
    {
        match self {
            FanCommand::SetDuty(level) => *level,
            FanCommand::EnableAutomatic => AUTOMATIC_MODE,
        }
    }
}

impl TickStatus {
    /// The write that goes with a status, if any.
    pub open spec fn spec_command(self) -> Option<FanCommand> {
        match self {
            TickStatus::Applied { duty, transition } => Some(FanCommand::SetDuty(pwm_level(duty))),
            TickStatus::Unchanged => None,
            TickStatus::SensorUnavailable => Some(FanCommand::EnableAutomatic),
        }
    }

    /// The one write to the hardware that a tick with this status asks for:
    /// the scaled duty when one was applied, none when nothing changed, the
    /// return to automatic control when the sensor was unavailable.
    pub fn command(&self) -> (command: Option<FanCommand>)
        ensures
            command == self.spec_command(),
    {
        match self {
            TickStatus::Applied { duty, transition } => Some(FanCommand::SetDuty(scale_duty(*duty))),
            TickStatus::Unchanged => None,
            TickStatus::SensorUnavailable => Some(FanCommand::EnableAutomatic),
        }
    }
}

impl FanState {
    /// The spindown count is within its range.
    pub open spec fn wf(self) -> bool {
        self.spindown_count <= MAX_SPINDOWN
    }

    /// The sliding maximum is set anew from `target`: the target exceeds it,
    /// or no spindown is under way and it is overdue.
    pub open spec fn refreshes_max(self, target: u16, now: u64) -> bool {
        self.sliding_max_duty matches Some(max) && (target > max || (self.spindown_count == 0
            && overdue(self.last_max_updated, now)))
    }

    /// The sliding maximum against which the tick holds the duty last written.
    pub open spec fn ceiling(self, target: u16, now: u64) -> Option<u16> {
        if self.refreshes_max(target, now) {
            Some(target)
        } else {
            self.sliding_max_duty
        }
    }

    /// The tick writes a duty: the sliding maximum differs from the duty last
    /// written, or that write is overdue.
    pub open spec fn triggered(self, target: u16, now: u64) -> bool {
        self.ceiling(target, now) != self.duty || overdue(self.last_updated, now)
    }

    /// A write would be a damped step: the fan is to slow down, fewer than
    /// three damped steps were taken in a row, and three quarters of the duty
    /// last written are still above the target and not below the floor.
    pub open spec fn decelerates(self, target: u16) -> bool {
        self.duty matches Some(current) && current > target && self.spindown_count < MAX_SPINDOWN
            && damped(current) > target && damped(current) >= DAMPING_FLOOR
    }

    /// The duty that a write sets.
    pub open spec fn chosen(self, target: u16) -> u16 {
        if self.decelerates(target) {
            damped(self.duty->0)
        } else {
            target
        }
    }

    /// The state after a tick with a target duty.
    pub open spec fn after(self, target: u16, now: u64) -> FanState {
        let last_max_updated = if self.refreshes_max(target, now) {
            Some(now)
        } else {
            self.last_max_updated
        };
        if !self.triggered(target, now) {
            FanState { sliding_max_duty: self.ceiling(target, now), last_max_updated, ..self }
        } else if self.decelerates(target) {
            FanState {
                duty: Some(self.chosen(target)),
                sliding_max_duty: Some(self.chosen(target)),
                last_updated: Some(now),
                last_max_updated,
                spindown_count: (self.spindown_count + 1) as u8,
            }
        } else {
            FanState {
                duty: Some(target),
                sliding_max_duty: self.ceiling(target, now),
                last_updated: Some(now),
                last_max_updated,
                spindown_count: 0,
            }
        }
    }

    /// The status of a tick with a target duty.
    pub open spec fn status(self, target: u16, now: u64) -> TickStatus {
        if !self.triggered(target, now) {
            TickStatus::Unchanged
        } else {
            TickStatus::Applied {
                duty: self.chosen(target),
                transition: if self.duty == Some(self.chosen(target)) {
                    None
                } else if self.decelerates(target) {
                    Some(Transition::SpinDown)
                } else {
                    Some(Transition::SpinUp)
                },
            }
        }
    }

    /// The state before the first tick: nothing written yet, the sliding
    /// maximum at zero and fresh as of `now`.
    pub fn new(now: u64) -> (state: Self)
        ensures
            state == (FanState {
                duty: None,
                sliding_max_duty: Some(0),
                last_updated: None,
                last_max_updated: Some(now),
                spindown_count: 0,
            }),
            state.wf(),
    {
        FanState {
            duty: None,
            sliding_max_duty: Some(0),
            last_updated: None,
            last_max_updated: Some(now),
            spindown_count: 0,
        }
    }

    /// One tick with the target duty that the curve gave for the temperature
    /// read at `now`.
    pub fn update(&mut self, target: u16, now: u64) -> (status: TickStatus)
        ensures
            *final(self) == old(self).after(target, now),
            status == old(self).status(target, now),
            old(self).wf() ==> final(self).wf(),
    {
        let long_since_update = is_overdue(self.last_updated, now);
        let mut duty: u16 = target;
        let mut duty_has_changed = match self.duty {
            Some(current) => current != target,
            None => true,
        };
        if let Some(max) = self.sliding_max_duty {
            if target > max || (self.spindown_count == 0 && is_overdue(self.last_max_updated, now)) {
                self.sliding_max_duty = Some(target);
                self.last_max_updated = Some(now);
            }
        }
        let at_ceiling = match (self.sliding_max_duty, self.duty) {
            (Some(max), Some(current)) => max == current,
            (None, None) => true,
            _ => false,
        };
        if !at_ceiling || long_since_update {
            let mut slowing = false;
            if let Some(current) = self.duty {
                if current > target && self.spindown_count < MAX_SPINDOWN {
                    let new_duty = damp(current);
                    if new_duty > target && new_duty >= DAMPING_FLOOR {
                        slowing = true;
                        duty = new_duty;
                    }
                }
            }
            if slowing {
                self.sliding_max_duty = Some(duty);
                duty_has_changed = true;
                self.spindown_count = self.spindown_count + 1;
            } else {
                self.spindown_count = 0;
            }
            let transition = if !duty_has_changed {
                None
            } else if self.spindown_count != 0 {
                Some(Transition::SpinDown)
            } else {
                Some(Transition::SpinUp)
            };
            self.duty = Some(duty);
            self.last_updated = Some(now);
            TickStatus::Applied { duty, transition }
        } else {
            TickStatus::Unchanged
        }
    }
}

/// A write never sets less than the target, and never more than the larger
/// of the target and the duty written before.
pub proof fn lemma_chosen_range(state: FanState, target: u16)
    ensures
        target <= state.chosen(target),
        state.decelerates(target) ==> state.chosen(target) < state.duty->0,
        !state.decelerates(target) ==> state.chosen(target) == target,
{
}

/// A duty within 0..=10000 has a PWM level within 0..=255, and the level
/// never falls when the duty rises.
pub proof fn lemma_pwm_level_range(low: u16, high: u16)
    requires
        low <= high,
    ensures
        pwm_level(low) <= pwm_level(high),
        high <= 10000 ==> pwm_level(high) <= 255,
        pwm_level(0) == 0,
        pwm_level(10000) == 255,
{
}

/// A damped step: when a write is due, the fan runs above the target, fewer
/// than three damped steps were taken in a row, and three quarters of the
/// duty are still above the target and at least the floor, then that value is
/// written, it becomes the sliding maximum, the spindown count grows by one,
/// and the change is classed as a spin-down.
pub proof fn lemma_damped_step(state: FanState, target: u16, now: u64, current: u16)
    requires
        state.triggered(target, now),
        state.duty == Some(current),
        current > target,
        state.spindown_count < MAX_SPINDOWN,
        current * 3 / 4 > target,
        current * 3 / 4 >= DAMPING_FLOOR,
    ensures
        state.after(target, now).duty == Some((current * 3 / 4) as u16),
        state.after(target, now).sliding_max_duty == state.after(target, now).duty,
        state.after(target, now).spindown_count == state.spindown_count + 1,
        state.after(target, now).last_updated == Some(now),
        state.status(target, now) == (TickStatus::Applied {
            duty: (current * 3 / 4) as u16,
            transition: Some(Transition::SpinDown),
        }),
{
}

/// The end of a deceleration: when a write is due and no damped step can be
/// taken (the fan is not above the target, three damped steps were taken, or
/// three quarters of the duty would not stay above the target or would fall
/// below the floor), the target itself is written and the spindown count is
/// back at zero. A change is then classed as a spin-up.
pub proof fn lemma_target_accepted(state: FanState, target: u16, now: u64)
    requires
        state.triggered(target, now),
        state.duty matches Some(current) ==> current <= target || state.spindown_count
            >= MAX_SPINDOWN || current * 3 / 4 <= target || current * 3 / 4 < DAMPING_FLOOR,
    ensures
        state.after(target, now).duty == Some(target),
        state.after(target, now).spindown_count == 0,
        state.after(target, now).last_updated == Some(now),
        state.status(target, now) == (TickStatus::Applied {
            duty: target,
            transition: if state.duty == Some(target) {
                None
            } else {
                Some(Transition::SpinUp)
            },
        }),
{
}

/// The spindown count stays within 0..=3, and a tick changes it by a damped
/// step only.
pub proof fn lemma_spindown_bounded(state: FanState, target: u16, now: u64)
    requires
        state.wf(),
    ensures
        state.after(target, now).wf(),
        state.after(target, now).spindown_count == 0 || state.after(target, now).spindown_count
            == state.spindown_count || state.after(target, now).spindown_count
            == state.spindown_count + 1,
{
}

/// A write that is overdue is made whatever the target: once more than the
/// refresh time has passed since the last write, the tick applies a duty.
pub proof fn lemma_overdue_write_applies(state: FanState, target: u16, now: u64)
    requires
        overdue(state.last_updated, now),
    ensures
        state.triggered(target, now),
        state.status(target, now) is Applied,
        state.after(target, now).last_updated == Some(now),
{
}

/// The forced refresh of the sliding maximum: with no spindown under way and
/// the sliding maximum overdue, the tick sets it to the target and stamps it
/// with `now`; a duty is then written exactly if the target differs from the
/// duty last written or that write is overdue too.
pub proof fn lemma_forced_refresh(state: FanState, target: u16, now: u64)
    requires
        state.sliding_max_duty is Some,
        state.spindown_count == 0,
        overdue(state.last_max_updated, now),
    ensures
        state.ceiling(target, now) == Some(target),
        state.after(target, now).last_max_updated == Some(now),
        state.triggered(target, now) <==> state.duty != Some(target) || overdue(
            state.last_updated,
            now,
        ),
        state.status(target, now) is Applied <==> state.triggered(target, now),
{
}

/// The forced refresh with a steady target: where the last write is no later
/// than the last setting of the sliding maximum, an overdue sliding maximum
/// makes the tick write, though the target is the duty already written.
pub proof fn lemma_forced_refresh_applies(state: FanState, target: u16, now: u64)
    requires
        state.sliding_max_duty is Some,
        state.spindown_count == 0,
        overdue(state.last_max_updated, now),
        state.duty == Some(target),
        state.last_updated matches Some(written) && written <= state.last_max_updated->0,
    ensures
        state.status(target, now) == (TickStatus::Applied { duty: target, transition: None }),
        state.after(target, now) == (FanState {
            duty: Some(target),
            sliding_max_duty: Some(target),
            last_updated: Some(now),
            last_max_updated: Some(now),
            spindown_count: 0,
        }),
{
}

/// A tick on which no write is due writes nothing and keeps the duty, the
/// time of its writing and the spindown count.
pub proof fn lemma_idle_tick_keeps_duty(state: FanState, target: u16, now: u64)
    requires
        !state.triggered(target, now),
    ensures
        state.status(target, now) == TickStatus::Unchanged,
        state.status(target, now).spec_command() is None,
        state.after(target, now).duty == state.duty,
        state.after(target, now).last_updated == state.last_updated,
        state.after(target, now).spindown_count == state.spindown_count,
{
}

/// A tick on which no write is due and the sliding maximum is not set anew
/// writes nothing and leaves the state as it was.
pub proof fn lemma_idle_tick_keeps_state(state: FanState, target: u16, now: u64)
    requires
        !state.triggered(target, now),
        !state.refreshes_max(target, now),
    ensures
        state.status(target, now) == TickStatus::Unchanged,
        state.status(target, now).spec_command() is None,
        state.after(target, now) == state,
{
}

} // verus!
