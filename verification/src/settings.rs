//! Committed timer settings: the validated, currently active phase
//! durations and the pomodoros-per-long-break threshold. Raw in-progress
//! edit text lives in the input forms, not here.
use vstd::prelude::*;

verus! {

pub const SECS_PER_MINUTE: u64 = 60;

pub const DEFAULT_POMODORO_LENGTH: u64 = 25;

pub const DEFAULT_SHORT_BREAK_LENGTH: u64 = 5;

pub const DEFAULT_LONG_BREAK_LENGTH: u64 = 15;

pub const DEFAULT_POMODORO_PER_LONG_BREAK: u64 = 4;

pub const DEFAULT_POMODORO_PER_TASK: u64 = 1;

/// Sanity ceiling on every minute field of the settings form: a value at or
/// above this many minutes is rejected.
pub const MINUTES_CEILING: u64 = 100;

/// The three committed phase durations, in seconds.
#[derive(Debug, Clone, Copy, PartialEq, Eq, Structural)]
pub struct TimerSetting {
    pub timer: u64,
    pub short_break: u64,
    pub long_break: u64,
}

impl TimerSetting {
    /// Committed durations always come from minute values under the
    /// ceiling, so they stay small enough that converting to milliseconds
    /// cannot overflow.
    pub open spec fn wf(self) -> bool {
        &&& self.timer < MINUTES_CEILING * SECS_PER_MINUTE
        &&& self.short_break < MINUTES_CEILING * SECS_PER_MINUTE
        &&& self.long_break < MINUTES_CEILING * SECS_PER_MINUTE
    }
}

impl Default for TimerSetting {
    fn default() -> (setting: Self)
        ensures
            setting.timer == DEFAULT_POMODORO_LENGTH * SECS_PER_MINUTE,
            setting.short_break == DEFAULT_SHORT_BREAK_LENGTH * SECS_PER_MINUTE,
            setting.long_break == DEFAULT_LONG_BREAK_LENGTH * SECS_PER_MINUTE,
            setting.wf(),
    {
        TimerSetting {
            timer: DEFAULT_POMODORO_LENGTH * SECS_PER_MINUTE,
            short_break: DEFAULT_SHORT_BREAK_LENGTH * SECS_PER_MINUTE,
            long_break: DEFAULT_LONG_BREAK_LENGTH * SECS_PER_MINUTE,
        }
    }
}

/// The committed pomodoros-per-long-break threshold. It is applied only
/// when the cycle next leaves a long break, so changing it never rewrites
/// the count carried by the in-flight cycle state.
#[derive(Debug, Clone, Copy, PartialEq, Eq, Structural)]
pub struct StateSetting {
    pub pomodoro_per_long_break: u64,
}

impl Default for StateSetting {
    fn default() -> (setting: Self)
        ensures
            setting.pomodoro_per_long_break == DEFAULT_POMODORO_PER_LONG_BREAK,
    {
        StateSetting { pomodoro_per_long_break: DEFAULT_POMODORO_PER_LONG_BREAK }
    }
}

} // verus!
