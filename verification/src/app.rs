//! The cycle controller: owns the cycle state, the optional running timer,
//! the committed settings, both input forms, and the task list, and exposes
//! every user action as one mutating operation.
//!
//! The controller never reads a clock: operations that need the current
//! time take `now`, a millisecond timestamp sampled by the caller. Samples
//! are clamped to run forward, so a caller with a monotonic clock gets
//! exact behaviour and no caller can make time run backwards.
use vstd::prelude::*;
use crate::cycle::{advance, spec_advance, State};
use crate::input::{Input, Input1, InputField, InputField1};
use crate::parse::{parse_u64, spec_parse_u64};
use crate::settings::{
    StateSetting,
    TimerSetting,
    DEFAULT_POMODORO_LENGTH,
    DEFAULT_SHORT_BREAK_LENGTH,
    DEFAULT_LONG_BREAK_LENGTH,
    DEFAULT_POMODORO_PER_LONG_BREAK,
    DEFAULT_POMODORO_PER_TASK,
    MINUTES_CEILING,
    SECS_PER_MINUTE,
};
use crate::task_list::{StatefulList, Task};
use crate::timer::Timer;

verus! {

pub const MILLIS_PER_SEC: u64 = 1000;

/// The two tabs of the interface.
#[derive(Debug, Clone, Copy, PartialEq, Eq, Structural)]
pub enum Tabs {
    PomodoroSetting,
    TaskManager,
}

impl Tabs {
    pub open spec fn spec_toggle(self) -> Tabs {
        match self {
            Tabs::TaskManager => Tabs::PomodoroSetting,
            Tabs::PomodoroSetting => Tabs::TaskManager,
        }
    }

    pub fn toggle(self) -> (toggled: Self)
        ensures
            toggled == self.spec_toggle(),
    {
        match self {
            Tabs::TaskManager => Tabs::PomodoroSetting,
            Tabs::PomodoroSetting => Tabs::TaskManager,
        }
    }
}

impl Default for Tabs {
    fn default() -> (tab: Self)
        ensures
            tab == Tabs::PomodoroSetting,
    {
        Tabs::PomodoroSetting
    }
}

/// Which page is shown: the normal interface or the help screen.
#[derive(Debug, Clone, Copy, PartialEq, Eq, Structural)]
pub enum Page {
    Help,
    Normal,
}

impl Default for Page {
    fn default() -> (page: Self)
        ensures
            page == Page::Normal,
    {
        Page::Normal
    }
}

/// The committed duration of the phase the cycle is in, in seconds.
pub open spec fn spec_phase_secs(state: State, setting: TimerSetting) -> u64 {
    match state {
        State::Pomodoro(_) => setting.timer,
        State::ShortBreak(_) => setting.short_break,
        State::LongBreak => setting.long_break,
    }
}

fn phase_secs(state: &State, setting: &TimerSetting) -> (secs: u64)
    ensures
        secs == spec_phase_secs(*state, *setting),
{
    match state {
        State::Pomodoro(_) => setting.timer,
        State::ShortBreak(_) => setting.short_break,
        State::LongBreak => setting.long_break,
    }
}

/// The settings form commits exactly when all four fields parse and every
/// minute field is under the sanity ceiling; the threshold is a plain count
/// with no ceiling.
pub open spec fn spec_settings_accepted(input: Input) -> bool {
    &&& spec_parse_u64(input.spec_timer_text()) matches Some(w) && w < MINUTES_CEILING
    &&& spec_parse_u64(input.spec_short_break_text()) matches Some(s) && s < MINUTES_CEILING
    &&& spec_parse_u64(input.spec_long_break_text()) matches Some(l) && l < MINUTES_CEILING
    &&& spec_parse_u64(input.spec_threshold_text()) is Some
}

/// The controller.
#[derive(Debug)]
pub struct App {
    /// The running (or paused) timer; `None` while no phase is live.
    pub timer: Option<Timer>,
    /// Where the cycle stands.
    pub state: State,
    pub tab_selected: Tabs,
    pub timer_setting: TimerSetting,
    pub timer_setting_input: Input,
    pub state_setting: StateSetting,
    pub task_manager_input: Input1,
    pub task_list: StatefulList<Task>,
    pub should_quit: bool,
    pub page_selected: Page,
    /// The largest clock sample seen so far; samples are clamped to it.
    pub clock: u64,
}

/// Everything but the two input forms is equal.
pub open spec fn spec_same_outside_inputs(new_app: App, prev: App) -> bool {
    &&& new_app.timer == prev.timer
    &&& new_app.state == prev.state
    &&& new_app.tab_selected == prev.tab_selected
    &&& new_app.timer_setting == prev.timer_setting
    &&& new_app.state_setting == prev.state_setting
    &&& new_app.task_list == prev.task_list
    &&& new_app.should_quit == prev.should_quit
    &&& new_app.page_selected == prev.page_selected
    &&& new_app.clock == prev.clock
}

impl App {
    /// Well-formedness: a live timer is well formed and runs no later than
    /// the controller's clock, committed durations respect the ceiling, and
    /// the task selection points at a real task.
    pub open spec fn wf(self) -> bool {
        &&& match self.timer {
            Some(t) => t.wf() && t.spec_last() <= self.clock,
            None => true,
        }
        &&& self.timer_setting.wf()
        &&& self.task_list.wf()
    }

    /// The clock after taking the sample `now`: samples never run backwards.
    pub open spec fn spec_clamp(self, now: u64) -> u64 {
        if now > self.clock {
            now
        } else {
            self.clock
        }
    }

    fn clamp_clock(&mut self, now: u64)
        ensures
            *final(self) == (App { clock: old(self).spec_clamp(now), ..*old(self) }),
    {
        if now > self.clock {
            self.clock = now;
        }
    }

    /// Switch between the settings tab and the task tab.
    pub fn tab_toggle(&mut self)
        ensures
            *final(self) == (App { tab_selected: old(self).tab_selected.spec_toggle(), ..*old(
                self,
            ) }),
    {
        self.tab_selected = self.tab_selected.toggle();
    }

    /// Empty the active input field. The field under the cursor in the
    /// settings form is cleared in either tab.
    pub fn clear_input_field(&mut self)
        ensures
            spec_same_outside_inputs(*final(self), *old(self)),
            final(self).task_manager_input.spec_field() == old(self).task_manager_input.spec_field(),
            final(self).timer_setting_input.spec_field() == old(self).timer_setting_input.spec_field(),
            old(self).tab_selected == Tabs::TaskManager ==> {
                &&& final(self).task_manager_input.spec_field_text(
                    old(self).task_manager_input.spec_field(),
                ) == Seq::<char>::empty()
                &&& forall|f: InputField1|
                    f != old(self).task_manager_input.spec_field() ==> final(self).task_manager_input.spec_field_text(f) == old(
                        self,
                    ).task_manager_input.spec_field_text(f)
            },
            old(self).tab_selected == Tabs::PomodoroSetting ==> final(self).task_manager_input
                == old(self).task_manager_input,
            final(self).timer_setting_input.spec_field_text(
                old(self).timer_setting_input.spec_field(),
            ) == Seq::<char>::empty(),
            forall|f: InputField|
                f != old(self).timer_setting_input.spec_field() ==> final(self).timer_setting_input.spec_field_text(f) == old(
                    self,
                ).timer_setting_input.spec_field_text(f),
    {
        match self.tab_selected {
            Tabs::TaskManager => self.task_manager_input.clear_field(),
            Tabs::PomodoroSetting => self.timer_setting_input.clear_field(),
        }
        self.timer_setting_input.clear_field();
    }

    /// Move the cursor to the next field of the form on the selected tab.
    pub fn select_next_field(&mut self)
        ensures
            spec_same_outside_inputs(*final(self), *old(self)),
            old(self).tab_selected == Tabs::TaskManager ==> {
                &&& final(self).timer_setting_input == old(self).timer_setting_input
                &&& final(self).task_manager_input.spec_field() == old(
                    self,
                ).task_manager_input.spec_field().spec_next()
                &&& forall|f: InputField1|
                    final(self).task_manager_input.spec_field_text(f) == old(
                        self,
                    ).task_manager_input.spec_field_text(f)
            },
            old(self).tab_selected == Tabs::PomodoroSetting ==> {
                &&& final(self).task_manager_input == old(self).task_manager_input
                &&& final(self).timer_setting_input.spec_field() == old(
                    self,
                ).timer_setting_input.spec_field().spec_next()
                &&& forall|f: InputField|
                    final(self).timer_setting_input.spec_field_text(f) == old(
                        self,
                    ).timer_setting_input.spec_field_text(f)
            },
    {
        match self.tab_selected {
            Tabs::TaskManager => self.task_manager_input.select_next_field(),
            Tabs::PomodoroSetting => self.timer_setting_input.select_next_field(),
        }
    }

    /// Move the cursor to the previous field of the form on the selected
    /// tab.
    pub fn select_prev_field(&mut self)
        ensures
            spec_same_outside_inputs(*final(self), *old(self)),
            old(self).tab_selected == Tabs::TaskManager ==> {
                &&& final(self).timer_setting_input == old(self).timer_setting_input
                &&& final(self).task_manager_input.spec_field() == old(
                    self,
                ).task_manager_input.spec_field().spec_prev()
                &&& forall|f: InputField1|
                    final(self).task_manager_input.spec_field_text(f) == old(
                        self,
                    ).task_manager_input.spec_field_text(f)
            },
            old(self).tab_selected == Tabs::PomodoroSetting ==> {
                &&& final(self).task_manager_input == old(self).task_manager_input
                &&& final(self).timer_setting_input.spec_field() == old(
                    self,
                ).timer_setting_input.spec_field().spec_prev()
                &&& forall|f: InputField|
                    final(self).timer_setting_input.spec_field_text(f) == old(
                        self,
                    ).timer_setting_input.spec_field_text(f)
            },
    {
        match self.tab_selected {
            Tabs::TaskManager => self.task_manager_input.select_prev_field(),
            Tabs::PomodoroSetting => self.timer_setting_input.select_prev_field(),
        }
    }

    /// Append a typed character to the active input field.
    pub fn push_user_input_field(&mut self, c: char)
        ensures
            spec_same_outside_inputs(*final(self), *old(self)),
            old(self).tab_selected == Tabs::TaskManager ==> {
                &&& final(self).timer_setting_input == old(self).timer_setting_input
                &&& final(self).task_manager_input.spec_field() == old(
                    self,
                ).task_manager_input.spec_field()
                &&& final(self).task_manager_input.spec_field_text(
                    old(self).task_manager_input.spec_field(),
                ) == old(self).task_manager_input.spec_field_text(
                    old(self).task_manager_input.spec_field(),
                ).push(c)
                &&& forall|f: InputField1|
                    f != old(self).task_manager_input.spec_field() ==> final(self).task_manager_input.spec_field_text(f) == old(
                        self,
                    ).task_manager_input.spec_field_text(f)
            },
            old(self).tab_selected == Tabs::PomodoroSetting ==> {
                &&& final(self).task_manager_input == old(self).task_manager_input
                &&& final(self).timer_setting_input.spec_field() == old(
                    self,
                ).timer_setting_input.spec_field()
                &&& final(self).timer_setting_input.spec_field_text(
                    old(self).timer_setting_input.spec_field(),
                ) == old(self).timer_setting_input.spec_field_text(
                    old(self).timer_setting_input.spec_field(),
                ).push(c)
                &&& forall|f: InputField|
                    f != old(self).timer_setting_input.spec_field() ==> final(self).timer_setting_input.spec_field_text(f) == old(
                        self,
                    ).timer_setting_input.spec_field_text(f)
            },
    {
        match self.tab_selected {
            Tabs::TaskManager => self.task_manager_input.push_field_char(c),
            Tabs::PomodoroSetting => self.timer_setting_input.push_field_char(c),
        }
    }

    /// Erase the last character of the active input field; a no-op when it
    /// is empty.
    pub fn pop_user_input_field(&mut self)
        ensures
            spec_same_outside_inputs(*final(self), *old(self)),
            old(self).tab_selected == Tabs::TaskManager ==> {
                &&& final(self).timer_setting_input == old(self).timer_setting_input
                &&& final(self).task_manager_input.spec_field() == old(
                    self,
                ).task_manager_input.spec_field()
                &&& final(self).task_manager_input.spec_field_text(
                    old(self).task_manager_input.spec_field(),
                ) == (if old(self).task_manager_input.spec_field_text(
                    old(self).task_manager_input.spec_field(),
                ).len() == 0 {
                    old(self).task_manager_input.spec_field_text(
                        old(self).task_manager_input.spec_field(),
                    )
                } else {
                    old(self).task_manager_input.spec_field_text(
                        old(self).task_manager_input.spec_field(),
                    ).drop_last()
                })
                &&& forall|f: InputField1|
                    f != old(self).task_manager_input.spec_field() ==> final(self).task_manager_input.spec_field_text(f) == old(
                        self,
                    ).task_manager_input.spec_field_text(f)
            },
            old(self).tab_selected == Tabs::PomodoroSetting ==> {
                &&& final(self).task_manager_input == old(self).task_manager_input
                &&& final(self).timer_setting_input.spec_field() == old(
                    self,
                ).timer_setting_input.spec_field()
                &&& final(self).timer_setting_input.spec_field_text(
                    old(self).timer_setting_input.spec_field(),
                ) == (if old(self).timer_setting_input.spec_field_text(
                    old(self).timer_setting_input.spec_field(),
                ).len() == 0 {
                    old(self).timer_setting_input.spec_field_text(
                        old(self).timer_setting_input.spec_field(),
                    )
                } else {
                    old(self).timer_setting_input.spec_field_text(
                        old(self).timer_setting_input.spec_field(),
                    ).drop_last()
                })
                &&& forall|f: InputField|
                    f != old(self).timer_setting_input.spec_field() ==> final(self).timer_setting_input.spec_field_text(f) == old(
                        self,
                    ).timer_setting_input.spec_field_text(f)
            },
    {
        match self.tab_selected {
            Tabs::TaskManager => self.task_manager_input.pop_field_char(),
            Tabs::PomodoroSetting => self.timer_setting_input.pop_field_char(),
        }
    }

    /// Skip the current phase: discard the live timer and move the cycle
    /// one step. With no live timer this changes nothing at all.
    pub fn abort_timer(&mut self)
        requires
            old(self).wf(),
        ensures
            final(self).wf(),
            old(self).timer is None ==> *final(self) == *old(self),
            old(self).timer is Some ==> *final(self) == (App {
                timer: None,
                state: spec_advance(
                    old(self).state,
                    old(self).state_setting.pomodoro_per_long_break,
                ),
                ..*old(self)
            }),
    {
        match self.timer {
            Some(_) => {
                self.timer = None;
                self.state = advance(self.state, self.state_setting.pomodoro_per_long_break);
            },
            None => {},
        }
    }

    /// The single start/pause/resume action: flip a live timer between
    /// paused and running, or launch one when none is live.
    pub fn toggle_timer(&mut self, now: u64)
        requires
            old(self).wf(),
        ensures
            final(self).wf(),
            old(self).timer matches Some(t) ==> *final(self) == (App {
                timer: Some(
                    if t.spec_is_paused() {
                        t.spec_resume(old(self).spec_clamp(now))
                    } else {
                        t.spec_pause(old(self).spec_clamp(now))
                    },
                ),
                clock: old(self).spec_clamp(now),
                ..*old(self)
            }),
            old(self).timer matches Some(t) ==> final(self).timer->Some_0.spec_is_paused()
                == !t.spec_is_paused(),
            old(self).timer is None ==> *final(self) == (App {
                timer: Some(
                    Timer::spec_new(
                        (spec_phase_secs(old(self).state, old(self).timer_setting)
                            * MILLIS_PER_SEC) as u64,
                        old(self).spec_clamp(now),
                    ),
                ),
                clock: old(self).spec_clamp(now),
                ..*old(self)
            }),
    {
        match self.timer {
            Some(timer) => {
                self.clamp_clock(now);
                let mut timer = timer;
                if timer.is_paused() {
                    timer.resume(self.clock);
                } else {
                    timer.pause(self.clock);
                }
                self.timer = Some(timer);
            },
            None => self.launch_timer(now),
        }
    }

    /// Pause the live timer; a no-op (except for the clock) without one.
    pub fn pause_timer(&mut self, now: u64)
        requires
            old(self).wf(),
        ensures
            final(self).wf(),
            old(self).timer matches Some(t) ==> *final(self) == (App {
                timer: Some(t.spec_pause(old(self).spec_clamp(now))),
                clock: old(self).spec_clamp(now),
                ..*old(self)
            }),
            old(self).timer is Some ==> final(self).timer->Some_0.spec_is_paused(),
            old(self).timer is None ==> *final(self) == (App {
                clock: old(self).spec_clamp(now),
                ..*old(self)
            }),
    {
        self.clamp_clock(now);
        match self.timer {
            Some(timer) => {
                let mut timer = timer;
                timer.pause(self.clock);
                self.timer = Some(timer);
            },
            None => {},
        }
    }

    /// Start the current phase: launch a timer sized by the committed
    /// setting for the phase the cycle is in. A no-op (except for the
    /// clock) while a timer is already live, so a double launch cannot
    /// restart a running phase.
    pub fn launch_timer(&mut self, now: u64)
        requires
            old(self).wf(),
        ensures
            final(self).wf(),
            old(self).timer is Some ==> *final(self) == (App {
                clock: old(self).spec_clamp(now),
                ..*old(self)
            }),
            old(self).timer is None ==> *final(self) == (App {
                timer: Some(
                    Timer::spec_new(
                        (spec_phase_secs(old(self).state, old(self).timer_setting)
                            * MILLIS_PER_SEC) as u64,
                        old(self).spec_clamp(now),
                    ),
                ),
                clock: old(self).spec_clamp(now),
                ..*old(self)
            }),
    {
        self.clamp_clock(now);
        match self.timer {
            None => {
                let secs = phase_secs(&self.state, &self.timer_setting);
                self.timer = Some(Timer::new(secs * MILLIS_PER_SEC, self.clock));
            },
            Some(_) => {},
        }
    }

    /// The once-per-frame tick. A live timer whose cached elapsed time has
    /// passed its duration ends its phase: the cycle advances and the timer
    /// is discarded, so the next launch starts the new phase fresh.
    /// Otherwise the live timer re-reads the clock. Without a live timer
    /// nothing happens.
    pub fn update(&mut self, now: u64)
        requires
            old(self).wf(),
        ensures
            final(self).wf(),
            old(self).timer is None ==> *final(self) == (App {
                clock: old(self).spec_clamp(now),
                ..*old(self)
            }),
            old(self).timer matches Some(t) ==> *final(self) == (if t.spec_is_finished() {
                (App {
                    timer: None,
                    state: spec_advance(
                        old(self).state,
                        old(self).state_setting.pomodoro_per_long_break,
                    ),
                    clock: old(self).spec_clamp(now),
                    ..*old(self)
                })
            } else {
                (App {
                    timer: Some(t.spec_update(old(self).spec_clamp(now))),
                    clock: old(self).spec_clamp(now),
                    ..*old(self)
                })
            }),
    {
        self.clamp_clock(now);
        match self.timer {
            Some(timer) => {
                if timer.is_finished() {
                    self.state = advance(self.state, self.state_setting.pomodoro_per_long_break);
                    self.timer = None;
                } else {
                    let mut timer = timer;
                    timer.update(self.clock);
                    self.timer = Some(timer);
                }
            },
            None => {},
        }
    }

    /// Seconds left to show: a live timer's remaining time, or — with no
    /// live timer — the full committed duration of the current phase, as a
    /// preview of the upcoming interval.
    pub fn get_time_left(&self) -> (left: u64)
        ensures
            self.timer matches Some(t) ==> left == t.spec_time_left() / MILLIS_PER_SEC,
            self.timer is None ==> left == spec_phase_secs(self.state, self.timer_setting),
    {
        match &self.timer {
            Some(timer) => timer.get_time_left() / MILLIS_PER_SEC,
            None => phase_secs(&self.state, &self.timer_setting),
        }
    }

    /// Commit the settings form. When every field parses and every minute
    /// value is under the ceiling, the three durations (minutes, converted
    /// to seconds) and the threshold are committed and the form keeps its
    /// text. On any parse failure or out-of-range minute value, the whole
    /// form and both committed settings fall back to the defaults.
    pub fn set_timer(&mut self)
        requires
            old(self).wf(),
        ensures
            final(self).wf(),
            final(self).timer == old(self).timer,
            final(self).state == old(self).state,
            final(self).tab_selected == old(self).tab_selected,
            final(self).task_manager_input == old(self).task_manager_input,
            final(self).task_list == old(self).task_list,
            final(self).should_quit == old(self).should_quit,
            final(self).page_selected == old(self).page_selected,
            final(self).clock == old(self).clock,
            spec_settings_accepted(old(self).timer_setting_input) ==> {
                &&& final(self).timer_setting.timer == spec_parse_u64(
                    old(self).timer_setting_input.spec_timer_text(),
                )->Some_0 * SECS_PER_MINUTE
                &&& final(self).timer_setting.short_break == spec_parse_u64(
                    old(self).timer_setting_input.spec_short_break_text(),
                )->Some_0 * SECS_PER_MINUTE
                &&& final(self).timer_setting.long_break == spec_parse_u64(
                    old(self).timer_setting_input.spec_long_break_text(),
                )->Some_0 * SECS_PER_MINUTE
                &&& final(self).state_setting.pomodoro_per_long_break == spec_parse_u64(
                    old(self).timer_setting_input.spec_threshold_text(),
                )->Some_0
                &&& final(self).timer_setting_input == old(self).timer_setting_input
            },
            !spec_settings_accepted(old(self).timer_setting_input) ==> {
                &&& final(self).timer_setting.timer == DEFAULT_POMODORO_LENGTH * SECS_PER_MINUTE
                &&& final(self).timer_setting.short_break == DEFAULT_SHORT_BREAK_LENGTH
                    * SECS_PER_MINUTE
                &&& final(self).timer_setting.long_break == DEFAULT_LONG_BREAK_LENGTH
                    * SECS_PER_MINUTE
                &&& final(self).state_setting.pomodoro_per_long_break
                    == DEFAULT_POMODORO_PER_LONG_BREAK
                &&& final(self).timer_setting_input.spec_timer_text() == "25"@
                &&& final(self).timer_setting_input.spec_short_break_text() == "5"@
                &&& final(self).timer_setting_input.spec_long_break_text() == "15"@
                &&& final(self).timer_setting_input.spec_threshold_text() == "4"@
                &&& final(self).timer_setting_input.spec_field() == InputField::Timer
            },
    {
        let parsed = self.timer_setting_input.parse_settings();
        match parsed {
            Some((work, short_break, long_break, threshold)) => {
                if work < MINUTES_CEILING && short_break < MINUTES_CEILING && long_break
                    < MINUTES_CEILING {
                    self.timer_setting = TimerSetting {
                        timer: work * SECS_PER_MINUTE,
                        short_break: short_break * SECS_PER_MINUTE,
                        long_break: long_break * SECS_PER_MINUTE,
                    };
                    self.state_setting = StateSetting { pomodoro_per_long_break: threshold };
                } else {
                    self.reset_settings();
                }
            },
            None => {
                self.reset_settings();
            },
        }
    }

    /// The all-or-nothing fallback of `set_timer`: defaults for the form
    /// text and for both committed settings.
    fn reset_settings(&mut self)
        ensures
            final(self).timer == old(self).timer,
            final(self).state == old(self).state,
            final(self).tab_selected == old(self).tab_selected,
            final(self).task_manager_input == old(self).task_manager_input,
            final(self).task_list == old(self).task_list,
            final(self).should_quit == old(self).should_quit,
            final(self).page_selected == old(self).page_selected,
            final(self).clock == old(self).clock,
            final(self).timer_setting.timer == DEFAULT_POMODORO_LENGTH * SECS_PER_MINUTE,
            final(self).timer_setting.short_break == DEFAULT_SHORT_BREAK_LENGTH * SECS_PER_MINUTE,
            final(self).timer_setting.long_break == DEFAULT_LONG_BREAK_LENGTH * SECS_PER_MINUTE,
            final(self).timer_setting.wf(),
            final(self).state_setting.pomodoro_per_long_break == DEFAULT_POMODORO_PER_LONG_BREAK,
            final(self).timer_setting_input.spec_timer_text() == "25"@,
            final(self).timer_setting_input.spec_short_break_text() == "5"@,
            final(self).timer_setting_input.spec_long_break_text() == "15"@,
            final(self).timer_setting_input.spec_threshold_text() == "4"@,
            final(self).timer_setting_input.spec_field() == InputField::Timer,
    {
        self.timer_setting_input = Input::default();
        self.timer_setting = TimerSetting::default();
        self.state_setting = StateSetting::default();
    }

    /// Append a task built from the task form: its name, its notes, and its
    /// estimated pomodoro count — the default estimate when the count text
    /// does not parse. The form keeps its text.
    pub fn add_task(&mut self)
        requires
            old(self).wf(),
        ensures
            final(self).wf(),
            final(self).timer == old(self).timer,
            final(self).state == old(self).state,
            final(self).tab_selected == old(self).tab_selected,
            final(self).timer_setting == old(self).timer_setting,
            final(self).state_setting == old(self).state_setting,
            final(self).timer_setting_input == old(self).timer_setting_input,
            final(self).task_manager_input == old(self).task_manager_input,
            final(self).should_quit == old(self).should_quit,
            final(self).page_selected == old(self).page_selected,
            final(self).clock == old(self).clock,
            final(self).task_list.state == old(self).task_list.state,
            final(self).task_list.items@.len() == old(self).task_list.items@.len() + 1,
            final(self).task_list.items@.drop_last() == old(self).task_list.items@,
            final(self).task_list.items@.last().spec_title() == old(
                self,
            ).task_manager_input.spec_name_text(),
            final(self).task_list.items@.last().notes@ == old(
                self,
            ).task_manager_input.spec_notes_text(),
            final(self).task_list.items@.last().pomodoros == (match spec_parse_u64(
                old(self).task_manager_input.spec_pomodoros_text(),
            ) {
                Some(v) => v,
                None => DEFAULT_POMODORO_PER_TASK,
            }),
    {
        let pomodoros = match parse_u64(self.task_manager_input.pomodoros_text().as_str()) {
            Some(v) => v,
            None => DEFAULT_POMODORO_PER_TASK,
        };
        let task = Task::new(
            self.task_manager_input.name_text().clone(),
            self.task_manager_input.notes_text().clone(),
            pomodoros,
        );
        self.task_list.items.push(task);
        proof {
            assert(self.task_list.items@.drop_last() =~= old(self).task_list.items@);
        }
    }

    /// Remove the selected task and move the selection to the previous
    /// entry (wrapping to the bottom from the top). With nothing selected —
    /// in particular on an empty list — this changes nothing at all.
    pub fn delete_task(&mut self)
        requires
            old(self).wf(),
        ensures
            final(self).wf(),
            old(self).task_list.state.spec_selected() is None ==> *final(self) == *old(self),
            old(self).task_list.state.spec_selected() matches Some(idx) ==> {
                &&& final(self).timer == old(self).timer
                &&& final(self).state == old(self).state
                &&& final(self).tab_selected == old(self).tab_selected
                &&& final(self).timer_setting == old(self).timer_setting
                &&& final(self).state_setting == old(self).state_setting
                &&& final(self).timer_setting_input == old(self).timer_setting_input
                &&& final(self).task_manager_input == old(self).task_manager_input
                &&& final(self).should_quit == old(self).should_quit
                &&& final(self).page_selected == old(self).page_selected
                &&& final(self).clock == old(self).clock
                &&& final(self).task_list.items@ == old(self).task_list.items@.remove(idx as int)
                &&& final(self).task_list.state.spec_offset() == old(
                    self,
                ).task_list.state.spec_offset()
                &&& old(self).task_list.items@.len() == 1 ==> final(self).task_list.state.spec_selected() is None
                &&& old(self).task_list.items@.len() > 1 ==> final(self).task_list.state.spec_selected() == Some(
                    (if idx == 0 {
                        old(self).task_list.items@.len() - 2
                    } else {
                        idx - 1
                    }) as usize,
                )
            },
    {
        match self.task_list.state.selected() {
            None => {},
            Some(idx) => {
                let _removed = self.task_list.items.remove(idx);
                self.task_list.previous_entry();
            },
        }
    }

    /// Leave the help page if it is open; otherwise ask to quit.
    pub fn quit(&mut self)
        ensures
            old(self).page_selected == Page::Help ==> *final(self) == (App {
                page_selected: Page::Normal,
                ..*old(self)
            }),
            old(self).page_selected == Page::Normal ==> *final(self) == (App {
                should_quit: true,
                ..*old(self)
            }),
    {
        match self.page_selected {
            Page::Help => self.page_selected = Page::default(),
            Page::Normal => self.should_quit = true,
        }
    }

    /// Open the help page.
    pub fn open_help(&mut self)
        ensures
            *final(self) == (App { page_selected: Page::Help, ..*old(self) }),
    {
        self.page_selected = Page::Help;
    }
}

impl Default for App {
    /// A fresh controller: default settings and forms, no live timer, an
    /// empty task list, and a cycle waiting at the start of a lap.
    fn default() -> (app: Self)
        ensures
            app.wf(),
            app.timer is None,
            app.state == State::Pomodoro(DEFAULT_POMODORO_PER_LONG_BREAK),
            app.tab_selected == Tabs::PomodoroSetting,
            app.timer_setting.timer == DEFAULT_POMODORO_LENGTH * SECS_PER_MINUTE,
            app.timer_setting.short_break == DEFAULT_SHORT_BREAK_LENGTH * SECS_PER_MINUTE,
            app.timer_setting.long_break == DEFAULT_LONG_BREAK_LENGTH * SECS_PER_MINUTE,
            app.state_setting.pomodoro_per_long_break == DEFAULT_POMODORO_PER_LONG_BREAK,
            app.timer_setting_input.spec_timer_text() == "25"@,
            app.timer_setting_input.spec_short_break_text() == "5"@,
            app.timer_setting_input.spec_long_break_text() == "15"@,
            app.timer_setting_input.spec_threshold_text() == "4"@,
            app.timer_setting_input.spec_field() == InputField::Timer,
            app.task_manager_input.spec_name_text() == Seq::<char>::empty(),
            app.task_manager_input.spec_notes_text() == Seq::<char>::empty(),
            app.task_manager_input.spec_pomodoros_text() == Seq::<char>::empty(),
            app.task_manager_input.spec_field() == InputField1::TaskName,
            app.task_list.items@ == Seq::<Task>::empty(),
            app.task_list.state.spec_selected() is None,
            !app.should_quit,
            app.page_selected == Page::Normal,
            app.clock == 0,
    {
        App {
            timer: None,
            state: State::default(),
            tab_selected: Tabs::default(),
            timer_setting: TimerSetting::default(),
            timer_setting_input: Input::default(),
            state_setting: StateSetting::default(),
            task_manager_input: Input1::default(),
            task_list: StatefulList::default(),
            should_quit: false,
            page_selected: Page::default(),
            clock: 0,
        }
    }
}

} // verus!
