//! Editable text forms: one for the settings tab, one for the task tab.
//!
//! Each form is a set of raw text fields with a single selected field. The
//! text round-trips exactly as typed — including invalid or incomplete
//! digits — and is only interpreted when the form is committed.
use vstd::prelude::*;
use crate::parse::{parse_u64, spec_parse_u64};

verus! {

/// Relies on `String::push`: it appends the given character to the end of
/// the string.
#[verifier::external_body]
fn push_char(text: &mut String, c: char)
    ensures
        final(text)@ == old(text)@.push(c),
{
    text.push(c);
}

/// Relies on `String::pop`: it removes the last character from the string
/// and returns it, returning `None` when the string is empty.
#[verifier::external_body]
fn pop_char(text: &mut String) -> (popped: Option<char>)
    ensures
        old(text)@.len() == 0 ==> popped is None && final(text)@ == old(text)@,
        old(text)@.len() > 0 ==> popped == Some(old(text)@.last()) && final(text)@ == old(
            text,
        )@.drop_last(),
{
    text.pop()
}

/// Relies on `String::clear`: it truncates the string, removing all
/// contents.
#[verifier::external_body]
fn clear_chars(text: &mut String)
    ensures
        final(text)@ == Seq::<char>::empty(),
{
    text.clear();
}

/// The four fields of the settings form.
#[derive(Debug, Clone, Copy, PartialEq, Eq, Structural)]
pub enum InputField {
    Timer,
    ShortBreak,
    LongBreak,
    PomodoroPerLongBreak,
}

impl InputField {
    pub open spec fn spec_next(self) -> InputField {
        match self {
            InputField::Timer => InputField::ShortBreak,
            InputField::ShortBreak => InputField::LongBreak,
            InputField::LongBreak => InputField::PomodoroPerLongBreak,
            InputField::PomodoroPerLongBreak => InputField::Timer,
        }
    }

    pub open spec fn spec_prev(self) -> InputField {
        match self {
            InputField::Timer => InputField::PomodoroPerLongBreak,
            InputField::ShortBreak => InputField::Timer,
            InputField::LongBreak => InputField::ShortBreak,
            InputField::PomodoroPerLongBreak => InputField::LongBreak,
        }
    }

    pub fn next_field(self) -> (next: Self)
        ensures
            next == self.spec_next(),
    {
        match self {
            InputField::Timer => InputField::ShortBreak,
            InputField::ShortBreak => InputField::LongBreak,
            InputField::LongBreak => InputField::PomodoroPerLongBreak,
            InputField::PomodoroPerLongBreak => InputField::Timer,
        }
    }

    pub fn prev_field(self) -> (prev: Self)
        ensures
            prev == self.spec_prev(),
    {
        match self {
            InputField::Timer => InputField::PomodoroPerLongBreak,
            InputField::ShortBreak => InputField::Timer,
            InputField::LongBreak => InputField::ShortBreak,
            InputField::PomodoroPerLongBreak => InputField::LongBreak,
        }
    }
}

/// The settings form: raw minute/count text for the three phase lengths and
/// the pomodoros-per-long-break threshold.
#[derive(Debug)]
pub struct Input {
    timer: String,
    short_break: String,
    long_break: String,
    pomodoro_per_long_break: String,
    field_selected: InputField,
}

impl Input {
    /// The text currently held by the given field.
    pub closed spec fn spec_field_text(self, field: InputField) -> Seq<char> {
        match field {
            InputField::Timer => self.timer@,
            InputField::ShortBreak => self.short_break@,
            InputField::LongBreak => self.long_break@,
            InputField::PomodoroPerLongBreak => self.pomodoro_per_long_break@,
        }
    }

    pub closed spec fn spec_field(self) -> InputField {
        self.field_selected
    }

    pub open spec fn spec_timer_text(self) -> Seq<char> {
        self.spec_field_text(InputField::Timer)
    }

    pub open spec fn spec_short_break_text(self) -> Seq<char> {
        self.spec_field_text(InputField::ShortBreak)
    }

    pub open spec fn spec_long_break_text(self) -> Seq<char> {
        self.spec_field_text(InputField::LongBreak)
    }

    pub open spec fn spec_threshold_text(self) -> Seq<char> {
        self.spec_field_text(InputField::PomodoroPerLongBreak)
    }

    /// The four labelled field contents in display order, the selected
    /// field's label carrying the `>> ` cursor marker.
    pub fn display(&self) -> (lines: (
        (&str, &str),
        (&str, &str),
        (&str, &str),
        (&str, &str),
    ))
        ensures
            lines.0.1@ == self.spec_timer_text(),
            lines.1.1@ == self.spec_short_break_text(),
            lines.2.1@ == self.spec_long_break_text(),
            lines.3.1@ == self.spec_threshold_text(),
            lines.0.0@ == (if self.spec_field() == InputField::Timer {
                ">> Timer Length: "@
            } else {
                "Timer Length: "@
            }),
            lines.1.0@ == (if self.spec_field() == InputField::ShortBreak {
                ">> Short Break Length: "@
            } else {
                "Short Break Length: "@
            }),
            lines.2.0@ == (if self.spec_field() == InputField::LongBreak {
                ">> Long Break Length: "@
            } else {
                "Long Break Length: "@
            }),
            lines.3.0@ == (if self.spec_field() == InputField::PomodoroPerLongBreak {
                ">> Pomodoros Per Long Break: "@
            } else {
                "Pomodoros Per Long Break: "@
            }),
    {
        let (label_timer, label_short, label_long, label_threshold) = match self.field_selected {
            InputField::Timer => (
                ">> Timer Length: ",
                "Short Break Length: ",
                "Long Break Length: ",
                "Pomodoros Per Long Break: ",
            ),
            InputField::ShortBreak => (
                "Timer Length: ",
                ">> Short Break Length: ",
                "Long Break Length: ",
                "Pomodoros Per Long Break: ",
            ),
            InputField::LongBreak => (
                "Timer Length: ",
                "Short Break Length: ",
                ">> Long Break Length: ",
                "Pomodoros Per Long Break: ",
            ),
            InputField::PomodoroPerLongBreak => (
                "Timer Length: ",
                "Short Break Length: ",
                "Long Break Length: ",
                ">> Pomodoros Per Long Break: ",
            ),
        };
        (
            (label_timer, self.timer.as_str()),
            (label_short, self.short_break.as_str()),
            (label_long, self.long_break.as_str()),
            (label_threshold, self.pomodoro_per_long_break.as_str()),
        )
    }

    pub fn select_prev_field(&mut self)
        ensures
            final(self).spec_field() == old(self).spec_field().spec_prev(),
            forall|f: InputField| final(self).spec_field_text(f) == old(self).spec_field_text(f),
    {
        self.field_selected = self.field_selected.prev_field();
    }

    pub fn select_next_field(&mut self)
        ensures
            final(self).spec_field() == old(self).spec_field().spec_next(),
            forall|f: InputField| final(self).spec_field_text(f) == old(self).spec_field_text(f),
    {
        self.field_selected = self.field_selected.next_field();
    }

    /// Append a typed character to the selected field.
    pub fn push_field_char(&mut self, c: char)
        ensures
            final(self).spec_field() == old(self).spec_field(),
            final(self).spec_field_text(old(self).spec_field()) == old(self).spec_field_text(
                old(self).spec_field(),
            ).push(c),
            forall|f: InputField|
                f != old(self).spec_field() ==> final(self).spec_field_text(f) == old(
                    self,
                ).spec_field_text(f),
    {
        match self.field_selected {
            InputField::Timer => push_char(&mut self.timer, c),
            InputField::ShortBreak => push_char(&mut self.short_break, c),
            InputField::LongBreak => push_char(&mut self.long_break, c),
            InputField::PomodoroPerLongBreak => push_char(&mut self.pomodoro_per_long_break, c),
        }
    }

    /// Erase the last character of the selected field; a no-op when the
    /// field is empty.
    pub fn pop_field_char(&mut self)
        ensures
            final(self).spec_field() == old(self).spec_field(),
            final(self).spec_field_text(old(self).spec_field()) == (if old(self).spec_field_text(
                old(self).spec_field(),
            ).len() == 0 {
                old(self).spec_field_text(old(self).spec_field())
            } else {
                old(self).spec_field_text(old(self).spec_field()).drop_last()
            }),
            forall|f: InputField|
                f != old(self).spec_field() ==> final(self).spec_field_text(f) == old(
                    self,
                ).spec_field_text(f),
    {
        let _popped = match self.field_selected {
            InputField::Timer => pop_char(&mut self.timer),
            InputField::ShortBreak => pop_char(&mut self.short_break),
            InputField::LongBreak => pop_char(&mut self.long_break),
            InputField::PomodoroPerLongBreak => pop_char(&mut self.pomodoro_per_long_break),
        };
    }

    /// Empty the selected field.
    pub fn clear_field(&mut self)
        ensures
            final(self).spec_field() == old(self).spec_field(),
            final(self).spec_field_text(old(self).spec_field()) == Seq::<char>::empty(),
            forall|f: InputField|
                f != old(self).spec_field() ==> final(self).spec_field_text(f) == old(
                    self,
                ).spec_field_text(f),
    {
        match self.field_selected {
            InputField::Timer => clear_chars(&mut self.timer),
            InputField::ShortBreak => clear_chars(&mut self.short_break),
            InputField::LongBreak => clear_chars(&mut self.long_break),
            InputField::PomodoroPerLongBreak => clear_chars(&mut self.pomodoro_per_long_break),
        }
    }

    /// Read all four fields as numbers: the parsed values when every field
    /// parses, and nothing when any field fails to parse.
    pub fn parse_settings(&self) -> (parsed: Option<(u64, u64, u64, u64)>)
        ensures
            match parsed {
                Some(values) => {
                    &&& spec_parse_u64(self.spec_timer_text()) == Some(values.0)
                    &&& spec_parse_u64(self.spec_short_break_text()) == Some(values.1)
                    &&& spec_parse_u64(self.spec_long_break_text()) == Some(values.2)
                    &&& spec_parse_u64(self.spec_threshold_text()) == Some(values.3)
                },
                None => {
                    ||| spec_parse_u64(self.spec_timer_text()) is None
                    ||| spec_parse_u64(self.spec_short_break_text()) is None
                    ||| spec_parse_u64(self.spec_long_break_text()) is None
                    ||| spec_parse_u64(self.spec_threshold_text()) is None
                },
            },
    {
        let timer = parse_u64(self.timer.as_str());
        let short_break = parse_u64(self.short_break.as_str());
        let long_break = parse_u64(self.long_break.as_str());
        let threshold = parse_u64(self.pomodoro_per_long_break.as_str());
        match (timer, short_break, long_break, threshold) {
            (Some(t), Some(s), Some(l), Some(th)) => Some((t, s, l, th)),
            _ => None,
        }
    }
}

impl Default for Input {
    /// A fresh settings form showing the default settings as text, with the
    /// timer-length field selected.
    fn default() -> (input: Self)
        ensures
            input.spec_timer_text() == "25"@,
            input.spec_short_break_text() == "5"@,
            input.spec_long_break_text() == "15"@,
            input.spec_threshold_text() == "4"@,
            input.spec_field() == InputField::Timer,
    {
        Input {
            timer: "25".to_owned(),
            short_break: "5".to_owned(),
            long_break: "15".to_owned(),
            pomodoro_per_long_break: "4".to_owned(),
            field_selected: InputField::Timer,
        }
    }
}

/// The three fields of the task form.
#[derive(Debug, Clone, Copy, PartialEq, Eq, Structural)]
pub enum InputField1 {
    TaskName,
    TaskNotes,
    PomodorosPerTask,
}

impl InputField1 {
    pub open spec fn spec_next(self) -> InputField1 {
        match self {
            InputField1::TaskName => InputField1::PomodorosPerTask,
            InputField1::PomodorosPerTask => InputField1::TaskNotes,
            InputField1::TaskNotes => InputField1::TaskName,
        }
    }

    pub open spec fn spec_prev(self) -> InputField1 {
        match self {
            InputField1::TaskName => InputField1::TaskNotes,
            InputField1::PomodorosPerTask => InputField1::TaskName,
            InputField1::TaskNotes => InputField1::PomodorosPerTask,
        }
    }

    pub fn next_field(self) -> (next: Self)
        ensures
            next == self.spec_next(),
    {
        match self {
            InputField1::TaskName => InputField1::PomodorosPerTask,
            InputField1::PomodorosPerTask => InputField1::TaskNotes,
            InputField1::TaskNotes => InputField1::TaskName,
        }
    }

    pub fn prev_field(self) -> (prev: Self)
        ensures
            prev == self.spec_prev(),
    {
        match self {
            InputField1::TaskName => InputField1::TaskNotes,
            InputField1::PomodorosPerTask => InputField1::TaskName,
            InputField1::TaskNotes => InputField1::PomodorosPerTask,
        }
    }
}

/// The task form: a task's name, free-text notes, and estimated pomodoro
/// count as raw text.
#[derive(Debug)]
pub struct Input1 {
    task_name: String,
    task_notes: String,
    pomodoros_per_task: String,
    field_selected: InputField1,
}

impl Input1 {
    /// The text currently held by the given field.
    pub closed spec fn spec_field_text(self, field: InputField1) -> Seq<char> {
        match field {
            InputField1::TaskName => self.task_name@,
            InputField1::TaskNotes => self.task_notes@,
            InputField1::PomodorosPerTask => self.pomodoros_per_task@,
        }
    }

    pub closed spec fn spec_field(self) -> InputField1 {
        self.field_selected
    }

    pub open spec fn spec_name_text(self) -> Seq<char> {
        self.spec_field_text(InputField1::TaskName)
    }

    pub open spec fn spec_notes_text(self) -> Seq<char> {
        self.spec_field_text(InputField1::TaskNotes)
    }

    pub open spec fn spec_pomodoros_text(self) -> Seq<char> {
        self.spec_field_text(InputField1::PomodorosPerTask)
    }

    /// The three labelled field contents in display order (name, estimate,
    /// notes), the selected field's label carrying the `>> ` cursor marker.
    pub fn display(&self) -> (lines: ((&str, &str), (&str, &str), (&str, &str)))
        ensures
            lines.0.1@ == self.spec_name_text(),
            lines.1.1@ == self.spec_pomodoros_text(),
            lines.2.1@ == self.spec_notes_text(),
            lines.0.0@ == (if self.spec_field() == InputField1::TaskName {
                ">> Task Name: "@
            } else {
                "Task Name: "@
            }),
            lines.1.0@ == (if self.spec_field() == InputField1::PomodorosPerTask {
                ">> Est Pomodoros: "@
            } else {
                "Est Pomodoros: "@
            }),
            lines.2.0@ == (if self.spec_field() == InputField1::TaskNotes {
                ">> Task Notes:"@
            } else {
                "Task Notes:"@
            }),
    {
        let (label_name, label_pomodoros, label_notes) = match self.field_selected {
            InputField1::TaskName => (">> Task Name: ", "Est Pomodoros: ", "Task Notes:"),
            InputField1::PomodorosPerTask => ("Task Name: ", ">> Est Pomodoros: ", "Task Notes:"),
            InputField1::TaskNotes => ("Task Name: ", "Est Pomodoros: ", ">> Task Notes:"),
        };
        (
            (label_name, self.task_name.as_str()),
            (label_pomodoros, self.pomodoros_per_task.as_str()),
            (label_notes, self.task_notes.as_str()),
        )
    }

    pub fn name_text(&self) -> (text: &String)
        ensures
            text@ == self.spec_name_text(),
    {
        &self.task_name
    }

    pub fn notes_text(&self) -> (text: &String)
        ensures
            text@ == self.spec_notes_text(),
    {
        &self.task_notes
    }

    pub fn pomodoros_text(&self) -> (text: &String)
        ensures
            text@ == self.spec_pomodoros_text(),
    {
        &self.pomodoros_per_task
    }

    pub fn select_prev_field(&mut self)
        ensures
            final(self).spec_field() == old(self).spec_field().spec_prev(),
            forall|f: InputField1| final(self).spec_field_text(f) == old(self).spec_field_text(f),
    {
        self.field_selected = self.field_selected.prev_field();
    }

    pub fn select_next_field(&mut self)
        ensures
            final(self).spec_field() == old(self).spec_field().spec_next(),
            forall|f: InputField1| final(self).spec_field_text(f) == old(self).spec_field_text(f),
    {
        self.field_selected = self.field_selected.next_field();
    }

    /// Append a typed character to the selected field.
    pub fn push_field_char(&mut self, c: char)
        ensures
            final(self).spec_field() == old(self).spec_field(),
            final(self).spec_field_text(old(self).spec_field()) == old(self).spec_field_text(
                old(self).spec_field(),
            ).push(c),
            forall|f: InputField1|
                f != old(self).spec_field() ==> final(self).spec_field_text(f) == old(
                    self,
                ).spec_field_text(f),
    {
        match self.field_selected {
            InputField1::TaskName => push_char(&mut self.task_name, c),
            InputField1::TaskNotes => push_char(&mut self.task_notes, c),
            InputField1::PomodorosPerTask => push_char(&mut self.pomodoros_per_task, c),
        }
    }

    /// Erase the last character of the selected field; a no-op when the
    /// field is empty.
    pub fn pop_field_char(&mut self)
        ensures
            final(self).spec_field() == old(self).spec_field(),
            final(self).spec_field_text(old(self).spec_field()) == (if old(self).spec_field_text(
                old(self).spec_field(),
            ).len() == 0 {
                old(self).spec_field_text(old(self).spec_field())
            } else {
                old(self).spec_field_text(old(self).spec_field()).drop_last()
            }),
            forall|f: InputField1|
                f != old(self).spec_field() ==> final(self).spec_field_text(f) == old(
                    self,
                ).spec_field_text(f),
    {
        let _popped = match self.field_selected {
            InputField1::TaskName => pop_char(&mut self.task_name),
            InputField1::TaskNotes => pop_char(&mut self.task_notes),
            InputField1::PomodorosPerTask => pop_char(&mut self.pomodoros_per_task),
        };
    }

    /// Empty the selected field.
    pub fn clear_field(&mut self)
        ensures
            final(self).spec_field() == old(self).spec_field(),
            final(self).spec_field_text(old(self).spec_field()) == Seq::<char>::empty(),
            forall|f: InputField1|
                f != old(self).spec_field() ==> final(self).spec_field_text(f) == old(
                    self,
                ).spec_field_text(f),
    {
        match self.field_selected {
            InputField1::TaskName => clear_chars(&mut self.task_name),
            InputField1::TaskNotes => clear_chars(&mut self.task_notes),
            InputField1::PomodorosPerTask => clear_chars(&mut self.pomodoros_per_task),
        }
    }
}

impl Default for Input1 {
    /// A fresh, empty task form with the name field selected.
    fn default() -> (input: Self)
        ensures
            input.spec_name_text() == Seq::<char>::empty(),
            input.spec_notes_text() == Seq::<char>::empty(),
            input.spec_pomodoros_text() == Seq::<char>::empty(),
            input.spec_field() == InputField1::TaskName,
    {
        Input1 {
            task_name: String::new(),
            task_notes: String::new(),
            pomodoros_per_task: String::new(),
            field_selected: InputField1::TaskName,
        }
    }
}

} // verus!
