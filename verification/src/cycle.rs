//! The Pomodoro cycle state machine.
//!
//! A lap runs `threshold` work sessions, each followed by a short break,
//! and ends with one long break. The count carried by `Pomodoro` and
//! `ShortBreak` is the number of work sessions still owed before the next
//! long break, counted down; it only decreases when a work session ends,
//! and `LongBreak` resets it to the configured threshold on exit.
use vstd::prelude::*;
use crate::settings::DEFAULT_POMODORO_PER_LONG_BREAK;

verus! {

#[derive(Debug, Clone, Copy, PartialEq, Eq, Structural)]
pub enum State {
    Pomodoro(u64),
    ShortBreak(u64),
    LongBreak,
}

impl Default for State {
    /// The cycle starts a lap: a work session with the default number of
    /// sessions still owed before the first long break.
    fn default() -> (state: Self)
        ensures
            state == State::Pomodoro(DEFAULT_POMODORO_PER_LONG_BREAK),
    {
        State::Pomodoro(DEFAULT_POMODORO_PER_LONG_BREAK)
    }
}

/// One step of the cycle: where the clock goes when the current phase ends
/// (naturally or by a manual skip).
pub open spec fn spec_advance(state: State, threshold: u64) -> State {
    match state {
        State::Pomodoro(n) => if n == 0 {
            State::LongBreak
        } else {
            State::ShortBreak((n - 1) as u64)
        },
        State::ShortBreak(n) => State::Pomodoro(n),
        State::LongBreak => State::Pomodoro(threshold),
    }
}

/// The state after `n` steps of the cycle.
pub open spec fn spec_advance_n(state: State, threshold: u64, n: nat) -> State
    decreases n,
{
    if n == 0 {
        state
    } else {
        spec_advance_n(spec_advance(state, threshold), threshold, (n - 1) as nat)
    }
}

/// How many of the `n` states reached from `state` (the state after one
/// step, after two steps, and so on) are `LongBreak`.
pub open spec fn spec_long_break_visits(state: State, threshold: u64, n: nat) -> nat
    decreases n,
{
    if n == 0 {
        0
    } else {
        (if spec_advance(state, threshold) is LongBreak {
            1nat
        } else {
            0nat
        }) + spec_long_break_visits(spec_advance(state, threshold), threshold, (n - 1) as nat)
    }
}

pub fn advance(state: State, threshold: u64) -> (next: State)
    ensures
        next == spec_advance(state, threshold),
{
    match state {
        State::Pomodoro(n) => if n == 0 {
            State::LongBreak
        } else {
            State::ShortBreak(n - 1)
        },
        State::ShortBreak(n) => State::Pomodoro(n),
        State::LongBreak => State::Pomodoro(threshold),
    }
}

/// The four transition equations of the cycle, spelled out: leaving the last
/// owed work session opens the long break, any other work session opens a
/// short break and pays off one owed session, a short break returns to work
/// with the owed count unchanged, and a long break starts a fresh lap.
pub proof fn lemma_advance_cases(n: u64, threshold: u64)
    ensures
        spec_advance(State::Pomodoro(0), threshold) == State::LongBreak,
        n > 0 ==> spec_advance(State::Pomodoro(n), threshold) == State::ShortBreak((n - 1) as u64),
        spec_advance(State::ShortBreak(n), threshold) == State::Pomodoro(n),
        spec_advance(State::LongBreak, threshold) == State::Pomodoro(threshold),
{
}

/// One full lap: from `Pomodoro(k)`, `2 * k + 1` steps land on the long
/// break — the only long break on the way — and one more step starts the
/// next lap at `Pomodoro(threshold)`.
pub proof fn lemma_lap_round_trip(k: u64, threshold: u64)
    ensures
        spec_advance_n(State::Pomodoro(k), threshold, (2 * k + 1) as nat) == State::LongBreak,
        spec_advance_n(State::Pomodoro(k), threshold, (2 * k + 2) as nat) == State::Pomodoro(
            threshold,
        ),
        spec_long_break_visits(State::Pomodoro(k), threshold, (2 * k + 2) as nat) == 1,
    decreases k,
{
    if k == 0 {
        assert(spec_advance_n(State::Pomodoro(0), threshold, 1nat) == spec_advance_n(
            State::LongBreak,
            threshold,
            0nat,
        ));
        assert(spec_advance_n(State::Pomodoro(0), threshold, 2nat) == spec_advance_n(
            State::LongBreak,
            threshold,
            1nat,
        ));
        assert(spec_advance_n(State::LongBreak, threshold, 1nat) == spec_advance_n(
            State::Pomodoro(threshold),
            threshold,
            0nat,
        ));
        assert(spec_long_break_visits(State::Pomodoro(0), threshold, 2nat) == 1
            + spec_long_break_visits(State::LongBreak, threshold, 1nat));
        assert(spec_long_break_visits(State::LongBreak, threshold, 1nat)
            == spec_long_break_visits(State::Pomodoro(threshold), threshold, 0nat));
    } else {
        lemma_lap_round_trip((k - 1) as u64, threshold);
        let rest = State::Pomodoro((k - 1) as u64);
        let mid = State::ShortBreak((k - 1) as u64);
        assert(spec_advance_n(State::Pomodoro(k), threshold, (2 * k + 1) as nat) == spec_advance_n(
            mid,
            threshold,
            (2 * k) as nat,
        ));
        assert(spec_advance_n(mid, threshold, (2 * k) as nat) == spec_advance_n(
            rest,
            threshold,
            (2 * (k - 1) + 1) as nat,
        ));
        assert(spec_advance_n(State::Pomodoro(k), threshold, (2 * k + 2) as nat) == spec_advance_n(
            mid,
            threshold,
            (2 * k + 1) as nat,
        ));
        assert(spec_advance_n(mid, threshold, (2 * k + 1) as nat) == spec_advance_n(
            rest,
            threshold,
            (2 * (k - 1) + 2) as nat,
        ));
        assert(spec_long_break_visits(State::Pomodoro(k), threshold, (2 * k + 2) as nat)
            == spec_long_break_visits(mid, threshold, (2 * k + 1) as nat));
        assert(spec_long_break_visits(mid, threshold, (2 * k + 1) as nat)
            == spec_long_break_visits(rest, threshold, (2 * (k - 1) + 2) as nat));
    }
}

} // verus!
