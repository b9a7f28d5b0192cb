use pomodoro::cycle::{advance, State};

#[test]
fn advance_last_pomodoro_opens_long_break() {
    assert_eq!(advance(State::Pomodoro(0), 4), State::LongBreak);
}

#[test]
fn advance_pomodoro_opens_short_break_and_counts_down() {
    assert_eq!(advance(State::Pomodoro(3), 4), State::ShortBreak(2));
    assert_eq!(advance(State::Pomodoro(1), 4), State::ShortBreak(0));
}

#[test]
fn advance_short_break_returns_to_work() {
    assert_eq!(advance(State::ShortBreak(2), 4), State::Pomodoro(2));
    assert_eq!(advance(State::ShortBreak(0), 4), State::Pomodoro(0));
}

#[test]
fn advance_long_break_starts_lap_at_threshold() {
    assert_eq!(advance(State::LongBreak, 7), State::Pomodoro(7));
    assert_eq!(advance(State::LongBreak, 0), State::Pomodoro(0));
}

#[test]
fn lap_round_trip_passes_long_break_once() {
    let threshold = 5;
    let k = 2;
    let mut state = State::Pomodoro(k);
    let mut long_breaks = 0;
    for _ in 0..(2 * k + 1) {
        state = advance(state, threshold);
        if state == State::LongBreak {
            long_breaks += 1;
        }
    }
    // 2k + 1 steps land on the lap's single long break...
    assert_eq!(state, State::LongBreak);
    // ...and one more step starts the next lap at the threshold.
    state = advance(state, threshold);
    if state == State::LongBreak {
        long_breaks += 1;
    }
    assert_eq!(state, State::Pomodoro(threshold));
    assert_eq!(long_breaks, 1);
}
