use pomodoro::timer::Timer;

#[test]
fn fresh_timer_has_full_time_left() {
    let timer = Timer::new(5000, 0);
    assert_eq!(timer.get_time_left(), 5000);
    assert!(!timer.is_finished());
    assert!(!timer.is_paused());
}

#[test]
fn fresh_timer_zero_duration() {
    let timer = Timer::new(0, 77);
    assert_eq!(timer.get_time_left(), 0);
    assert!(!timer.is_finished());
}

#[test]
fn update_counts_running_time() {
    let mut timer = Timer::new(5000, 100);
    timer.update(1100);
    assert_eq!(timer.get_time_left(), 4000);
    assert!(!timer.is_finished());
}

#[test]
fn paused_time_is_excluded_from_elapsed() {
    let mut timer = Timer::new(5000, 100);
    timer.update(1100);
    timer.pause(1600);
    assert!(timer.is_paused());
    timer.resume(3600);
    assert!(!timer.is_paused());
    timer.update(5100);
    // 5000 ms on the wall clock, 2000 of them paused.
    assert_eq!(timer.get_time_left(), 2000);
}

#[test]
fn time_left_frozen_while_paused() {
    let mut timer = Timer::new(5000, 0);
    timer.update(1000);
    assert_eq!(timer.get_time_left(), 4000);
    timer.pause(1500);
    timer.update(2000);
    timer.update(9000);
    timer.update(100000);
    assert_eq!(timer.get_time_left(), 4000);
    assert!(!timer.is_finished());
}

#[test]
fn pause_is_idempotent() {
    let mut timer = Timer::new(10000, 0);
    timer.pause(100);
    timer.pause(200);
    timer.resume(300);
    timer.update(400);
    // The pause ran from 100 to 300; the second pause call changed nothing.
    assert_eq!(timer.get_time_left(), 10000 - 200);
}

#[test]
fn resume_is_idempotent() {
    let mut timer = Timer::new(10000, 0);
    timer.resume(100);
    assert!(!timer.is_paused());
    timer.update(200);
    assert_eq!(timer.get_time_left(), 9800);
}

#[test]
fn two_pause_resume_rounds_accumulate() {
    let mut timer = Timer::new(10000, 0);
    timer.pause(1000);
    timer.resume(1500);
    timer.pause(2000);
    timer.resume(4500);
    timer.update(5000);
    // Gaps: 500 + 2500 = 3000 paused out of 5000 on the wall clock.
    assert_eq!(timer.get_time_left(), 10000 - 2000);
}

#[test]
fn exactly_equal_elapsed_is_not_finished() {
    let mut timer = Timer::new(1000, 0);
    timer.update(1000);
    assert_eq!(timer.get_time_left(), 0);
    assert!(!timer.is_finished());
    timer.update(1001);
    assert!(timer.is_finished());
}

#[test]
fn finishing_needs_an_update() {
    let mut timer = Timer::new(10, 0);
    // Wall-clock time is far past the duration, but nothing was updated.
    assert!(!timer.is_finished());
    timer.update(5000);
    assert!(timer.is_finished());
}

#[test]
fn time_left_saturates_at_zero() {
    let mut timer = Timer::new(1000, 0);
    timer.update(50000);
    assert_eq!(timer.get_time_left(), 0);
    assert!(timer.is_finished());
}
