use pomodoro::app::{App, Page, Tabs};
use pomodoro::cycle::State;

fn type_into_settings_field(app: &mut App, text: &str) {
    // Empty the field under the cursor, then type the text. Clearing on the
    // settings tab also clears the settings field under the cursor, so the
    // typed text replaces the old content.
    assert_eq!(app.tab_selected, Tabs::PomodoroSetting);
    app.clear_input_field();
    for c in text.chars() {
        app.push_user_input_field(c);
    }
}

#[test]
fn default_app_previews_full_work_interval() {
    let app = App::default();
    assert_eq!(app.state, State::Pomodoro(4));
    assert_eq!(app.get_time_left(), 25 * 60);
    assert_eq!(app.timer_setting.timer, 1500);
    assert_eq!(app.timer_setting.short_break, 300);
    assert_eq!(app.timer_setting.long_break, 900);
    assert_eq!(app.state_setting.pomodoro_per_long_break, 4);
    assert!(!app.should_quit);
    assert_eq!(app.page_selected, Page::Normal);
}

#[test]
fn set_timer_commits_default_form() {
    // The fresh form holds ("25", "5", "15", "4").
    let mut app = App::default();
    app.set_timer();
    assert_eq!(app.timer_setting.timer, 1500);
    assert_eq!(app.timer_setting.short_break, 300);
    assert_eq!(app.timer_setting.long_break, 900);
    assert_eq!(app.state_setting.pomodoro_per_long_break, 4);
    // The form keeps its text on success.
    let lines = app.timer_setting_input.display();
    assert_eq!(lines.0.1, "25");
    assert_eq!(lines.1.1, "5");
    assert_eq!(lines.2.1, "15");
    assert_eq!(lines.3.1, "4");
}

#[test]
fn set_timer_commits_typed_values() {
    let mut app = App::default();
    type_into_settings_field(&mut app, "30");
    app.select_next_field();
    type_into_settings_field(&mut app, "7");
    app.select_next_field();
    type_into_settings_field(&mut app, "20");
    app.select_next_field();
    type_into_settings_field(&mut app, "6");
    app.set_timer();
    assert_eq!(app.timer_setting.timer, 30 * 60);
    assert_eq!(app.timer_setting.short_break, 7 * 60);
    assert_eq!(app.timer_setting.long_break, 20 * 60);
    assert_eq!(app.state_setting.pomodoro_per_long_break, 6);
    assert_eq!(app.get_time_left(), 30 * 60);
}

#[test]
fn set_timer_parse_failure_resets_everything() {
    let mut app = App::default();
    type_into_settings_field(&mut app, "abc");
    app.set_timer();
    assert_eq!(app.timer_setting.timer, 1500);
    assert_eq!(app.timer_setting.short_break, 300);
    assert_eq!(app.timer_setting.long_break, 900);
    assert_eq!(app.state_setting.pomodoro_per_long_break, 4);
    // The whole form falls back to the default text.
    let lines = app.timer_setting_input.display();
    assert_eq!(lines.0.1, "25");
    assert_eq!(lines.1.1, "5");
    assert_eq!(lines.2.1, "15");
    assert_eq!(lines.3.1, "4");
}

#[test]
fn set_timer_ceiling_violation_resets_everything() {
    let mut app = App::default();
    // First commit distinct values, then break only the work field.
    type_into_settings_field(&mut app, "30");
    app.set_timer();
    assert_eq!(app.timer_setting.timer, 1800);
    type_into_settings_field(&mut app, "150");
    app.set_timer();
    // 150 parses but sits at or above the 100-minute ceiling: the same
    // full reset as a parse failure.
    assert_eq!(app.timer_setting.timer, 1500);
    assert_eq!(app.timer_setting.short_break, 300);
    assert_eq!(app.timer_setting.long_break, 900);
    assert_eq!(app.state_setting.pomodoro_per_long_break, 4);
    let lines = app.timer_setting_input.display();
    assert_eq!(lines.0.1, "25");
}

#[test]
fn set_timer_empty_field_resets_everything() {
    let mut app = App::default();
    app.clear_input_field();
    app.set_timer();
    assert_eq!(app.timer_setting.timer, 1500);
    let lines = app.timer_setting_input.display();
    assert_eq!(lines.0.1, "25");
}

#[test]
fn threshold_has_no_ceiling() {
    let mut app = App::default();
    app.select_prev_field();  // wraps from the timer field to the threshold field
    type_into_settings_field(&mut app, "500");
    app.set_timer();
    assert_eq!(app.state_setting.pomodoro_per_long_break, 500);
    assert_eq!(app.timer_setting.timer, 1500);
}

#[test]
fn abort_without_timer_changes_nothing() {
    let mut app = App::default();
    app.abort_timer();
    assert_eq!(app.state, State::Pomodoro(4));
    assert!(app.timer.is_none());
    assert_eq!(app.get_time_left(), 1500);
}

#[test]
fn abort_with_timer_skips_the_phase() {
    let mut app = App::default();
    app.launch_timer(0);
    assert!(app.timer.is_some());
    app.abort_timer();
    assert!(app.timer.is_none());
    assert_eq!(app.state, State::ShortBreak(3));
    // With no live timer the display previews the short break.
    assert_eq!(app.get_time_left(), 300);
}

#[test]
fn launch_is_guarded_against_double_start() {
    let mut app = App::default();
    app.launch_timer(0);
    app.update(10_000);
    app.update(10_000);
    assert_eq!(app.get_time_left(), 1490);
    // A second launch must not restart the running phase.
    app.launch_timer(20_000);
    app.update(20_000);
    app.update(20_000);
    assert_eq!(app.get_time_left(), 1480);
}

#[test]
fn toggle_twice_pauses_then_resumes() {
    let mut app = App::default();
    app.toggle_timer(0);
    assert!(app.timer.is_some());
    assert!(!app.timer.as_ref().unwrap().is_paused());
    app.toggle_timer(10);
    assert!(app.timer.as_ref().unwrap().is_paused());
    app.toggle_timer(20);
    assert!(!app.timer.as_ref().unwrap().is_paused());
}

#[test]
fn pause_timer_pauses_and_is_idempotent() {
    let mut app = App::default();
    app.pause_timer(0);
    assert!(app.timer.is_none());
    app.launch_timer(10);
    app.pause_timer(20);
    assert!(app.timer.as_ref().unwrap().is_paused());
    app.pause_timer(30);
    assert!(app.timer.as_ref().unwrap().is_paused());
}

#[test]
fn paused_app_timer_shows_frozen_time() {
    let mut app = App::default();
    app.launch_timer(0);
    app.update(100_000);
    assert_eq!(app.get_time_left(), 1400);
    app.pause_timer(100_000);
    app.update(200_000);
    app.update(900_000);
    assert_eq!(app.get_time_left(), 1400);
}

#[test]
fn finished_timer_advances_cycle_one_tick_later() {
    let mut app = App::default();
    app.launch_timer(0);
    // The full work interval passes; the first tick caches the overrun,
    // the second tick sees it and ends the phase.
    app.update(1_500_001);
    assert_eq!(app.state, State::Pomodoro(4));
    app.update(1_500_002);
    assert_eq!(app.state, State::ShortBreak(3));
    assert!(app.timer.is_none());
    assert_eq!(app.get_time_left(), 300);
}

#[test]
fn full_lap_through_timer_expiries() {
    let mut app = App::default();
    // Make the lap short: one pomodoro per long break.
    app.select_prev_field();
    type_into_settings_field(&mut app, "1");
    app.set_timer();
    assert_eq!(app.state_setting.pomodoro_per_long_break, 1);
    // The state captured at startup still owes 4 sessions this lap.
    let mut now = 0;
    let mut long_breaks = 0;
    for _ in 0..50 {
        app.launch_timer(now);
        now += 100 * 60 * 1000;
        app.update(now);
        app.update(now);
        if app.state == State::LongBreak {
            long_breaks += 1;
        }
        if long_breaks == 1 && app.state == State::Pomodoro(1) {
            break;
        }
    }
    // After the long break the new threshold takes effect.
    assert_eq!(long_breaks, 1);
    assert_eq!(app.state, State::Pomodoro(1));
}

#[test]
fn clock_never_runs_backwards() {
    let mut app = App::default();
    app.launch_timer(1000);
    app.update(2000);
    assert_eq!(app.get_time_left(), 1499);
    // An older sample is clamped to the newest one seen.
    app.update(0);
    assert_eq!(app.get_time_left(), 1499);
}

#[test]
fn delete_task_on_empty_list_is_noop() {
    let mut app = App::default();
    app.delete_task();
    assert_eq!(app.task_list.items.len(), 0);
    assert_eq!(app.task_list.state.selected(), None);
}

#[test]
fn add_task_takes_form_contents() {
    let mut app = App::default();
    app.tab_toggle();
    assert_eq!(app.tab_selected, Tabs::TaskManager);
    app.push_user_input_field('w');
    app.push_user_input_field('o');
    app.push_user_input_field('r');
    app.push_user_input_field('k');
    app.select_next_field();  // the estimate field follows the name field
    app.push_user_input_field('3');
    app.add_task();
    assert_eq!(app.task_list.items.len(), 1);
    assert_eq!(app.task_list.items[0].title(), "work");
    assert_eq!(app.task_list.items[0].pomodoros, 3);
    assert_eq!(app.task_list.items[0].notes, "");
}

#[test]
fn add_task_defaults_unparsable_estimate() {
    let mut app = App::default();
    app.tab_toggle();
    app.push_user_input_field('t');
    app.add_task();
    assert_eq!(app.task_list.items[0].pomodoros, 1);
}

#[test]
fn delete_selected_task_moves_selection_back() {
    let mut app = App::default();
    app.tab_toggle();
    for name in ['a', 'b', 'c'] {
        app.clear_input_field();
        app.push_user_input_field(name);
        app.add_task();
    }
    assert_eq!(app.task_list.items.len(), 3);
    app.task_list.next_entry();
    app.task_list.next_entry();
    assert_eq!(app.task_list.state.selected(), Some(1));
    app.delete_task();
    assert_eq!(app.task_list.items.len(), 2);
    assert_eq!(app.task_list.state.selected(), Some(0));
    assert_eq!(app.task_list.items[0].title(), "a");
    assert_eq!(app.task_list.items[1].title(), "c");
}

#[test]
fn deleting_the_only_task_clears_selection() {
    let mut app = App::default();
    app.tab_toggle();
    app.push_user_input_field('x');
    app.add_task();
    app.task_list.next_entry();
    assert_eq!(app.task_list.state.selected(), Some(0));
    app.delete_task();
    assert_eq!(app.task_list.items.len(), 0);
    assert_eq!(app.task_list.state.selected(), None);
}

#[test]
fn quit_leaves_help_before_quitting() {
    let mut app = App::default();
    app.open_help();
    assert_eq!(app.page_selected, Page::Help);
    app.quit();
    assert_eq!(app.page_selected, Page::Normal);
    assert!(!app.should_quit);
    app.quit();
    assert!(app.should_quit);
}

#[test]
fn settings_cursor_wraps_around_the_form() {
    let mut app = App::default();
    let lines = app.timer_setting_input.display();
    assert_eq!(lines.0.0, ">> Timer Length: ");
    assert_eq!(lines.1.0, "Short Break Length: ");
    app.select_next_field();
    let lines = app.timer_setting_input.display();
    assert_eq!(lines.0.0, "Timer Length: ");
    assert_eq!(lines.1.0, ">> Short Break Length: ");
    app.select_next_field();
    app.select_next_field();
    app.select_next_field();
    let lines = app.timer_setting_input.display();
    assert_eq!(lines.0.0, ">> Timer Length: ");
}

#[test]
fn pop_erases_one_character() {
    let mut app = App::default();
    app.pop_user_input_field();
    let lines = app.timer_setting_input.display();
    assert_eq!(lines.0.1, "2");
    app.pop_user_input_field();
    app.pop_user_input_field();
    let lines = app.timer_setting_input.display();
    assert_eq!(lines.0.1, "");
}

#[test]
fn clearing_on_task_tab_also_clears_settings_field() {
    let mut app = App::default();
    app.tab_toggle();
    app.push_user_input_field('n');
    let lines = app.task_manager_input.display();
    assert_eq!(lines.0.1, "n");
    app.clear_input_field();
    let lines = app.task_manager_input.display();
    assert_eq!(lines.0.1, "");
    // The settings field under the cursor is cleared as well.
    let lines = app.timer_setting_input.display();
    assert_eq!(lines.0.1, "");
}

#[test]
fn task_form_labels_mark_selection() {
    let mut app = App::default();
    app.tab_toggle();
    let lines = app.task_manager_input.display();
    assert_eq!(lines.0.0, ">> Task Name: ");
    assert_eq!(lines.1.0, "Est Pomodoros: ");
    assert_eq!(lines.2.0, "Task Notes:");
    app.select_next_field();
    let lines = app.task_manager_input.display();
    assert_eq!(lines.1.0, ">> Est Pomodoros: ");
}
