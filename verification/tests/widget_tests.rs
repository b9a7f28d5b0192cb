use pomodoro::digits::{get_digit, time_convert, EIGHT, FIVE, NINE, ONE, TWO, ZERO};
use pomodoro::task_list::{StatefulList, Task};

#[test]
fn digit_glyphs_are_looked_up() {
    assert_eq!(get_digit(0), ZERO);
    assert_eq!(get_digit(1), ONE);
    assert_eq!(get_digit(9), NINE);
}

#[test]
fn time_convert_splits_minutes_and_seconds() {
    // 25 minutes even.
    assert_eq!(time_convert(25 * 60), (TWO, FIVE, ZERO, ZERO));
    // 21 minutes 58 seconds.
    assert_eq!(time_convert(21 * 60 + 58), (TWO, ONE, FIVE, EIGHT));
    // Under a minute.
    assert_eq!(time_convert(9), (ZERO, ZERO, ZERO, NINE));
    assert_eq!(time_convert(0), (ZERO, ZERO, ZERO, ZERO));
    // The largest displayable time: 99 minutes 59 seconds.
    assert_eq!(time_convert(99 * 60 + 59), (NINE, NINE, FIVE, NINE));
}

fn named_tasks(names: &[&str]) -> Vec<Task> {
    names
        .iter()
        .map(|n| Task::new((*n).to_string(), String::new(), 1))
        .collect()
}

#[test]
fn with_items_selects_the_first_entry() {
    let list = StatefulList::with_items(named_tasks(&["a", "b"]));
    assert_eq!(list.state.selected(), Some(0));
    assert_eq!(list.items.len(), 2);
}

#[test]
fn with_items_on_empty_list_selects_nothing() {
    let list = StatefulList::with_items(named_tasks(&[]));
    assert_eq!(list.state.selected(), None);
}

#[test]
fn next_and_previous_wrap_around() {
    let mut list = StatefulList::with_items(named_tasks(&["a", "b", "c"]));
    list.next_entry();
    assert_eq!(list.state.selected(), Some(1));
    list.next_entry();
    assert_eq!(list.state.selected(), Some(2));
    list.next_entry();
    assert_eq!(list.state.selected(), Some(0));
    list.previous_entry();
    assert_eq!(list.state.selected(), Some(2));
}

#[test]
fn moving_on_an_empty_list_is_harmless() {
    let mut list: StatefulList<Task> = StatefulList::default();
    list.next_entry();
    assert_eq!(list.state.selected(), None);
    list.previous_entry();
    assert_eq!(list.state.selected(), None);
}

#[test]
fn unselect_clears_the_selection() {
    let mut list = StatefulList::with_items(named_tasks(&["a"]));
    assert_eq!(list.state.selected(), Some(0));
    list.unselect();
    assert_eq!(list.state.selected(), None);
}

#[test]
fn moving_from_no_selection_picks_first_visible_entry() {
    let mut list = StatefulList::with_items(named_tasks(&["a", "b"]));
    list.unselect();
    list.next_entry();
    assert_eq!(list.state.selected(), Some(0));
}

#[test]
fn task_accessors_round_trip() {
    let task = Task::new("read".to_string(), "chapter two".to_string(), 2);
    assert_eq!(task.title(), "read");
    assert_eq!(task.notes, "chapter two");
    assert_eq!(task.pomodoros, 2);
    let fallback = Task::default();
    assert_eq!(fallback.title(), "");
    assert_eq!(fallback.pomodoros, 1);
}
