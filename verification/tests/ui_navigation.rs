use pueue::ui::app::App;
use pueue::ui::{App as UiApp, UiKey};

#[test]
fn next_selects_first_greater_id() {
    let mut app = App { task_ids: vec![1, 3, 5], selected_task: 3 };
    app.next();
    assert_eq!(app.selected_task, 5);
}

#[test]
fn next_wraps_to_first_id() {
    let mut app = App { task_ids: vec![1, 3, 5], selected_task: 5 };
    app.next();
    assert_eq!(app.selected_task, 1);
}

#[test]
fn next_on_empty_list_keeps_selection() {
    let mut app = App { task_ids: vec![], selected_task: 7 };
    app.next();
    assert_eq!(app.selected_task, 7);
}

#[test]
fn previous_selects_last_smaller_id() {
    let mut app = App { task_ids: vec![1, 3, 5], selected_task: 3 };
    app.previous();
    assert_eq!(app.selected_task, 1);
    let mut app = App { task_ids: vec![1, 3, 5], selected_task: 5 };
    app.previous();
    assert_eq!(app.selected_task, 3);
}

#[test]
fn previous_wraps_to_last_id() {
    // The smallest id is already selected.
    let mut app = App { task_ids: vec![1, 3, 5], selected_task: 1 };
    app.previous();
    assert_eq!(app.selected_task, 5);
    // Every id is below the selection.
    let mut app = App { task_ids: vec![1, 3, 5], selected_task: 9 };
    app.previous();
    assert_eq!(app.selected_task, 5);
}

#[test]
fn previous_on_empty_list_keeps_selection() {
    let mut app = App { task_ids: vec![], selected_task: 7 };
    app.previous();
    assert_eq!(app.selected_task, 7);
}

#[test]
fn update_task_ids_replaces_the_list() {
    let mut app = App { task_ids: vec![1, 2], selected_task: 1 };
    app.update_task_ids(vec![4, 5, 6]);
    assert_eq!(app.task_ids, vec![4, 5, 6]);
    assert_eq!(app.selected_task, 1);
}

#[test]
fn keys_move_the_selection() {
    let mut app = UiApp { selected_task: 5 };
    assert!(!app.handle_key(UiKey::Char('j')));
    assert_eq!(app.selected_task, 4);
    assert!(!app.handle_key(UiKey::Char('k')));
    assert_eq!(app.selected_task, 5);
    assert!(!app.handle_key(UiKey::Down));
    assert_eq!(app.selected_task, 4);
    assert!(!app.handle_key(UiKey::Up));
    assert_eq!(app.selected_task, 5);
}

#[test]
fn quit_key_quits_and_others_do_nothing() {
    let mut app = UiApp { selected_task: 5 };
    assert!(app.handle_key(UiKey::Char('q')));
    assert_eq!(app.selected_task, 5);
    assert!(!app.handle_key(UiKey::Char('x')));
    assert_eq!(app.selected_task, 5);
    assert!(!app.handle_key(UiKey::Other));
    assert_eq!(app.selected_task, 5);
}
