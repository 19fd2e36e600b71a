use todo_tracker::model::Focus;
use todo_tracker::model::InputMode;
use todo_tracker::model::Key;
use todo_tracker::state::App;

fn app_with_pending(items: &[&str]) -> App {
    let mut app = App::new();
    for it in items {
        app.append(it.to_string());
    }
    app
}

#[test]
fn new_app_is_empty_and_unselected() {
    let app = App::new();
    assert!(app.todos.is_empty());
    assert!(app.done.is_empty());
    assert_eq!(app.todo_cursor, None);
    assert_eq!(app.done_cursor, None);
    assert_eq!(app.focus, Focus::Pending);
    assert_eq!(app.input_mode, InputMode::Normal);
    assert_eq!(app.edit_target, None);
}

#[test]
fn move_selected_to_done() {
    let mut app = app_with_pending(&["a", "b"]);
    assert_eq!(app.todo_cursor, Some(0));
    app.move_to_done();
    assert_eq!(app.todos, vec!["b".to_string()]);
    assert_eq!(app.todo_cursor, Some(0));
    assert_eq!(app.done, vec!["a".to_string()]);
    assert_eq!(app.done_cursor, Some(0));
}

#[test]
fn delete_last_selected_steps_cursor_back() {
    let mut app = app_with_pending(&["a", "b", "c"]);
    app.next();
    app.next();
    assert_eq!(app.todo_cursor, Some(2));
    app.delete_selected();
    assert_eq!(app.todos, vec!["a".to_string(), "b".to_string()]);
    assert_eq!(app.todo_cursor, Some(1));
}

#[test]
fn empty_list_navigation_and_first_append() {
    let mut app = App::new();
    app.next();
    assert_eq!(app.todo_cursor, None);
    app.append("x".to_string());
    assert_eq!(app.todos, vec!["x".to_string()]);
    assert_eq!(app.todo_cursor, Some(0));
}

#[test]
fn delete_only_item_clears_selection() {
    let mut app = app_with_pending(&["a"]);
    app.delete_selected();
    assert!(app.todos.is_empty());
    assert_eq!(app.todo_cursor, None);
}

#[test]
fn move_only_item_clears_pending_selection() {
    let mut app = app_with_pending(&["a"]);
    app.move_to_done();
    assert!(app.todos.is_empty());
    assert_eq!(app.todo_cursor, None);
    assert_eq!(app.done, vec!["a".to_string()]);
    assert_eq!(app.done_cursor, Some(0));
}

#[test]
fn move_back_to_todo() {
    let mut app = app_with_pending(&["a", "b"]);
    app.move_to_done();
    app.switch_focus();
    assert_eq!(app.focus, Focus::Done);
    assert_eq!(app.done_cursor, Some(0));
    app.move_to_todo();
    assert_eq!(app.done, Vec::<String>::new());
    assert_eq!(app.done_cursor, None);
    assert_eq!(app.todos, vec!["b".to_string(), "a".to_string()]);
}

#[test]
fn navigation_wraps_both_ways() {
    let mut app = app_with_pending(&["a", "b", "c"]);
    app.previous();
    assert_eq!(app.todo_cursor, Some(2));
    app.next();
    assert_eq!(app.todo_cursor, Some(0));
    app.next();
    assert_eq!(app.todo_cursor, Some(1));
    app.previous();
    assert_eq!(app.todo_cursor, Some(0));
}

#[test]
fn switch_focus_to_empty_done_and_back() {
    let mut app = app_with_pending(&["a", "b"]);
    app.switch_focus();
    assert_eq!(app.focus, Focus::Done);
    assert_eq!(app.todo_cursor, None);
    assert_eq!(app.done_cursor, None);
    app.switch_focus();
    assert_eq!(app.focus, Focus::Pending);
    assert_eq!(app.todo_cursor, Some(0));
    assert_eq!(app.done_cursor, None);
}

#[test]
fn edit_done_item_via_target() {
    let mut app = app_with_pending(&["a", "y"]);
    app.move_to_done();
    app.move_to_done();
    assert_eq!(app.done, vec!["a".to_string(), "y".to_string()]);
    app.switch_focus();
    app.next();
    assert_eq!(app.done_cursor, Some(1));
    app.start_editing();
    assert_eq!(app.input_mode, InputMode::EditingExisting);
    assert_eq!(app.input, "y".to_string());
    app.input_backspace();
    app.input_char('z');
    assert_eq!(app.input, "z".to_string());
    app.finish_editing();
    assert_eq!(app.done[1], "z".to_string());
    assert_eq!(app.input_mode, InputMode::Normal);
    assert_eq!(app.input, String::new());
    assert_eq!(app.edit_target, None);
}

#[test]
fn cancel_edit_leaves_lists_identical() {
    let mut app = app_with_pending(&["a", "b"]);
    app.move_to_done();
    let todos_before = app.todos.clone();
    let done_before = app.done.clone();
    app.start_editing();
    app.input_char('x');
    app.input_char('y');
    app.cancel_editing();
    assert_eq!(app.todos, todos_before);
    assert_eq!(app.done, done_before);
    assert_eq!(app.input_mode, InputMode::Normal);
    assert_eq!(app.input, String::new());
    assert_eq!(app.edit_target, None);
}

#[test]
fn start_editing_without_selection_is_a_no_op() {
    let mut app = App::new();
    app.start_editing();
    assert_eq!(app.input_mode, InputMode::Normal);
    assert_eq!(app.edit_target, None);
}

#[test]
fn finish_editing_without_target_only_leaves_entry() {
    let mut app = app_with_pending(&["a"]);
    app.finish_editing();
    assert_eq!(app.todos, vec!["a".to_string()]);
    assert_eq!(app.input_mode, InputMode::Normal);
}

#[test]
fn backspace_on_empty_buffer_is_a_no_op() {
    let mut app = App::new();
    app.input_backspace();
    assert_eq!(app.input, String::new());
}

#[test]
fn append_empty_text_is_a_valid_item() {
    let mut app = App::new();
    app.append(String::new());
    assert_eq!(app.todos, vec![String::new()]);
    assert_eq!(app.todo_cursor, Some(0));
}

#[test]
fn keys_create_a_new_item() {
    let mut app = App::new();
    assert!(!app.handle_key(Key::Char('i')));
    assert_eq!(app.input_mode, InputMode::Creating);
    assert!(!app.handle_key(Key::Char('a')));
    assert!(!app.handle_key(Key::Char('b')));
    assert!(!app.handle_key(Key::Backspace));
    assert!(!app.handle_key(Key::Char('c')));
    assert!(!app.handle_key(Key::Enter));
    assert_eq!(app.input_mode, InputMode::Normal);
    assert_eq!(app.todos, vec!["ac".to_string()]);
    assert_eq!(app.todo_cursor, Some(0));
    assert_eq!(app.input, String::new());
}

#[test]
fn quit_key_only_quits_in_normal_mode() {
    let mut app = App::new();
    assert!(!app.handle_key(Key::Char('i')));
    assert!(!app.handle_key(Key::Char('q')));
    assert!(!app.handle_key(Key::Esc));
    assert_eq!(app.input_mode, InputMode::Normal);
    assert!(app.handle_key(Key::Char('q')));
}

#[test]
fn escape_while_creating_clears_the_buffer() {
    let mut app = App::new();
    app.handle_key(Key::Char('i'));
    app.handle_key(Key::Char('x'));
    app.handle_key(Key::Esc);
    assert_eq!(app.input_mode, InputMode::Normal);
    assert_eq!(app.input, String::new());
    assert!(app.todos.is_empty());
}

#[test]
fn keys_drive_navigation_moves_and_deletion() {
    let mut app = app_with_pending(&["a", "b", "c"]);
    app.handle_key(Key::Char('j'));
    assert_eq!(app.todo_cursor, Some(1));
    app.handle_key(Key::Char('k'));
    assert_eq!(app.todo_cursor, Some(0));
    app.handle_key(Key::Enter);
    assert_eq!(app.done, vec!["a".to_string()]);
    app.handle_key(Key::Char('d'));
    assert_eq!(app.todos, vec!["c".to_string()]);
    app.handle_key(Key::Tab);
    assert_eq!(app.focus, Focus::Done);
    app.handle_key(Key::Enter);
    assert_eq!(app.done, Vec::<String>::new());
    assert_eq!(app.todos, vec!["c".to_string(), "a".to_string()]);
}

#[test]
fn unbound_keys_change_nothing() {
    let mut app = app_with_pending(&["a"]);
    assert!(!app.handle_key(Key::Char('z')));
    assert!(!app.handle_key(Key::Other));
    assert!(!app.handle_key(Key::Backspace));
    assert_eq!(app.todos, vec!["a".to_string()]);
    assert_eq!(app.todo_cursor, Some(0));
    assert_eq!(app.input_mode, InputMode::Normal);
}

#[test]
fn keys_edit_an_existing_item() {
    let mut app = app_with_pending(&["old"]);
    app.handle_key(Key::Char('e'));
    assert_eq!(app.input_mode, InputMode::EditingExisting);
    assert_eq!(app.input, "old".to_string());
    for _ in 0..3 {
        app.handle_key(Key::Backspace);
    }
    app.handle_key(Key::Char('n'));
    app.handle_key(Key::Char('u'));
    app.handle_key(Key::Enter);
    assert_eq!(app.todos, vec!["nu".to_string()]);
    assert_eq!(app.input_mode, InputMode::Normal);
}
