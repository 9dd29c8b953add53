use tochat::view::{handle_key, ui, App, InputMode, Key, KeyOutcome, StatefulList};

fn app_with_messages(messages: Vec<&str>) -> App {
    let mut a = App::default();
    a.messages = StatefulList::with_items(messages.into_iter().map(String::from).collect());
    a
}

#[test]
fn default_app_is_empty_and_navigating() {
    let a = App::default();
    assert_eq!(a.input, "");
    assert!(matches!(a.input_mode, InputMode::Normal));
    assert!(a.messages.items.is_empty());
    assert_eq!(a.messages.selected, None);
    assert_eq!(a.remote_messages, "");
}

#[test]
fn list_navigation_saturates_at_both_ends() {
    let mut l: StatefulList<u32> = StatefulList::with_items(vec![10, 20, 30]);
    assert_eq!(l.selected, None);
    l.next();
    assert_eq!(l.selected, Some(0));
    l.next();
    l.next();
    l.next();
    assert_eq!(l.selected, Some(2));
    l.previous();
    assert_eq!(l.selected, Some(1));
    l.previous();
    l.previous();
    assert_eq!(l.selected, Some(0));
    l.end();
    assert_eq!(l.selected, Some(2));
    l.home();
    assert_eq!(l.selected, Some(0));
    l.unselect();
    assert_eq!(l.selected, None);
    l.previous();
    assert_eq!(l.selected, Some(0));
}

#[test]
fn empty_list_never_selects() {
    let mut l: StatefulList<u32> = StatefulList::with_items(Vec::new());
    l.next();
    assert_eq!(l.selected, None);
    l.previous();
    assert_eq!(l.selected, None);
    l.home();
    assert_eq!(l.selected, None);
    l.end();
    assert_eq!(l.selected, None);
}

#[test]
fn q_quits_and_i_starts_editing() {
    let mut a = App::default();
    assert_eq!(handle_key(&mut a, Key::Char('q'), "bob", 0, 0, 0), KeyOutcome::Quit);
    assert!(matches!(a.input_mode, InputMode::Normal));
    assert_eq!(handle_key(&mut a, Key::Char('i'), "bob", 0, 0, 0), KeyOutcome::Continue);
    assert!(matches!(a.input_mode, InputMode::Editing));
}

#[test]
fn navigation_keys_move_the_selection() {
    let mut a = app_with_messages(vec!["one", "two", "three"]);
    handle_key(&mut a, Key::Down, "bob", 0, 0, 0);
    assert_eq!(a.messages.selected, Some(0));
    handle_key(&mut a, Key::Char('j'), "bob", 0, 0, 0);
    assert_eq!(a.messages.selected, Some(1));
    handle_key(&mut a, Key::Up, "bob", 0, 0, 0);
    assert_eq!(a.messages.selected, Some(0));
    handle_key(&mut a, Key::End, "bob", 0, 0, 0);
    assert_eq!(a.messages.selected, Some(2));
    handle_key(&mut a, Key::Home, "bob", 0, 0, 0);
    assert_eq!(a.messages.selected, Some(0));
    handle_key(&mut a, Key::Char('k'), "bob", 0, 0, 0);
    assert_eq!(a.messages.selected, Some(0));
    handle_key(&mut a, Key::Left, "bob", 0, 0, 0);
    assert_eq!(a.messages.selected, None);
}

#[test]
fn typing_edits_the_input_line() {
    let mut a = App::default();
    handle_key(&mut a, Key::Char('i'), "bob", 0, 0, 0);
    for c in ['h', 'e', 'l', 'l', 'o'] {
        assert_eq!(handle_key(&mut a, Key::Char(c), "bob", 0, 0, 0), KeyOutcome::Continue);
    }
    assert_eq!(a.input, "hello");
    handle_key(&mut a, Key::Backspace, "bob", 0, 0, 0);
    assert_eq!(a.input, "hell");
    handle_key(&mut a, Key::Esc, "bob", 0, 0, 0);
    assert!(matches!(a.input_mode, InputMode::Normal));
    assert_eq!(a.input, "hell");
}

#[test]
fn backspace_on_empty_input_does_nothing() {
    let mut a = App::default();
    handle_key(&mut a, Key::Char('i'), "bob", 0, 0, 0);
    assert_eq!(handle_key(&mut a, Key::Backspace, "bob", 0, 0, 0), KeyOutcome::Continue);
    assert_eq!(a.input, "");
}

#[test]
fn enter_sends_the_encoded_line_and_records_a_local_echo() {
    let mut a = App::default();
    handle_key(&mut a, Key::Char('i'), "bob", 9, 5, 7);
    for c in ['h', 'i'] {
        handle_key(&mut a, Key::Char(c), "bob", 9, 5, 7);
    }
    let outcome = handle_key(&mut a, Key::Enter, "bob", 9, 5, 7);
    assert_eq!(outcome, KeyOutcome::Send(String::from("hi,bob")));
    assert_eq!(a.input, "");
    assert!(matches!(a.input_mode, InputMode::Editing));
    assert_eq!(a.messages.items, vec![String::from("bob 09:05:07 - hi")]);
    assert_eq!(a.messages.selected, Some(0));
}

#[test]
fn unbound_keys_change_nothing() {
    let mut a = app_with_messages(vec!["one"]);
    assert_eq!(handle_key(&mut a, Key::Other, "bob", 0, 0, 0), KeyOutcome::Continue);
    assert_eq!(handle_key(&mut a, Key::Enter, "bob", 0, 0, 0), KeyOutcome::Continue);
    assert_eq!(a.messages.items, vec![String::from("one")]);
    assert_eq!(a.input, "");
}

#[test]
fn view_model_splits_rows_at_the_first_dash() {
    let mut a = app_with_messages(vec!["bob 09:05:07 - hi", "plain"]);
    a.messages.selected = Some(1);
    let m = ui(&a);
    assert!(!m.editing);
    assert_eq!(m.selected, Some(1));
    assert_eq!(m.rows.len(), 2);
    assert_eq!(m.rows[0].0, b"bob 09:05:07 ".to_vec());
    assert_eq!(m.rows[0].1, b" hi".to_vec());
    assert_eq!(m.rows[1].0, b"plain".to_vec());
    assert!(m.rows[1].1.is_empty());
}

#[test]
fn view_model_carries_the_input_line_and_mode() {
    let mut a = App::default();
    handle_key(&mut a, Key::Char('i'), "bob", 0, 0, 0);
    handle_key(&mut a, Key::Char('x'), "bob", 0, 0, 0);
    let m = ui(&a);
    assert!(m.editing);
    assert_eq!(m.input_text, "x");
    assert!(m.rows.is_empty());
}
