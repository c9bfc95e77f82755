use wezterm_gui::keys::{InnerAction, KeyCode, KeyModifiers, KeyOutcome, ModalError};
use wezterm_gui::selector_modal::{FloatingInputSelector, InputSelectorEntry, VisibleRow};

fn entry(label: &str) -> InputSelectorEntry {
    InputSelectorEntry {
        label: label.to_string(),
        id: Some(format!("id-{}", label)),
    }
}

fn selector(n: usize) -> FloatingInputSelector {
    let choices = (0..n).map(|i| entry(&format!("choice {}", i))).collect();
    FloatingInputSelector::new(
        "Title".to_string(),
        "first\nsecond".to_string(),
        choices,
        InnerAction::EmitEvent("picked".to_string()),
        Some(7),
    )
    .ok()
    .unwrap()
}

fn down(s: &mut FloatingInputSelector) {
    assert_eq!(
        s.key_down(KeyCode::DownArrow, KeyModifiers::Plain),
        KeyOutcome::Redraw
    );
}

fn up(s: &mut FloatingInputSelector) {
    assert_eq!(
        s.key_down(KeyCode::UpArrow, KeyModifiers::Plain),
        KeyOutcome::Redraw
    );
}

#[test]
fn selector_new_needs_an_action_callback() {
    let r = FloatingInputSelector::new(
        String::new(),
        String::new(),
        vec![entry("a")],
        InnerAction::Other,
        Some(1),
    );
    assert_eq!(r.err(), Some(ModalError::ActionNotCallback));
}

#[test]
fn new_checks_the_action_before_the_pane() {
    let r = FloatingInputSelector::new(
        String::new(),
        String::new(),
        vec![entry("a")],
        InnerAction::Other,
        None,
    );
    assert_eq!(r.err(), Some(ModalError::ActionNotCallback));
}

#[test]
fn selector_new_needs_an_active_pane() {
    let r = FloatingInputSelector::new(
        String::new(),
        String::new(),
        vec![entry("a")],
        InnerAction::EmitEvent("e".to_string()),
        None,
    );
    assert_eq!(r.err(), Some(ModalError::NoActivePane));
}

#[test]
fn new_starts_at_the_first_choice() {
    let s = selector(3);
    assert_eq!(s.selected_row(), 0);
    assert_eq!(s.top_row(), 0);
    assert_eq!(s.max_rows_on_screen(), 0);
    assert_eq!(s.event_name(), "picked");
    assert_eq!(s.mux_pane(), 7);
    assert_eq!(s.title(), "Title");
    assert_eq!(s.choices().len(), 3);
}

#[test]
fn rows_on_screen_keeps_four_rows_for_the_frame() {
    let mut s = selector(3);
    assert_eq!(s.update_max_rows_on_screen(200, 20), 6);
    assert_eq!(s.max_rows_on_screen(), 6);
    assert_eq!(s.update_max_rows_on_screen(79, 20), 0);
    assert_eq!(s.update_max_rows_on_screen(99, 20), 0);
    assert_eq!(s.update_max_rows_on_screen(100, 20), 1);
}

#[test]
fn move_down_stops_at_the_last_choice() {
    let mut s = selector(3);
    down(&mut s);
    down(&mut s);
    assert_eq!(s.selected_row(), 2);
    down(&mut s);
    assert_eq!(s.selected_row(), 2);
}

#[test]
fn move_up_stops_at_the_first_choice() {
    let mut s = selector(3);
    up(&mut s);
    assert_eq!(s.selected_row(), 0);
    assert_eq!(s.top_row(), 0);
}

#[test]
fn ctrl_n_and_ctrl_p_move_too() {
    let mut s = selector(3);
    assert_eq!(
        s.key_down(KeyCode::Char('n'), KeyModifiers::Ctrl),
        KeyOutcome::Redraw
    );
    assert_eq!(s.selected_row(), 1);
    assert_eq!(
        s.key_down(KeyCode::Char('p'), KeyModifiers::Ctrl),
        KeyOutcome::Redraw
    );
    assert_eq!(s.selected_row(), 0);
}

#[test]
fn window_scrolls_to_keep_the_selection_visible() {
    let mut s = selector(10);
    s.update_max_rows_on_screen(140, 20); // 3 rows
    down(&mut s);
    down(&mut s);
    assert_eq!((s.selected_row(), s.top_row()), (2, 0));
    down(&mut s);
    assert_eq!((s.selected_row(), s.top_row()), (3, 1));
    down(&mut s);
    assert_eq!((s.selected_row(), s.top_row()), (4, 2));
    up(&mut s);
    up(&mut s);
    assert_eq!((s.selected_row(), s.top_row()), (2, 2));
    up(&mut s);
    assert_eq!((s.selected_row(), s.top_row()), (1, 1));
}

#[test]
fn without_room_the_window_does_not_scroll_down() {
    let mut s = selector(5);
    down(&mut s);
    down(&mut s);
    assert_eq!((s.selected_row(), s.top_row()), (2, 0));
}

#[test]
fn down_then_up_and_up_then_down_undo_each_other() {
    let mut s = selector(6);
    s.update_max_rows_on_screen(120, 20); // 2 rows
    down(&mut s);
    down(&mut s);
    let row = s.selected_row();
    up(&mut s);
    down(&mut s);
    assert_eq!(s.selected_row(), row);
    down(&mut s);
    up(&mut s);
    assert_eq!(s.selected_row(), row);
}

#[test]
fn enter_picks_the_selected_choice() {
    let mut s = selector(3);
    down(&mut s);
    match s.key_down(KeyCode::Enter, KeyModifiers::Plain) {
        KeyOutcome::Finish(Some(e)) => {
            assert_eq!(e.label, "choice 1");
            assert_eq!(e.id, Some("id-choice 1".to_string()));
        }
        other => panic!("unexpected {:?}", other),
    }
}

#[test]
fn enter_without_choices_gives_nothing() {
    let mut s = selector(0);
    down(&mut s);
    assert_eq!(s.selected_row(), 0);
    assert_eq!(
        s.key_down(KeyCode::Enter, KeyModifiers::Plain),
        KeyOutcome::Finish(None)
    );
}

#[test]
fn selector_escape_and_ctrl_g_cancel() {
    let mut s = selector(3);
    assert_eq!(
        s.key_down(KeyCode::Escape, KeyModifiers::Plain),
        KeyOutcome::Finish(None)
    );
    assert_eq!(
        s.key_down(KeyCode::Char('g'), KeyModifiers::Ctrl),
        KeyOutcome::Finish(None)
    );
}

#[test]
fn selector_other_keys_are_not_handled() {
    let mut s = selector(3);
    for (k, m) in [
        (KeyCode::Char('j'), KeyModifiers::Plain),
        (KeyCode::Char('g'), KeyModifiers::Plain),
        (KeyCode::Escape, KeyModifiers::Shift),
        (KeyCode::Enter, KeyModifiers::Ctrl),
        (KeyCode::DownArrow, KeyModifiers::Combination),
        (KeyCode::Other, KeyModifiers::Plain),
        (KeyCode::Backspace, KeyModifiers::Plain),
    ] {
        assert_eq!(s.key_down(k, m), KeyOutcome::Unhandled);
        assert_eq!((s.selected_row(), s.top_row()), (0, 0));
    }
}

#[test]
fn visible_rows_start_at_the_top_row_and_mark_the_selection() {
    let mut s = selector(10);
    s.update_max_rows_on_screen(140, 20); // 3 rows
    for _ in 0..4 {
        down(&mut s);
    }
    assert_eq!(
        s.visible_rows(),
        vec![
            VisibleRow { index: 2, selected: false },
            VisibleRow { index: 3, selected: false },
            VisibleRow { index: 4, selected: true },
        ]
    );
}

#[test]
fn visible_rows_show_at_least_one_row() {
    let s = selector(4);
    assert_eq!(
        s.visible_rows(),
        vec![VisibleRow { index: 0, selected: true }]
    );
}

#[test]
fn visible_rows_stop_at_the_last_choice() {
    let mut s = selector(2);
    s.update_max_rows_on_screen(400, 20);
    assert_eq!(
        s.visible_rows(),
        vec![
            VisibleRow { index: 0, selected: true },
            VisibleRow { index: 1, selected: false },
        ]
    );
    assert!(selector(0).visible_rows().is_empty());
}

#[test]
fn header_has_title_then_description_lines() {
    let s = selector(1);
    assert_eq!(
        s.header_lines(),
        vec!["Title".to_string(), "first".to_string(), "second".to_string()]
    );
    let bare = FloatingInputSelector::new(
        String::new(),
        String::new(),
        vec![],
        InnerAction::EmitEvent("e".to_string()),
        Some(1),
    )
    .ok()
    .unwrap();
    assert!(bare.header_lines().is_empty());
}
