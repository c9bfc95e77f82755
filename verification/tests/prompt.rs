use wezterm_gui::keys::{InnerAction, KeyCode, KeyModifiers, KeyOutcome, ModalError};
use wezterm_gui::prompt_modal::FloatingPromptInputLine;

fn prompt(initial: Option<&str>) -> FloatingPromptInputLine {
    FloatingPromptInputLine::new(
        "Rename tab\nEnter a name".to_string(),
        "> ".to_string(),
        InnerAction::EmitEvent("renamed".to_string()),
        Some(4),
        initial.map(|s| s.to_string()),
    )
    .ok()
    .unwrap()
}

fn type_str(p: &mut FloatingPromptInputLine, s: &str) {
    for c in s.chars() {
        assert_eq!(p.key_down(KeyCode::Char(c), KeyModifiers::Plain), KeyOutcome::Redraw);
    }
}

#[test]
fn prompt_new_needs_an_action_callback() {
    let r = FloatingPromptInputLine::new(
        String::new(),
        String::new(),
        InnerAction::Other,
        Some(1),
        None,
    );
    assert_eq!(r.err(), Some(ModalError::ActionNotCallback));
}

#[test]
fn prompt_new_needs_an_active_pane() {
    let r = FloatingPromptInputLine::new(
        String::new(),
        String::new(),
        InnerAction::EmitEvent("e".to_string()),
        None,
        None,
    );
    assert_eq!(r.err(), Some(ModalError::NoActivePane));
}

#[test]
fn new_starts_from_the_initial_value() {
    assert_eq!(prompt(Some("abc")).input(), "abc");
    assert_eq!(prompt(None).input(), "");
    let p = prompt(None);
    assert_eq!(p.event_name(), "renamed");
    assert_eq!(p.mux_pane(), 4);
    assert_eq!(p.prompt(), "> ");
}

#[test]
fn typing_appends_characters() {
    let mut p = prompt(Some("x"));
    type_str(&mut p, "yz");
    assert_eq!(
        p.key_down(KeyCode::Char('W'), KeyModifiers::Shift),
        KeyOutcome::Redraw
    );
    assert_eq!(p.input(), "xyzW");
}

#[test]
fn backspace_removes_the_last_character() {
    let mut p = prompt(Some("héllo"));
    assert_eq!(
        p.key_down(KeyCode::Backspace, KeyModifiers::Plain),
        KeyOutcome::Redraw
    );
    assert_eq!(p.input(), "héll");
}

#[test]
fn backspace_undoes_typing() {
    let mut p = prompt(Some("ab"));
    type_str(&mut p, "é");
    p.key_down(KeyCode::Backspace, KeyModifiers::Plain);
    assert_eq!(p.input(), "ab");
}

#[test]
fn backspace_on_empty_line_changes_nothing() {
    let mut p = prompt(None);
    assert_eq!(
        p.key_down(KeyCode::Backspace, KeyModifiers::Plain),
        KeyOutcome::Redraw
    );
    assert_eq!(p.input(), "");
}

#[test]
fn ctrl_u_clears_the_line() {
    let mut p = prompt(Some("something"));
    assert_eq!(
        p.key_down(KeyCode::Char('u'), KeyModifiers::Ctrl),
        KeyOutcome::Redraw
    );
    assert_eq!(p.input(), "");
}

#[test]
fn enter_hands_over_the_line() {
    let mut p = prompt(Some("ta"));
    type_str(&mut p, "b");
    assert_eq!(
        p.key_down(KeyCode::Enter, KeyModifiers::Plain),
        KeyOutcome::Finish(Some("tab".to_string()))
    );
}

#[test]
fn prompt_escape_and_ctrl_g_cancel() {
    let mut p = prompt(Some("x"));
    assert_eq!(
        p.key_down(KeyCode::Escape, KeyModifiers::Plain),
        KeyOutcome::Finish(None)
    );
    assert_eq!(
        p.key_down(KeyCode::Char('g'), KeyModifiers::Ctrl),
        KeyOutcome::Finish(None)
    );
    assert_eq!(p.input(), "x");
}

#[test]
fn plain_g_and_u_are_typed() {
    let mut p = prompt(None);
    type_str(&mut p, "gu");
    assert_eq!(p.input(), "gu");
}

#[test]
fn prompt_other_keys_are_not_handled() {
    let mut p = prompt(Some("x"));
    for (k, m) in [
        (KeyCode::Char('a'), KeyModifiers::Ctrl),
        (KeyCode::Char('a'), KeyModifiers::Combination),
        (KeyCode::UpArrow, KeyModifiers::Plain),
        (KeyCode::Backspace, KeyModifiers::Shift),
        (KeyCode::Enter, KeyModifiers::Shift),
        (KeyCode::Other, KeyModifiers::Plain),
    ] {
        assert_eq!(p.key_down(k, m), KeyOutcome::Unhandled);
    }
    assert_eq!(p.input(), "x");
}

#[test]
fn content_is_description_lines_then_prompt_line() {
    let mut p = prompt(Some("ab"));
    type_str(&mut p, "c");
    assert_eq!(
        p.content_lines(),
        vec![
            "Rename tab".to_string(),
            "Enter a name".to_string(),
            "> abc_".to_string()
        ]
    );
}
