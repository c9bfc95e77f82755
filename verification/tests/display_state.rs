use wezterm_gui::window_display_state::{load_display, LastSavedDisplay, WindowDisplayState};

#[test]
fn load_display_gives_the_recorded_name() {
    let state = WindowDisplayState {
        display: r"\\.\DISPLAY2".to_string(),
    };
    assert_eq!(
        load_display::<String>(Ok(state)),
        Some(r"\\.\DISPLAY2".to_string())
    );
}

#[test]
fn load_display_gives_none_on_error() {
    assert_eq!(load_display::<String>(Err("missing".to_string())), None);
}

#[test]
fn first_save_writes() {
    let saver = LastSavedDisplay::new(None);
    assert_eq!(
        saver.save_display_if_changed("DISPLAY1"),
        Some(WindowDisplayState {
            display: "DISPLAY1".to_string()
        })
    );
}

#[test]
fn saving_the_loaded_display_writes_nothing() {
    let saver = LastSavedDisplay::new(Some("DISPLAY1".to_string()));
    assert_eq!(saver.save_display_if_changed("DISPLAY1"), None);
    assert!(saver.save_display_if_changed("DISPLAY2").is_some());
}

#[test]
fn successful_save_is_not_repeated() {
    let mut saver = LastSavedDisplay::new(None);
    assert!(saver.save_display_if_changed("DISPLAY2").is_some());
    saver.record_save_result("DISPLAY2", true);
    assert_eq!(saver.last_saved(), Some(&"DISPLAY2".to_string()));
    assert_eq!(saver.save_display_if_changed("DISPLAY2"), None);
}

#[test]
fn failed_save_is_retried() {
    let mut saver = LastSavedDisplay::new(Some("DISPLAY1".to_string()));
    assert!(saver.save_display_if_changed("DISPLAY2").is_some());
    saver.record_save_result("DISPLAY2", false);
    assert_eq!(saver.last_saved(), Some(&"DISPLAY1".to_string()));
    assert!(saver.save_display_if_changed("DISPLAY2").is_some());
}

#[test]
fn switching_displays_writes_again() {
    let mut saver = LastSavedDisplay::new(None);
    saver.record_save_result("A", true);
    saver.record_save_result("B", true);
    assert!(saver.save_display_if_changed("A").is_some());
    assert_eq!(saver.save_display_if_changed("B"), None);
}
