use vstd::prelude::*;

verus! {

/// The keys that the floating overlays respond to; every other key is
/// `Other`.
#[derive(Debug, Clone, Copy, PartialEq, Eq, Structural)]
pub enum KeyCode {
    Char(char),
    Escape,
    Enter,
    Backspace,
    UpArrow,
    DownArrow,
    Other,
}

/// The modifier keys held with a key press: exactly none, exactly Ctrl,
/// exactly Shift, or any other combination.
#[derive(Debug, Clone, Copy, PartialEq, Eq, Structural)]
pub enum KeyModifiers {
    Plain,
    Ctrl,
    Shift,
    Combination,
}

/// What a key press asks of the window that shows an overlay.
#[derive(Debug, Clone, PartialEq, Eq)]
pub enum KeyOutcome<T> {
    /// The overlay does not handle the key.
    Unhandled,
    /// The overlay handled the key and must be drawn again.
    Redraw,
    /// The overlay closes and hands this result to the waiting callback
    /// (`None` when it was cancelled).
    Finish(Option<T>),
}

/// The action that an overlay's key handler asked for, as it appears in
/// the key binding.
#[derive(Debug, Clone, PartialEq, Eq)]
pub enum InnerAction {
    /// `wezterm.action_callback`, which emits the named event.
    EmitEvent(String),
    /// Any other key assignment.
    Other,
}

/// Why a floating overlay could not be opened.
#[derive(Debug, Clone, Copy, PartialEq, Eq, Structural)]
pub enum ModalError {
    /// The inner action is not `wezterm.action_callback`.
    ActionNotCallback,
    /// The window has no active pane.
    NoActivePane,
}

/// Escape, or Ctrl-G: close the overlay without a result.
pub open spec fn is_cancel_key(key: KeyCode, mods: KeyModifiers) -> bool {
    (key == KeyCode::Escape && mods == KeyModifiers::Plain) || (key == KeyCode::Char('g') && mods
        == KeyModifiers::Ctrl)
}

/// Enter with no modifier: close the overlay with its result.
pub open spec fn is_accept_key(key: KeyCode, mods: KeyModifiers) -> bool {
    key == KeyCode::Enter && mods == KeyModifiers::Plain
}

pub fn cancel_key(key: KeyCode, mods: KeyModifiers) -> (b: bool)
    ensures
        b == is_cancel_key(key, mods),
{
    match (key, mods) {
        (KeyCode::Escape, KeyModifiers::Plain) => true,
        (KeyCode::Char(c), KeyModifiers::Ctrl) => c == 'g',
        _ => false,
    }
}

pub fn accept_key(key: KeyCode, mods: KeyModifiers) -> (b: bool)
    ensures
        b == is_accept_key(key, mods),
{
    match (key, mods) {
        (KeyCode::Enter, KeyModifiers::Plain) => true,
        _ => false,
    }
}

} // verus!
