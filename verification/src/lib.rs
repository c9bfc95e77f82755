//! Verified core of WezTerm's floating overlays, display bookkeeping and
//! screen lookup: the decisions and arithmetic that the GUI layer acts on.

pub mod floating_container;
pub mod keys;
pub mod prompt_modal;
pub mod screen;
pub mod selector_modal;
pub mod text;
pub mod window_display_state;
