# wezterm_gui (verified core)

The decisions behind WezTerm's floating overlays, display bookkeeping and
screen lookup, proved with Verus.

- `src/selector_modal.rs`: the input selector: selection, scrolling window,
  key handling, the rows and header it draws, with laws on moving up/down.
- `src/prompt_modal.rs`: the one-line prompt: editing keys and its content.
- `src/floating_container.rs`: width, colors and layers of a floating frame.
- `src/window_display_state.rs`: when the display state file is written.
- `src/screen.rs`: which display holds a window (through `euclid`).
- `src/text.rs`, `src/keys.rs`: line splitting and key classification.
- `app/`: file I/O, serde, platform types and floating point geometry.
