use vstd::prelude::*;

verus! {

/// How a modal asks for its floating frame. `F` is the font, `C` a color and
/// `D` a configured dimension, as the GUI layer holds them.
pub struct FloatingContainerOptions<F, C, D> {
    pub font: F,
    /// The modal's own background color; the overlay configuration's color,
    /// when set, wins over it.
    pub bg_color: Option<C>,
    pub text_color: C,
    /// The modal's own border color; the overlay configuration's top border
    /// color, when set, wins over it, and without either the border takes
    /// the background color.
    pub border_color: Option<C>,
    /// A width that wins over the configured overlay width.
    pub width_override: Option<D>,
    pub zindex: i8,
}

impl<F, C: Copy, D> FloatingContainerOptions<F, C, D> {
    /// The options a prompt asks for: its own background and border color
    /// (the command palette's background), no width of its own, drawn at
    /// depth 100.
    pub fn for_prompt(font: F, bg: C, fg: C) -> (r: Self)
        ensures
            r.font == font,
            r.bg_color == Some(bg),
            r.text_color == fg,
            r.border_color == Some(bg),
            r.width_override is None,
            r.zindex == 100,
    {
        FloatingContainerOptions {
            font,
            bg_color: Some(bg),
            text_color: fg,
            border_color: Some(bg),
            width_override: None,
            zindex: 100,
        }
    }
}

impl<F, C, D> FloatingContainerOptions<F, C, D> {
    /// The options an input selector asks for: no colors of its own beyond
    /// its text color, no width of its own, drawn at depth 100.
    pub fn for_selector(font: F, fg: C) -> (r: Self)
        ensures
            r.font == font,
            r.bg_color is None,
            r.text_color == fg,
            r.border_color is None,
            r.width_override is None,
            r.zindex == 100,
    {
        FloatingContainerOptions {
            font,
            bg_color: None,
            text_color: fg,
            border_color: None,
            width_override: None,
            zindex: 100,
        }
    }
}

/// The frame width, in cells, used when no width is configured: a third of
/// the columns, at least 120, but never wider than the terminal.
pub open spec fn spec_default_width_cells(cols: nat) -> nat {
    let third = cols / 3;
    let wide: nat = if third > 120 {
        third
    } else {
        120
    };
    if wide < cols {
        wide
    } else {
        cols
    }
}

pub fn default_width_cells(cols: usize) -> (r: usize)
    ensures
        r == spec_default_width_cells(cols as nat),
        r <= cols,
        cols < 120 ==> r == cols,
        cols >= 120 && cols / 3 <= 120 ==> r == 120,
        cols / 3 > 120 ==> r == cols / 3,
{
    let third = cols / 3;
    let wide = if third > 120 {
        third
    } else {
        120
    };
    if wide < cols {
        wide
    } else {
        cols
    }
}

/// The first of `preferred` and `fallback` that is set, else `default`.
pub open spec fn first_set<T>(preferred: Option<T>, fallback: Option<T>, default: T) -> T {
    match preferred {
        Some(v) => v,
        None => match fallback {
            Some(v) => v,
            None => default,
        },
    }
}

/// How wide the frame is.
#[derive(Debug, Clone, Copy, PartialEq, Eq)]
pub enum FrameWidth<D> {
    /// A configured dimension, evaluated against the terminal width.
    Dimension(D),
    /// A number of cells.
    Cells(usize),
}

/// What is drawn for the frame, from the bottom up.
#[derive(Debug, Clone, Copy, PartialEq, Eq, Structural)]
pub enum Layer {
    /// An opaque copy of the frame's shape in the terminal's background
    /// color, so that a translucent frame does not show the desktop.
    Backdrop,
    /// The frame with the modal's content.
    Frame,
}

/// The decisions behind a floating frame, before any pixel is computed.
pub struct ContainerPlan<C, D> {
    pub width: FrameWidth<D>,
    pub bg_color: C,
    pub border_color: C,
    /// The layers to draw, the lowest first.
    pub layers: Vec<Layer>,
    /// The tab bar's height is added above the frame's area.
    pub tab_bar_on_top: bool,
}

/// The layers of a frame: a backdrop under it exactly when the window is
/// itself translucent.
pub open spec fn spec_layers(window_is_transparent: bool) -> Seq<Layer> {
    if window_is_transparent {
        seq![Layer::Backdrop, Layer::Frame]
    } else {
        seq![Layer::Frame]
    }
}

/// Decides the width, colors and layers of a floating frame from the
/// modal's options and the overlay configuration (`overlay_width`,
/// `overlay_bg_color`, `overlay_border_top_color`), with `palette_bg` as
/// the last resort for the background.
pub fn plan_container<F, C: Copy, D: Copy>(
    opts: &FloatingContainerOptions<F, C, D>,
    overlay_width: Option<D>,
    overlay_bg_color: Option<C>,
    overlay_border_top_color: Option<C>,
    palette_bg: C,
    cols: usize,
    window_is_transparent: bool,
    show_tab_bar: bool,
    tab_bar_at_bottom: bool,
) -> (r: ContainerPlan<C, D>)
    ensures
        r.width == (match opts.width_override {
            Some(d) => FrameWidth::Dimension(d),
            None => match overlay_width {
                Some(d) => FrameWidth::Dimension(d),
                None => FrameWidth::<D>::Cells(spec_default_width_cells(cols as nat) as usize),
            },
        }),
        r.bg_color == first_set(overlay_bg_color, opts.bg_color, palette_bg),
        r.border_color == first_set(overlay_border_top_color, opts.border_color, r.bg_color),
        r.layers@ == spec_layers(window_is_transparent),
        r.tab_bar_on_top == (show_tab_bar && !tab_bar_at_bottom),
        overlay_bg_color is Some ==> r.bg_color == overlay_bg_color->0,
        overlay_bg_color is None && opts.bg_color is Some ==> r.bg_color == opts.bg_color->0,
        overlay_bg_color is None && opts.bg_color is None ==> r.bg_color == palette_bg,
        overlay_border_top_color is Some ==> r.border_color == overlay_border_top_color->0,
        overlay_border_top_color is None && opts.border_color is Some ==> r.border_color
            == opts.border_color->0,
        overlay_border_top_color is None && opts.border_color is None ==> r.border_color
            == r.bg_color,
        opts.width_override is Some ==> r.width == FrameWidth::Dimension(opts.width_override->0),
        opts.width_override is None && overlay_width is Some ==> r.width == FrameWidth::Dimension(
            overlay_width->0,
        ),
        opts.width_override is None && overlay_width is None ==> (r.width matches FrameWidth::Cells(
            n,
        ) && n <= cols && (cols >= 120 ==> n >= 120) && (n > 120 ==> n == cols / 3) && (cols
            < 120 ==> n == cols) && (cols / 3 <= 120 && cols >= 120 ==> n == 120)),
{
    proof {
        lemma_first_set_prefers_in_order(overlay_bg_color, opts.bg_color, palette_bg);
        lemma_default_width_bounds(cols as nat);
    }
    let width = match opts.width_override {
        Some(d) => FrameWidth::Dimension(d),
        None => match overlay_width {
            Some(d) => FrameWidth::Dimension(d),
            None => FrameWidth::Cells(default_width_cells(cols)),
        },
    };
    let bg_color = match overlay_bg_color {
        Some(c) => c,
        None => match opts.bg_color {
            Some(c) => c,
            None => palette_bg,
        },
    };
    let border_color = match overlay_border_top_color {
        Some(c) => c,
        None => match opts.border_color {
            Some(c) => c,
            None => bg_color,
        },
    };
    let mut layers: Vec<Layer> = Vec::new();
    if window_is_transparent {
        layers.push(Layer::Backdrop);
    }
    layers.push(Layer::Frame);
    assert(layers@ =~= spec_layers(window_is_transparent));
    ContainerPlan {
        width,
        bg_color,
        border_color,
        layers,
        tab_bar_on_top: show_tab_bar && !tab_bar_at_bottom,
    }
}

/// The frame is always drawn, last, and there is at most one layer under
/// it.
pub proof fn lemma_frame_is_drawn_last(window_is_transparent: bool)
    ensures
        spec_layers(window_is_transparent).last() == Layer::Frame,
        spec_layers(window_is_transparent).len() == if window_is_transparent {
            2nat
        } else {
            1nat
        },
{
}

/// The default width never exceeds the terminal, and it is at least 120
/// cells whenever the terminal is that wide.
pub proof fn lemma_default_width_bounds(cols: nat)
    ensures
        spec_default_width_cells(cols) <= cols,
        cols >= 120 ==> spec_default_width_cells(cols) >= 120,
        spec_default_width_cells(cols) > 120 ==> spec_default_width_cells(cols) == cols / 3,
        spec_default_width_cells(cols) == cols || spec_default_width_cells(cols) == 120
            || spec_default_width_cells(cols) == cols / 3,
{
}


/// The first choice, when set, always wins; the second counts only when the
/// first is unset; the default only when both are.
pub proof fn lemma_first_set_prefers_in_order<T>(preferred: Option<T>, fallback: Option<T>, default: T)
    ensures
        preferred matches Some(v) ==> first_set(preferred, fallback, default) == v,
        preferred is None && fallback is Some ==> first_set(preferred, fallback, default)
            == fallback->0,
        preferred is None && fallback is None ==> first_set(preferred, fallback, default)
            == default,
{
}

} // verus!
