use vstd::prelude::*;
use crate::keys::{
    KeyCode, KeyModifiers, KeyOutcome, InnerAction, ModalError, is_cancel_key, is_accept_key,
    cancel_key, accept_key,
};
use crate::text::{lines, spec_lines, strings_view};

verus! {

/// One choice offered by an input selector.
#[derive(Debug, PartialEq, Eq)]
pub struct InputSelectorEntry {
    pub label: String,
    pub id: Option<String>,
}

impl Clone for InputSelectorEntry {
    fn clone(&self) -> (r: Self)
        ensures
            r == *self,
    {
        let id = match &self.id {
            Some(s) => Some(s.clone()),
            None => None,
        };
        InputSelectorEntry { label: self.label.clone(), id }
    }
}

/// The scrolling state of an input selector.
pub struct SelectorView {
    pub selected_row: nat,
    pub top_row: nat,
    pub max_rows_on_screen: nat,
    pub num_choices: nat,
}

impl SelectorView {
    /// The selected row is a choice (row 0 when there is none), and the
    /// first row drawn is not below it.
    pub open spec fn wf(self) -> bool {
        &&& self.top_row <= self.selected_row
        &&& self.num_choices == 0 ==> self.selected_row == 0
        &&& self.num_choices > 0 ==> self.selected_row < self.num_choices
    }

    /// How many rows are drawn: at least one.
    pub open spec fn rows_drawn(self) -> nat {
        if self.max_rows_on_screen > 0 {
            self.max_rows_on_screen
        } else {
            1
        }
    }

    /// How many choices are drawn.
    pub open spec fn visible_count(self) -> nat {
        if self.top_row < self.num_choices {
            let left = (self.num_choices - self.top_row) as nat;
            if left < self.rows_drawn() {
                left
            } else {
                self.rows_drawn()
            }
        } else {
            0
        }
    }

    /// The selected row lies in the window of rows that is drawn.
    pub open spec fn selection_on_screen(self) -> bool {
        self.top_row <= self.selected_row < self.top_row + self.rows_drawn()
    }

    /// One row up, stopping at the first; the window follows the selection.
    pub open spec fn moved_up(self) -> SelectorView {
        let row: nat = if self.selected_row > 0 {
            (self.selected_row - 1) as nat
        } else {
            0
        };
        SelectorView {
            selected_row: row,
            top_row: if row < self.top_row {
                row
            } else {
                self.top_row
            },
            ..self
        }
    }

    /// One row down, stopping at the last; the window scrolls so that the
    /// selection is its last row when it would fall below it.
    pub open spec fn moved_down(self) -> SelectorView {
        let limit: nat = if self.num_choices > 0 {
            (self.num_choices - 1) as nat
        } else {
            0
        };
        let row: nat = if self.selected_row + 1 < limit {
            self.selected_row + 1
        } else {
            limit
        };
        let max = self.max_rows_on_screen;
        SelectorView {
            selected_row: row,
            top_row: if max > 0 && row > self.top_row + max - 1 {
                (row - (max - 1)) as nat
            } else {
                self.top_row
            },
            ..self
        }
    }
}

/// Up arrow, or Ctrl-P.
pub open spec fn is_up_key(key: KeyCode, mods: KeyModifiers) -> bool {
    (key == KeyCode::UpArrow && mods == KeyModifiers::Plain) || (key == KeyCode::Char('p') && mods
        == KeyModifiers::Ctrl)
}

/// Down arrow, or Ctrl-N.
pub open spec fn is_down_key(key: KeyCode, mods: KeyModifiers) -> bool {
    (key == KeyCode::DownArrow && mods == KeyModifiers::Plain) || (key == KeyCode::Char('n')
        && mods == KeyModifiers::Ctrl)
}

/// Rows of choices that fit in a frame `frame_px` pixels high with rows
/// `cell_px` pixels high, four rows being kept for the frame itself.
pub open spec fn spec_rows_on_screen(frame_px: nat, cell_px: nat) -> nat {
    let rows = frame_px / cell_px;
    if rows >= 4 {
        (rows - 4) as nat
    } else {
        0
    }
}

/// One row of choices as it is drawn.
#[derive(Debug, Clone, Copy, PartialEq, Eq, Structural)]
pub struct VisibleRow {
    /// Index of the choice.
    pub index: usize,
    /// The row is the selected one and is drawn highlighted.
    pub selected: bool,
}

/// An overlay that lets the user pick one of a list of choices and hands
/// the pick to the callback that emitted `event_name`.
pub struct FloatingInputSelector {
    title: String,
    description: String,
    choices: Vec<InputSelectorEntry>,
    event_name: String,
    selected_row: usize,
    top_row: usize,
    max_rows_on_screen: usize,
    mux_pane: usize,
}

impl View for FloatingInputSelector {
    type V = SelectorView;

    closed spec fn view(&self) -> SelectorView {
        SelectorView {
            selected_row: self.selected_row as nat,
            top_row: self.top_row as nat,
            max_rows_on_screen: self.max_rows_on_screen as nat,
            num_choices: self.choices@.len(),
        }
    }
}

impl FloatingInputSelector {
    pub closed spec fn spec_title(&self) -> Seq<char> {
        self.title@
    }

    pub closed spec fn spec_description(&self) -> Seq<char> {
        self.description@
    }

    pub closed spec fn spec_choices(&self) -> Seq<InputSelectorEntry> {
        self.choices@
    }

    pub closed spec fn spec_event_name(&self) -> Seq<char> {
        self.event_name@
    }

    pub closed spec fn spec_mux_pane(&self) -> usize {
        self.mux_pane
    }

    /// What stays fixed while the overlay is open.
    pub open spec fn same_content(&self, other: &Self) -> bool {
        &&& self.spec_title() == other.spec_title()
        &&& self.spec_description() == other.spec_description()
        &&& self.spec_choices() == other.spec_choices()
        &&& self.spec_event_name() == other.spec_event_name()
        &&& self.spec_mux_pane() == other.spec_mux_pane()
    }

    /// The view is well formed and counts the choices held.
    pub open spec fn wf(&self) -> bool {
        self@.wf() && self@.num_choices == self.spec_choices().len()
    }

    pub fn title(&self) -> (r: &String)
        ensures
            r@ == self.spec_title(),
    {
        &self.title
    }

    pub fn description(&self) -> (r: &String)
        ensures
            r@ == self.spec_description(),
    {
        &self.description
    }

    pub fn choices(&self) -> (r: &Vec<InputSelectorEntry>)
        ensures
            r@ == self.spec_choices(),
            r@.len() == self@.num_choices,
    {
        &self.choices
    }

    pub fn event_name(&self) -> (r: &String)
        ensures
            r@ == self.spec_event_name(),
    {
        &self.event_name
    }

    pub fn mux_pane(&self) -> (r: usize)
        ensures
            r == self.spec_mux_pane(),
    {
        self.mux_pane
    }

    pub fn selected_row(&self) -> (r: usize)
        ensures
            r == self@.selected_row,
    {
        self.selected_row
    }

    pub fn top_row(&self) -> (r: usize)
        ensures
            r == self@.top_row,
    {
        self.top_row
    }

    pub fn max_rows_on_screen(&self) -> (r: usize)
        ensures
            r == self@.max_rows_on_screen,
    {
        self.max_rows_on_screen
    }

    /// Opens a selector over `choices` on the pane `active_pane`; the first
    /// choice is selected and drawn first.
    pub fn new(
        title: String,
        description: String,
        choices: Vec<InputSelectorEntry>,
        action: InnerAction,
        active_pane: Option<usize>,
    ) -> (r: Result<Self, ModalError>)
        ensures
            action is Other ==> r == Err::<Self, ModalError>(ModalError::ActionNotCallback),
            action is EmitEvent && active_pane is None ==> r == Err::<Self, ModalError>(
                ModalError::NoActivePane,
            ),
            action is EmitEvent && active_pane is Some ==> (r matches Ok(s) && {
                &&& s.wf()
                &&& s@ == SelectorView {
                    selected_row: 0,
                    top_row: 0,
                    max_rows_on_screen: 0,
                    num_choices: choices@.len(),
                }
                &&& s.spec_title() == title@
                &&& s.spec_description() == description@
                &&& s.spec_choices() == choices@
                &&& s.spec_event_name() == action->EmitEvent_0@
                &&& s.spec_mux_pane() == active_pane->0
            }),
    {
        let event_name = match action {
            InnerAction::EmitEvent(id) => id,
            InnerAction::Other => {
                return Err(ModalError::ActionNotCallback);
            },
        };
        let pane = match active_pane {
            Some(p) => p,
            None => {
                return Err(ModalError::NoActivePane);
            },
        };
        Ok(FloatingInputSelector {
            title,
            description,
            choices,
            event_name,
            selected_row: 0,
            top_row: 0,
            max_rows_on_screen: 0,
            mux_pane: pane,
        })
    }

    /// Selects the row above, scrolling up to it when it is above the
    /// window.
    pub fn move_up(&mut self)
        requires
            old(self).wf(),
        ensures
            final(self).wf(),
            final(self)@ == old(self)@.moved_up(),
            final(self).same_content(old(self)),
            final(self)@.selected_row == if old(self)@.selected_row > 0 {
                old(self)@.selected_row - 1
            } else {
                0
            },
            final(self)@.selected_row >= old(self)@.top_row ==> final(self)@.top_row == old(self)@.top_row,
            final(self)@.selected_row < old(self)@.top_row ==> final(self)@.top_row == final(self)@.selected_row,
            final(self)@.max_rows_on_screen == old(self)@.max_rows_on_screen,
            final(self)@.num_choices == old(self)@.num_choices,
    {
        let row = self.selected_row.saturating_sub(1);
        self.selected_row = row;
        if row < self.top_row {
            self.top_row = row;
        }
    }

    /// Selects the row below, stopping at the last choice, and scrolls the
    /// window so that the selection stays on screen.
    pub fn move_down(&mut self)
        requires
            old(self).wf(),
        ensures
            final(self).wf(),
            final(self)@ == old(self)@.moved_down(),
            final(self).same_content(old(self)),
            final(self)@.selected_row == if old(self)@.selected_row + 1 < old(self)@.num_choices {
                old(self)@.selected_row + 1int
            } else {
                old(self)@.selected_row as int
            },
            old(self)@.max_rows_on_screen == 0 || final(self)@.selected_row < old(self)@.top_row
                + old(self)@.max_rows_on_screen ==> final(self)@.top_row == old(self)@.top_row,
            old(self)@.max_rows_on_screen > 0 && final(self)@.selected_row >= old(self)@.top_row
                + old(self)@.max_rows_on_screen ==> final(self)@.top_row + old(self)@.max_rows_on_screen == final(self)@.selected_row + 1,
            final(self)@.max_rows_on_screen == old(self)@.max_rows_on_screen,
            final(self)@.num_choices == old(self)@.num_choices,
    {
        let limit = self.choices.len().saturating_sub(1);
        let max_rows_on_screen = self.max_rows_on_screen;
        let next = self.selected_row.saturating_add(1);
        let row = if next < limit {
            next
        } else {
            limit
        };
        self.selected_row = row;
        if max_rows_on_screen > 0 && row - self.top_row > max_rows_on_screen - 1 {
            self.top_row = row - (max_rows_on_screen - 1);
        }
    }

    /// Records how many rows of choices fit on screen for a frame of
    /// `frame_px` pixels and rows of `cell_px` pixels, and returns it.
    pub fn update_max_rows_on_screen(&mut self, frame_px: usize, cell_px: usize) -> (r: usize)
        requires
            old(self).wf(),
            cell_px > 0,
        ensures
            final(self).wf(),
            r == spec_rows_on_screen(frame_px as nat, cell_px as nat),
            final(self)@ == (SelectorView { max_rows_on_screen: r as nat, ..old(self)@ }),
            final(self).same_content(old(self)),
            r > 0 ==> (r + 4) * cell_px <= frame_px < (r + 5) * cell_px,
            r == 0 ==> frame_px < 5 * cell_px,
    {
        proof {
            lemma_rows_on_screen_bounds(frame_px as nat, cell_px as nat);
        }
        let rows = (frame_px / cell_px).saturating_sub(4);
        self.max_rows_on_screen = rows;
        rows
    }

    /// The choices drawn, from the first row of the window down: as many as
    /// fit (at least one), each marked when it is the selected one.
    pub fn visible_rows(&self) -> (r: Vec<VisibleRow>)
        requires
            self.wf(),
        ensures
            r@.len() == self@.visible_count(),
            r@.len() <= self@.rows_drawn(),
            self@.top_row >= self@.num_choices ==> r@.len() == 0,
            self@.top_row < self@.num_choices ==> self@.top_row + r@.len() <= self@.num_choices
                && (r@.len() == self@.rows_drawn() || self@.top_row + r@.len()
                == self@.num_choices),
            forall|k: int|
                0 <= k < r@.len() ==> (#[trigger] r@[k]).index == self@.top_row + k && r@[k].selected
                    == (self@.top_row + k == self@.selected_row),
    {
        proof {
            lemma_visible_count_fills_window(self@);
        }
        let count = if self.max_rows_on_screen > 0 {
            self.max_rows_on_screen
        } else {
            1
        };
        let len = self.choices.len();
        let mut rows: Vec<VisibleRow> = Vec::new();
        let mut i = self.top_row;
        while i < len && rows.len() < count
            invariant
                self.wf(),
                len == self@.num_choices,
                count == self@.rows_drawn(),
                self.top_row <= i <= len || (i == self.top_row && self.top_row >= len),
                rows@.len() == i - self.top_row,
                rows@.len() <= count,
                forall|k: int|
                    0 <= k < rows@.len() ==> (#[trigger] rows@[k]).index == self@.top_row + k
                        && rows@[k].selected == (self@.top_row + k == self@.selected_row),
            decreases len - i,
        {
            rows.push(VisibleRow { index: i, selected: i == self.selected_row });
            i = i + 1;
        }
        rows
    }

    /// The text drawn above the choices: the title when there is one, then
    /// the lines of the description.
    pub fn header_lines(&self) -> (r: Vec<String>)
        ensures
            strings_view(r@) == (if self.spec_title().len() > 0 {
                seq![self.spec_title()]
            } else {
                Seq::empty()
            }) + spec_lines(self.spec_description()),
    {
        let mut out: Vec<String> = Vec::new();
        if !self.title.as_str().is_empty() {
            out.push(self.title.clone());
        }
        let ghost head = strings_view(out@);
        if !self.description.as_str().is_empty() {
            let mut body = lines(self.description.as_str());
            out.append(&mut body);
        } else {
            assert(spec_lines(self.description@) == Seq::<Seq<char>>::empty()) by {
                assert(self.description@ =~= Seq::<char>::empty());
            }
        }
        assert(strings_view(out@) =~= head + spec_lines(self.description@));
        out
    }

    /// Handles a key press: Escape or Ctrl-G cancel, Enter picks the
    /// selected choice, Up or Ctrl-P and Down or Ctrl-N move the selection;
    /// other keys are not handled.
    pub fn key_down(&mut self, key: KeyCode, mods: KeyModifiers) -> (r: KeyOutcome<
        InputSelectorEntry,
    >)
        requires
            old(self).wf(),
        ensures
            final(self).wf(),
            final(self).same_content(old(self)),
            (key == KeyCode::Escape && mods == KeyModifiers::Plain) || (key == KeyCode::Char('g')
                && mods == KeyModifiers::Ctrl) ==> r == KeyOutcome::<InputSelectorEntry>::Finish(None)
                && final(self)@ == old(self)@,
            key == KeyCode::Enter && mods == KeyModifiers::Plain && old(self)@.num_choices > 0 ==> r
                == KeyOutcome::Finish(Some(old(self).spec_choices()[old(self)@.selected_row as int])),
            key == KeyCode::Enter && mods == KeyModifiers::Plain && old(self)@.num_choices == 0 ==> r
                == KeyOutcome::<InputSelectorEntry>::Finish(None),
            (key == KeyCode::UpArrow && mods == KeyModifiers::Plain) || (key == KeyCode::Char('p')
                && mods == KeyModifiers::Ctrl) ==> r == KeyOutcome::<InputSelectorEntry>::Redraw
                && final(self)@ == old(self)@.moved_up(),
            (key == KeyCode::DownArrow && mods == KeyModifiers::Plain) || (key == KeyCode::Char('n')
                && mods == KeyModifiers::Ctrl) ==> r == KeyOutcome::<InputSelectorEntry>::Redraw
                && final(self)@ == old(self)@.moved_down(),
            mods == KeyModifiers::Combination || mods == KeyModifiers::Shift || key
                == KeyCode::Backspace || key == KeyCode::Other ==> r
                == KeyOutcome::<InputSelectorEntry>::Unhandled && final(self)@ == old(self)@,
            is_cancel_key(key, mods) ==> r == KeyOutcome::<InputSelectorEntry>::Finish(None)
                && final(self)@ == old(self)@,
            is_accept_key(key, mods) ==> final(self)@ == old(self)@ && if old(self)@.num_choices
                > 0 {
                r == KeyOutcome::Finish(
                    Some(old(self).spec_choices()[old(self)@.selected_row as int]),
                )
            } else {
                r == KeyOutcome::<InputSelectorEntry>::Finish(None)
            },
            is_up_key(key, mods) ==> r == KeyOutcome::<InputSelectorEntry>::Redraw && final(self)@ == old(self)@.moved_up(),
            is_down_key(key, mods) ==> r == KeyOutcome::<InputSelectorEntry>::Redraw && final(self)@ == old(self)@.moved_down(),
            !is_cancel_key(key, mods) && !is_accept_key(key, mods) && !is_up_key(key, mods)
                && !is_down_key(key, mods) ==> r == KeyOutcome::<InputSelectorEntry>::Unhandled
                && final(self)@ == old(self)@,
    {
        if cancel_key(key, mods) {
            return KeyOutcome::Finish(None);
        }
        if accept_key(key, mods) {
            let idx = self.selected_row;
            if idx < self.choices.len() {
                return KeyOutcome::Finish(Some(self.choices[idx].clone()));
            } else {
                return KeyOutcome::Finish(None);
            }
        }
        match (key, mods) {
            (KeyCode::UpArrow, KeyModifiers::Plain) => {
                self.move_up();
                KeyOutcome::Redraw
            },
            (KeyCode::Char('p'), KeyModifiers::Ctrl) => {
                self.move_up();
                KeyOutcome::Redraw
            },
            (KeyCode::DownArrow, KeyModifiers::Plain) => {
                self.move_down();
                KeyOutcome::Redraw
            },
            (KeyCode::Char('n'), KeyModifiers::Ctrl) => {
                self.move_down();
                KeyOutcome::Redraw
            },
            _ => KeyOutcome::Unhandled,
        }
    }
}


/// Moving the selection up or down keeps a selector well formed: the
/// selection stays on a choice and the window never starts below it.
pub proof fn lemma_moves_keep_wf(v: SelectorView)
    requires
        v.wf(),
    ensures
        v.moved_up().wf(),
        v.moved_down().wf(),
{
}

/// After moving down with a window of at least one row, the selected row is
/// on screen.
pub proof fn lemma_move_down_shows_selection(v: SelectorView)
    requires
        v.wf(),
        v.max_rows_on_screen > 0,
    ensures
        v.moved_down().selection_on_screen(),
{
}

/// Moving up keeps an on-screen selection on screen.
pub proof fn lemma_move_up_keeps_selection_on_screen(v: SelectorView)
    requires
        v.wf(),
        v.selection_on_screen(),
    ensures
        v.moved_up().selection_on_screen(),
{
}

/// Moving down undoes moving up, unless the first row was selected.
pub proof fn lemma_down_undoes_up(v: SelectorView)
    requires
        v.wf(),
        v.selected_row > 0,
    ensures
        v.moved_up().moved_down().selected_row == v.selected_row,
{
}

/// Moving up undoes moving down, unless the last row was selected.
pub proof fn lemma_up_undoes_down(v: SelectorView)
    requires
        v.wf(),
        v.selected_row + 1 < v.num_choices,
    ensures
        v.moved_down().moved_up().selected_row == v.selected_row,
{
}

/// At the first row, moving up changes nothing; at the last, moving down
/// keeps the selection where it is.
pub proof fn lemma_moves_stop_at_ends(v: SelectorView)
    requires
        v.wf(),
    ensures
        v.selected_row == 0 ==> v.moved_up() == v,
        v.selected_row + 1 >= v.num_choices ==> v.moved_down().selected_row == v.selected_row,
{
}

/// When the selection is on screen, exactly one drawn row is marked
/// selected: the one `selected_row - top_row` rows down the window.
pub proof fn lemma_selected_row_is_drawn(v: SelectorView)
    requires
        v.wf(),
        v.num_choices > 0,
        v.selection_on_screen(),
    ensures
        v.selected_row - v.top_row < v.visible_count(),
{
}


/// Moving up selects the row above (or stays on row 0), and scrolls only
/// when the new selection would be above the window, in which case the
/// window starts at it.
pub proof fn lemma_move_up_scrolls_only_when_leaving_top(v: SelectorView)
    requires
        v.wf(),
    ensures
        v.moved_up().selected_row == if v.selected_row > 0 {
            v.selected_row - 1
        } else {
            0
        },
        v.moved_up().selected_row >= v.top_row ==> v.moved_up().top_row == v.top_row,
        v.moved_up().selected_row < v.top_row ==> v.moved_up().top_row == v.moved_up().selected_row,
        v.moved_up().max_rows_on_screen == v.max_rows_on_screen,
        v.moved_up().num_choices == v.num_choices,
{
}

/// Moving down selects the row below unless the last is selected, and
/// scrolls only when the new selection would be below a window of
/// `max_rows_on_screen` rows, in which case the window ends at it.
pub proof fn lemma_move_down_scrolls_only_when_leaving_bottom(v: SelectorView)
    requires
        v.wf(),
    ensures
        v.moved_down().selected_row == if v.selected_row + 1 < v.num_choices {
            v.selected_row + 1int
        } else {
            v.selected_row as int
        },
        v.max_rows_on_screen == 0 || v.moved_down().selected_row < v.top_row
            + v.max_rows_on_screen ==> v.moved_down().top_row == v.top_row,
        v.max_rows_on_screen > 0 && v.moved_down().selected_row >= v.top_row
            + v.max_rows_on_screen ==> v.moved_down().top_row + v.max_rows_on_screen
            == v.moved_down().selected_row + 1,
        v.moved_down().max_rows_on_screen == v.max_rows_on_screen,
        v.moved_down().num_choices == v.num_choices,
{
}

/// The rows on screen are the whole rows of `cell_px` pixels that fit in
/// `frame_px` pixels, less four: `r + 4` rows fit and `r + 5` do not (when
/// `r` is 0, fewer than five rows fit).
pub proof fn lemma_rows_on_screen_bounds(frame_px: nat, cell_px: nat)
    requires
        cell_px > 0,
    ensures
        spec_rows_on_screen(frame_px, cell_px) > 0 ==> (spec_rows_on_screen(frame_px, cell_px)
            + 4) * cell_px <= frame_px < (spec_rows_on_screen(frame_px, cell_px) + 5) * cell_px,
        spec_rows_on_screen(frame_px, cell_px) == 0 ==> frame_px < 5 * cell_px,
{
    let q = frame_px / cell_px;
    vstd::arithmetic::div_mod::lemma_fundamental_div_mod(frame_px as int, cell_px as int);
    assert(q * cell_px <= frame_px < (q + 1) * cell_px) by (nonlinear_arith)
        requires
            frame_px == cell_px * q + frame_px % cell_px,
            0 <= frame_px % cell_px < cell_px,
    ;
    if q < 4 {
        assert((q + 1) * cell_px <= 5 * cell_px) by (nonlinear_arith)
            requires
                q < 4,
                cell_px > 0,
        ;
    }
}

/// The window draws as many choices as fit (at least one row), stopping at
/// the last choice, whichever row is selected.
pub proof fn lemma_visible_count_fills_window(v: SelectorView)
    ensures
        v.rows_drawn() == if v.max_rows_on_screen > 0 {
            v.max_rows_on_screen
        } else {
            1
        },
        v.visible_count() <= v.rows_drawn(),
        v.top_row >= v.num_choices ==> v.visible_count() == 0,
        v.top_row < v.num_choices ==> v.top_row + v.visible_count() <= v.num_choices && (
        v.visible_count() == v.rows_drawn() || v.top_row + v.visible_count() == v.num_choices),
        forall|row: nat|
            #![trigger (SelectorView { selected_row: row, ..v }).visible_count()]
            (SelectorView { selected_row: row, ..v }).visible_count() == v.visible_count(),
{
}

} // verus!
