use vstd::prelude::*;
use vstd::string::StringExecFns;
use crate::keys::{
    KeyCode, KeyModifiers, KeyOutcome, InnerAction, ModalError, is_cancel_key, is_accept_key,
    cancel_key, accept_key,
};
use crate::text::{lines, spec_lines, strings_view, string_push, string_pop, string_clear};

verus! {

/// What a key press does to a prompt.
#[derive(Debug, Clone, Copy, PartialEq, Eq, Structural)]
pub enum PromptEdit {
    /// Close the prompt without a line.
    Cancel,
    /// Close the prompt with the line typed so far.
    Accept,
    /// Append a character.
    Insert(char),
    /// Remove the last character.
    DeleteBack,
    /// Remove every character.
    Clear,
    /// Not a key of the prompt.
    Ignore,
}

/// Escape or Ctrl-G cancel, Enter accepts, a character typed alone or with
/// Shift is appended, Backspace removes the last character and Ctrl-U
/// clears the line.
pub open spec fn prompt_edit(key: KeyCode, mods: KeyModifiers) -> PromptEdit {
    if is_cancel_key(key, mods) {
        PromptEdit::Cancel
    } else if is_accept_key(key, mods) {
        PromptEdit::Accept
    } else {
        match (key, mods) {
            (KeyCode::Char(c), KeyModifiers::Plain) => PromptEdit::Insert(c),
            (KeyCode::Char(c), KeyModifiers::Shift) => PromptEdit::Insert(c),
            (KeyCode::Backspace, KeyModifiers::Plain) => PromptEdit::DeleteBack,
            (KeyCode::Char(c), KeyModifiers::Ctrl) => if c == 'u' {
                PromptEdit::Clear
            } else {
                PromptEdit::Ignore
            },
            _ => PromptEdit::Ignore,
        }
    }
}

/// The line after an edit.
pub open spec fn edited_input(input: Seq<char>, edit: PromptEdit) -> Seq<char> {
    match edit {
        PromptEdit::Insert(c) => input.push(c),
        PromptEdit::DeleteBack => if input.len() > 0 {
            input.drop_last()
        } else {
            input
        },
        PromptEdit::Clear => Seq::empty(),
        _ => input,
    }
}

/// The state of a prompt, as text.
pub struct PromptView {
    pub description: Seq<char>,
    pub prompt: Seq<char>,
    pub event_name: Seq<char>,
    pub input: Seq<char>,
    pub mux_pane: usize,
}

/// An overlay that reads one line of text and hands it to the callback that
/// emitted `event_name`.
pub struct FloatingPromptInputLine {
    description: String,
    prompt: String,
    event_name: String,
    input: String,
    mux_pane: usize,
}

impl View for FloatingPromptInputLine {
    type V = PromptView;

    closed spec fn view(&self) -> PromptView {
        PromptView {
            description: self.description@,
            prompt: self.prompt@,
            event_name: self.event_name@,
            input: self.input@,
            mux_pane: self.mux_pane,
        }
    }
}

/// What the prompt shows: the lines of the description, then the prompt
/// followed by the line typed so far and a `_` cursor.
pub open spec fn prompt_content(v: PromptView) -> Seq<Seq<char>> {
    spec_lines(v.description).push(v.prompt + v.input + seq!['_'])
}

impl FloatingPromptInputLine {
    /// Opens a prompt on the pane `active_pane`, with `initial_value` (or
    /// nothing) already typed.
    pub fn new(
        description: String,
        prompt: String,
        action: InnerAction,
        active_pane: Option<usize>,
        initial_value: Option<String>,
    ) -> (r: Result<Self, ModalError>)
        ensures
            action is Other ==> r == Err::<Self, ModalError>(ModalError::ActionNotCallback),
            action is EmitEvent && active_pane is None ==> r == Err::<Self, ModalError>(
                ModalError::NoActivePane,
            ),
            action is EmitEvent && active_pane is Some ==> (r matches Ok(s) && s@ == PromptView {
                description: description@,
                prompt: prompt@,
                event_name: action->EmitEvent_0@,
                input: match initial_value {
                    Some(v) => v@,
                    None => Seq::empty(),
                },
                mux_pane: active_pane->0,
            }),
    {
        let event_name = match action {
            InnerAction::EmitEvent(id) => id,
            InnerAction::Other => {
                return Err(ModalError::ActionNotCallback);
            },
        };
        let pane = match active_pane {
            Some(p) => p,
            None => {
                return Err(ModalError::NoActivePane);
            },
        };
        let input = match initial_value {
            Some(v) => v,
            None => String::new(),
        };
        Ok(FloatingPromptInputLine { description, prompt, event_name, input, mux_pane: pane })
    }

    pub fn description(&self) -> (r: &String)
        ensures
            r@ == self@.description,
    {
        &self.description
    }

    pub fn prompt(&self) -> (r: &String)
        ensures
            r@ == self@.prompt,
    {
        &self.prompt
    }

    pub fn event_name(&self) -> (r: &String)
        ensures
            r@ == self@.event_name,
    {
        &self.event_name
    }

    pub fn input(&self) -> (r: &String)
        ensures
            r@ == self@.input,
    {
        &self.input
    }

    pub fn mux_pane(&self) -> (r: usize)
        ensures
            r == self@.mux_pane,
    {
        self.mux_pane
    }

    /// Handles a key press as `prompt_edit` classifies it.
    pub fn key_down(&mut self, key: KeyCode, mods: KeyModifiers) -> (r: KeyOutcome<String>)
        ensures
            final(self)@ == (PromptView {
                input: edited_input(old(self)@.input, prompt_edit(key, mods)),
                ..old(self)@
            }),
            match prompt_edit(key, mods) {
                PromptEdit::Cancel => r == KeyOutcome::<String>::Finish(None),
                PromptEdit::Accept => r matches KeyOutcome::Finish(Some(line)) && line@ == old(
                    self,
                )@.input,
                PromptEdit::Ignore => r == KeyOutcome::<String>::Unhandled,
                _ => r == KeyOutcome::<String>::Redraw,
            },
            key is Char && (mods == KeyModifiers::Plain || mods == KeyModifiers::Shift) ==> final(self)@.input
                == old(self)@.input.push(key->Char_0) && r == KeyOutcome::<String>::Redraw,
            key == KeyCode::Backspace && mods == KeyModifiers::Plain ==> r
                == KeyOutcome::<String>::Redraw && final(self)@.input.len() + (if old(self)@.input.len() > 0 {
                1int
            } else {
                0int
            }) == old(self)@.input.len() && final(self)@.input == old(self)@.input.subrange(
                0,
                final(self)@.input.len() as int,
            ),
            key == KeyCode::Char('u') && mods == KeyModifiers::Ctrl ==> r
                == KeyOutcome::<String>::Redraw && final(self)@.input.len() == 0,
            mods == KeyModifiers::Combination ==> r == KeyOutcome::<String>::Unhandled && final(self)@
                == old(self)@,
            key is Char && mods == KeyModifiers::Ctrl && key->Char_0 != 'g' && key->Char_0 != 'u'
                ==> r == KeyOutcome::<String>::Unhandled && final(self)@ == old(self)@,
    {
        proof {
            lemma_prompt_keys(old(self)@.input, key, mods);
        }
        if cancel_key(key, mods) {
            return KeyOutcome::Finish(None);
        }
        if accept_key(key, mods) {
            let line = self.input.clone();
            return KeyOutcome::Finish(Some(line));
        }
        match (key, mods) {
            (KeyCode::Char(c), KeyModifiers::Plain) => {
                string_push(&mut self.input, c);
            },
            (KeyCode::Char(c), KeyModifiers::Shift) => {
                string_push(&mut self.input, c);
            },
            (KeyCode::Backspace, KeyModifiers::Plain) => {
                string_pop(&mut self.input);
            },
            (KeyCode::Char('u'), KeyModifiers::Ctrl) => {
                string_clear(&mut self.input);
            },
            _ => {
                return KeyOutcome::Unhandled;
            },
        }
        KeyOutcome::Redraw
    }

    /// The lines the prompt draws, as `prompt_content` gives them.
    pub fn content_lines(&self) -> (r: Vec<String>)
        ensures
            strings_view(r@) == prompt_content(self@),
            r@.len() == spec_lines(self@.description).len() + 1,
            forall|i: int|
                0 <= i < r@.len() - 1 ==> (#[trigger] r@[i])@ == spec_lines(self@.description)[i],
            r@.last()@ == self@.prompt + self@.input + seq!['_'],
    {
        let mut out = lines(self.description.as_str());
        let mut line = self.prompt.clone();
        line.append(self.input.as_str());
        string_push(&mut line, '_');
        assert(line@ =~= self.prompt@ + self.input@ + seq!['_']);
        let ghost before = strings_view(out@);
        out.push(line);
        assert(strings_view(out@) =~= before.push(line@));
        out
    }
}

/// Typing a character and then Backspace gives back the line as it was.
pub proof fn lemma_backspace_undoes_insert(input: Seq<char>, c: char)
    ensures
        edited_input(edited_input(input, PromptEdit::Insert(c)), PromptEdit::DeleteBack) == input,
{
    assert(input.push(c).drop_last() =~= input);
}

/// Ctrl-U always leaves an empty line, and Backspace on an empty line
/// changes nothing.
pub proof fn lemma_clear_and_empty_backspace(input: Seq<char>)
    ensures
        edited_input(input, PromptEdit::Clear).len() == 0,
        edited_input(Seq::empty(), PromptEdit::DeleteBack) == Seq::<char>::empty(),
{
}

/// Keys that close the prompt, and keys it ignores, leave the line as it
/// was.
pub proof fn lemma_closing_keys_keep_input(input: Seq<char>, key: KeyCode, mods: KeyModifiers)
    requires
        is_cancel_key(key, mods) || is_accept_key(key, mods) || prompt_edit(key, mods)
            == PromptEdit::Ignore,
    ensures
        edited_input(input, prompt_edit(key, mods)) == input,
{
}


/// How each key press edits the prompt's line: any character typed alone
/// or with Shift is appended; Backspace alone removes the last character
/// (if any); Ctrl-U empties the line; Escape and Ctrl-G cancel, Enter
/// accepts; Ctrl with any other character, and any other combination of
/// modifiers, is ignored.
pub proof fn lemma_prompt_keys(input: Seq<char>, key: KeyCode, mods: KeyModifiers)
    ensures
        key is Char && (mods == KeyModifiers::Plain || mods == KeyModifiers::Shift) ==> prompt_edit(
            key,
            mods,
        ) == PromptEdit::Insert(key->Char_0) && edited_input(input, prompt_edit(key, mods))
            == input.push(key->Char_0),
        key == KeyCode::Backspace && mods == KeyModifiers::Plain ==> prompt_edit(key, mods)
            == PromptEdit::DeleteBack && edited_input(input, prompt_edit(key, mods)).len() + (
        if input.len() > 0 {
            1int
        } else {
            0int
        }) == input.len() && edited_input(input, prompt_edit(key, mods)) == input.subrange(
            0,
            edited_input(input, prompt_edit(key, mods)).len() as int,
        ),
        key == KeyCode::Char('u') && mods == KeyModifiers::Ctrl ==> prompt_edit(key, mods)
            == PromptEdit::Clear && edited_input(input, prompt_edit(key, mods)).len() == 0,
        (key == KeyCode::Escape && mods == KeyModifiers::Plain) || (key == KeyCode::Char('g')
            && mods == KeyModifiers::Ctrl) ==> prompt_edit(key, mods) == PromptEdit::Cancel,
        key == KeyCode::Enter && mods == KeyModifiers::Plain ==> prompt_edit(key, mods)
            == PromptEdit::Accept,
        mods == KeyModifiers::Combination ==> prompt_edit(key, mods) == PromptEdit::Ignore,
        key is Char && mods == KeyModifiers::Ctrl && key->Char_0 != 'g' && key->Char_0 != 'u'
            ==> prompt_edit(key, mods) == PromptEdit::Ignore,
        prompt_edit(key, mods) == PromptEdit::Ignore || prompt_edit(key, mods) == PromptEdit::Cancel
            || prompt_edit(key, mods) == PromptEdit::Accept ==> edited_input(
            input,
            prompt_edit(key, mods),
        ) == input,
{
    if input.len() > 0 {
        assert(input.drop_last() =~= input.subrange(0, input.len() - 1));
    } else {
        assert(input =~= input.subrange(0, 0));
    }
}

} // verus!
