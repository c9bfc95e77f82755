use vstd::prelude::*;

verus! {

/// What the state file records: the name of the display that the most
/// recently resized window was on.
#[derive(Debug, PartialEq, Eq)]
pub struct WindowDisplayState {
    pub display: String,
}

/// The display name in the state file, once it has been read and decoded:
/// the recorded name when that worked, `None` when it did not.
pub fn load_display<E>(loaded: Result<WindowDisplayState, E>) -> (r: Option<String>)
    ensures
        loaded is Err ==> r is None,
        loaded matches Ok(state) ==> (r matches Some(name) && name@ == state.display@),
{
    match loaded {
        Ok(state) => Some(state.display),
        Err(_) => None,
    }
}

/// A write of the state file is owed for `display` unless it is the one
/// saved last.
pub open spec fn needs_write(last_saved: Option<Seq<char>>, display: Seq<char>) -> bool {
    last_saved != Some(display)
}

/// The display saved last, after an attempt to save `display`.
pub open spec fn after_save(last_saved: Option<Seq<char>>, display: Seq<char>, written: bool) -> Option<Seq<char>> {
    if written {
        Some(display)
    } else {
        last_saved
    }
}

/// The display whose name was written to the state file last (initially
/// the one read from it), so that a resize on the same display writes
/// nothing.
pub struct LastSavedDisplay {
    display: Option<String>,
}

impl View for LastSavedDisplay {
    type V = Option<Seq<char>>;

    closed spec fn view(&self) -> Option<Seq<char>> {
        match self.display {
            Some(d) => Some(d@),
            None => None,
        }
    }
}

impl LastSavedDisplay {
    /// Starts from the display read from the state file, if any.
    pub fn new(loaded: Option<String>) -> (r: Self)
        ensures
            r@ == (match loaded {
                Some(d) => Some(d@),
                None => None,
            }),
    {
        LastSavedDisplay { display: loaded }
    }

    /// The display saved last, if any.
    pub fn last_saved(&self) -> (r: Option<&String>)
        ensures
            r is None <==> self@ is None,
            r matches Some(d) ==> self@ == Some(d@),
    {
        match &self.display {
            Some(d) => Some(d),
            None => None,
        }
    }

    /// The state to write for `display`, or `None` when `display` is the
    /// one saved last and nothing needs writing.
    pub fn save_display_if_changed(&self, display: &str) -> (r: Option<WindowDisplayState>)
        ensures
            r is None <==> !needs_write(self@, display@),
            r is None <==> self@ == Some(display@),
            r matches Some(state) ==> state.display@ == display@,
    {
        let wanted = display.to_owned();
        match &self.display {
            Some(last) => {
                if *last == wanted {
                    return None;
                }
            },
            None => {},
        }
        Some(WindowDisplayState { display: wanted })
    }

    /// Records how the write for `display` went: when it succeeded,
    /// `display` becomes the one saved last; when it failed, nothing
    /// changes, so that the next resize tries again.
    pub fn record_save_result(&mut self, display: &str, written: bool)
        ensures
            final(self)@ == after_save(old(self)@, display@, written),
            written ==> final(self)@ == Some(display@),
            !written ==> final(self)@ == old(self)@,
    {
        if written {
            self.display = Some(display.to_owned());
        }
    }
}

/// Once a display has been written, saving the same display again writes
/// nothing.
pub proof fn lemma_saved_display_is_not_written_again(last_saved: Option<Seq<char>>, display: Seq<char>)
    ensures
        !needs_write(after_save(last_saved, display, true), display),
{
}

/// A failed write leaves the bookkeeping as it was, so the same display is
/// written again on the next attempt.
pub proof fn lemma_failed_write_is_retried(last_saved: Option<Seq<char>>, display: Seq<char>)
    requires
        needs_write(last_saved, display),
    ensures
        after_save(last_saved, display, false) == last_saved,
        needs_write(after_save(last_saved, display, false), display),
{
}

/// Saving one display and then another asks for a second write.
pub proof fn lemma_new_display_is_written(last_saved: Option<Seq<char>>, first: Seq<char>, second: Seq<char>)
    requires
        first != second,
    ensures
        needs_write(after_save(last_saved, first, true), second),
{
}

} // verus!
