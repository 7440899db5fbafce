//! The session state store: the single persisted "last browsed directory"
//! value, read at session start and overwritten at session end only when the
//! session yielded a usable directory.
//!
//! The store models the on-disk state file as an injectable value: the caller
//! loads the file's text into it at startup and writes the value back
//! afterwards, so every rule about when the value changes is checked here.

use vstd::prelude::*;
use vstd::string::*;
use crate::interpret::{outcome_selected_spec, PickerOutcome};
use crate::resolver::{parent_dir, parent_dir_spec};
use crate::strutil::{trim, trim_spec};

verus! {

/// The persisted last-browsed-directory value, as loaded from the state
/// file: `None` when the file is absent or unreadable.
pub struct SessionStateStore {
    content: Option<String>,
}

impl View for SessionStateStore {
    type V = Option<Seq<char>>;

    closed spec fn view(&self) -> Option<Seq<char>> {
        match self.content {
            Some(c) => Some(c@),
            None => None,
        }
    }
}

/// What a read of the store yields: the trimmed stored text, but only when
/// there is one, it is non-empty, and it still names an existing directory
/// (`dir_ok`); a stale value is never handed out.
pub open spec fn read_last_dir_spec(content: Option<Seq<char>>, dir_ok: bool) -> Option<
    Seq<char>,
> {
    match content {
        Some(c) => if dir_ok && trim_spec(c).len() > 0 {
            Some(trim_spec(c))
        } else {
            None
        },
        None => None,
    }
}

/// How the store changes at session end: an affirmative selection with a
/// derivable parent directory overwrites the value; anything else leaves it
/// untouched.
pub open spec fn updated_store_spec(
    stored: Option<Seq<char>>,
    selected: Option<Seq<char>>,
) -> Option<Seq<char>> {
    match selected {
        None => stored,
        Some(p) => match parent_dir_spec(p) {
            Some(d) => Some(d),
            None => stored,
        },
    }
}

impl SessionStateStore {
    /// Wraps the state file's text (`None` when the file is absent or could
    /// not be read).
    pub fn load(content: Option<String>) -> (s: Self)
        ensures
            s@ == content.deep_view(),
    {
        SessionStateStore { content }
    }

    /// The trimmed stored path, for the caller to re-validate against the
    /// file system before it is trusted.
    pub fn candidate(&self) -> (r: Option<String>)
        ensures
            r.deep_view() == read_last_dir_spec(self@, true),
    {
        match &self.content {
            Some(c) => {
                let t = trim(c.as_str());
                if t.as_str().unicode_len() == 0 {
                    None
                } else {
                    Some(t)
                }
            },
            None => None,
        }
    }

    /// Reads the stored directory. `candidate_is_dir` reports whether the
    /// candidate still exists and is a directory; existence is re-validated
    /// on every read, not just at write time.
    pub fn read_last_dir(&self, candidate_is_dir: bool) -> (r: Option<String>)
        ensures
            r.deep_view() == read_last_dir_spec(self@, candidate_is_dir),
    {
        if candidate_is_dir {
            self.candidate()
        } else {
            None
        }
    }

    /// Overwrites the stored value wholesale with `d`.
    pub fn write_last_dir(&mut self, d: &str)
        ensures
            final(self)@ == Some(d@),
    {
        self.content = Some(d.to_owned());
    }

    /// The text to write back to the state file, exactly the stored value.
    pub fn persisted_text(&self) -> (r: Option<&String>)
        ensures
            r.deep_view() == self@,
    {
        self.content.as_ref()
    }

    /// Applies the session's outcome: a selection updates the store with the
    /// directory portion of the chosen path; a cancelled session — and a
    /// selection from which no directory can be derived — leaves the stored
    /// value untouched.
    pub fn update_after_session(&mut self, outcome: &PickerOutcome)
        ensures
            final(self)@ == updated_store_spec(
                old(self)@,
                match outcome {
                    PickerOutcome::Cancelled => None,
                    PickerOutcome::Selected(p) => Some(p@),
                },
            ),
            outcome is Cancelled ==> final(self)@ == old(self)@,
    {
        match outcome {
            PickerOutcome::Cancelled => {},
            PickerOutcome::Selected(p) => {
                match parent_dir(p.as_str()) {
                    Some(d) => {
                        self.content = Some(d);
                    },
                    None => {},
                }
            },
        }
    }
}

/// Round-trip law: writing a directory `D` and reading it back yields
/// exactly `D`, provided `D` is non-empty, carries no surrounding
/// whitespace, and still exists as a directory at read time.
pub proof fn lemma_last_dir_round_trip(d: Seq<char>)
    requires
        trim_spec(d) == d,
        d.len() > 0,
    ensures
        read_last_dir_spec(Some(d), true) == Some(d),
{
}

/// Cancelled-session law: an output file that is absent or holds only
/// whitespace selects nothing, and leaves the stored last directory exactly
/// as it was before the session.
pub proof fn lemma_cancelled_session_preserves_store(
    stored: Option<Seq<char>>,
    content: Option<Seq<char>>,
)
    requires
        content matches Some(c) ==> trim_spec(c).len() == 0,
    ensures
        outcome_selected_spec(content) is None,
        updated_store_spec(stored, outcome_selected_spec(content)) == stored,
{
}

} // verus!
