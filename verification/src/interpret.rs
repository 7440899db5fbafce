//! Interpretation of the portal's output file after the picker exits:
//! distinguishing "cancelled" from "selected", and deciding whether the
//! write-target placeholder was ever used.

use vstd::prelude::*;
use vstd::string::*;
use crate::request::FileMode;
use crate::strutil::{
    find_char, first_index_of, lemma_first_index_of, starts_with, starts_with_spec, trim,
    trim_spec,
};

verus! {

/// What the picker's output file says the user did.
#[derive(Debug)]
pub enum PickerOutcome {
    /// The output file was absent, or held only whitespace.
    Cancelled,
    /// The user picked something; the first reported path, trimmed.
    Selected(String),
}

/// `s` up to (excluding) its first newline, or all of `s` without one.
pub open spec fn first_line_spec(s: Seq<char>) -> Seq<char> {
    let i = first_index_of(s, '\n');
    if i >= 0 {
        s.subrange(0, i)
    } else {
        s
    }
}

/// The first line of `s`, owned.
pub fn first_line(s: &str) -> (r: String)
    ensures
        r@ == first_line_spec(s@),
{
    proof {
        lemma_first_index_of(s@, '\n');
    }
    let n = s.unicode_len();
    match find_char(s, '\n') {
        Some(i) => crate::strutil::substring(s, 0, i),
        None => crate::strutil::substring(s, 0, n),
    }
}

/// The representative selected path in a non-cancelled output: the first
/// line of the trimmed content, itself trimmed.
pub open spec fn selected_path_spec(content: Seq<char>) -> Seq<char> {
    trim_spec(first_line_spec(trim_spec(content)))
}

/// What a session with this output-file content selects: nothing when the
/// file is absent or holds only whitespace, else the representative path.
pub open spec fn outcome_selected_spec(content: Option<Seq<char>>) -> Option<Seq<char>> {
    match content {
        None => None,
        Some(c) => if trim_spec(c).len() == 0 {
            None
        } else {
            Some(selected_path_spec(c))
        },
    }
}

/// Classifies the output file's content (`None` when the file was absent):
/// absent or all-whitespace means the user cancelled; anything else selects
/// the first reported path, trimmed. Later lines of a multi-select are not
/// authoritative for directory persistence.
pub fn interpret(content: Option<String>) -> (r: PickerOutcome)
    ensures
        (r is Cancelled) == (outcome_selected_spec(content.deep_view()) is None),
        r matches PickerOutcome::Selected(p) ==> outcome_selected_spec(content.deep_view())
            == Some(p@),
{
    match content {
        None => PickerOutcome::Cancelled,
        Some(c) => {
            let t = trim(c.as_str());
            if t.as_str().unicode_len() == 0 {
                PickerOutcome::Cancelled
            } else {
                let line = first_line(t.as_str());
                PickerOutcome::Selected(trim(line.as_str()))
            }
        },
    }
}

/// The placeholder text that marks a write target as never actually used.
pub open spec fn unused_marker_text() -> Seq<char> {
    "xdg-desktop-portal-termfilechooser saving files tutorial"@
}

/// Cleanup decision for the resolved write target after the session: delete
/// it exactly when the session wrote a file, the target still exists
/// (`content` is its text), and that text still begins with the placeholder
/// marker — then the user never saved anything there.
pub fn should_delete_write_target(mode: FileMode, content: Option<&str>) -> (r: bool)
    ensures
        r == (mode is Write && match content {
            Some(c) => starts_with_spec(c@, unused_marker_text()),
            None => false,
        }),
{
    match mode {
        FileMode::Read => false,
        FileMode::Write => match content {
            Some(c) => starts_with(c, "xdg-desktop-portal-termfilechooser saving files tutorial"),
            None => false,
        },
    }
}

} // verus!
