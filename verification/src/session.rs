//! Session-level wiring around the state store: where the state file lives,
//! the fallback default directory, and the working-directory choice that
//! opens every session.

use vstd::prelude::*;
use crate::errors::SessionError;
use crate::resolver::{join_path, join_spec};
use crate::store::{read_last_dir_spec, SessionStateStore};
use crate::sysdirs::{download_dir, home_dir, state_dir};

verus! {

/// The state file path inside a given state directory:
/// `<state>/termfilepicker/last-selected-path`.
pub fn state_file_in(state: &str) -> (r: String)
    ensures
        r@ == join_spec(join_spec(state@, "termfilepicker"@), "last-selected-path"@),
{
    let d = join_path(state, "termfilepicker");
    join_path(d.as_str(), "last-selected-path")
}

/// The path of the persisted last-selected-directory file on this machine,
/// if a state directory is known: the state directory itself depends on the
/// environment, the layout under it does not.
pub fn last_selected_filepath() -> (r: Option<String>)
    ensures
        r matches Some(p) ==> exists|base: Seq<char>|
            p@ == #[trigger] join_spec(join_spec(base, "termfilepicker"@), "last-selected-path"@),
{
    match state_dir() {
        Some(base) => Some(state_file_in(base.as_str())),
        None => None,
    }
}

/// The fallback rule for the working directory: the downloads directory when
/// one is known, else the home directory, else no default exists at all.
pub fn pick_default_dir(downloads: Option<String>, home: Option<String>) -> (r: Result<
    String,
    SessionError,
>)
    ensures
        downloads matches Some(d) ==> (r matches Ok(s) && s@ == d@),
        downloads is None ==> (home matches Some(h) ==> (r matches Ok(s) && s@ == h@)),
        downloads is None && home is None ==> r == Err::<String, SessionError>(
            SessionError::NoDefaultDirectory,
        ),
{
    match downloads {
        Some(d) => Ok(d),
        None => match home {
            Some(h) => Ok(h),
            None => Err(SessionError::NoDefaultDirectory),
        },
    }
}

/// The system default directory for this machine, by the fallback rule.
/// Which directories the machine defines is not specified; the rule itself
/// is `pick_default_dir`.
pub fn default_directory() -> (r: Result<String, SessionError>)
    ensures
        r matches Err(e) ==> e == SessionError::NoDefaultDirectory,
{
    pick_default_dir(download_dir(), home_dir())
}

/// The directory the picker opens in: the stored last directory when it is
/// wanted (`use_default` off), present, and still a directory; otherwise the
/// machine's default. Fails only when no default directory exists either.
pub fn last_selected_path(store: &SessionStateStore, use_default: bool, candidate_is_dir: bool) -> (r:
    Result<String, SessionError>)
    ensures
        !use_default ==> (read_last_dir_spec(store@, candidate_is_dir) matches Some(d) ==> (
        r matches Ok(s) && s@ == d)),
        r matches Err(e) ==> e == SessionError::NoDefaultDirectory,
{
    if !use_default {
        match store.read_last_dir(candidate_is_dir) {
            Some(d) => {
                return Ok(d);
            },
            None => {},
        }
    }
    default_directory()
}

} // verus!
