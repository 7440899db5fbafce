//! Where the session's log file lives: under the per-user cache directory,
//! in this application's own subdirectory.

use vstd::prelude::*;
use crate::resolver::{join_path, join_spec};
use crate::sysdirs::cache_dir;

verus! {

/// The log file path inside a given cache directory:
/// `<cache>/termfilepicker/log`.
pub fn logger_path_in(cache: &str) -> (r: String)
    ensures
        r@ == join_spec(join_spec(cache@, "termfilepicker"@), "log"@),
{
    let d = join_path(cache, "termfilepicker");
    join_path(d.as_str(), "log")
}

/// The default log file path on this machine, if a cache directory is
/// known: the cache directory itself depends on the environment, the layout
/// under it does not.
pub fn default_logger_path() -> (r: Option<String>)
    ensures
        r matches Some(p) ==> exists|base: Seq<char>|
            p@ == #[trigger] join_spec(join_spec(base, "termfilepicker"@), "log"@),
{
    match cache_dir() {
        Some(base) => Some(logger_path_in(base.as_str())),
        None => None,
    }
}

} // verus!
