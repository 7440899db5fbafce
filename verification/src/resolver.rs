//! Path resolution: turns the caller's recommended write path into a safe,
//! collision-free, visibility-safe destination rooted under the last browsed
//! directory.

use vstd::prelude::*;
use vstd::string::*;
use crate::errors::SessionError;
use crate::request::FileMode;
use crate::strutil::{
    concat_strs, dec_str, last_index_of, lemma_dec_str_len, lemma_last_index_of, rfind_char,
    substring, u64_string,
};

verus! {

/// The final path component of `p`: everything after the last `/`, or all of
/// `p` when it holds no `/`.
pub open spec fn file_name_spec(p: Seq<char>) -> Seq<char> {
    p.subrange(last_index_of(p, '/') + 1, p.len() as int)
}

/// The final path component of `p`, owned.
pub fn file_name_of(p: &str) -> (r: String)
    ensures
        r@ == file_name_spec(p@),
{
    proof {
        lemma_last_index_of(p@, '/');
    }
    let n = p.unicode_len();
    match rfind_char(p, '/') {
        Some(i) => substring(p, i + 1, n),
        None => substring(p, 0, n),
    }
}

/// `name` with a single leading `.` replaced by `_`, so that the saved file
/// is not hidden from normal directory listings. This deliberately overrides
/// the caller's literal request; it is a usability rule, not an accident.
pub open spec fn visible_name_spec(name: Seq<char>) -> Seq<char> {
    if name.len() > 0 && name[0] == '.' {
        seq!['_'] + name.drop_first()
    } else {
        name
    }
}

/// `name` made visible: a single leading `.` becomes `_`.
pub fn visible_name(name: &str) -> (r: String)
    ensures
        r@ == visible_name_spec(name@),
{
    let n = name.unicode_len();
    if n > 0 && name.get_char(0) == '.' {
        let rest = substring(name, 1, n);
        let r = concat_strs("_", rest.as_str());
        proof {
            reveal_strlit("_");
            assert(r@ =~= seq!['_'] + name@.drop_first());
        }
        r
    } else {
        substring(name, 0, n)
    }
}

/// Law: for a name beginning with `.`, the visible name starts with `_`, is
/// of the same length, and keeps every later character unchanged.
pub proof fn lemma_visible_name_unhides(name: Seq<char>)
    requires
        name.len() > 0,
        name[0] == '.',
    ensures
        visible_name_spec(name).len() == name.len(),
        visible_name_spec(name)[0] == '_',
        forall|i: int| 1 <= i < name.len() ==> visible_name_spec(name)[i] == name[i],
{
}

/// `dir` and `name` joined with a single `/` separator.
pub open spec fn join_spec(dir: Seq<char>, name: Seq<char>) -> Seq<char> {
    dir + "/"@ + name
}

/// Joins a directory and a file name with `/`.
pub fn join_path(dir: &str, name: &str) -> (r: String)
    ensures
        r@ == join_spec(dir@, name@),
{
    let a = concat_strs(dir, "/");
    a.concat(name)
}

/// `name` with a time-based disambiguator inserted between stem and
/// extension: `report.html` becomes `report.<t>.html`; a name without an
/// extension gets `.<t>` appended. A `.` at position 0 does not count as an
/// extension separator.
pub open spec fn timestamped_name_spec(name: Seq<char>, t: nat) -> Seq<char> {
    let d = last_index_of(name, '.');
    if d > 0 {
        name.subrange(0, d) + "."@ + dec_str(t) + "."@ + name.subrange(d + 1, name.len() as int)
    } else {
        name + "."@ + dec_str(t)
    }
}

/// Inserts the disambiguator `t` into `name` between stem and extension.
pub fn timestamped_name(name: &str, t: u64) -> (r: String)
    ensures
        r@ == timestamped_name_spec(name@, t as nat),
{
    proof {
        lemma_last_index_of(name@, '.');
    }
    let n = name.unicode_len();
    let ts = u64_string(t);
    match rfind_char(name, '.') {
        Some(d) => {
            if d > 0 {
                let stem = substring(name, 0, d);
                let ext = substring(name, d + 1, n);
                let r = stem.concat(".").concat(ts.as_str()).concat(".").concat(ext.as_str());
                r
            } else {
                let r = name.to_owned().concat(".").concat(ts.as_str());
                r
            }
        },
        None => {
            let r = name.to_owned().concat(".").concat(ts.as_str());
            r
        },
    }
}

pub proof fn lemma_timestamped_name_longer(name: Seq<char>, t: nat)
    ensures
        timestamped_name_spec(name, t).len() > name.len(),
{
    reveal_strlit(".");
    lemma_dec_str_len(t);
    lemma_last_index_of(name, '.');
}

/// The recommended file name, made visible, re-rooted under `last_dir`.
pub open spec fn rerooted_target_spec(recommended: Seq<char>, last_dir: Seq<char>) -> Seq<char> {
    join_spec(last_dir, visible_name_spec(file_name_spec(recommended)))
}

/// The re-rooted destination before any collision handling: where the
/// caller probes for an existing file.
pub fn rerooted_target(recommended: &str, last_dir: &str) -> (r: String)
    ensures
        r@ == rerooted_target_spec(recommended@, last_dir@),
{
    let name = visible_name(file_name_of(recommended).as_str());
    join_path(last_dir, name.as_str())
}

/// The final write destination: the re-rooted path itself, or, when a file
/// already sits there, the re-rooted path with the disambiguator `now`.
pub open spec fn resolved_target_spec(
    recommended: Seq<char>,
    last_dir: Seq<char>,
    rerooted_exists: bool,
    now: nat,
) -> Seq<char> {
    if rerooted_exists {
        join_spec(last_dir, timestamped_name_spec(visible_name_spec(file_name_spec(recommended)), now))
    } else {
        rerooted_target_spec(recommended, last_dir)
    }
}

/// Computes the write destination for `recommended` under `last_dir`.
/// `rerooted_exists` says whether a file already sits at the re-rooted path;
/// `now` is the epoch-seconds disambiguator to use in that case. A colliding
/// destination is never returned unchanged.
pub fn resolve_write_target(recommended: &str, last_dir: &str, rerooted_exists: bool, now: u64) -> (r:
    String)
    ensures
        r@ == resolved_target_spec(recommended@, last_dir@, rerooted_exists, now as nat),
        rerooted_exists ==> r@ != rerooted_target_spec(recommended@, last_dir@),
{
    let name = visible_name(file_name_of(recommended).as_str());
    if rerooted_exists {
        let disambiguated = timestamped_name(name.as_str(), now);
        proof {
            lemma_timestamped_name_longer(name@, now as nat);
        }
        join_path(last_dir, disambiguated.as_str())
    } else {
        join_path(last_dir, name.as_str())
    }
}

/// No-overwrite law: when a file already sits at the re-rooted destination,
/// the resolved target is a different path; and against any set of existing
/// paths that does not already hold the timestamped candidate, the resolved
/// target is absent from the set.
pub proof fn lemma_resolve_no_overwrite(
    recommended: Seq<char>,
    last_dir: Seq<char>,
    now: nat,
    existing: Set<Seq<char>>,
)
    requires
        existing.contains(rerooted_target_spec(recommended, last_dir)),
        !existing.contains(
            join_spec(
                last_dir,
                timestamped_name_spec(visible_name_spec(file_name_spec(recommended)), now),
            ),
        ),
    ensures
        resolved_target_spec(recommended, last_dir, true, now) != rerooted_target_spec(
            recommended,
            last_dir,
        ),
        !existing.contains(resolved_target_spec(recommended, last_dir, true, now)),
{
    lemma_timestamped_name_longer(visible_name_spec(file_name_spec(recommended)), now);
}

/// The directory portion of `p`: everything before the last `/`, the root
/// `/` itself for a path directly under the root, and nothing for a path
/// without `/`.
pub open spec fn parent_dir_spec(p: Seq<char>) -> Option<Seq<char>> {
    let i = last_index_of(p, '/');
    if i > 0 {
        Some(p.subrange(0, i))
    } else if i == 0 {
        Some("/"@)
    } else {
        None
    }
}

/// The directory portion of `p`, when one can be derived.
pub fn parent_dir(p: &str) -> (r: Option<String>)
    ensures
        r.deep_view() == parent_dir_spec(p@),
{
    proof {
        lemma_last_index_of(p@, '/');
    }
    match rfind_char(p, '/') {
        Some(i) => {
            if i > 0 {
                Some(substring(p, 0, i))
            } else {
                Some("/".to_owned())
            }
        },
        None => None,
    }
}

/// The fully computed set of paths and mode needed to build and run one
/// picker invocation.
#[derive(Debug)]
pub struct ResolvedSession {
    pub mode: FileMode,
    /// The directory the picker opens in.
    pub working_dir: String,
    /// Where the picker writes its report (read mode: the working directory
    /// itself), or where the saved file must land (write mode).
    pub target_path: String,
    /// The portal-created placeholder file at the original recommended path,
    /// if one exists, so it can be relocated to the target afterwards.
    pub prior_write_marker: Option<String>,
}

/// Resolves one session. In read mode the target is the working directory
/// itself and the recommended path is ignored. In write mode the recommended
/// path is re-rooted under `last_dir` (collision-free, visibility-safe); a
/// write request without a recommended path is rejected.
pub fn resolve(
    mode: FileMode,
    recommended_path: Option<&str>,
    last_dir: &str,
    rerooted_exists: bool,
    marker_exists: bool,
    now: u64,
) -> (r: Result<ResolvedSession, SessionError>)
    ensures
        mode is Read ==> match r {
            Ok(s) => {
                &&& s.mode == mode
                &&& s.working_dir@ == last_dir@
                &&& s.target_path@ == last_dir@
                &&& s.prior_write_marker is None
            },
            Err(_) => false,
        },
        mode is Write && recommended_path is None ==> r == Err::<
            ResolvedSession,
            SessionError,
        >(SessionError::InvalidInput),
        mode is Write ==> (recommended_path matches Some(p) ==> match r {
            Ok(s) => {
                &&& s.mode == mode
                &&& s.working_dir@ == last_dir@
                &&& s.target_path@ == resolved_target_spec(
                    p@,
                    last_dir@,
                    rerooted_exists,
                    now as nat,
                )
                &&& s.prior_write_marker.deep_view() == (if marker_exists {
                    Some(p@)
                } else {
                    None::<Seq<char>>
                })
            },
            Err(_) => false,
        }),
{
    match mode {
        FileMode::Read => Ok(
            ResolvedSession {
                mode,
                working_dir: last_dir.to_owned(),
                target_path: last_dir.to_owned(),
                prior_write_marker: None,
            },
        ),
        FileMode::Write => match recommended_path {
            None => Err(SessionError::InvalidInput),
            Some(p) => {
                let target = resolve_write_target(p, last_dir, rerooted_exists, now);
                let marker = if marker_exists {
                    Some(p.to_owned())
                } else {
                    None
                };
                Ok(
                    ResolvedSession {
                        mode,
                        working_dir: last_dir.to_owned(),
                        target_path: target,
                        prior_write_marker: marker,
                    },
                )
            },
        },
    }
}

} // verus!
