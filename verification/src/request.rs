//! The portal's request descriptor: five positional arguments that say what
//! kind of selection is wanted, and their parsing.

use vstd::prelude::*;
use vstd::string::*;
use crate::errors::SessionError;

verus! {

/// Whether the session opens existing files or saves a new one.
#[derive(Clone, Copy, Debug, PartialEq, Eq, Structural)]
pub enum FileMode {
    Read,
    Write,
}

/// One selection request, built once per invocation from the five positional
/// arguments and immutable afterwards.
#[derive(Debug)]
pub struct SelectionRequest {
    pub allow_multiple: bool,
    pub want_directory: bool,
    pub mode: FileMode,
    /// The caller's suggested save path; present exactly in write mode.
    pub recommended_path: Option<String>,
    /// Where the picker must report the chosen paths.
    pub output_path: String,
}

/// A portal flag argument is true exactly when it is the string `1`.
pub fn parse_bool(value: &str) -> (r: bool)
    ensures
        r == (value@ == "1"@),
{
    proof {
        reveal_strlit("1");
    }
    let r = value.unicode_len() == 1 && value.get_char(0) == '1';
    proof {
        if r {
            assert(value@ =~= "1"@);
        }
    }
    r
}

/// Builds the request from the portal's positional arguments: multi-select
/// flag, directory flag, write flag, recommended path (meaningful only when
/// writing), output path. Any other argument count is rejected.
pub fn parse_request(args: &Vec<String>) -> (r: Result<SelectionRequest, SessionError>)
    ensures
        args@.len() != 5 ==> r == Err::<SelectionRequest, SessionError>(SessionError::InvalidInput),
        args@.len() == 5 ==> match r {
            Ok(req) => {
                &&& req.allow_multiple == (args@[0]@ == "1"@)
                &&& req.want_directory == (args@[1]@ == "1"@)
                &&& req.mode == (if args@[2]@ == "1"@ {
                    FileMode::Write
                } else {
                    FileMode::Read
                })
                &&& req.recommended_path.deep_view() == (if args@[2]@ == "1"@ {
                    Some(args@[3]@)
                } else {
                    None::<Seq<char>>
                })
                &&& req.output_path@ == args@[4]@
            },
            Err(_) => false,
        },
{
    if args.len() != 5 {
        return Err(SessionError::InvalidInput);
    }
    let allow_multiple = parse_bool(args[0].as_str());
    let want_directory = parse_bool(args[1].as_str());
    let write = parse_bool(args[2].as_str());
    let mode = if write {
        FileMode::Write
    } else {
        FileMode::Read
    };
    let recommended_path = if write {
        Some(args[3].clone())
    } else {
        None
    };
    let output_path = args[4].clone();
    Ok(SelectionRequest { allow_multiple, want_directory, mode, recommended_path, output_path })
}

} // verus!
