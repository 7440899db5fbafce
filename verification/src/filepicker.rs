//! The file-picker backend and the command line that drives it: a small but
//! state-dependent grammar of flags, with every path bound for the shell
//! quoted exactly once.

use vstd::prelude::*;
use vstd::string::StringExecFns;
use crate::errors::SessionError;
use crate::request::FileMode;
use crate::sysdirs::binary_path;

verus! {

/// The file-picker programs this tool can drive.
#[derive(Clone, Copy, Debug, PartialEq, Eq, Structural)]
pub enum FilePicker {
    Yazi,
}

/// The binary name of each picker backend.
pub open spec fn picker_program_spec(fp: FilePicker) -> Seq<char> {
    match fp {
        FilePicker::Yazi => "yazi"@,
    }
}

/// The binary name of `fp`.
pub fn picker_program(fp: FilePicker) -> (r: String)
    ensures
        r@ == picker_program_spec(fp),
{
    match fp {
        FilePicker::Yazi => "yazi".to_owned(),
    }
}

/// Probes this machine for a picker. Only one backend exists, so it is the
/// answer whether or not its binary is present; the probe mirrors the
/// autodetection step of the other backends.
pub fn filepicker_from_env() -> (fp: FilePicker)
    ensures
        fp == FilePicker::Yazi,
{
    if binary_path("yazi").is_some() {
        return FilePicker::Yazi;
    }
    FilePicker::Yazi
}

/// What shlex quoting turns a word into. The exact quoting rules belong to
/// shlex; contracts use only this name for them.
pub uninterp spec fn shell_quoted(s: Seq<char>) -> Seq<char>;

/// Whether `s` holds a nul character, the one thing shell quoting rejects.
pub open spec fn contains_nul(s: Seq<char>) -> bool {
    exists|i: int| 0 <= i < s.len() && s[i] == '\0'
}

/// Relies on shlex::try_quote: quotes one word for a POSIX shell. It fails
/// exactly on input holding a nul byte, and the result is a function of the
/// characters alone.
#[verifier::external_body]
fn escape(s: &str) -> (r: Option<String>)
    ensures
        (r is Some) == !contains_nul(s@),
        r matches Some(q) ==> q@ == shell_quoted(s@),
{
    match shlex::try_quote(s) {
        Ok(q) => Some(q.into_owned()),
        Err(_) => None,
    }
}

/// The full command string for the yazi backend, one space between tokens:
/// the program, the unquoted `--chooser-file` flag naming the portal's
/// output file, the quoted `--cwd-file` flag, and the quoted target path as
/// the pre-filled selection. In read-plus-directory mode the `--cwd-file`
/// flag names the output file itself, so browsing resumes where the last
/// pick left off; in every other mode it names the working directory.
pub open spec fn picker_command_spec(
    program: Seq<char>,
    mode: FileMode,
    is_directory: bool,
    write_path: Seq<char>,
    output_path: Seq<char>,
    cwd: Seq<char>,
) -> Seq<char> {
    let cwd_source = if is_directory && mode is Read {
        shell_quoted(output_path)
    } else {
        shell_quoted(cwd)
    };
    program + " --chooser-file="@ + output_path + " --cwd-file="@ + cwd_source + " "@
        + shell_quoted(write_path)
}

/// Which path feeds the `--cwd-file` flag for the given mode.
pub open spec fn cwd_source_spec(
    mode: FileMode,
    is_directory: bool,
    output_path: Seq<char>,
    cwd: Seq<char>,
) -> Seq<char> {
    if is_directory && mode is Read {
        output_path
    } else {
        cwd
    }
}

/// Builds the yazi command line around an already-resolved picker program
/// path. Fails exactly when a path bound for the shell cannot be quoted.
pub fn build_picker_command(
    fp: FilePicker,
    program: &str,
    mode: FileMode,
    is_directory: bool,
    write_path: &str,
    output_path: &str,
    cwd: &str,
) -> (r: Result<String, SessionError>)
    ensures
        (r is Ok) == (!contains_nul(write_path@) && !contains_nul(
            cwd_source_spec(mode, is_directory, output_path@, cwd@),
        )),
        r matches Ok(s) ==> s@ == picker_command_spec(
            program@,
            mode,
            is_directory,
            write_path@,
            output_path@,
            cwd@,
        ),
        r matches Err(e) ==> e == SessionError::UnquotablePath,
{
    match fp {
        FilePicker::Yazi => {
            let quoted_cwd = if is_directory && matches!(mode, FileMode::Read) {
                escape(output_path)
            } else {
                escape(cwd)
            };
            let quoted_cwd = match quoted_cwd {
                Some(q) => q,
                None => {
                    return Err(SessionError::UnquotablePath);
                },
            };
            let quoted_write = match escape(write_path) {
                Some(q) => q,
                None => {
                    return Err(SessionError::UnquotablePath);
                },
            };
            let s = program
                .to_owned()
                .concat(" --chooser-file=")
                .concat(output_path)
                .concat(" --cwd-file=")
                .concat(quoted_cwd.as_str())
                .concat(" ")
                .concat(quoted_write.as_str());
            Ok(s)
        },
    }
}

/// Whether quoting blocks the command for these inputs, independently of the
/// machine: some path bound for the shell holds a nul character.
pub open spec fn quoting_blocked_spec(
    mode: FileMode,
    is_directory: bool,
    write_path: Seq<char>,
    output_path: Seq<char>,
    cwd: Seq<char>,
) -> bool {
    contains_nul(write_path) || contains_nul(cwd_source_spec(mode, is_directory, output_path, cwd))
}

/// Builds the full picker invocation for `fp`: resolves the picker binary on
/// this machine, then assembles the command string. Which binary path the
/// machine yields is not specified; everything after that resolution is.
pub fn make_filepicker_command(
    fp: FilePicker,
    mode: FileMode,
    is_directory: bool,
    is_multiple: bool,
    write_path: &str,
    output_path: &str,
    cwd: &str,
) -> (r: Result<String, SessionError>)
    ensures
        r matches Ok(s) ==> !quoting_blocked_spec(mode, is_directory, write_path@, output_path@, cwd@)
            && (exists|program: Seq<char>|
            s@ == #[trigger] picker_command_spec(
                program,
                mode,
                is_directory,
                write_path@,
                output_path@,
                cwd@,
            )),
        !quoting_blocked_spec(mode, is_directory, write_path@, output_path@, cwd@) ==> (r is Ok
            || r == Err::<String, SessionError>(SessionError::PickerUnavailable)),
        r matches Err(e) ==> (e == SessionError::PickerUnavailable || (e
            == SessionError::UnquotablePath && quoting_blocked_spec(
            mode,
            is_directory,
            write_path@,
            output_path@,
            cwd@,
        ))),
{
    let _ = is_multiple;
    let program = match binary_path(picker_program(fp).as_str()) {
        Some(p) => p,
        None => {
            return Err(SessionError::PickerUnavailable);
        },
    };
    build_picker_command(fp, program.as_str(), mode, is_directory, write_path, output_path, cwd)
}

} // verus!
