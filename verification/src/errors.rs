//! The error taxonomy of a selection session. Every failure is fatal for the
//! step that raised it; nothing is retried.

use vstd::prelude::*;

verus! {

/// Why a selection session failed.
#[derive(Clone, Copy, Debug, PartialEq, Eq, Structural)]
pub enum SessionError {
    /// The portal handed over the wrong number of arguments, or a write
    /// request without a recommended path.
    InvalidInput,
    /// Neither a downloads directory nor a home directory is known, so no
    /// fallback working directory exists.
    NoDefaultDirectory,
    /// The file-picker binary could not be found on this machine.
    PickerUnavailable,
    /// A path destined for the shell command line holds a nul character and
    /// cannot be quoted.
    UnquotablePath,
}

} // verus!
