//! Trusted probes of the machine's environment: well-known user directories
//! and binary lookup on `PATH`. Every result depends on the machine and the
//! environment, so nothing is promised of any of them; all decisions taken on
//! the results live in verified code.

use vstd::prelude::*;

verus! {

/// Relies on dirs::download_dir: the user's downloads directory, if this
/// machine defines one; `None` also when the path is not UTF-8.
#[verifier::external_body]
pub fn download_dir() -> (r: Option<String>) {
    dirs::download_dir().and_then(|p| p.to_str().map(|s| s.to_string()))
}

/// Relies on dirs::home_dir: the user's home directory, if this machine
/// defines one; `None` also when the path is not UTF-8.
#[verifier::external_body]
pub fn home_dir() -> (r: Option<String>) {
    dirs::home_dir().and_then(|p| p.to_str().map(|s| s.to_string()))
}

/// Relies on dirs::state_dir: the per-user state directory, if this machine
/// defines one; `None` also when the path is not UTF-8.
#[verifier::external_body]
pub fn state_dir() -> (r: Option<String>) {
    dirs::state_dir().and_then(|p| p.to_str().map(|s| s.to_string()))
}

/// Relies on dirs::cache_dir: the per-user cache directory, if this machine
/// defines one; `None` also when the path is not UTF-8.
#[verifier::external_body]
pub fn cache_dir() -> (r: Option<String>) {
    dirs::cache_dir().and_then(|p| p.to_str().map(|s| s.to_string()))
}

/// Relies on dirs::config_dir: the per-user configuration directory, if this
/// machine defines one; `None` also when the path is not UTF-8.
#[verifier::external_body]
pub fn config_dir() -> (r: Option<String>) {
    dirs::config_dir().and_then(|p| p.to_str().map(|s| s.to_string()))
}

/// Relies on which::which: resolves a binary name against `PATH` to a full
/// path; `None` when the binary is absent or its path is not UTF-8.
#[verifier::external_body]
pub fn binary_path(name: &str) -> (r: Option<String>) {
    match which::which(name) {
        Ok(p) => p.to_str().map(|s| s.to_string()),
        Err(_) => None,
    }
}

} // verus!
