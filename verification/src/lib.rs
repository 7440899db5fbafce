//! Selection-session logic for a terminal-hosted file chooser invoked by a
//! desktop portal: resolving a safe write destination, remembering the last
//! browsed directory, building the picker command line, and interpreting the
//! picker's output file.

pub mod config;
pub mod errors;
pub mod filepicker;
pub mod interpret;
pub mod logger;
pub mod request;
pub mod resolver;
pub mod session;
pub mod store;
pub mod strutil;
pub mod sysdirs;
pub mod terminals;

use vstd::prelude::*;

verus! {

} // verus!
