//! The resolved configuration surface the session consumes: which terminal
//! and picker to use, and whether to resume at the last selected directory.
//! Missing fields always mean "use the autodetected default"; partial
//! configuration never fails a session.

use vstd::prelude::*;
use crate::filepicker::{filepicker_from_env, FilePicker};
use crate::terminals::{terminal_from_env, Terminal};

verus! {

/// The configuration as the session sees it, every field optional.
#[derive(Clone, Copy, Debug)]
pub struct Config {
    pub terminal: Option<Terminal>,
    pub filepicker: Option<FilePicker>,
    pub start_at_last_selected_dir: Option<bool>,
}

impl Config {
    /// The autodetected configuration: both backends probed from the
    /// machine, resuming at the last selected directory switched on.
    pub fn from_env() -> (c: Config)
        ensures
            c.terminal is Some,
            c.filepicker == Some(FilePicker::Yazi),
            c.start_at_last_selected_dir == Some(true),
    {
        Config {
            terminal: Some(terminal_from_env()),
            filepicker: Some(filepicker_from_env()),
            start_at_last_selected_dir: Some(true),
        }
    }

    /// `self` overridden field by field with whatever `other_config` sets;
    /// a field the other leaves empty keeps this one's value.
    pub fn merge(&self, other_config: &Config) -> (c: Config)
        ensures
            c.terminal == (if other_config.terminal is Some {
                other_config.terminal
            } else {
                self.terminal
            }),
            c.filepicker == (if other_config.filepicker is Some {
                other_config.filepicker
            } else {
                self.filepicker
            }),
            c.start_at_last_selected_dir == (if other_config.start_at_last_selected_dir is Some {
                other_config.start_at_last_selected_dir
            } else {
                self.start_at_last_selected_dir
            }),
    {
        let mut new_config = *self;
        if other_config.terminal.is_some() {
            new_config.terminal = other_config.terminal;
        }
        if other_config.filepicker.is_some() {
            new_config.filepicker = other_config.filepicker;
        }
        if other_config.start_at_last_selected_dir.is_some() {
            new_config.start_at_last_selected_dir = other_config.start_at_last_selected_dir;
        }
        new_config
    }
}

} // verus!
