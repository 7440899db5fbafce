//! The terminal emulators that can host the picker, the binary each one is
//! launched as, and the probe that picks one on this machine.

use vstd::prelude::*;
use crate::sysdirs::binary_path;

verus! {

/// The terminal emulators this tool knows how to invoke.
#[derive(Clone, Copy, Debug, PartialEq, Eq, Structural)]
pub enum Terminal {
    Alacritty,
    Foot,
    Ghostty,
    Kitty,
    Xterm,
}

/// The binary name each terminal is launched as.
pub open spec fn terminal_command_spec(term: Terminal) -> Seq<char> {
    match term {
        Terminal::Alacritty => "alacritty"@,
        Terminal::Foot => "foot"@,
        Terminal::Ghostty => "ghostty"@,
        Terminal::Kitty => "kitty"@,
        Terminal::Xterm => "xterm"@,
    }
}

/// The binary name for `term`.
pub fn command_name(term: &Terminal) -> (r: Option<String>)
    ensures
        r.deep_view() == Some(terminal_command_spec(*term)),
{
    match term {
        Terminal::Alacritty => Some("alacritty".to_owned()),
        Terminal::Foot => Some("foot".to_owned()),
        Terminal::Ghostty => Some("ghostty".to_owned()),
        Terminal::Kitty => Some("kitty".to_owned()),
        Terminal::Xterm => Some("xterm".to_owned()),
    }
}

/// The autodetection priority: the first terminal of the fixed order that is
/// present on the machine, with xterm as the unconditional fallback.
pub fn select_terminal(ghostty: bool, kitty: bool, alacritty: bool, foot: bool) -> (t: Terminal)
    ensures
        t == (if ghostty {
            Terminal::Ghostty
        } else if kitty {
            Terminal::Kitty
        } else if alacritty {
            Terminal::Alacritty
        } else if foot {
            Terminal::Foot
        } else {
            Terminal::Xterm
        }),
{
    if ghostty {
        Terminal::Ghostty
    } else if kitty {
        Terminal::Kitty
    } else if alacritty {
        Terminal::Alacritty
    } else if foot {
        Terminal::Foot
    } else {
        Terminal::Xterm
    }
}

/// Probes this machine for a terminal, in the fixed priority order. What is
/// installed depends on the machine, so the chosen variant is not specified;
/// the priority rule itself is `select_terminal`.
pub fn terminal_from_env() -> Terminal {
    let ghostty = binary_path("ghostty").is_some();
    let kitty = binary_path("kitty").is_some();
    let alacritty = binary_path("alacritty").is_some();
    let foot = binary_path("foot").is_some();
    select_terminal(ghostty, kitty, alacritty, foot)
}

} // verus!
