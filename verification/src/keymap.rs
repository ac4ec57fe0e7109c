//! The logical keyboard commands the event loop understands. Decoding raw
//! terminal events into these commands is the input adapter's job.

use vstd::prelude::*;

verus! {

/// One decoded keyboard command.
#[derive(Clone, Copy, Debug, PartialEq, Eq, Structural)]
pub enum KeyMap {
    Episodes,
    Feeds,
    Downloads,
    Log,
    Headers,
    Download,
    Refresh,
    Quit,
    Up,
    Down,
    PageUp,
    PageDown,
    Home,
    End,
    Right,
    Left,
    Enter,
    Resize(usize, usize),
}

} // verus!
