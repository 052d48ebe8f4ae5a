//! The steps that the shell asks of the windowing framework.

use vstd::prelude::*;
use crate::menu::{MenuItem, Title};
use crate::window::WindowLabel;

verus! {

/// One step for the framework to carry out. A step that names a window
/// fails when no such window exists, and the steps after it are not taken.
#[derive(Clone, Copy, Debug, PartialEq, Eq, Structural)]
pub enum Action {
    /// Build the spotlight window.
    CreateSpotlightWindow,
    /// Make sure the window exists, and do nothing else.
    Locate(WindowLabel),
    Show(WindowLabel),
    Hide(WindowLabel),
    Focus(WindowLabel),
    Close(WindowLabel),
    /// Give a menu command a new title.
    SetTitle(MenuItem, Title),
    /// Wait for the given number of seconds.
    Sleep { secs: u64 },
    /// End the process with the given status.
    Exit { status: i32 },
}

} // verus!
