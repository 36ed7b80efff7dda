//! Virtual key codes of the keys the overlay answers to.

use vstd::prelude::*;

verus! {

/// `f`: toggle the flashlight.
pub const FLASHLIGHT_TOGGLE: u16 = 3;
/// `q`: quit.
pub const QUIT: u16 = 12;
/// `=`: zoom in.
pub const ZOOM_IN: u16 = 24;
/// `-`: zoom out.
pub const ZOOM_OUT: u16 = 27;
/// `0`: reset.
pub const RESET: u16 = 29;
/// `Esc`: quit.
pub const ESCAPE: u16 = 53;

} // verus!
