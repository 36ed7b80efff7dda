//! coomer: the decision logic of a frozen-screenshot zoom overlay.
//!
//! The library holds what the overlay decides: how key codes and pointer
//! events become overlay intents, what each intent does to the discrete
//! overlay state, when the HUD pill hides or settles, and how a new launch
//! finds the session it replaces. The window, the drawing and the geometry
//! (all in floating point) live in the application around it.

pub mod capture;
pub mod input;
pub mod overlay;
pub mod hud;
pub mod instance;

use vstd::prelude::*;
use vstd::string::StringExecFns;

verus! {

/// The message with which the overlay declines to run away from macOS.
pub open spec fn unsupported_platform_message() -> Seq<char> {
    "coomer only runs on macOS"@
}

/// The overlay's entry point on platforms other than macOS: the overlay
/// needs the macOS window server, so this run ends at once with the error
/// that says so. On macOS the application runs the overlay session itself.
pub fn run() -> (r: Result<(), String>)
    ensures
        r matches Err(message) && message@ == unsupported_platform_message(),
        r matches Err(message) && message@ == "coomer only runs on macOS"@,
{
    Err(String::from_str("coomer only runs on macOS"))
}

} // verus!
