//! Which display the overlay freezes: the one under the pointer.

use vstd::prelude::*;

verus! {

/// The screen to capture, given for each screen in the system's order
/// whether its frame contains the pointer: the first screen that does, or
/// the first screen when none does (the pointer can sit on an edge
/// outside every frame).
pub fn screen_for_mouse(contains_mouse: &[bool]) -> (i: usize)
    requires
        contains_mouse@.len() > 0,
    ensures
        i < contains_mouse@.len(),
        contains_mouse@[i as int] ==> forall|j: int| 0 <= j < i ==> !contains_mouse@[j],
        !contains_mouse@[i as int] ==> i == 0 && forall|j: int|
            0 <= j < contains_mouse@.len() ==> !#[trigger] contains_mouse@[j],
{
    let n = contains_mouse.len();
    let mut i: usize = 0;
    while i < n
        invariant
            n == contains_mouse@.len(),
            i <= n,
            forall|j: int| 0 <= j < i ==> !#[trigger] contains_mouse@[j],
        decreases n - i,
    {
        if contains_mouse[i] {
            return i;
        }
        i = i + 1;
    }
    0
}

} // verus!
