//! Where the prompt window goes when no monitor can be told.

use vstd::prelude::*;

verus! {

/// The distance that the prompt window keeps from an edge.
pub const MARGIN: i32 = 20;

/// Where the prompt window goes when no monitor is known: just inside the main window, whose
/// upper left corner is at `x` and `y`.
pub fn beside_main_window(x: i32, y: i32) -> (position: (i32, i32))
    requires
        x + MARGIN <= i32::MAX,
        y + MARGIN <= i32::MAX,
    ensures
        position.0 == x + MARGIN,
        position.1 == y + MARGIN,
{
    (x + MARGIN, y + MARGIN)
}

} // verus!
