//! Underline color under invisibility.

use vstd::prelude::*;

verus! {

/// Invisible text draws its underline in the background color.
pub fn apply_underline_invisibility(underline: u32, background: u32, invisible: bool) -> (r: u32)
    ensures
        r == (if invisible { background } else { underline }),
{
    if invisible { background } else { underline }
}

} // verus!
