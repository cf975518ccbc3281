//! Foreground/background resolution for text attributes: dim, reverse video,
//! invisibility and alpha.

use vstd::prelude::*;

verus! {

/// Each 8-bit color component halved: the low bit of every byte of a
/// right-shifted color is cleared.
pub const HALF_COMPONENT_MASK: u32 = 0x007F_7F7F;

/// Alpha byte of a fully opaque color.
pub const OPAQUE_ALPHA: u32 = 0xFF00_0000;

/// A resolved foreground/background pair of 0xAABBGGRR colors.
#[derive(Debug, Clone, Copy, PartialEq, Eq, Structural)]
pub struct AttributeColors {
    pub foreground: u32,
    pub background: u32,
}

/// The effects in order: dim halves every foreground component; exactly one
/// of reverse video and screen reversal swaps the pair (both cancel); an
/// invisible foreground takes the final background.
pub open spec fn spec_attribute_effects(
    foreground: u32,
    background: u32,
    dim_foreground: bool,
    reverse_video: bool,
    screen_reversed: bool,
    invisible: bool,
) -> AttributeColors {
    let fg = if dim_foreground { (foreground >> 1u32) & HALF_COMPONENT_MASK } else { foreground };
    let swapped = reverse_video != screen_reversed;
    let fg2 = if swapped { background } else { fg };
    let bg2 = if swapped { fg } else { background };
    AttributeColors { foreground: if invisible { bg2 } else { fg2 }, background: bg2 }
}

pub fn apply_attribute_effects(
    foreground: u32,
    background: u32,
    dim_foreground: bool,
    reverse_video: bool,
    screen_reversed: bool,
    invisible: bool,
) -> (r: AttributeColors)
    ensures
        r == spec_attribute_effects(
            foreground,
            background,
            dim_foreground,
            reverse_video,
            screen_reversed,
            invisible,
        ),
{
    let mut foreground = foreground;
    let mut background = background;
    if dim_foreground {
        foreground = (foreground >> 1u32) & HALF_COMPONENT_MASK;
    }
    if reverse_video ^ screen_reversed {
        let previous = foreground;
        foreground = background;
        background = previous;
    }
    if invisible {
        foreground = background;
    }
    AttributeColors { foreground, background }
}

/// The foreground is always opaque; the background keeps its alpha only
/// when it is the default background, not reversed and not invisible.
pub open spec fn spec_attribute_alpha(
    colors: AttributeColors,
    background_is_default: bool,
    reverse_video: bool,
    screen_reversed: bool,
    invisible: bool,
) -> AttributeColors {
    AttributeColors {
        foreground: colors.foreground | OPAQUE_ALPHA,
        background: if !background_is_default || (reverse_video != screen_reversed) || invisible {
            colors.background | OPAQUE_ALPHA
        } else {
            colors.background
        },
    }
}

pub fn apply_attribute_alpha(
    colors: AttributeColors,
    background_is_default: bool,
    reverse_video: bool,
    screen_reversed: bool,
    invisible: bool,
) -> (r: AttributeColors)
    ensures
        r == spec_attribute_alpha(colors, background_is_default, reverse_video, screen_reversed, invisible),
{
    let mut colors = colors;
    colors.foreground = colors.foreground | OPAQUE_ALPHA;
    if !background_is_default || (reverse_video ^ screen_reversed) || invisible {
        colors.background = colors.background | OPAQUE_ALPHA;
    }
    colors
}

/// Reverse video and screen reversal cancel: applying both is applying neither.
pub proof fn lemma_double_reverse_cancels(foreground: u32, background: u32, dim: bool, invisible: bool)
    ensures
        spec_attribute_effects(foreground, background, dim, true, true, invisible)
            == spec_attribute_effects(foreground, background, dim, false, false, invisible),
{
}

/// An invisible attribute always renders its foreground as its background.
pub proof fn lemma_invisible_matches_background(
    foreground: u32,
    background: u32,
    dim: bool,
    reverse_video: bool,
    screen_reversed: bool,
)
    ensures
        ({
            let r = spec_attribute_effects(foreground, background, dim, reverse_video, screen_reversed, true);
            r.foreground == r.background
        }),
{
}

} // verus!
