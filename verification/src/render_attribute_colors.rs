//! ABI entry points for attribute color resolution.

use vstd::prelude::*;
use crate::parser_ffi::{bool_from_abi, FfiStatus};
use crate::attribute_color_policy::{
    apply_attribute_alpha, apply_attribute_effects, spec_attribute_alpha, spec_attribute_effects,
    AttributeColors,
};

verus! {

/// ABI form of a foreground/background pair.
#[derive(Debug, Clone, Copy, Default, PartialEq, Eq, Structural)]
pub struct RenderAttributeColors {
    pub foreground: u32,
    pub background: u32,
}

/// Applies the attribute effects; each flag must be 0 or 1.
pub fn render_attribute_effects(
    foreground: u32,
    background: u32,
    dim_foreground: u32,
    reverse_video: u32,
    screen_reversed: u32,
    invisible: u32,
) -> (r: Result<RenderAttributeColors, FfiStatus>)
    ensures
        (dim_foreground > 1 || reverse_video > 1 || screen_reversed > 1 || invisible > 1) ==> r == Err::<
            RenderAttributeColors,
            FfiStatus,
        >(FfiStatus::InvalidArgument),
        (dim_foreground <= 1 && reverse_video <= 1 && screen_reversed <= 1 && invisible <= 1) ==> ({
            let c = spec_attribute_effects(
                foreground,
                background,
                dim_foreground == 1,
                reverse_video == 1,
                screen_reversed == 1,
                invisible == 1,
            );
            r == Ok::<RenderAttributeColors, FfiStatus>(
                RenderAttributeColors { foreground: c.foreground, background: c.background },
            )
        }),
{
    let (dim, reverse, screen, hidden) = match (
        bool_from_abi(dim_foreground),
        bool_from_abi(reverse_video),
        bool_from_abi(screen_reversed),
        bool_from_abi(invisible),
    ) {
        (Some(a), Some(b), Some(c), Some(d)) => (a, b, c, d),
        _ => return Err(FfiStatus::InvalidArgument),
    };
    let colors = apply_attribute_effects(foreground, background, dim, reverse, screen, hidden);
    Ok(RenderAttributeColors { foreground: colors.foreground, background: colors.background })
}

/// Applies the alpha rules; each flag must be 0 or 1.
pub fn render_attribute_alpha(
    colors: RenderAttributeColors,
    background_default: u32,
    reverse_video: u32,
    screen_reversed: u32,
    invisible: u32,
) -> (r: Result<RenderAttributeColors, FfiStatus>)
    ensures
        (background_default > 1 || reverse_video > 1 || screen_reversed > 1 || invisible > 1) ==> r == Err::<
            RenderAttributeColors,
            FfiStatus,
        >(FfiStatus::InvalidArgument),
        (background_default <= 1 && reverse_video <= 1 && screen_reversed <= 1 && invisible <= 1) ==> ({
            let c = spec_attribute_alpha(
                AttributeColors { foreground: colors.foreground, background: colors.background },
                background_default == 1,
                reverse_video == 1,
                screen_reversed == 1,
                invisible == 1,
            );
            r == Ok::<RenderAttributeColors, FfiStatus>(
                RenderAttributeColors { foreground: c.foreground, background: c.background },
            )
        }),
{
    let (default_background, reverse, screen, hidden) = match (
        bool_from_abi(background_default),
        bool_from_abi(reverse_video),
        bool_from_abi(screen_reversed),
        bool_from_abi(invisible),
    ) {
        (Some(a), Some(b), Some(c), Some(d)) => (a, b, c, d),
        _ => return Err(FfiStatus::InvalidArgument),
    };
    let resolved = apply_attribute_alpha(
        AttributeColors { foreground: colors.foreground, background: colors.background },
        default_background,
        reverse,
        screen,
        hidden,
    );
    Ok(RenderAttributeColors { foreground: resolved.foreground, background: resolved.background })
}

} // verus!
