use lib::attribute_color_policy::{apply_attribute_alpha, apply_attribute_effects, AttributeColors};
use lib::render_settings_policy::{RenderMode, RenderSettingsPolicy};
use lib::underline_color_policy::apply_underline_invisibility;

#[test]
fn dim_halves_each_foreground_component() {
    let colors = apply_attribute_effects(0x0060_4020, 0x0011_2233, true, false, false, false);
    assert_eq!(
        colors,
        AttributeColors { foreground: 0x0030_2010, background: 0x0011_2233 }
    );
}

#[test]
fn reverse_video_and_screen_reverse_cancel_each_other() {
    let original = AttributeColors { foreground: 0x0011_2233, background: 0x0044_5566 };
    assert_eq!(
        apply_attribute_effects(original.foreground, original.background, false, true, true, false),
        original
    );
}

#[test]
fn one_reverse_source_swaps_foreground_and_background() {
    assert_eq!(
        apply_attribute_effects(0x0011_2233, 0x0044_5566, false, true, false, false),
        AttributeColors { foreground: 0x0044_5566, background: 0x0011_2233 }
    );
}

#[test]
fn invisible_text_uses_the_final_background_as_foreground() {
    assert_eq!(
        apply_attribute_effects(0x0011_2233, 0x0044_5566, false, true, false, true),
        AttributeColors { foreground: 0x0011_2233, background: 0x0011_2233 }
    );
}

#[test]
fn default_background_keeps_transparency_when_not_reversed_or_invisible() {
    assert_eq!(
        apply_attribute_alpha(
            AttributeColors { foreground: 0x0011_2233, background: 0x0044_5566 },
            true,
            false,
            false,
            false,
        ),
        AttributeColors { foreground: 0xFF11_2233, background: 0x0044_5566 }
    );
}

#[test]
fn custom_reversed_and_invisible_backgrounds_are_opaque() {
    for (background_is_default, reverse_video, screen_reversed, invisible) in [
        (false, false, false, false),
        (true, true, false, false),
        (true, false, true, false),
        (true, false, false, true),
    ] {
        let colors = apply_attribute_alpha(
            AttributeColors { foreground: 0x0011_2233, background: 0x0044_5566 },
            background_is_default,
            reverse_video,
            screen_reversed,
            invisible,
        );
        assert_eq!(colors.foreground, 0xFF11_2233);
        assert_eq!(colors.background, 0xFF44_5566);
    }
}

#[test]
fn default_mode_matches_cpp_initial_state() {
    let settings = RenderSettingsPolicy::default();
    assert!(settings.mode(RenderMode::IntenseIsBright));
    assert!(!settings.mode(RenderMode::ScreenReversed));
    assert!(!settings.mode(RenderMode::SynchronizedOutput));
}

#[test]
fn modes_can_be_changed_independently() {
    let mut settings = RenderSettingsPolicy::default();
    settings.set_mode(RenderMode::IntenseIsBold, true);
    settings.set_mode(RenderMode::IntenseIsBright, false);
    assert!(settings.mode(RenderMode::IntenseIsBold));
    assert!(!settings.mode(RenderMode::IntenseIsBright));
}

#[test]
fn hard_reset_only_clears_programmable_modes() {
    let mut settings = RenderSettingsPolicy::default();
    settings.set_mode(RenderMode::AlwaysDistinguishableColors, true);
    settings.set_mode(RenderMode::ScreenReversed, true);
    settings.set_mode(RenderMode::SynchronizedOutput, true);

    settings.restore_programmable_defaults();

    assert!(settings.mode(RenderMode::AlwaysDistinguishableColors));
    assert!(settings.mode(RenderMode::IntenseIsBright));
    assert!(!settings.mode(RenderMode::ScreenReversed));
    assert!(!settings.mode(RenderMode::SynchronizedOutput));
}

#[test]
fn blink_rendition_toggles_faint_state() {
    let mut settings = RenderSettingsPolicy::default();
    assert!(!settings.blink_should_be_faint());
    settings.toggle_blink_rendition();
    assert!(settings.blink_should_be_faint());
    settings.toggle_blink_rendition();
    assert!(!settings.blink_should_be_faint());
}

#[test]
fn contrast_adjustment_replays_distinguishable_color_modes() {
    let mut settings = RenderSettingsPolicy::default();

    assert!(!settings.should_adjust_contrast(0x0011_2233, 0x0044_5566, true, true));

    settings.set_mode(RenderMode::IndexedDistinguishableColors, true);
    assert!(settings.should_adjust_contrast(0x0011_2233, 0x0044_5566, true, true));
    assert!(!settings.should_adjust_contrast(0x0011_2233, 0x0044_5566, false, true));
    assert!(!settings.should_adjust_contrast(0x0044_5566, 0x0044_5566, true, true));

    settings.set_mode(RenderMode::AlwaysDistinguishableColors, true);
    assert!(settings.should_adjust_contrast(0x0011_2233, 0x0044_5566, false, false));
    assert!(!settings.should_adjust_contrast(0x0044_5566, 0x0044_5566, false, false));
}

#[test]
fn invisible_text_uses_background_for_explicit_underline() {
    assert_eq!(apply_underline_invisibility(0x0011_2233, 0x0044_5566, true), 0x0044_5566);
}

#[test]
fn visible_text_preserves_explicit_underline() {
    assert_eq!(apply_underline_invisibility(0x0011_2233, 0x0044_5566, false), 0x0011_2233);
}

#[test]
fn double_reverse_with_dim_and_invisible_matches_plain_dim_invisible() {
    let both = apply_attribute_effects(0x0060_4020, 0x0011_2233, true, true, true, true);
    let neither = apply_attribute_effects(0x0060_4020, 0x0011_2233, true, false, false, true);
    assert_eq!(both, neither);
    assert_eq!(both.foreground, both.background);
}

#[test]
fn set_mode_leaves_other_modes_alone() {
    let mut settings = RenderSettingsPolicy::default();
    settings.set_mode(RenderMode::ScreenReversed, true);
    assert!(settings.mode(RenderMode::ScreenReversed));
    assert!(settings.mode(RenderMode::IntenseIsBright));
    assert!(!settings.mode(RenderMode::IntenseIsBold));
    settings.set_mode(RenderMode::ScreenReversed, false);
    assert_eq!(settings, RenderSettingsPolicy::default());
}
