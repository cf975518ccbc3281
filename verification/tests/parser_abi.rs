use lib::input_control::ControlCharacterKind;
use lib::output_csi_column::{output_csi_column_plan, OutputCsiColumnKind};
use lib::output_csi_decac::{output_csi_decac_plan, OutputCsiDecacKind};
use lib::output_csi_decps::{output_csi_decps_plan, OutputCsiDecpsKind, OutputCsiDecpsPlan};
use lib::output_csi_decrqcra::{output_csi_decrqcra_plan, OutputCsiDecrqcraKind, OutputCsiDecrqcraPlan};
use lib::output_csi_decrqtsr::{output_csi_decrqtsr_plan, OutputCsiDecrqtsrKind};
use lib::output_csi_kitty_keyboard_push::{output_csi_kitty_keyboard_push_plan, OutputCsiKittyKeyboardPushKind};
use lib::output_csi_kitty_keyboard_query::{output_csi_kitty_keyboard_query_plan, OutputCsiKittyKeyboardQueryKind};
use lib::output_csi_kitty_keyboard_set::{
    output_csi_kitty_keyboard_set_plan, OutputCsiKittyKeyboardSetKind, OutputCsiKittyKeyboardSetPlan,
};
use lib::output_csi_mode::{output_csi_mode_plan, OutputCsiModeKind};
use lib::output_csi_push_sgr::{copy_status, output_csi_push_sgr_values};
use lib::output_csi_rect_attributes::{
    output_csi_rect_attributes_plan, OutputCsiRectAttributesKind, OutputCsiRectAttributesPlan,
};
use lib::output_csi_rep::{output_csi_rep_plan, OutputCsiRepKind, OutputCsiRepPlan};
use lib::output_dcs::{output_dcs_plan, OutputDcsKind};
use lib::output_osc::{output_osc_plan, OutputOscKind};
use lib::parser_ffi::{
    input_control_character_plan, terminal_parser_ffi_input_cursor_vkey,
    terminal_parser_ffi_input_generic_vkey, terminal_parser_ffi_input_ss3_vkey, FfiStatus,
};
use lib::render_attribute_colors::{render_attribute_alpha, render_attribute_effects, RenderAttributeColors};
use lib::render_settings::{
    render_settings_default, render_settings_get_mode, render_settings_restore_programmable_defaults,
    render_settings_set_mode, render_settings_should_adjust_contrast, render_settings_toggle_blink,
    RenderSettingsState,
};
use lib::vt::VtId;

const INVALID_ID: u64 = 0xff00_0000_0000_0000;

fn id(text: &str) -> u64 {
    VtId::from_ascii(text).value()
}

#[test]
fn replays_ctrl_c_and_alt_ctrl_c_split() {
    let plan = input_control_character_plan(0x03, 0).expect("plan");
    assert_eq!(plan.kind, ControlCharacterKind::CtrlC.code());
    assert_eq!(plan.forced_virtual_key, u16::from(b'C'));

    let plan = input_control_character_plan(0x03, 1).expect("plan");
    assert_eq!(plan.kind, ControlCharacterKind::MappedC0.code());
    assert_eq!(plan.write_ctrl, 1);
}

#[test]
fn replays_backspace_escape_delete_and_printable_paths() {
    let plan = input_control_character_plan(0x08, 0).expect("plan");
    assert_eq!(plan.character, 0x7f);
    assert_eq!(plan.clear_layout_modifiers, 1);

    let plan = input_control_character_plan(0x1b, 0).expect("plan");
    assert_eq!(plan.forced_virtual_key, 0x1b);

    let plan = input_control_character_plan(0x7f, 1).expect("plan");
    assert_eq!(plan.kind, ControlCharacterKind::DeleteAsBackspace.code());
    assert_eq!(plan.character, 0x08);

    let plan = input_control_character_plan(u16::from(b'A'), 0).expect("plan");
    assert_eq!(plan.kind, ControlCharacterKind::Print.code());
}

#[test]
fn rejects_invalid_abi_arguments() {
    assert_eq!(input_control_character_plan(0, 2), Err(FfiStatus::InvalidArgument));
}

#[test]
fn input_keymap_ffi_preserves_zero_as_not_found() {
    assert_eq!(terminal_parser_ffi_input_cursor_vkey(u16::from(b'A')), 0x26);
    assert_eq!(terminal_parser_ffi_input_cursor_vkey(u16::from(b'X')), 0);
    assert_eq!(terminal_parser_ffi_input_generic_vkey(24), 0x7b);
    assert_eq!(terminal_parser_ffi_input_generic_vkey(22), 0);
    assert_eq!(terminal_parser_ffi_input_ss3_vkey(u16::from(b'P')), 0x70);
    assert_eq!(terminal_parser_ffi_input_ss3_vkey(u16::from(b'X')), 0);
}

#[test]
fn csi_column_ffi_replays_insert_and_delete_contracts() {
    let expect = |text: &str, parameter0: i32, kind: OutputCsiColumnKind, count: i32| {
        let result = output_csi_column_plan(id(text), parameter0).expect("plan");
        assert_eq!(result.kind, kind.code(), "id={text:?}");
        assert_eq!(result.count, count, "id={text:?}");
    };
    expect("'}", 0, OutputCsiColumnKind::InsertColumn, 0);
    expect("'}", 4, OutputCsiColumnKind::InsertColumn, 4);
    expect("'~", 0, OutputCsiColumnKind::DeleteColumn, 0);
    expect("'~", 7, OutputCsiColumnKind::DeleteColumn, 7);
    expect("$x", 3, OutputCsiColumnKind::Unmatched, 0);
}

#[test]
fn csi_column_ffi_validates_pointer_and_identifier() {
    assert_eq!(output_csi_column_plan(INVALID_ID, 0), Err(FfiStatus::InvalidArgument));
}

#[test]
fn csi_decac_ffi_replays_microsoft_contract() {
    let expect = |text: &str, parameters: [i32; 3], kind: OutputCsiDecacKind, expected: [i32; 3]| {
        let result =
            output_csi_decac_plan(id(text), parameters[0], parameters[1], parameters[2]).expect("plan");
        assert_eq!(result.kind, kind.code(), "id={text:?}");
        assert_eq!(result.item, expected[0], "id={text:?}");
        assert_eq!(result.foreground_index, expected[1], "id={text:?}");
        assert_eq!(result.background_index, expected[2], "id={text:?}");
    };
    expect(",|", [0, 0, 0], OutputCsiDecacKind::AssignColor, [0, 0, 0]);
    expect(",|", [1, 7, 4], OutputCsiDecacKind::AssignColor, [1, 7, 4]);
    expect(",|", [2, 15, 0], OutputCsiDecacKind::AssignColor, [2, 15, 0]);
    expect(",~", [1, 7, 4], OutputCsiDecacKind::Unmatched, [0, 0, 0]);
}

#[test]
fn csi_decac_ffi_validates_pointer_and_identifier() {
    assert_eq!(output_csi_decac_plan(INVALID_ID, 0, 0, 0), Err(FfiStatus::InvalidArgument));
}

#[test]
fn decps_ffi_replays_rust_semantic_owner() {
    assert_eq!(
        output_csi_decps_plan(id(",~")),
        Ok(OutputCsiDecpsPlan { kind: OutputCsiDecpsKind::PlaySounds.code() })
    );
    assert_eq!(output_csi_decps_plan(id(",|")), Ok(OutputCsiDecpsPlan::default()));
}

#[test]
fn decps_ffi_rejects_invalid_identifier_and_null_output() {
    assert_eq!(output_csi_decps_plan(INVALID_ID), Err(FfiStatus::InvalidArgument));
}

#[test]
fn decrqcra_ffi_replays_microsoft_contract_and_scalar_defaults() {
    let plan = |text: &str, request_id, page, bottom, right| {
        output_csi_decrqcra_plan(id(text), request_id, page, bottom, right).expect("plan")
    };
    assert_eq!(
        plan("*y", 0, 0, 0, 0),
        OutputCsiDecrqcraPlan {
            kind: OutputCsiDecrqcraKind::RequestChecksumRectangularArea.code(),
            request_id: 0,
            page: 0,
            bottom: 0,
            right: 0,
        }
    );
    assert_eq!(
        plan("*y", 7, 2, 17, 23),
        OutputCsiDecrqcraPlan {
            kind: OutputCsiDecrqcraKind::RequestChecksumRectangularArea.code(),
            request_id: 7,
            page: 2,
            bottom: 17,
            right: 23,
        }
    );
    assert_eq!(plan("*x", 7, 2, 17, 23), OutputCsiDecrqcraPlan::default());
}

#[test]
fn decrqcra_ffi_rejects_invalid_identifier_and_null_output() {
    assert_eq!(output_csi_decrqcra_plan(INVALID_ID, 0, 0, 0, 0), Err(FfiStatus::InvalidArgument));
}

#[test]
fn csi_decrqtsr_ffi_replays_microsoft_contract_without_laundering_omission() {
    let expect = |text: &str, raw: [i32; 2], kind: OutputCsiDecrqtsrKind, format: i32, format_option: i32| {
        let result = output_csi_decrqtsr_plan(id(text), raw[0], raw[1]).expect("plan");
        assert_eq!(result.kind, kind.code(), "id={text:?}");
        assert_eq!(result.format, format, "id={text:?}");
        assert_eq!(result.format_option, format_option, "id={text:?}");
        assert_eq!(result.reserved0, 0);
    };
    expect("$u", [-1, -1], OutputCsiDecrqtsrKind::RequestTerminalState, 0, -1);
    expect("$u", [1, -1], OutputCsiDecrqtsrKind::RequestTerminalState, 1, -1);
    expect("$u", [2, 0], OutputCsiDecrqtsrKind::RequestTerminalState, 2, 0);
    expect("$u", [2, 7], OutputCsiDecrqtsrKind::RequestTerminalState, 2, 7);
    expect("$w", [1, -1], OutputCsiDecrqtsrKind::Unmatched, 0, -1);
}

#[test]
fn csi_decrqtsr_ffi_validates_pointer_and_identifier() {
    assert_eq!(output_csi_decrqtsr_plan(INVALID_ID, -1, -1), Err(FfiStatus::InvalidArgument));
}

#[test]
fn csi_kitty_keyboard_push_ffi_replays_microsoft_contract() {
    let expect = |text: &str, parameter0: i32, kind: OutputCsiKittyKeyboardPushKind, flags: i32| {
        let result = output_csi_kitty_keyboard_push_plan(id(text), parameter0).expect("plan");
        assert_eq!(result.kind, kind.code(), "id={text:?}");
        assert_eq!(result.flags, flags, "id={text:?}");
    };
    expect(">u", 0, OutputCsiKittyKeyboardPushKind::Push, 0);
    expect(">u", 1, OutputCsiKittyKeyboardPushKind::Push, 1);
    expect(">u", 42, OutputCsiKittyKeyboardPushKind::Push, 42);
    expect("?u", 42, OutputCsiKittyKeyboardPushKind::Unmatched, 0);
}

#[test]
fn csi_kitty_keyboard_push_ffi_validates_pointer_and_identifier() {
    assert_eq!(output_csi_kitty_keyboard_push_plan(INVALID_ID, 0), Err(FfiStatus::InvalidArgument));
}

#[test]
fn csi_kitty_keyboard_query_ffi_replays_microsoft_contract() {
    let expect = |text: &str, kind: OutputCsiKittyKeyboardQueryKind| {
        let result = output_csi_kitty_keyboard_query_plan(id(text)).expect("plan");
        assert_eq!(result.kind, kind.code(), "id={text:?}");
    };
    expect("?u", OutputCsiKittyKeyboardQueryKind::Query);
    expect("&u", OutputCsiKittyKeyboardQueryKind::Unmatched);
}

#[test]
fn csi_kitty_keyboard_query_ffi_validates_pointer_and_identifier() {
    assert_eq!(output_csi_kitty_keyboard_query_plan(INVALID_ID), Err(FfiStatus::InvalidArgument));
}

fn kitty_set(text: &str, flags: Option<i32>, mode: Option<i32>, kind: OutputCsiKittyKeyboardSetKind) -> OutputCsiKittyKeyboardSetPlan {
    let result = output_csi_kitty_keyboard_set_plan(
        id(text),
        u32::from(flags.is_some()),
        flags.unwrap_or(0),
        u32::from(mode.is_some()),
        mode.unwrap_or(0),
    )
    .expect("plan");
    assert_eq!(result.kind, kind.code(), "id={text:?}");
    result
}

#[test]
fn csi_kitty_keyboard_set_ffi_replays_microsoft_contract() {
    let plan = kitty_set("=u", Some(3), Some(2), OutputCsiKittyKeyboardSetKind::SetFlags);
    assert_eq!((plan.has_flags, plan.flags), (1, 3));
    assert_eq!((plan.has_mode, plan.mode), (1, 2));

    let plan = kitty_set("=u", Some(5), None, OutputCsiKittyKeyboardSetKind::SetFlags);
    assert_eq!((plan.has_flags, plan.flags), (1, 5));
    assert_eq!((plan.has_mode, plan.mode), (0, 0));

    let plan = kitty_set("=u", None, None, OutputCsiKittyKeyboardSetKind::SetFlags);
    assert_eq!((plan.has_flags, plan.flags), (0, 0));
    assert_eq!((plan.has_mode, plan.mode), (0, 0));

    let plan = kitty_set(">u", Some(3), Some(2), OutputCsiKittyKeyboardSetKind::Unmatched);
    assert_eq!(plan, OutputCsiKittyKeyboardSetPlan::default());
}

#[test]
fn csi_kitty_keyboard_set_ffi_validates_pointer_identifier_and_presence_bits() {
    let set = id("=u");
    assert_eq!(output_csi_kitty_keyboard_set_plan(INVALID_ID, 1, 3, 1, 2), Err(FfiStatus::InvalidArgument));
    assert_eq!(output_csi_kitty_keyboard_set_plan(set, 2, 3, 1, 2), Err(FfiStatus::InvalidArgument));
}

#[test]
fn csi_mode_ffi_replays_set_and_reset_contracts() {
    let expect = |text: &str, mode: i32, private_mode: u32, enabled: u32| {
        let result = output_csi_mode_plan(id(text), mode).expect("plan");
        assert_eq!(result.kind, OutputCsiModeKind::Mode.code(), "id={text:?}");
        assert_eq!(result.private_mode, private_mode, "id={text:?}");
        assert_eq!(result.enabled, enabled, "id={text:?}");
        assert_eq!(result.mode, mode, "id={text:?}");
    };
    expect("h", 4, 0, 1);
    expect("?h", 25, 1, 1);
    expect("l", 4, 0, 0);
    expect("?l", 25, 1, 0);
    let unrelated = output_csi_mode_plan(id("m"), 3).expect("plan");
    assert_eq!(unrelated.kind, OutputCsiModeKind::Unmatched.code());
}

#[test]
fn csi_mode_ffi_validates_pointer_and_identifier() {
    assert_eq!(output_csi_mode_plan(INVALID_ID, 0), Err(FfiStatus::InvalidArgument));
}

#[test]
fn csi_push_sgr_ffi_replays_primary_alias_and_parameter_payload() {
    let replay = |text: &str, values: &[i32]| {
        let result = output_csi_push_sgr_values(id(text), values).expect("values");
        let status = copy_status(result.len(), 0);
        if result.is_empty() {
            assert_eq!(status, FfiStatus::Success);
        } else {
            assert_eq!(status, FfiStatus::BufferTooSmall);
            assert_eq!(copy_status(result.len(), result.len()), FfiStatus::Success);
        }
        result
    };
    assert_eq!(replay("#{", &[1]), [1]);
    assert_eq!(replay("#p", &[1, 2]), [1, 2]);
    assert!(replay("m", &[1]).is_empty());
}

#[test]
fn csi_push_sgr_ffi_reports_capacity_and_validates_arguments() {
    let values = [1, 2];
    let result = output_csi_push_sgr_values(id("#{"), &values).expect("values");
    assert_eq!(result.len(), 2);
    assert_eq!(copy_status(result.len(), 1), FfiStatus::BufferTooSmall);
    assert_eq!(output_csi_push_sgr_values(INVALID_ID, &values), Err(FfiStatus::InvalidArgument));
    assert_eq!(output_csi_push_sgr_values(id("#{"), &[0; 33]), Err(FfiStatus::InvalidArgument));
}

#[test]
fn rect_attribute_ffi_replays_both_actions_and_scalar_defaults() {
    let plan = |text: &str, bottom, right| output_csi_rect_attributes_plan(id(text), bottom, right).expect("plan");
    assert_eq!(
        plan("$r", 0, 0),
        OutputCsiRectAttributesPlan { kind: OutputCsiRectAttributesKind::Change.code(), bottom: 0, right: 0 }
    );
    assert_eq!(
        plan("$t", 17, 23),
        OutputCsiRectAttributesPlan { kind: OutputCsiRectAttributesKind::Reverse.code(), bottom: 17, right: 23 }
    );
    assert_eq!(plan("$u", 17, 23), OutputCsiRectAttributesPlan::default());
}

#[test]
fn rect_attribute_ffi_rejects_invalid_identifier_and_null_output() {
    assert_eq!(output_csi_rect_attributes_plan(INVALID_ID, 0, 0), Err(FfiStatus::InvalidArgument));
}

#[test]
fn rep_ffi_replays_microsoft_numeric_defaults_and_last_character_contract() {
    let plan = |text: &str, parameter0, last| output_csi_rep_plan(id(text), parameter0, last).expect("plan");
    assert_eq!(
        plan("b", 0, u16::from(b'A')),
        OutputCsiRepPlan { kind: OutputCsiRepKind::Repeat.code(), count: 1 }
    );
    assert_eq!(
        plan("b", 4, u16::from(b'Z')),
        OutputCsiRepPlan { kind: OutputCsiRepKind::Repeat.code(), count: 4 }
    );
    assert_eq!(plan("b", 7, 0), OutputCsiRepPlan { kind: OutputCsiRepKind::HandledNoop.code(), count: 0 });
    assert_eq!(plan("X", 4, u16::from(b'Z')), OutputCsiRepPlan::default());
}

#[test]
fn rep_ffi_rejects_invalid_identifier_and_null_output() {
    assert_eq!(output_csi_rep_plan(INVALID_ID, 0, u16::from(b'A')), Err(FfiStatus::InvalidArgument));
}

#[test]
fn output_dcs_ffi_replays_all_cpp_classification_cases() {
    let expect = |text: &str, kind: OutputDcsKind| {
        let result = output_dcs_plan(id(text)).expect("plan");
        assert_eq!(result.kind, kind.code(), "id={text:?}");
    };
    expect("q", OutputDcsKind::DefineSixelImage);
    expect("{", OutputDcsKind::DownloadDrcs);
    expect("!u", OutputDcsKind::AssignUserPreferenceCharset);
    expect("!z", OutputDcsKind::DefineMacro);
    expect("$p", OutputDcsKind::RestoreTerminalState);
    expect("$q", OutputDcsKind::RequestSetting);
    expect("$t", OutputDcsKind::RestorePresentationState);
    expect("x", OutputDcsKind::Unmatched);
}

#[test]
fn output_dcs_ffi_validates_pointer_and_identifier() {
    assert_eq!(output_dcs_plan(0x0100_0000_0000_0000), Err(FfiStatus::InvalidArgument));
}

fn expect_osc(parameter: u64, kind: OutputOscKind) {
    assert_eq!(output_osc_plan(parameter).kind, kind.code(), "parameter={parameter}");
}

#[test]
fn output_osc_ffi_replays_all_cpp_classification_cases() {
    for parameter in [0, 1, 2, 21] {
        expect_osc(parameter, OutputOscKind::SetWindowTitle);
    }
    expect_osc(4, OutputOscKind::SetColorTable);
    for parameter in [10, 11, 12, 17] {
        expect_osc(parameter, OutputOscKind::SetDynamicColor);
    }
    expect_osc(52, OutputOscKind::SetClipboard);
    expect_osc(104, OutputOscKind::ResetColorTable);
    for parameter in [110, 111, 112, 117] {
        expect_osc(parameter, OutputOscKind::ResetDynamicColor);
    }
    expect_osc(7, OutputOscKind::SetCurrentWorkingDirectory);
    expect_osc(8, OutputOscKind::Hyperlink);
    expect_osc(9, OutputOscKind::ConEmuAction);
    expect_osc(133, OutputOscKind::FinalTermAction);
    expect_osc(633, OutputOscKind::VsCodeAction);
    expect_osc(777, OutputOscKind::UrxvtAction);
    expect_osc(1337, OutputOscKind::ITerm2Action);
    expect_osc(9001, OutputOscKind::WtAction);
    expect_osc(999, OutputOscKind::Unmatched);
}

#[test]
fn output_osc_ffi_rejects_narrowing_aliases() {
    expect_osc(u64::MAX, OutputOscKind::Unmatched);
    expect_osc((i32::MAX as u64) + 1, OutputOscKind::Unmatched);
}

#[test]
fn ffi_replays_attribute_effect_order() {
    assert_eq!(
        render_attribute_effects(0x0060_4020, 0x0011_2233, 1, 1, 0, 1),
        Ok(RenderAttributeColors { foreground: 0x0030_2010, background: 0x0030_2010 })
    );
}

#[test]
fn ffi_replays_reverse_xor_and_alpha_rules() {
    let colors = render_attribute_effects(0x0011_2233, 0x0044_5566, 0, 1, 1, 0).expect("colors");
    assert_eq!(colors, RenderAttributeColors { foreground: 0x0011_2233, background: 0x0044_5566 });
    let colors = render_attribute_alpha(colors, 1, 0, 0, 0).expect("colors");
    assert_eq!(colors.foreground, 0xFF11_2233);
    assert_eq!(colors.background, 0x0044_5566);
}

#[test]
fn ffi_rejects_invalid_booleans_and_pointers() {
    assert_eq!(render_attribute_effects(0, 0, 2, 0, 0, 0), Err(FfiStatus::InvalidArgument));
    assert_eq!(
        render_attribute_alpha(RenderAttributeColors::default(), 2, 0, 0, 0),
        Err(FfiStatus::InvalidArgument)
    );
}

const INDEXED_DISTINGUISHABLE: u32 = 1;
const ALWAYS_DISTINGUISHABLE: u32 = 2;
const INTENSE_IS_BRIGHT: u32 = 4;
const SCREEN_REVERSED: u32 = 5;
const SYNCHRONIZED_OUTPUT: u32 = 6;

fn mode(state: RenderSettingsState, mode: u32) -> bool {
    render_settings_get_mode(state, mode).expect("mode") != 0
}

fn should_adjust(state: RenderSettingsState, candidate: u32, background: u32, a: u32, b: u32) -> bool {
    render_settings_should_adjust_contrast(state, candidate, background, a, b).expect("answer") != 0
}

fn set_mode(state: &mut RenderSettingsState, mode: u32, enabled: u32) {
    *state = render_settings_set_mode(*state, mode, enabled).expect("state");
}

#[test]
fn ffi_replays_default_and_independent_mode_updates() {
    let mut state = render_settings_default();
    assert!(mode(state, INTENSE_IS_BRIGHT));
    assert!(!mode(state, SCREEN_REVERSED));
    set_mode(&mut state, ALWAYS_DISTINGUISHABLE, 1);
    set_mode(&mut state, INTENSE_IS_BRIGHT, 0);
    assert!(mode(state, ALWAYS_DISTINGUISHABLE));
    assert!(!mode(state, INTENSE_IS_BRIGHT));
}

#[test]
fn ffi_replays_contrast_adjustment_policy() {
    let mut state = render_settings_default();
    assert!(!should_adjust(state, 0x0011_2233, 0x0044_5566, 1, 1));
    set_mode(&mut state, INDEXED_DISTINGUISHABLE, 1);
    assert!(should_adjust(state, 0x0011_2233, 0x0044_5566, 1, 1));
    assert!(!should_adjust(state, 0x0011_2233, 0x0044_5566, 0, 1));
    assert!(!should_adjust(state, 0x0044_5566, 0x0044_5566, 1, 1));
    set_mode(&mut state, ALWAYS_DISTINGUISHABLE, 1);
    assert!(should_adjust(state, 0x0011_2233, 0x0044_5566, 0, 0));
    assert!(!should_adjust(state, 0x0044_5566, 0x0044_5566, 0, 0));
}

#[test]
fn ffi_replays_programmable_reset_and_blink() {
    let mut state = render_settings_default();
    set_mode(&mut state, ALWAYS_DISTINGUISHABLE, 1);
    set_mode(&mut state, SCREEN_REVERSED, 1);
    set_mode(&mut state, SYNCHRONIZED_OUTPUT, 1);
    state = render_settings_toggle_blink(state).expect("state");
    assert_eq!(state.blink_should_be_faint, 1);
    state = render_settings_restore_programmable_defaults(state).expect("state");
    assert!(mode(state, ALWAYS_DISTINGUISHABLE));
    assert!(!mode(state, SCREEN_REVERSED));
    assert!(!mode(state, SYNCHRONIZED_OUTPUT));
    assert_eq!(state.blink_should_be_faint, 1);
}

#[test]
fn ffi_rejects_invalid_modes_state_and_pointers() {
    let mut state = render_settings_default();
    assert_eq!(render_settings_set_mode(state, 0, 1), Err(FfiStatus::InvalidArgument));
    assert_eq!(render_settings_set_mode(state, 7, 1), Err(FfiStatus::InvalidArgument));
    assert_eq!(render_settings_set_mode(state, SCREEN_REVERSED, 2), Err(FfiStatus::InvalidArgument));
    assert_eq!(render_settings_should_adjust_contrast(state, 0, 1, 2, 0), Err(FfiStatus::InvalidArgument));
    state.modes = 1 << 31;
    assert_eq!(render_settings_toggle_blink(state), Err(FfiStatus::InvalidArgument));
}
