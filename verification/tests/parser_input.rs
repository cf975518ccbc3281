use lib::input_control::{classify_control_character, ControlCharacterKind};
use lib::input_keymap::{cursor_virtual_key, generic_virtual_key, ss3_virtual_key};
use lib::output_csi_decps::{plan, DecpsAction};
use lib::parameter_view::ParameterView;
use lib::state_machine_ffi::{parser_mode, raw_parameters, ParserMode};
use lib::vt::{vt_id_from_value, Parameters, VtId};

#[test]
fn ctrl_c_is_host_special_only_without_alt() {
    let plain = classify_control_character(0x03, false);
    assert_eq!(plain.kind, ControlCharacterKind::CtrlC);
    assert_eq!(plain.forced_virtual_key, u16::from(b'C'));

    let alt = classify_control_character(0x03, true);
    assert_eq!(alt.kind, ControlCharacterKind::MappedC0);
    assert!(alt.write_ctrl);
}

#[test]
fn replays_microsoft_c0_special_cases() {
    let backspace = classify_control_character(0x08, false);
    assert_eq!(backspace.character, 0x7f);
    assert!(backspace.write_ctrl);
    assert!(backspace.clear_layout_modifiers);

    let tab = classify_control_character(0x09, false);
    assert!(!tab.write_ctrl);
    assert!(!tab.clear_layout_modifiers);

    let carriage_return = classify_control_character(0x0d, false);
    assert!(!carriage_return.write_ctrl);
    assert!(carriage_return.clear_layout_modifiers);

    let escape = classify_control_character(0x1b, false);
    assert_eq!(escape.forced_virtual_key, 0x1b);
    assert!(!escape.write_ctrl);
}

#[test]
fn classifies_all_control_code_units_as_mapped_c0_except_plain_ctrl_c() {
    for code_unit in 0u16..0x20 {
        let plan = classify_control_character(code_unit, false);
        if code_unit == 0x03 {
            assert_eq!(plan.kind, ControlCharacterKind::CtrlC);
        } else {
            assert_eq!(plan.kind, ControlCharacterKind::MappedC0);
        }
    }
}

#[test]
fn delete_and_printable_paths_remain_distinct() {
    let delete = classify_control_character(0x7f, true);
    assert_eq!(delete.kind, ControlCharacterKind::DeleteAsBackspace);
    assert_eq!(delete.character, 0x08);

    let printable = classify_control_character(u16::from(b'A'), false);
    assert_eq!(printable.kind, ControlCharacterKind::Print);
    assert_eq!(printable.character, u16::from(b'A'));
}

#[test]
fn cursor_map_matches_microsoft_input_engine_table() {
    let expected = [
        (b'A', 0x26), (b'B', 0x28), (b'C', 0x27), (b'D', 0x25),
        (b'H', 0x24), (b'F', 0x23), (b'P', 0x70), (b'Q', 0x71),
        (b'R', 0x72), (b'S', 0x73),
    ];
    for (final_character, vkey) in expected {
        assert_eq!(cursor_virtual_key(u16::from(final_character)), Some(vkey));
    }
    assert_eq!(cursor_virtual_key(u16::from(b'X')), None);
}

#[test]
fn generic_map_matches_microsoft_input_engine_table() {
    let expected = [
        (1, 0x24), (2, 0x2d), (3, 0x2e), (4, 0x23), (5, 0x21), (6, 0x22),
        (15, 0x74), (17, 0x75), (18, 0x76), (19, 0x77), (20, 0x78),
        (21, 0x79), (23, 0x7a), (24, 0x7b),
    ];
    for (identifier, vkey) in expected {
        assert_eq!(generic_virtual_key(identifier), Some(vkey));
    }
    assert_eq!(generic_virtual_key(22), None);
}

#[test]
fn ss3_map_matches_microsoft_input_engine_table() {
    assert_eq!(ss3_virtual_key(u16::from(b'A')), Some(0x26));
    assert_eq!(ss3_virtual_key(u16::from(b'S')), Some(0x73));
    assert_eq!(ss3_virtual_key(u16::from(b'X')), None);
}

#[test]
fn decps_recognizes_play_sound_and_preserves_parameters() {
    let parameters = Parameters::from_values(vec![Some(1), Some(3), Some(7)]);

    assert_eq!(
        plan(VtId::from_ascii(",~"), &parameters),
        Some(DecpsAction::PlaySounds(parameters))
    );
}

#[test]
fn decps_preserves_empty_parameters_for_native_defaulting() {
    let parameters = Parameters::default();

    assert_eq!(
        plan(VtId::from_ascii(",~"), &parameters),
        Some(DecpsAction::PlaySounds(parameters))
    );
}

#[test]
fn neighboring_advanced_csi_is_not_claimed_by_decps() {
    assert_eq!(plan(VtId::from_ascii(",|"), &Parameters::default()), None);
}

#[test]
fn vt_id_packs_ascii_little_endian() {
    assert_eq!(VtId::from_ascii(",~").value(), 0x7e2c);
    assert_eq!(VtId::from_ascii("$u").value(), 0x7524);
    assert_eq!(VtId::from_ascii("b").value(), 0x62);
}

#[test]
fn parameter_view_flattens_sub_parameters_and_omissions() {
    let parameters = Parameters::from_values_and_sub_params(
        vec![Some(1), Some(4)],
        vec![vec![Some(2), None, Some(3)], vec![Some(5)]],
    );
    assert_eq!(
        ParameterView::from_parameters(&parameters),
        ParameterView {
            values: vec![1, 4],
            present: vec![1, 1],
            sub_values: vec![2, 0, 3, 5],
            sub_present: vec![1, 0, 1, 1],
            sub_offsets: vec![0, 3],
            sub_counts: vec![3, 1],
        }
    );
    let omitted = Parameters::from_values(vec![None, Some(0)]);
    let view = ParameterView::from_parameters(&omitted);
    assert_eq!(view.values, vec![0, 0]);
    assert_eq!(view.present, vec![0, 1]);
    assert!(view.sub_values.is_empty());
    assert_eq!(view.sub_counts, vec![0, 0]);
}

#[test]
fn ascii_identifiers_decode_back() {
    for text in ["b", ",~", "?h", "$u", "!z"] {
        let id = VtId::from_ascii(text);
        assert_eq!(vt_id_from_value(id.value()), Some(id));
    }
    assert_eq!(vt_id_from_value(0x0062_0062), None);
    assert_eq!(vt_id_from_value(0x80), None);
}

#[test]
fn raw_parameters_split_values_and_presence() {
    let parameters = Parameters::from_values(vec![Some(7), None, Some(-1)]);
    assert_eq!(raw_parameters(&parameters), (vec![7, 0, -1], vec![1, 0, 1]));
    assert_eq!(parser_mode(0), Some(ParserMode::AcceptC1));
    assert_eq!(parser_mode(1), Some(ParserMode::Ansi));
    assert_eq!(parser_mode(2), None);
}
