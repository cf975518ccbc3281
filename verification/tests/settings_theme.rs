use lib::new_tab_menu::{NewTabMenuEntryType, NewTabMenuParseError, NewTabMenuSettings};
use lib::theme::{
    Color, ElementTheme, SettingsLoadWarning, Theme, ThemeColorType, ThemeParseError,
    ThemeSettings,
};

#[test]
fn theme_reads_name_tab_row_and_window() {
    let json = r##"{ "name": "custom", "tabRow": { "background": "#102030", "unfocusedBackground": "accent" }, "window": { "applicationTheme": "DARK", "useMica": true } }"##;
    let theme = Theme::from_json(json).expect("theme");
    assert_eq!(theme.name(), "custom");
    let tab_row = theme.tab_row().expect("tab row");
    let background = tab_row.background().expect("background");
    assert_eq!(background.color_type(), ThemeColorType::Color);
    assert_eq!(background.color(), Some(Color::rgb(0x10, 0x20, 0x30)));
    let unfocused = tab_row.unfocused_background().expect("unfocused");
    assert_eq!(unfocused.color_type(), ThemeColorType::Accent);
    assert_eq!(unfocused.color(), None);
    let window = theme.window().expect("window");
    assert_eq!(window.requested_theme(), ElementTheme::Dark);
    assert!(window.use_mica());
    assert_eq!(theme.requested_theme(), ElementTheme::Dark);
}

#[test]
fn theme_missing_or_null_parts_stay_absent() {
    let theme = Theme::from_json(r#"{ "name": "n", "tabRow": null }"#).expect("theme");
    assert!(theme.tab_row().is_none());
    assert!(theme.window().is_none());
    assert_eq!(theme.requested_theme(), ElementTheme::Default);
}

#[test]
fn theme_errors() {
    assert_eq!(Theme::from_json(r#"{ "tabRow": {} }"#), Err(ThemeParseError::MissingName));
    assert_eq!(Theme::from_json(r#"{ "name": 3 }"#), Err(ThemeParseError::InvalidString));
    assert_eq!(
        Theme::from_json(r##"{ "name": "n", "tabRow": { "background": "#12345" } }"##),
        Err(ThemeParseError::InvalidColor)
    );
    assert_eq!(
        Theme::from_json(r#"{ "name": "n", "tabRow": { "background": 7 } }"#),
        Err(ThemeParseError::InvalidColor)
    );
    assert_eq!(
        Theme::from_json(r#"{ "name": "n", "window": { "applicationTheme": "blue" } }"#),
        Err(ThemeParseError::InvalidElementTheme)
    );
    assert_eq!(
        Theme::from_json(r#"{ "name": "n", "window": { "useMica": "yes" } }"#),
        Err(ThemeParseError::InvalidBoolean)
    );
    assert_eq!(
        Theme::from_json(r#"{ "name": "n", "window": { "useMica": true "#),
        Err(ThemeParseError::InvalidObject)
    );
}

#[test]
fn hex_colors_take_two_digits_per_component() {
    let parse = |value: &str| {
        let json = format!(r#"{{ "name": "n", "tabRow": {{ "background": "{value}" }} }}"#);
        Theme::from_json(&json)
            .map(|t| t.tab_row().and_then(|r| r.background()).and_then(|c| c.color()))
    };
    assert_eq!(parse("#A0b1C2d3"), Ok(Some(Color::rgba(0xa0, 0xb1, 0xc2, 0xd3))));
    assert_eq!(parse("#+f+f+f"), Err(ThemeParseError::InvalidColor));
    assert_eq!(parse("#0g0000"), Err(ThemeParseError::InvalidColor));
    assert_eq!(parse("102030"), Err(ThemeParseError::InvalidColor));
    assert_eq!(parse("terminalBackground"), Ok(None));
}

#[test]
fn theme_settings_select_known_themes() {
    let json = r#"{ "theme": "mine", "themes": [ { "name": "mine", "window": { "applicationTheme": "light" } }, { "name": "other" } ] }"#;
    let settings = ThemeSettings::from_user_settings_json(json).expect("settings");
    assert!(settings.warnings().is_empty());
    assert_eq!(settings.current_theme().name(), "mine");
    assert_eq!(settings.current_theme().requested_theme(), ElementTheme::Light);
    assert!(settings.theme("other").is_some());
    assert!(settings.theme("none").is_none());
}

#[test]
fn theme_settings_fall_back_to_system_with_a_warning() {
    let settings = ThemeSettings::from_user_settings_json(r#"{ "theme": "unknown" }"#).expect("settings");
    assert_eq!(settings.warnings(), &[SettingsLoadWarning::UnknownTheme][..]);
    assert_eq!(settings.current_theme().name(), "system");
    let builtin = ThemeSettings::from_user_settings_json(r#"{ "theme": "dark" }"#).expect("settings");
    assert!(builtin.warnings().is_empty());
    assert_eq!(builtin.current_theme().name(), "system");
    let absent = ThemeSettings::from_user_settings_json("{}").expect("settings");
    assert!(absent.warnings().is_empty());
    assert_eq!(absent.current_theme().name(), "system");
}

#[test]
fn later_theme_replaces_an_earlier_one_of_the_same_name() {
    let json = r#"{ "theme": "t", "themes": [ { "name": "t", "window": { "applicationTheme": "light" } }, { "name": "t", "window": { "applicationTheme": "dark" } } ] }"#;
    let settings = ThemeSettings::from_user_settings_json(json).expect("settings");
    assert_eq!(settings.current_theme().requested_theme(), ElementTheme::Dark);
    let copy = settings.clone();
    assert_eq!(copy, settings);
}

#[test]
fn theme_settings_errors() {
    assert_eq!(
        ThemeSettings::from_user_settings_json(r#"{ "themes": 1 }"#),
        Err(ThemeParseError::InvalidArray)
    );
    assert_eq!(
        ThemeSettings::from_user_settings_json(r#"{ "themes": [ { "x": 1 } ] }"#),
        Err(ThemeParseError::MissingName)
    );
    assert_eq!(
        ThemeSettings::from_user_settings_json(r#"{ "themes": [ { "name": "a" } ], "theme": 4 }"#),
        Err(ThemeParseError::InvalidString)
    );
}

#[test]
fn new_tab_menu_defaults_to_remaining_profiles() {
    let menu = NewTabMenuSettings::from_user_settings_json("{}").expect("menu");
    assert_eq!(menu.entries().len(), 1);
    assert_eq!(menu.entries()[0].entry_type(), NewTabMenuEntryType::RemainingProfiles);
    assert!(menu.warnings().is_empty());
}

#[test]
fn new_tab_menu_keeps_entries_in_order() {
    let json = r#"{ "newTabMenu": [ { "type": "profile", "profile": "x" }, { "type": "folder" }, { "type" : "separator" }, { "type": "matchProfiles" }, { "type": "action" }, { "type": "remainingProfiles" } ] }"#;
    let menu = NewTabMenuSettings::from_user_settings_json(json).expect("menu");
    let kinds: Vec<NewTabMenuEntryType> = menu.entries().iter().map(|e| e.entry_type()).collect();
    assert_eq!(
        kinds,
        vec![
            NewTabMenuEntryType::Profile,
            NewTabMenuEntryType::Folder,
            NewTabMenuEntryType::Separator,
            NewTabMenuEntryType::MatchProfiles,
            NewTabMenuEntryType::Action,
            NewTabMenuEntryType::RemainingProfiles,
        ]
    );
    let empty = NewTabMenuSettings::from_user_settings_json(r#"{ "newTabMenu": [] }"#).expect("menu");
    assert!(empty.entries().is_empty());
}

#[test]
fn new_tab_menu_errors() {
    let parse = |json: &str| NewTabMenuSettings::from_user_settings_json(json).map(|_| ());
    assert_eq!(parse(r#"{ "newTabMenu": 1 }"#), Err(NewTabMenuParseError::ExpectedArray));
    assert_eq!(parse(r#"{ "newTabMenu": [ { "type": "folder" } "#), Err(NewTabMenuParseError::UnterminatedArray));
    assert_eq!(parse(r#"{ "newTabMenu": [ { "type": "folder" ] }"#), Err(NewTabMenuParseError::UnterminatedObject));
    assert_eq!(parse(r#"{ "newTabMenu": [ { "name": "x" } ] }"#), Err(NewTabMenuParseError::MissingType));
    assert_eq!(parse(r#"{ "newTabMenu": [ { "type": 1 } ] }"#), Err(NewTabMenuParseError::MissingType));
    assert_eq!(parse(r#"{ "newTabMenu": [ { "type": "weird" } ] }"#), Err(NewTabMenuParseError::UnknownType));
}

#[test]
fn theme_settings_equality_ignores_definition_order() {
    let one = ThemeSettings::from_user_settings_json(
        r#"{ "themes": [ { "name": "a" }, { "name": "b", "window": { "useMica": true } } ] }"#,
    )
    .expect("settings");
    let two = ThemeSettings::from_user_settings_json(
        r#"{ "themes": [ { "name": "b", "window": { "useMica": true } }, { "name": "a" } ] }"#,
    )
    .expect("settings");
    assert_eq!(one, two);
    let three = ThemeSettings::from_user_settings_json(
        r#"{ "themes": [ { "name": "b" }, { "name": "a" } ] }"#,
    )
    .expect("settings");
    assert_ne!(one, three);
    let four = ThemeSettings::from_user_settings_json(
        r#"{ "theme": "a", "themes": [ { "name": "b", "window": { "useMica": true } }, { "name": "a" } ] }"#,
    )
    .expect("settings");
    assert_ne!(two, four);
}
