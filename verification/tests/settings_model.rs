use lib::application_state::{
    workspace_rename_plan, ApplicationState, WindowLayout, WorkspaceRenamePlan,
};
use lib::json::{
    array_member, bool_member, find_matching_delimiter, member, object_member, parse_quoted,
    string_member, top_level_objects, JsonError, Member,
};

#[test]
fn workspace_rename_plan_replays_settings_model_contract() {
    assert_eq!(workspace_rename_plan(true, false, true, false), WorkspaceRenamePlan::Noop);
    assert_eq!(workspace_rename_plan(false, true, true, false), WorkspaceRenamePlan::Noop);
    assert_eq!(workspace_rename_plan(false, false, false, false), WorkspaceRenamePlan::Noop);
    assert_eq!(workspace_rename_plan(false, false, true, true), WorkspaceRenamePlan::Remove);
    assert_eq!(workspace_rename_plan(false, false, true, false), WorkspaceRenamePlan::Rename);
}

#[test]
fn rename_workspace_uses_the_shared_plan() {
    let original = WindowLayout::with_tab_layout(vec!["original".to_owned()]);
    let replacement = WindowLayout::with_tab_layout(vec!["replacement".to_owned()]);
    let mut state = ApplicationState::new();
    state.save_workspace("old", original.clone());
    state.save_workspace("new", replacement);

    assert!(state.rename_workspace("old", "new"));
    assert_eq!(state.all_persisted_workspaces().get("new"), Some(&original));
    assert!(!state.all_persisted_workspaces().contains_key("old"));

    assert!(state.rename_workspace("new", ""));
    assert!(state.all_persisted_workspaces().is_empty());
    assert!(!state.rename_workspace("", "ignored"));
    assert!(!state.rename_workspace("missing", "target"));
}

#[test]
fn distinguishes_missing_null_and_value() {
    let json = r#"{ "nullValue": null, "value": "ok" }"#;
    assert_eq!(member(json, "missing"), Member::Missing);
    assert_eq!(member(json, "nullValue"), Member::Null);
    assert!(matches!(member(json, "value"), Member::Value(_)));
}

#[test]
fn balanced_fragments_ignore_delimiters_in_strings() {
    let json = r#"{ "items": [{ "text": "} ]" }, { "text": "ok" }] }"#;
    let array = array_member(json, "items")
        .expect("array should parse")
        .expect("array should exist");
    let objects = top_level_objects(array).expect("objects should parse");
    assert_eq!(objects.len(), 2);
}

#[test]
fn typed_members_preserve_null_as_absent() {
    let json = r#"{ "name": "terminal", "enabled": true, "other": null }"#;
    assert_eq!(string_member(json, "name"), Ok(Some("terminal".to_owned())));
    assert_eq!(bool_member(json, "enabled"), Ok(Some(true)));
    assert_eq!(string_member(json, "other"), Ok(None));
}

#[test]
fn member_value_is_the_tail_after_the_colon_and_whitespace() {
    let json = "{\"a\" :\t 12, \"b\": 3}";
    assert_eq!(member(json, "a"), Member::Value("12, \"b\": 3}"));
    assert_eq!(member("{\"a\" 1}", "a"), Member::Missing);
}

#[test]
fn string_member_decodes_escapes_and_reports_bad_strings() {
    let json = r#"{ "text": "a\"b\\c\nd\te" }"#;
    assert_eq!(string_member(json, "text"), Ok(Some("a\"b\\c\nd\te".to_owned())));
    assert_eq!(string_member(r#"{ "text": 5 }"#, "text"), Err(JsonError::InvalidString));
    assert_eq!(string_member(r#"{ "text": "open"#, "text"), Err(JsonError::InvalidString));
}

#[test]
fn bool_member_reports_non_booleans() {
    assert_eq!(bool_member(r#"{ "on": false }"#, "on"), Ok(Some(false)));
    assert_eq!(bool_member(r#"{ "on": null }"#, "on"), Ok(None));
    assert_eq!(bool_member(r#"{ "on": 1 }"#, "on"), Err(JsonError::InvalidBoolean));
}

#[test]
fn object_member_cuts_the_balanced_object() {
    let json = r#"{ "o": { "k": "}", "n": { } }, "z": 1 }"#;
    assert_eq!(object_member(json, "o"), Ok(Some(r#"{ "k": "}", "n": { } }"#)));
    assert_eq!(object_member(json, "z"), Err(JsonError::InvalidObject));
    assert_eq!(object_member(r#"{ "o": { "#, "o"), Err(JsonError::InvalidObject));
    assert_eq!(object_member(json, "q"), Ok(None));
}

#[test]
fn array_member_returns_the_interior() {
    let json = r#"{ "a": [1, [2], "]"], "b": 2 }"#;
    assert_eq!(array_member(json, "a"), Ok(Some(r#"1, [2], "]""#)));
    assert_eq!(array_member(json, "b"), Err(JsonError::InvalidArray));
    assert_eq!(array_member(r#"{ "a": [1, 2 "#, "a"), Err(JsonError::InvalidArray));
}

#[test]
fn top_level_objects_reports_unclosed_objects() {
    assert_eq!(top_level_objects("{ }, { \"a\": 1 }"), Ok(vec!["{ }", "{ \"a\": 1 }"]));
    assert_eq!(top_level_objects("1, 2"), Ok(Vec::<&str>::new()));
    assert_eq!(top_level_objects("{ }, {"), Err(JsonError::InvalidObject));
}

#[test]
fn parse_quoted_skips_leading_whitespace() {
    assert_eq!(parse_quoted("  \"hi\" rest"), Some("hi".to_owned()));
    assert_eq!(parse_quoted("x\"hi\""), None);
    assert_eq!(parse_quoted(""), None);
}

#[test]
fn find_matching_delimiter_counts_bytes() {
    assert_eq!(find_matching_delimiter("{a{b}c}", 0, '{', '}'), Some(6));
    assert_eq!(find_matching_delimiter("{a{b}c}", 2, '{', '}'), Some(4));
    assert_eq!(find_matching_delimiter("{\"}\"}", 0, '{', '}'), Some(4));
    assert_eq!(find_matching_delimiter("}", 0, '{', '}'), None);
    assert_eq!(find_matching_delimiter("{", 0, '{', '}'), None);
    // "é" takes two bytes, so the closing brace sits at byte 4.
    assert_eq!(find_matching_delimiter("{é}", 0, '{', '}'), Some(3));
    assert_eq!(find_matching_delimiter("é{é}", 2, '{', '}'), Some(5));
}

#[test]
fn saved_workspace_reads_back_and_take_removes_it() {
    let layout = WindowLayout::with_tab_layout(vec!["tab".to_owned()]);
    let mut state = ApplicationState::new();
    state.save_workspace("w", layout.clone());
    assert_eq!(state.all_persisted_workspaces().get("w"), Some(&layout));
    let other = WindowLayout::with_tab_layout(vec!["other".to_owned()]);
    state.save_workspace("w", other.clone());
    assert_eq!(state.all_persisted_workspaces().get("w"), Some(&other));
    assert_eq!(state.take_workspace("w"), Some(other));
    assert_eq!(state.take_workspace("w"), None);
    assert!(state.all_persisted_workspaces().is_empty());
}

#[test]
fn remove_workspace_reports_whether_it_changed_the_map() {
    let mut state = ApplicationState::new();
    state.save_workspace("a", WindowLayout::default());
    assert!(!state.remove_workspace("b"));
    assert!(state.remove_workspace("a"));
    assert!(!state.remove_workspace("a"));
}

#[test]
fn rename_to_the_same_name_changes_nothing() {
    let layout = WindowLayout::with_tab_layout(vec!["t".to_owned()]);
    let mut state = ApplicationState::new();
    state.save_workspace("a", layout.clone());
    assert!(!state.rename_workspace("a", "a"));
    assert_eq!(state.all_persisted_workspaces().get("a"), Some(&layout));
    assert!(state.rename_workspace("a", "b"));
    assert_eq!(state.all_persisted_workspaces().get("b"), Some(&layout));
    assert_eq!(state.all_persisted_workspaces().get("a"), None);
    assert_eq!(layout.tab_layout(), &["t".to_owned()][..]);
}

#[test]
fn states_with_the_same_workspaces_are_equal_whatever_the_save_order() {
    let a = WindowLayout::with_tab_layout(vec!["a".to_owned()]);
    let b = WindowLayout::with_tab_layout(vec!["b".to_owned()]);
    let mut first = ApplicationState::new();
    first.save_workspace("a", a.clone());
    first.save_workspace("b", b.clone());
    let mut second = ApplicationState::new();
    second.save_workspace("b", b.clone());
    second.save_workspace("a", a.clone());
    assert_eq!(first, second);
    second.save_workspace("a", b.clone());
    assert_ne!(first, second);
    second.save_workspace("a", a);
    second.save_workspace("c", b);
    assert_ne!(first, second);
    assert_eq!(first.clone(), first);
}

#[test]
fn workspace_names_come_in_ascending_order() {
    let mut state = ApplicationState::new();
    for name in ["beta", "Alpha", "alpha", "b", "é"] {
        state.save_workspace(name, WindowLayout::default());
    }
    state.save_workspace("b", WindowLayout::default());
    assert_eq!(
        state.all_persisted_workspaces().names(),
        vec!["Alpha", "alpha", "b", "beta", "é"]
    );
    assert!(ApplicationState::new().all_persisted_workspaces().names().is_empty());
}
