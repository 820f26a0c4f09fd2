use svg_react_preview::config::{
    hotkey_from_env, opener_from_env, source_from_env, HotkeySpec, InputChoice, Opener,
};

#[test]
fn opener_default_synthesises_keystroke() {
    let o = Opener::Default;
    assert_eq!(o.command(), "zed");
    assert!(o.synthesise_keystroke());
}

#[test]
fn opener_custom_skips_keystroke() {
    let o = Opener::Custom("true".into());
    assert_eq!(o.command(), "true");
    assert!(!o.synthesise_keystroke());
}

#[test]
fn opener_default_command_is_zed() {
    assert_eq!(Opener::Default.command(), "zed");
}

#[test]
fn opener_custom_command_passes_through() {
    assert_eq!(Opener::Custom("true".into()).command(), "true");
}

#[test]
fn empty_opener_value_counts_as_unset() {
    assert!(matches!(opener_from_env(Some(String::new())), Opener::Default));
    assert!(matches!(opener_from_env(None), Opener::Default));
    match opener_from_env(Some("code".into())) {
        Opener::Custom(c) => assert_eq!(c, "code"),
        Opener::Default => panic!("expected a custom opener"),
    }
}

#[test]
fn hotkey_none_disables_in_any_case() {
    assert!(matches!(hotkey_from_env(Some("none".into()), true), HotkeySpec::Disabled));
    assert!(matches!(hotkey_from_env(Some("NoNe".into()), false), HotkeySpec::Disabled));
    assert!(matches!(hotkey_from_env(Some("nones".into()), false), HotkeySpec::Default));
}

#[test]
fn hotkey_custom_only_on_macos() {
    match hotkey_from_env(Some("cmd+p".into()), true) {
        HotkeySpec::Custom(s) => assert_eq!(s, "cmd+p"),
        _ => panic!("expected a custom hotkey"),
    }
    assert!(matches!(hotkey_from_env(Some("cmd+p".into()), false), HotkeySpec::Default));
    assert!(matches!(hotkey_from_env(Some(String::new()), true), HotkeySpec::Default));
    assert!(matches!(hotkey_from_env(None, true), HotkeySpec::Default));
}

#[test]
fn file_row_col_take_precedence() {
    let c = source_from_env(
        Some("a.tsx".into()),
        Some("3".into()),
        Some("+7".into()),
        Some("<svg/>".into()),
    );
    match c {
        InputChoice::ReadFile { path, row, col } => {
            assert_eq!(path, "a.tsx");
            assert_eq!(row, 3);
            assert_eq!(col, 7);
        }
        _ => panic!("expected the file"),
    }
}

#[test]
fn unparseable_row_falls_back_to_inline_input() {
    let c = source_from_env(
        Some("a.tsx".into()),
        Some("x".into()),
        Some("1".into()),
        Some("<svg/>".into()),
    );
    match c {
        InputChoice::Inline(s) => assert_eq!(s, "<svg/>"),
        _ => panic!("expected the inline input"),
    }
}

#[test]
fn empty_inline_input_falls_back_to_stdin() {
    let c = source_from_env(None, None, None, Some(String::new()));
    assert!(matches!(c, InputChoice::Stdin));
    let c = source_from_env(Some(String::new()), Some("1".into()), Some("1".into()), None);
    assert!(matches!(c, InputChoice::Stdin));
}
