use svg_react_preview::preview_effects::{key_code_for, parse_modifier};
use svg_react_preview::config::{HotkeySpec, Opener};
use svg_react_preview::preview_effects::{
    build_script, deliver, open_and_preview, osascript_report, parse, resolve, Delivery,
};

#[test]
fn parses_default() {
    let h = parse("cmd+shift+v").unwrap();
    assert_eq!(h.key_code, 9);
    assert_eq!(h.modifiers, ["command down", "shift down"]);
}

#[test]
fn case_and_whitespace_insensitive() {
    let h = parse("  Cmd + SHIFT + V  ").unwrap();
    assert_eq!(h.key_code, 9);
    assert_eq!(h.modifiers.len(), 2);
}

#[test]
fn modifier_synonyms() {
    assert_eq!(parse("opt+p").unwrap().modifiers, ["option down"]);
    assert_eq!(parse("alt+p").unwrap().modifiers, ["option down"]);
    assert_eq!(parse("option+p").unwrap().modifiers, ["option down"]);
    assert_eq!(parse("ctrl+p").unwrap().modifiers, ["control down"]);
    assert_eq!(parse("control+p").unwrap().modifiers, ["control down"]);
    assert_eq!(parse("command+p").unwrap().modifiers, ["command down"]);
}

#[test]
fn function_and_special_keys() {
    assert_eq!(parse("f5").unwrap().key_code, 96);
    assert_eq!(parse("cmd+space").unwrap().key_code, 49);
    assert_eq!(parse("ctrl+enter").unwrap().key_code, 36);
    assert_eq!(parse("escape").unwrap().key_code, 53);
}

#[test]
fn rejects_two_non_modifiers() {
    assert!(parse("cmd+v+p").is_none());
}

#[test]
fn rejects_duplicate_modifier() {
    assert!(parse("cmd+cmd+v").is_none());
    assert!(parse("shift+cmd+shift+v").is_none());
}

#[test]
fn rejects_unknown_token() {
    assert!(parse("cmd+shift+foobar").is_none());
}

#[test]
fn rejects_no_key() {
    assert!(parse("cmd+shift").is_none());
}

#[test]
fn rejects_empty_segment() {
    assert!(parse("").is_none());
    assert!(parse("cmd++v").is_none());
    assert!(parse("+v").is_none());
}

#[test]
fn applescript_clause_with_modifiers() {
    let h = parse("cmd+shift+v").unwrap();
    assert_eq!(h.applescript_clause(), "using {command down, shift down}");
}

#[test]
fn applescript_clause_without_modifiers() {
    let h = parse("f5").unwrap();
    assert_eq!(h.applescript_clause(), "");
}

#[test]
fn resolve_default_returns_default_hotkey() {
    let h = resolve(&HotkeySpec::Default).unwrap();
    assert_eq!(h.key_code, 9);
    assert_eq!(h.modifiers, ["command down", "shift down"]);
}

#[test]
fn resolve_disabled_returns_none() {
    assert!(resolve(&HotkeySpec::Disabled).is_none());
}

#[test]
fn resolve_custom_valid() {
    let h = resolve(&HotkeySpec::Custom("f5".into())).unwrap();
    assert_eq!(h.key_code, 96);
}

#[test]
fn resolve_custom_invalid_returns_none() {
    assert!(resolve(&HotkeySpec::Custom("garbage".into())).is_none());
}

#[test]
fn rendered_script_opens_file_and_dispatches_preview_then_closes_text_tab() {
    let preview = parse("cmd+shift+v").unwrap();
    let script = build_script(&preview);

    assert!(script.contains(r#"tell application "Zed" to open POSIX file svgPath"#));
    assert!(script.contains("(name of window 1) contains svgBasename"));
    assert!(script.contains("key code 9 using {command down, shift down}"));
    assert!(script.contains("key code 33 using {command down, shift down}"));
    assert!(script.contains("key code 13 using {command down}"));
    assert!(!script.contains("__PREVIEW_KEY_CODE__"));
    assert!(!script.contains("__PREVIEW_MODIFIERS__"));
    assert!(!script.contains("__PREV_ITEM__"));
    assert!(!script.contains("__CLOSE_ITEM__"));
}

#[test]
fn rendered_script_handles_modifierless_preview_hotkey() {
    let preview = parse("f5").unwrap();
    let script = build_script(&preview);

    assert!(script.contains("key code 96 \n"));
    assert!(script.contains("key code 33 using {command down, shift down}"));
    assert!(script.contains("key code 13 using {command down}"));
}

#[test]
fn script_keeps_the_polling_delays() {
    let script = build_script(&parse("cmd+shift+v").unwrap());
    assert!(script.contains("repeat while (current date) is less than deadline"));
    assert!(script.contains("delay 0.15"));
    assert!(script.contains("if exists window 1 then"));
    assert!(script.contains("return \"timeout\""));
}

#[test]
fn open_and_preview_needs_a_usable_hotkey() {
    assert!(open_and_preview(&HotkeySpec::Disabled).is_none());
    assert!(open_and_preview(&HotkeySpec::Custom("cmd".into())).is_none());
    let s = open_and_preview(&HotkeySpec::Default).unwrap();
    assert!(s.contains("key code 9 using {command down, shift down}"));
}

#[test]
fn custom_opener_never_synthesises_keystrokes() {
    match deliver(&Opener::Custom("true".into()), &HotkeySpec::Default, true) {
        Delivery::Open { command, rejected_hotkey } => {
            assert_eq!(command, "true");
            assert!(rejected_hotkey.is_none());
        }
        Delivery::AppleScript { .. } => panic!("custom opener must not run the script"),
    }
}

#[test]
fn default_opener_on_macos_runs_the_script() {
    match deliver(&Opener::Default, &HotkeySpec::Default, true) {
        Delivery::AppleScript { script } => assert!(script.contains("key code 9")),
        Delivery::Open { .. } => panic!("expected the AppleScript"),
    }
}

#[test]
fn elsewhere_or_disabled_opens_plainly() {
    assert!(matches!(
        deliver(&Opener::Default, &HotkeySpec::Default, false),
        Delivery::Open { .. }
    ));
    match deliver(&Opener::Default, &HotkeySpec::Disabled, true) {
        Delivery::Open { command, rejected_hotkey } => {
            assert_eq!(command, "zed");
            assert!(rejected_hotkey.is_none());
        }
        Delivery::AppleScript { .. } => panic!("disabled hotkey must not run the script"),
    }
}

#[test]
fn unparseable_hotkey_is_reported_and_opens_plainly() {
    match deliver(&Opener::Default, &HotkeySpec::Custom("garbage".into()), true) {
        Delivery::Open { command, rejected_hotkey } => {
            assert_eq!(command, "zed");
            assert_eq!(rejected_hotkey.as_deref(), Some("garbage"));
        }
        Delivery::AppleScript { .. } => panic!("unparseable hotkey must not run the script"),
    }
}

#[test]
fn script_outcomes_are_reported() {
    assert_eq!(osascript_report("ok\n"), None);
    assert_eq!(
        osascript_report(" denied:-1719\n").unwrap(),
        "svg-react-preview: keystroke blocked by macOS (osascript error -1719) \u{2014} grant \
         Accessibility to the app that ran this binary (System Settings \u{2192} Privacy & \
         Security \u{2192} Accessibility). Press the preview shortcut manually for now."
    );
    let timeout = "svg-react-preview: Zed did not come to the foreground in time. Press the preview shortcut manually.";
    assert_eq!(osascript_report("timeout").unwrap(), timeout);
    assert_eq!(osascript_report("").unwrap(), timeout);
}

#[test]
fn key_codes_are_distinct_but_for_synonyms() {
    let mut names: Vec<String> = ('a'..='z').chain('0'..='9').map(|c| c.to_string()).collect();
    names.extend(["space", "return", "tab", "escape"].iter().map(|s| s.to_string()));
    names.extend((1..=12).map(|n| format!("f{n}")));
    let codes: Vec<u8> = names.iter().map(|n| parse(n).unwrap().key_code).collect();
    for i in 0..codes.len() {
        for j in 0..i {
            assert_ne!(codes[i], codes[j], "{} and {}", names[i], names[j]);
        }
    }
    assert_eq!(parse("enter").unwrap().key_code, parse("return").unwrap().key_code);
    assert_eq!(parse("esc").unwrap().key_code, parse("escape").unwrap().key_code);
    assert!(parse("V").is_some());
    assert!(parse("[").is_none());
}

#[test]
fn accepted_shortcuts_have_one_key_and_distinct_modifiers() {
    assert!(parse("cmd+command+v").is_none());
    assert!(parse("cmd+shift").is_none());
    assert!(parse("").is_none());
    assert!(parse("+v").is_none());
    let h = parse(" ctrl + Opt + CMD + f5 ").unwrap();
    assert_eq!(h.modifiers, ["control down", "option down", "command down"]);
    assert_eq!(h.key_code, 96);
    let bare = parse("v").unwrap();
    assert!(bare.modifiers.is_empty());
    assert_eq!(bare.key_code, 9);
}

#[test]
fn key_names_are_lower_case_table_entries() {
    assert_eq!(key_code_for("v"), Some(9));
    assert_eq!(key_code_for("f5"), Some(96));
    assert_eq!(key_code_for("space"), Some(49));
    assert_eq!(key_code_for("enter"), Some(36));
    assert_eq!(key_code_for("escape"), Some(53));
    assert_eq!(key_code_for("V"), None);
    assert_eq!(key_code_for("["), None);
    assert_eq!(key_code_for("foobar"), None);
    assert_eq!(parse_modifier("opt"), Some("option down"));
    assert_eq!(parse_modifier("v"), None);
}
