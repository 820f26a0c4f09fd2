//! The decisions behind the command line, taken on the values the binary would
//! read from its environment.

use svg_react_preview::config::{opener_from_env, source_from_env, HotkeySpec, InputChoice};
use svg_react_preview::pipeline::render;
use svg_react_preview::preview_effects::{deliver, Delivery};
use svg_react_preview::source::Source;

#[test]
fn env_input_overrides_stdin() {
    let choice = source_from_env(None, None, None, Some(r#"<svg><path d="M0"/></svg>"#.into()));
    match choice {
        InputChoice::Inline(s) => assert_eq!(s, r#"<svg><path d="M0"/></svg>"#),
        _ => panic!("expected the inline input"),
    }
}

#[test]
fn empty_stdin_fails_with_message() {
    assert!(matches!(source_from_env(None, None, None, None), InputChoice::Stdin));
    let err = Source::Fragment(String::new()).into_expr().err().unwrap();
    assert!(err.contains("empty input"), "got: {err}");
}

#[test]
fn warnings_printed_to_stderr() {
    let (_, icon) = Source::Fragment("<Icon/>".into()).into_expr().unwrap();
    let r = render(&icon).unwrap();
    assert_eq!(r.warnings, vec!["unresolved <Icon/> rendered as placeholder".to_string()]);
}

#[test]
fn missing_opener_prints_path_fallback() {
    let opener = opener_from_env(Some("definitely-not-a-real-binary-xyz".into()));
    match deliver(&opener, &HotkeySpec::Default, true) {
        Delivery::Open { command, .. } => assert_eq!(command, "definitely-not-a-real-binary-xyz"),
        Delivery::AppleScript { .. } => panic!("a custom opener opens the file itself"),
    }
}

#[test]
fn file_row_col_input_finds_svg() {
    let choice = source_from_env(Some("/tmp/x.tsx".into()), Some("1".into()), Some("13".into()), None);
    let (path, row, col) = match choice {
        InputChoice::ReadFile { path, row, col } => (path, row, col),
        _ => panic!("expected the file"),
    };
    let source = Source::Cursor { source: "const x = <svg><path d=\"M0\"/></svg>;".into(), path, row, col };
    let (text, expr) = source.into_expr().unwrap();
    assert_eq!(text, "<svg><path d=\"M0\"/></svg>");
    assert!(render(&expr).is_ok());
}

#[test]
fn cli_cursor_outside_svg_errors() {
    let source = Source::Cursor { source: "const x = 42;".into(), path: "t.tsx".into(), row: 1, col: 1 };
    assert!(source.into_expr().is_err());
}

#[test]
fn invalid_jsx_fails() {
    let err = Source::Fragment("<svg><path>".into()).into_expr().unwrap_err();
    assert!(err.starts_with("JSX parse error: "), "got: {err}");
}

#[test]
fn stdin_input_succeeds() {
    let (_, expr) = Source::Fragment(r#"<svg><path d="M0 0"/></svg>"#.into()).into_expr().unwrap();
    assert!(render(&expr).is_ok());
}

#[test]
fn empty_env_var_falls_through_to_stdin() {
    assert!(matches!(source_from_env(None, None, None, Some(String::new())), InputChoice::Stdin));
}
