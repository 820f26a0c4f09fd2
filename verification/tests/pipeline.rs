use svg_react_preview::jsx::JsxExpr;
use svg_react_preview::pipeline::{hash_file_name, preview_file_name, render, RenderedSvg};
use svg_react_preview::source::Source;

fn render_fragment(tsx: &str) -> RenderedSvg {
    let (_, expr) = Source::Fragment(tsx.into()).into_expr().expect("parse must succeed");
    render(&expr).expect("render must succeed")
}

#[test]
fn renders_basic_svg_to_xml() {
    let r = render_fragment(r#"<svg><path d="M0 0"/></svg>"#);
    assert!(r.xml.starts_with("<svg"), "got: {}", r.xml);
    assert!(r.xml.contains("<path"), "got: {}", r.xml);
    assert!(r.warnings.is_empty(), "got warnings: {:?}", r.warnings);
}

#[test]
fn collects_pascal_case_warning() {
    let r = render_fragment("<Icon/>");
    assert!(
        r.warnings.iter().any(|w| w.contains("placeholder")),
        "warnings: {:?}",
        r.warnings
    );
}

#[test]
fn empty_fragment_errors() {
    let err = Source::Fragment(String::new()).into_expr().err().unwrap().to_string();
    assert!(err.contains("empty input"), "got: {err}");
}

#[test]
fn pipeline_cursor_outside_svg_errors() {
    // "const x = 42;" parses as a module without any JSX element.
    let source =
        Source::Cursor { source: "const x = 42;".into(), path: "input.tsx".into(), row: 1, col: 1 };
    let err = source.into_expr().unwrap_err();
    assert!(err.contains("input.tsx"), "got: {err}");
    assert!(err.contains("not inside an <svg>"), "got: {err}");
}

#[test]
fn cursor_inside_svg_renders_innermost() {
    let source = Source::Cursor {
        source: "const x = <svg><path d=\"M1\"/></svg>;".into(),
        path: "input.tsx".into(),
        row: 1,
        col: 17,
    };
    let (found, expr) = source.into_expr().expect("render must succeed");
    assert_eq!(found, "<svg><path d=\"M1\"/></svg>");
    let r = render(&expr).expect("render must succeed");
    assert!(r.xml.contains("<path"), "got: {}", r.xml);
}

#[test]
fn expression_without_jsx_is_an_error() {
    let err = render(&JsxExpr::Num("42".into())).err().unwrap();
    assert_eq!(err, "no JSX elements in input");
}

#[test]
fn preview_name_is_xxhash_of_source() {
    let name = preview_file_name("<svg/>");
    let want = format!("{:016x}.svg", twox_hash::XxHash64::oneshot(0, b"<svg/>"));
    assert_eq!(name, want);
    assert_eq!(name.len(), 20);
    assert_ne!(preview_file_name("<svg/>"), preview_file_name("<svg></svg>"));
}

#[test]
fn preview_name_is_stable() {
    assert_eq!(preview_file_name("<path d=\"M0\"/>"), preview_file_name("<path d=\"M0\"/>"));
    let empty = preview_file_name("");
    assert_eq!(empty, "ef46db3751d8e999.svg");
}

#[test]
fn preview_name_is_sixteen_hex_digits_and_svg() {
    for source in ["", "<svg/>", "<path d=\"M0\"/>", "\u{1F600}"] {
        let name = preview_file_name(source);
        assert_eq!(name.len(), 20);
        assert!(name[..16].chars().all(|c| c.is_ascii_digit() || ('a'..='f').contains(&c)), "{name}");
        assert!(name.ends_with(".svg"));
    }
}

#[test]
fn hash_file_name_is_zero_padded_hex() {
    assert_eq!(hash_file_name(0), "0000000000000000.svg");
    assert_eq!(hash_file_name(0xdead_beef), "00000000deadbeef.svg");
    assert_eq!(hash_file_name(u64::MAX), "ffffffffffffffff.svg");
}
