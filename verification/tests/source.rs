use svg_react_preview::jsx::{JsxElementName, JsxExpr};
use svg_react_preview::source::{cursor_error, Source, EMPTY_INPUT_ERROR};

#[test]
fn fragment_empty_errors() {
    let err = Source::Fragment(String::new()).into_expr().unwrap_err().to_string();
    assert!(err.contains("empty input"), "got: {err}");
    assert_eq!(err, EMPTY_INPUT_ERROR);
}

#[test]
fn fragment_whitespace_only_errors() {
    let err = Source::Fragment("   \n\t".into()).into_expr().unwrap_err().to_string();
    assert!(err.contains("empty input"), "got: {err}");
}

#[test]
fn fragment_valid_jsx_parses() {
    let (_, expr) = Source::Fragment(r#"<svg><path d="M0"/></svg>"#.into()).into_expr().unwrap();
    assert!(matches!(expr, JsxExpr::Element(_)));
}

#[test]
fn fragment_is_trimmed_before_parsing() {
    let (text, expr) = Source::Fragment("\n  <svg/>  \n".into()).into_expr().unwrap();
    assert_eq!(text, "<svg/>");
    match expr {
        JsxExpr::Element(el) => assert!(matches!(&el.name, JsxElementName::Ident(n) if n == "svg")),
        _ => panic!("expected an element"),
    }
}

#[test]
fn fragment_expr_agrees_with_into_expr() {
    let expr = Source::Fragment(" <g/> ".into()).fragment_expr().unwrap();
    assert!(matches!(expr, JsxExpr::Element(_)));
    let err = Source::Fragment(" ".into()).fragment_expr().unwrap_err();
    assert_eq!(err, EMPTY_INPUT_ERROR);
}

#[test]
fn fragment_parse_error_is_reported() {
    let err = Source::Fragment("<svg><path>".into()).into_expr().unwrap_err();
    assert!(err.starts_with("JSX parse error: "), "got: {err}");
}

#[test]
fn cursor_decorates_error_with_path() {
    let err = Source::Cursor {
        source: "const x = <div>hello</div>;".into(),
        path: "/tmp/example.tsx".into(),
        row: 1,
        col: 16,
    }
    .into_expr()
    .unwrap_err();
    assert!(err.contains("/tmp/example.tsx:1:16"), "got: {err}");
    assert!(err.contains("not inside an <svg>"), "got: {err}");
}

#[test]
fn cursor_inside_svg_returns_jsx_element_expr() {
    let (found, expr) = Source::Cursor {
        source: "const x = <svg><path/></svg>;".into(),
        path: "input.tsx".into(),
        row: 1,
        col: 17,
    }
    .into_expr()
    .unwrap();
    assert_eq!(found, "<svg><path/></svg>");
    assert!(matches!(expr, JsxExpr::Element(_)));
}

#[test]
fn cursor_past_end_is_decorated() {
    let source =
        Source::Cursor { source: "const x = <svg/>;".into(), path: "a.tsx".into(), row: 99, col: 1 };
    assert_eq!(source.into_expr().unwrap_err(), "cursor position 99:1 is past end of file [a.tsx:99:1]");
}

#[test]
fn cursor_in_unparseable_file_is_reported() {
    let source = Source::Cursor { source: "<svg><path/>".into(), path: "a.tsx".into(), row: 1, col: 7 };
    let err = source.into_expr().unwrap_err();
    assert!(err.starts_with("file is not parseable as TSX: "), "got: {err}");
    assert!(err.ends_with(" (try $SVG_REACT_PREVIEW_INPUT or stdin instead) [a.tsx:1:7]"), "got: {err}");
}

#[test]
fn unparseable_file_error_is_decorated() {
    let err = cursor_error("file is not parseable as TSX", "x.tsx", 2, 3);
    assert_eq!(err, "file is not parseable as TSX [x.tsx:2:3]");
}
