use svg_react_preview::expand_selection::{
    cursor_offset, find_svg_among, find_svg_at, innermost_svg, relative_to, row_col_to_offset,
    text_between, ElementSpan,
};

/// Locates the `|` marker in the source, strips it, and returns the cleaned source + (row, col).
fn split_marker(src: &str) -> (String, usize, usize) {
    let idx = src.find('|').expect("test source must contain `|` marker");
    let before = &src[..idx];
    let after = &src[idx + 1..];
    let row = before.bytes().filter(|b| *b == b'\n').count() + 1;
    let last_nl = before.rfind('\n').map(|i| i + 1).unwrap_or(0);
    let col = before[last_nl..].chars().count() + 1;
    (format!("{}{}", before, after), row, col)
}

fn find(src: &str, row: usize, col: usize) -> Result<String, String> {
    let (lo, hi) = find_svg_at(src, "input.tsx", row, col)?;
    Ok(src[lo..hi].to_string())
}

fn run(src_with_marker: &str) -> Result<String, String> {
    let (src, row, col) = split_marker(src_with_marker);
    find(&src, row, col)
}

#[test]
fn cursor_in_middle_of_svg() {
    let out = run("export const Icon = () => (<svg><pa|th d=\"M0 0\"/></svg>);").unwrap();
    assert_eq!(out, r#"<svg><path d="M0 0"/></svg>"#);
}

#[test]
fn cursor_on_opening_bracket() {
    let out = run("const x = |<svg><path/></svg>;").unwrap();
    assert_eq!(out, "<svg><path/></svg>");
}

#[test]
fn cursor_inside_attributes() {
    let out = run("const x = <svg width|={24} height={24}><path/></svg>;").unwrap();
    assert_eq!(out, "<svg width={24} height={24}><path/></svg>");
}

#[test]
fn self_closing_svg() {
    let out = run("const x = <svg width={24|} />;").unwrap();
    assert_eq!(out, "<svg width={24} />");
}

#[test]
fn nested_svg_picks_innermost() {
    let out = run("const x = <svg><svg><pa|th/></svg></svg>;").unwrap();
    assert_eq!(out, "<svg><path/></svg>");
}

#[test]
fn picks_correct_one_among_siblings() {
    let out = run("const arr = [<svg><a/></svg>, <svg><b|/></svg>];").unwrap();
    assert_eq!(out, "<svg><b/></svg>");
}

#[test]
fn cursor_outside_any_svg_errors() {
    let err = run("const x = <div>he|llo</div>;").unwrap_err();
    assert!(err.contains("not inside an <svg>"), "got: {err}");
    assert_eq!(err, "cursor at input.tsx:1:18 is not inside an <svg> element");
}

#[test]
fn cursor_in_imports_errors() {
    let err = run("import Re|act from 'react';\nconst x = <svg/>;").unwrap_err();
    assert!(err.contains("not inside an <svg>"), "got: {err}");
}

#[test]
fn row_col_past_end_errors() {
    let err = find("const x = <svg/>;", 99, 1).unwrap_err();
    assert!(err.contains("past end of file"), "got: {err}");
    assert_eq!(err, "cursor position 99:1 is past end of file [input.tsx:99:1]");
    let err = cursor_offset("const x = <svg/>;", 99, 1).unwrap_err();
    assert_eq!(err, "cursor position 99:1 is past end of file");
}

#[test]
fn handles_utf8_above_cursor() {
    let out = run("// комментарий\nconst x = <svg><pa|th/></svg>;").unwrap();
    assert_eq!(out, "<svg><path/></svg>");
}

#[test]
fn handles_crlf() {
    let out = run("// hello\r\nconst x = <svg><pa|th/></svg>;").unwrap();
    assert_eq!(out, "<svg><path/></svg>");
}

#[test]
fn multiline_svg() {
    let src = "const x = (\n  <svg viewBox=\"0 0 24 24\">\n    <path d=\"M0|\"/>\n  </svg>\n);";
    let out = run(src).unwrap();
    assert_eq!(out, "<svg viewBox=\"0 0 24 24\">\n    <path d=\"M0\"/>\n  </svg>");
}

#[test]
fn unparseable_file_errors() {
    let err = find("<svg><path/>", 1, 7).unwrap_err();
    assert!(err.contains("not parseable as TSX"), "got: {err}");
    assert!(err.ends_with("(try $SVG_REACT_PREVIEW_INPUT or stdin instead) [input.tsx:1:7]"), "got: {err}");
}

#[test]
fn parse_error_kind_is_named() {
    let spans = Err("Eof".to_string());
    let err = find_svg_among("<svg>", "a.tsx", 1, 1, spans).unwrap_err();
    assert_eq!(
        err,
        "file is not parseable as TSX: Eof (try $SVG_REACT_PREVIEW_INPUT or stdin instead) [a.tsx:1:1]"
    );
}

#[test]
fn past_end_comes_before_the_parse_error() {
    let err = find_svg_among("<svg>", "a.tsx", 2, 1, Err("Eof".to_string())).unwrap_err();
    assert_eq!(err, "cursor position 2:1 is past end of file [a.tsx:2:1]");
}

#[test]
fn offsets_count_characters_and_return_bytes() {
    assert_eq!(row_col_to_offset("é\nab", 2, 2), Some(4));
    assert_eq!(row_col_to_offset("ab", 1, 3), Some(2));
    assert_eq!(row_col_to_offset("ab", 1, 4), None);
    assert_eq!(row_col_to_offset("ab\ncd", 1, 4), None);
    assert_eq!(row_col_to_offset("ab\ncd", 3, 1), None);
    assert_eq!(row_col_to_offset("ab\n", 2, 1), Some(3));
    assert_eq!(row_col_to_offset("ab", 0, 1), None);
    assert_eq!(row_col_to_offset("ab", 1, 0), None);
    assert_eq!(row_col_to_offset("a\r\nb", 1, 3), None);
    assert_eq!(row_col_to_offset("a\r\nb", 1, 2), Some(1));
}

#[test]
fn carriage_return_is_not_a_column() {
    assert_eq!(row_col_to_offset("ab\r\ncd", 2, 2), Some(5));
    assert_eq!(row_col_to_offset("ab\r\ncd", 1, 3), Some(2));
    assert_eq!(row_col_to_offset("ab\r\ncd", 1, 4), None);
    assert_eq!(row_col_to_offset("a\rb", 1, 3), Some(2));
}

#[test]
fn ties_keep_the_first_narrowest() {
    let spans = vec![
        ElementSpan { lo: 0, hi: 10, ident: Some("svg".into()) },
        ElementSpan { lo: 2, hi: 6, ident: Some("svg".into()) },
        ElementSpan { lo: 3, hi: 7, ident: Some("svg".into()) },
        ElementSpan { lo: 4, hi: 5, ident: None },
    ];
    assert_eq!(innermost_svg(&spans, 4), Some(1));
    assert_eq!(innermost_svg(&spans, 6), Some(2));
    assert_eq!(innermost_svg(&spans, 10), None);
}

#[test]
fn text_between_cuts_at_character_boundaries() {
    let s = "aé<svg/>ü";
    assert_eq!(text_between(s, 3, 9).as_deref(), Some("<svg/>"));
    assert_eq!(text_between(s, 0, 11).as_deref(), Some(s));
    assert_eq!(text_between(s, 3, 3).as_deref(), Some(""));
    assert_eq!(text_between(s, 2, 9), None);
    assert_eq!(text_between(s, 3, 10), None);
    assert_eq!(text_between(s, 9, 3), None);
    assert_eq!(text_between(s, 3, 12), None);
}

#[test]
fn spans_are_moved_to_the_file_start() {
    let spans = vec![
        ElementSpan { lo: 11, hi: 29, ident: Some("svg".into()) },
        ElementSpan { lo: 16, hi: 23, ident: None },
    ];
    let rel = relative_to(1, spans).unwrap();
    assert_eq!((rel[0].lo, rel[0].hi, rel[0].ident.as_deref()), (10, 28, Some("svg")));
    assert_eq!((rel[1].lo, rel[1].hi, rel[1].ident.as_deref()), (15, 22, None));
    assert!(relative_to(5, vec![ElementSpan { lo: 4, hi: 9, ident: None }]).is_none());
}

#[test]
fn module_positions_are_relative_to_the_file() {
    let src = "const a = <svg/>;\nconst b = <svg><g/></svg>;";
    assert_eq!(find(src, 2, 16).unwrap(), "<svg><g/></svg>");
    assert_eq!(find(src, 1, 11).unwrap(), "<svg/>");
}
