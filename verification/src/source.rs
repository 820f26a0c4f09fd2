//! The input modes documented in the README, and how each becomes the text to
//! preview and its expression.

use vstd::prelude::*;

use crate::expand_selection::{byte_range_text, file_svg, find_svg_at, text_between, SPAN_ERROR};
use crate::jsx::JsxExpr;
use crate::parse::{parse_error_message, parse_jsx, tsx_expression};
use crate::text::{push_decimal, push_str, trim, trimmed};

verus! {

/// One of the input modes documented in the README.
pub enum Source {
    /// A free-standing TSX expression (e.g. piped via stdin or `$SVG_REACT_PREVIEW_INPUT`).
    Fragment(String),
    /// A full TSX file plus a 1-based cursor position. `path` is carried for error
    /// messages only: the source is read by the caller.
    Cursor { source: String, path: String, row: usize, col: usize },
}

/// The error for input that is empty or white space only.
pub const EMPTY_INPUT_ERROR: &'static str = "empty input (place cursor inside <svg> with $SVG_REACT_PREVIEW_FILE/ROW/COLUMN, set $SVG_REACT_PREVIEW_INPUT, or pipe via stdin)";

/// `MESSAGE [PATH:ROW:COL]`
pub open spec fn cursor_error_message(msg: Seq<char>, path: Seq<char>, row: nat, col: nat) -> Seq<
    char,
> {
    msg + " ["@ + path + ":"@ + crate::text::decimal(row) + ":"@ + crate::text::decimal(col) + "]"@
}

/// Decorates an error about a cursor position with the file and the position.
pub fn cursor_error(msg: &str, path: &str, row: usize, col: usize) -> (res: String)
    ensures
        res@ == cursor_error_message(msg@, path@, row as nat, col as nat),
{
    let mut s = msg.to_owned();
    push_str(&mut s, " [");
    push_str(&mut s, path);
    push_str(&mut s, ":");
    push_decimal(&mut s, row as u64);
    push_str(&mut s, ":");
    push_decimal(&mut s, col as u64);
    push_str(&mut s, "]");
    s
}

/// What a text gives as a fragment: the text trimmed and the expression it
/// parses to; the error for text that is empty or white space only, or for
/// text that does not parse.
pub open spec fn fragment_result(text: Seq<char>) -> Result<(Seq<char>, JsxExpr), Seq<char>> {
    if trim(text).len() == 0 {
        Err(EMPTY_INPUT_ERROR@)
    } else {
        match tsx_expression(trim(text)) {
            Ok(e) => Ok((trim(text), e)),
            Err(kind) => Err(parse_error_message(kind)),
        }
    }
}

/// A fragment's trimmed text and its expression, with the string taken as a
/// character sequence.
pub open spec fn fragment_view(res: Result<(String, JsxExpr), String>) -> Result<
    (Seq<char>, JsxExpr),
    Seq<char>,
> {
    match res {
        Ok((t, e)) => Ok((t@, e)),
        Err(m) => Err(m@),
    }
}

/// Trims a fragment and parses it as one TSX expression.
pub fn parse_fragment(text: &str) -> (res: Result<(String, JsxExpr), String>)
    ensures
        fragment_view(res) == fragment_result(text@),
{
    let t = trimmed(text);
    if t.unicode_len() == 0 {
        Err(EMPTY_INPUT_ERROR.to_owned())
    } else {
        match parse_jsx(t.as_str()) {
            Ok(e) => Ok((t, e)),
            Err(m) => Err(m),
        }
    }
}

/// What a source gives: a fragment as [`fragment_result`] reads it; at a cursor,
/// the text of the innermost `<svg>` around it read the same way, the error of
/// the search, or [`SPAN_ERROR`] when swc's span of that element does not cut
/// the file at character boundaries.
pub open spec fn source_result(src: Source) -> Result<(Seq<char>, JsxExpr), Seq<char>> {
    match src {
        Source::Fragment(s) => fragment_result(s@),
        Source::Cursor { source, path, row, col } => match file_svg(
            source@,
            path@,
            row as nat,
            col as nat,
        ) {
            Ok((lo, hi)) => match byte_range_text(source@, lo, hi) {
                Some(t) => fragment_result(t),
                None => Err(SPAN_ERROR@),
            },
            Err(m) => Err(m),
        },
    }
}

impl Source {
    /// A fragment's expression: its text, trimmed, parsed as one TSX
    /// expression; the error for text that is empty or white space only.
    pub fn fragment_expr(&self) -> (res: Result<JsxExpr, String>)
        requires
            self is Fragment,
        ensures
            match *self {
                Source::Fragment(s) => match fragment_result(s@) {
                    Ok((_, e)) => res == Ok::<JsxExpr, String>(e),
                    Err(m) => res matches Err(r) && r@ == m,
                },
                Source::Cursor { .. } => false,
            },
    {
        match self {
            Source::Fragment(s) => match parse_fragment(s.as_str()) {
                Ok((_, e)) => Ok(e),
                Err(m) => Err(m),
            },
            Source::Cursor { .. } => vstd::pervasive::unreached(),
        }
    }

    /// The text to preview and its expression: a fragment, trimmed; at a
    /// cursor, the innermost `<svg>` around it in the file (parsed by swc as a
    /// TSX module), trimmed.
    pub fn into_expr(&self) -> (res: Result<(String, JsxExpr), String>)
        ensures
            fragment_view(res) == source_result(*self),
    {
        match self {
            Source::Fragment(s) => parse_fragment(s.as_str()),
            Source::Cursor { source, path, row, col } => {
                let (lo, hi) = find_svg_at(source.as_str(), path.as_str(), *row, *col)?;
                match text_between(source.as_str(), lo, hi) {
                    Some(t) => parse_fragment(t.as_str()),
                    None => Err(SPAN_ERROR.to_owned()),
                }
            },
        }
    }
}

} // verus!
