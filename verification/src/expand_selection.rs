//! Finds the innermost `<svg>` element around a cursor in a TSX file.
//!
//! The cursor is given as a 1-based (row, column) pair, as Zed's `${ZED_ROW}` /
//! `${ZED_COLUMN}` give it; columns count Unicode characters. The file is parsed
//! as a TSX module by swc, whose walk lists its JSX elements as byte spans in
//! pre-order; the search over those spans is this module's own.

use vstd::prelude::*;
use vstd::utf8::encode_utf8;

use crate::parse::{module_elements, tsx_module_elements};
use crate::source::{cursor_error, cursor_error_message};
use crate::text::{chars_of, find_char, lemma_find_char, push_decimal, push_str, str_eq, substring};

verus! {

/// Char index at which line `row` (1-based) starts, if the text has that many lines.
pub open spec fn line_start(s: Seq<char>, row: nat) -> Option<int>
    decreases row,
{
    if row <= 1 {
        Some(0)
    } else {
        match line_start(s, (row - 1) as nat) {
            Some(p) => match find_char(s.skip(p), '\n') {
                Some(k) => Some(p + k + 1),
                None => None,
            },
            None => None,
        }
    }
}

/// Whether the character at `j` ends its line: a line feed, or a carriage
/// return that stands just before one.
pub open spec fn ends_line(s: Seq<char>, j: int) -> bool {
    s[j] == '\n' || (s[j] == '\r' && j + 1 < s.len() && s[j + 1] == '\n')
}

/// Char index of the 1-based (row, col) position: `col - 1` characters into line
/// `row`, none of them ending the line (a line feed, or the carriage return of a
/// `\r\n` pair); `None` when that runs past the line or the text.
pub open spec fn cursor_char_index(s: Seq<char>, row: nat, col: nat) -> Option<int> {
    if row == 0 || col == 0 {
        None
    } else {
        match line_start(s, row) {
            Some(p) => if p + col - 1 <= s.len() && forall|j: int|
                p <= j < p + col - 1 ==> !#[trigger] ends_line(s, j) {
                Some(p + col - 1)
            } else {
                None
            },
            None => None,
        }
    }
}

/// Byte offset (in UTF-8) of the 1-based (row, col) position.
pub open spec fn cursor_byte_offset(s: Seq<char>, row: nat, col: nat) -> Option<nat> {
    match cursor_char_index(s, row, col) {
        Some(i) => Some(encode_utf8(s.take(i)).len()),
        None => None,
    }
}

proof fn lemma_encode_utf8_append(a: Seq<char>, b: Seq<char>)
    ensures
        encode_utf8(a + b) == encode_utf8(a) + encode_utf8(b),
    decreases a.len(),
{
    if a.len() == 0 {
        assert(a + b =~= b);
        assert(encode_utf8(a) + encode_utf8(b) =~= encode_utf8(b));
    } else {
        assert((a + b).drop_first() =~= a.drop_first() + b);
        lemma_encode_utf8_append(a.drop_first(), b);
        assert(encode_utf8(a + b) =~= encode_utf8(a) + encode_utf8(b));
    }
}

/// Number of bytes UTF-8 takes for `c`.
spec fn utf8_width(c: char) -> nat {
    if (c as u32) < 0x80 {
        1
    } else if (c as u32) < 0x800 {
        2
    } else if (c as u32) < 0x10000 {
        3
    } else {
        4
    }
}

proof fn lemma_encode_utf8_step(s: Seq<char>, i: int)
    requires
        0 <= i < s.len(),
    ensures
        encode_utf8(s.take(i + 1)).len() == encode_utf8(s.take(i)).len() + utf8_width(s[i]),
        encode_utf8(s.take(i + 1)).len() <= encode_utf8(s).len(),
{
    let c = s[i];
    assert(s.take(i + 1) =~= s.take(i) + seq![c]);
    lemma_encode_utf8_append(s.take(i), seq![c]);
    assert(seq![c].drop_first() =~= Seq::<char>::empty());
    vstd::utf8::char_is_scalar(c);
    assert(encode_utf8(Seq::<char>::empty()) =~= Seq::<u8>::empty());
    assert(seq![c][0] == c);
    assert(encode_utf8(seq![c]) == vstd::utf8::encode_scalar(c as u32) + encode_utf8(
        Seq::<char>::empty(),
    ));
    assert(encode_utf8(seq![c]) =~= vstd::utf8::encode_scalar(c as u32));
    assert(encode_utf8(seq![c]).len() == utf8_width(c));
    assert(s =~= s.take(i + 1) + s.skip(i + 1));
    lemma_encode_utf8_append(s.take(i + 1), s.skip(i + 1));
}

fn width_of(c: char) -> (w: usize)
    ensures
        w == utf8_width(c),
{
    let u = c as u32;
    if u < 0x80 {
        1
    } else if u < 0x800 {
        2
    } else if u < 0x10000 {
        3
    } else {
        4
    }
}

proof fn lemma_line_start_step(s: Seq<char>, row: nat, p: int, q: int)
    requires
        row >= 1,
        line_start(s, row) == Some(p),
        0 <= p <= q < s.len(),
        s[q] == '\n',
        forall|j: int| p <= j < q ==> s[j] != '\n',
    ensures
        line_start(s, row + 1) == Some(q + 1),
{
    let t = s.skip(p);
    assert forall|j: int| 0 <= j < q - p implies t[j] != '\n' by {
        assert(t[j] == s[p + j]);
    }
    lemma_find_char(t, '\n', q - p);
}

proof fn lemma_line_start_none(s: Seq<char>, row: nat, p: int)
    requires
        row >= 1,
        line_start(s, row) == Some(p),
        0 <= p <= s.len(),
        forall|j: int| p <= j < s.len() ==> s[j] != '\n',
    ensures
        forall|r: nat| r > row ==> #[trigger] line_start(s, r) is None,
{
    let t = s.skip(p);
    assert forall|j: int| 0 <= j < t.len() implies t[j] != '\n' by {
        assert(t[j] == s[p + j]);
    }
    lemma_find_char(t, '\n', t.len() as int);
    assert forall|r: nat| r > row implies #[trigger] line_start(s, r) is None by {
        lemma_line_start_none_from(s, row, r);
    }
}

proof fn lemma_line_start_none_from(s: Seq<char>, row: nat, r: nat)
    requires
        row >= 1,
        r > row,
        line_start(s, row + 1) is None,
    ensures
        line_start(s, r) is None,
    decreases r,
{
    if r > row + 1 {
        lemma_line_start_none_from(s, row, (r - 1) as nat);
    }
}

/// Converts 1-based (row, col) into a byte offset, counting columns in Unicode
/// characters. Both `\n` and `\r\n` end lines: the carriage return of a `\r\n`
/// pair is not a column of its line.
pub fn row_col_to_offset(source: &str, row: usize, col: usize) -> (res: Option<usize>)
    ensures
        match res {
            Some(o) => cursor_byte_offset(source@, row as nat, col as nat) == Some(o as nat),
            None => cursor_byte_offset(source@, row as nat, col as nat) is None,
        },
{
    if row == 0 || col == 0 {
        return None;
    }
    let v = chars_of(source);
    let n = v.len();
    let mut line: usize = 0;
    let mut current: usize = 1;
    while current < row
        invariant
            v@ == source@,
            n == v@.len(),
            1 <= current <= row,
            line <= n,
            line_start(v@, current as nat) == Some(line as int),
        decreases row - current,
    {
        let mut q = line;
        while q < n && v[q] != '\n'
            invariant
                v@ == source@,
                n == v@.len(),
                line <= q <= n,
                forall|j: int| line <= j < q ==> v@[j] != '\n',
            decreases n - q,
        {
            q += 1;
        }
        if q == n {
            proof {
                lemma_line_start_none(v@, current as nat, line as int);
                assert(line_start(v@, row as nat) is None);
            }
            return None;
        }
        proof {
            lemma_line_start_step(v@, current as nat, line as int, q as int);
        }
        line = q + 1;
        current += 1;
    }
    let mut k: usize = 0;
    while k < col - 1
        invariant
            v@ == source@,
            n == v@.len(),
            line <= n,
            k <= col - 1,
            line + k <= n,
            line_start(v@, row as nat) == Some(line as int),
            forall|j: int| line <= j < line + k ==> !#[trigger] ends_line(v@, j),
        decreases col - 1 - k,
    {
        if line + k == n || v[line + k] == '\n' || (v[line + k] == '\r' && line + k + 1 < n
            && v[line + k + 1] == '\n') {
            proof {
                if line + k < n {
                    assert(ends_line(v@, line + k as int));
                }
            }
            return None;
        }
        k += 1;
    }
    let idx = line + k;
    let total = source.as_bytes().len();
    let mut bytes: usize = 0;
    let mut i: usize = 0;
    while i < idx
        invariant
            v@ == source@,
            idx <= v@.len(),
            i <= idx,
            total == encode_utf8(v@).len(),
            bytes == encode_utf8(v@.take(i as int)).len(),
        decreases idx - i,
    {
        proof {
            lemma_encode_utf8_step(v@, i as int);
        }
        bytes = bytes + width_of(v[i]);
        i += 1;
    }
    Some(bytes)
}

/// Character `i` of `s` (or its end, for `i == s.len()`) starts at byte `b` of
/// its UTF-8 encoding.
pub open spec fn starts_at_byte(s: Seq<char>, i: int, b: nat) -> bool {
    0 <= i <= s.len() && encode_utf8(s.take(i)).len() == b
}

/// The text between byte offsets `lo` and `hi` of the UTF-8 encoding of `s`, when
/// both fall on character boundaries and `lo <= hi`.
pub open spec fn byte_range_text(s: Seq<char>, lo: nat, hi: nat) -> Option<Seq<char>> {
    if exists|i: int, j: int| starts_at_byte(s, i, lo) && starts_at_byte(s, j, hi) && i <= j {
        let (i, j) = choose|i: int, j: int|
            starts_at_byte(s, i, lo) && starts_at_byte(s, j, hi) && i <= j;
        Some(s.subrange(i, j))
    } else {
        None
    }
}

proof fn lemma_encode_utf8_grows(s: Seq<char>, i: int, k: int)
    requires
        0 <= i < k <= s.len(),
    ensures
        encode_utf8(s.take(i)).len() < encode_utf8(s.take(k)).len(),
    decreases k - i,
{
    lemma_encode_utf8_step(s, i);
    if i + 1 < k {
        lemma_encode_utf8_grows(s, i + 1, k);
    }
}

/// `source[lo..hi]`, or `None` where that slice does not exist: an offset that
/// is not a character boundary, or `lo > hi`.
pub fn text_between(source: &str, lo: usize, hi: usize) -> (res: Option<String>)
    ensures
        match res {
            Some(t) => byte_range_text(source@, lo as nat, hi as nat) == Some(t@),
            None => byte_range_text(source@, lo as nat, hi as nat) is None,
        },
{
    let v = chars_of(source);
    let n = v.len();
    let total = source.as_bytes().len();
    let mut i: usize = 0;
    let mut bytes: usize = 0;
    while i < n && bytes < lo
        invariant
            v@ == source@,
            n == v@.len(),
            i <= n,
            total == encode_utf8(v@).len(),
            bytes == encode_utf8(v@.take(i as int)).len(),
            forall|k: int| 0 <= k < i ==> #[trigger] encode_utf8(v@.take(k)).len() < lo,
        decreases n - i,
    {
        proof {
            lemma_encode_utf8_step(v@, i as int);
        }
        bytes = bytes + width_of(v[i]);
        i += 1;
    }
    let start = i;
    proof {
        assert forall|k: int| #![trigger encode_utf8(v@.take(k))]
            starts_at_byte(v@, k, lo as nat) implies k == start by {
            if k > start {
                lemma_encode_utf8_grows(v@, start as int, k);
            }
        }
    }
    if bytes != lo {
        proof {
            assert forall|a: int, b: int|
                !(starts_at_byte(v@, a, lo as nat) && starts_at_byte(v@, b, hi as nat) && a <= b) by {
                if starts_at_byte(v@, a, lo as nat) {
                    assert(a == start);
                }
            }
        }
        return None;
    }
    while i < n && bytes < hi
        invariant
            v@ == source@,
            n == v@.len(),
            start <= i <= n,
            total == encode_utf8(v@).len(),
            bytes == encode_utf8(v@.take(i as int)).len(),
            forall|k: int| start <= k < i ==> #[trigger] encode_utf8(v@.take(k)).len() < hi,
        decreases n - i,
    {
        proof {
            lemma_encode_utf8_step(v@, i as int);
        }
        bytes = bytes + width_of(v[i]);
        i += 1;
    }
    let end = i;
    proof {
        assert forall|k: int| #![trigger encode_utf8(v@.take(k))]
            start <= k && starts_at_byte(v@, k, hi as nat) implies k == end by {
            if k > end {
                lemma_encode_utf8_grows(v@, end as int, k);
            }
        }
    }
    if bytes != hi {
        proof {
            assert forall|a: int, b: int|
                !(starts_at_byte(v@, a, lo as nat) && starts_at_byte(v@, b, hi as nat) && a <= b) by {
                if starts_at_byte(v@, a, lo as nat) && starts_at_byte(v@, b, hi as nat) && a <= b {
                    assert(a == start);
                    assert(b == end);
                }
            }
        }
        return None;
    }
    proof {
        assert(starts_at_byte(v@, start as int, lo as nat));
        assert(starts_at_byte(v@, end as int, hi as nat));
        let (a, b) = choose|a: int, b: int|
            starts_at_byte(v@, a, lo as nat) && starts_at_byte(v@, b, hi as nat) && a <= b;
        assert(a == start);
        assert(b == end);
    }
    Some(substring(v.as_slice(), start, end))
}

/// A JSX element's byte span in the file, with its tag when the tag is a plain
/// identifier.
pub struct ElementSpan {
    pub lo: usize,
    pub hi: usize,
    pub ident: Option<String>,
}

/// The span is an `<svg>` element that encloses byte `target`.
pub open spec fn encloses(e: ElementSpan, target: nat) -> bool {
    &&& e.ident matches Some(name) && name@ == "svg"@
    &&& e.lo <= target < e.hi
}

/// The index of the innermost enclosing `<svg>` among the first `spans.len()`
/// spans: the first of the narrowest.
pub open spec fn innermost(spans: Seq<ElementSpan>, target: nat) -> Option<int>
    decreases spans.len(),
{
    if spans.len() == 0 {
        None
    } else {
        let i = spans.len() - 1;
        match innermost(spans.drop_last(), target) {
            Some(h) => if encloses(spans[i], target) && spans[i].hi - spans[i].lo < spans[h].hi
                - spans[h].lo {
                Some(i)
            } else {
                Some(h)
            },
            None => if encloses(spans[i], target) {
                Some(i)
            } else {
                None
            },
        }
    }
}

/// The innermost enclosing `<svg>` is one, it is no wider than any other, and it
/// is missing only when no `<svg>` encloses the target.
pub proof fn lemma_innermost_is_narrowest(spans: Seq<ElementSpan>, target: nat)
    ensures
        match innermost(spans, target) {
            Some(h) => {
                &&& 0 <= h < spans.len()
                &&& encloses(spans[h], target)
                &&& forall|j: int|
                    0 <= j < spans.len() && encloses(#[trigger] spans[j], target) ==> spans[h].hi
                        - spans[h].lo <= spans[j].hi - spans[j].lo
                &&& forall|j: int|
                    0 <= j < h && encloses(#[trigger] spans[j], target) ==> spans[h].hi
                        - spans[h].lo < spans[j].hi - spans[j].lo
            },
            None => forall|j: int| 0 <= j < spans.len() ==> !encloses(#[trigger] spans[j], target),
        },
    decreases spans.len(),
{
    if spans.len() > 0 {
        let p = spans.drop_last();
        let i = spans.len() - 1;
        lemma_innermost_is_narrowest(p, target);
        assert forall|j: int| 0 <= j < p.len() implies #[trigger] p[j] == spans[j] by {}
        let w = |k: int| spans[k].hi - spans[k].lo;
        match innermost(p, target) {
            Some(h) => {
                assert(p[h] == spans[h]);
                if encloses(spans[i], target) && w(i) < w(h) {
                    assert forall|j: int|
                        0 <= j < spans.len() && encloses(#[trigger] spans[j], target) implies w(i)
                        <= w(j) by {
                        if j < i {
                            assert(p[j] == spans[j]);
                        }
                    }
                    assert forall|j: int|
                        0 <= j < i && encloses(#[trigger] spans[j], target) implies w(i) < w(j) by {
                        assert(p[j] == spans[j]);
                    }
                } else {
                    assert forall|j: int|
                        0 <= j < spans.len() && encloses(#[trigger] spans[j], target) implies w(h)
                        <= w(j) by {
                        if j < i {
                            assert(p[j] == spans[j]);
                        }
                    }
                    assert forall|j: int|
                        0 <= j < h && encloses(#[trigger] spans[j], target) implies w(h) < w(j) by {
                        assert(p[j] == spans[j]);
                    }
                }
            },
            None => {
                assert forall|j: int|
                    0 <= j < spans.len() && encloses(#[trigger] spans[j], target) implies j == i by {
                    if j < i {
                        assert(p[j] == spans[j]);
                    }
                }
            },
        }
    }
}

/// Index of the innermost `<svg>` element enclosing byte `target`.
pub fn innermost_svg(spans: &Vec<ElementSpan>, target: usize) -> (res: Option<usize>)
    ensures
        match res {
            Some(h) => innermost(spans@, target as nat) == Some(h as int),
            None => innermost(spans@, target as nat) is None,
        },
{
    let mut hit: Option<usize> = None;
    let mut i: usize = 0;
    while i < spans.len()
        invariant
            i <= spans@.len(),
            match hit {
                Some(h) => h < i && encloses(spans@[h as int], target as nat) && innermost(
                    spans@.take(i as int),
                    target as nat,
                ) == Some(h as int),
                None => innermost(spans@.take(i as int), target as nat) is None,
            },
        decreases spans.len() - i,
    {
        let ghost pre = spans@.take(i + 1);
        assert(pre.drop_last() =~= spans@.take(i as int));
        let e = &spans[i];
        let is_svg = match &e.ident {
            Some(name) => str_eq(name.as_str(), "svg"),
            None => false,
        };
        if is_svg && e.lo <= target && target < e.hi {
            match hit {
                Some(h) => {
                    if e.hi - e.lo < spans[h].hi - spans[h].lo {
                        hit = Some(i);
                    }
                },
                None => {
                    hit = Some(i);
                },
            }
        }
        i += 1;
    }
    assert(spans@.take(spans@.len() as int) =~= spans@);
    hit
}

/// `cursor position ROW:COL is past end of file`
pub open spec fn past_end_message(row: nat, col: nat) -> Seq<char> {
    "cursor position "@ + crate::text::decimal(row) + ":"@ + crate::text::decimal(col)
        + " is past end of file"@
}

/// `cursor at FILE:ROW:COL is not inside an <svg> element`
pub open spec fn not_inside_message(path: Seq<char>, row: nat, col: nat) -> Seq<char> {
    "cursor at "@ + path + ":"@ + crate::text::decimal(row) + ":"@ + crate::text::decimal(col)
        + " is not inside an <svg> element"@
}

fn position_message(head: &str, row: usize, col: usize, tail: &str) -> (res: String)
    ensures
        res@ == head@ + crate::text::decimal(row as nat) + ":"@ + crate::text::decimal(col as nat)
            + tail@,
{
    let mut s = head.to_owned();
    push_decimal(&mut s, row as u64);
    push_str(&mut s, ":");
    push_decimal(&mut s, col as u64);
    push_str(&mut s, tail);
    s
}

/// The byte offset of the cursor, or the error for a position past the end.
pub fn cursor_offset(source: &str, row: usize, col: usize) -> (res: Result<usize, String>)
    ensures
        match res {
            Ok(o) => cursor_byte_offset(source@, row as nat, col as nat) == Some(o as nat),
            Err(m) => cursor_byte_offset(source@, row as nat, col as nat) is None && m@
                == past_end_message(row as nat, col as nat),
        },
{
    match row_col_to_offset(source, row, col) {
        Some(o) => Ok(o),
        None => Err(position_message("cursor position ", row, col, " is past end of file")),
    }
}

/// The byte range `[lo, hi)` of the innermost `<svg>` element enclosing byte
/// `target`, or the error for a cursor outside every `<svg>`, which names the
/// file and the cursor position.
pub fn select_svg(
    spans: &Vec<ElementSpan>,
    target: usize,
    path: &str,
    row: usize,
    col: usize,
) -> (res: Result<
    (usize, usize),
    String,
>)
    ensures
        match res {
            Ok((lo, hi)) => match innermost(spans@, target as nat) {
                Some(h) => lo == spans@[h].lo && hi == spans@[h].hi,
                None => false,
            },
            Err(m) => innermost(spans@, target as nat) is None && m@ == not_inside_message(
                path@,
                row as nat,
                col as nat,
            ),
        },
{
    match innermost_svg(spans, target) {
        Some(h) => {
            proof {
                lemma_innermost_is_narrowest(spans@, target as nat);
            }
            Ok((spans[h].lo, spans[h].hi))
        },
        None => {
            let mut head = "cursor at ".to_owned();
            push_str(&mut head, path);
            push_str(&mut head, ":");
            Err(position_message(head.as_str(), row, col, " is not inside an <svg> element"))
        },
    }
}

/// `file is not parseable as TSX: KIND (try $SVG_REACT_PREVIEW_INPUT or stdin instead)`
pub open spec fn unparseable_message(kind: Seq<char>) -> Seq<char> {
    "file is not parseable as TSX: "@ + kind + " (try $SVG_REACT_PREVIEW_INPUT or stdin instead)"@
}

/// The file's JSX elements as the library reads them, or the text of the
/// parse error.
pub open spec fn elements_view(elements: Result<Vec<ElementSpan>, String>) -> Result<
    Seq<ElementSpan>,
    Seq<char>,
> {
    match elements {
        Ok(spans) => Ok(spans@),
        Err(kind) => Err(kind@),
    }
}

/// The byte range of the innermost `<svg>` around the cursor, or the error for
/// a cursor past the end, a file that is not TSX (`elements` is the module
/// parser's error kind) or a cursor outside every `<svg>`, in that order.
pub open spec fn svg_at(
    source: Seq<char>,
    path: Seq<char>,
    row: nat,
    col: nat,
    elements: Result<Seq<ElementSpan>, Seq<char>>,
) -> Result<(nat, nat), Seq<char>> {
    match cursor_byte_offset(source, row, col) {
        None => Err(cursor_error_message(past_end_message(row, col), path, row, col)),
        Some(o) => match elements {
            Err(kind) => Err(cursor_error_message(unparseable_message(kind), path, row, col)),
            Ok(spans) => match innermost(spans, o) {
                Some(h) => Ok((spans[h].lo as nat, spans[h].hi as nat)),
                None => Err(not_inside_message(path, row, col)),
            },
        },
    }
}

/// The byte range `[lo, hi)` of the innermost `<svg>` element enclosing the
/// 1-based cursor (`row`, `col`) of the TSX file `source`, given the file's
/// elements.
///
/// `elements` is what the TSX module parser made of the file: its JSX elements
/// in pre-order, or the `Debug` text of the kind of its error. Errors, in this
/// order: a cursor past the end of the file, a file that is not TSX, a cursor
/// outside every `<svg>`. The first two name the file and position in brackets;
/// the last names them in its text.
pub fn find_svg_among(
    source: &str,
    path: &str,
    row: usize,
    col: usize,
    elements: Result<Vec<ElementSpan>, String>,
) -> (res: Result<(usize, usize), String>)
    ensures
        match res {
            Ok((lo, hi)) => svg_at(source@, path@, row as nat, col as nat, elements_view(elements))
                == Ok::<(nat, nat), Seq<char>>((lo as nat, hi as nat)),
            Err(m) => svg_at(source@, path@, row as nat, col as nat, elements_view(elements))
                == Err::<(nat, nat), Seq<char>>(m@),
        },
{
    let offset = match cursor_offset(source, row, col) {
        Ok(o) => o,
        Err(m) => {
            return Err(cursor_error(m.as_str(), path, row, col));
        },
    };
    match elements {
        Err(kind) => {
            let mut m = "file is not parseable as TSX: ".to_owned();
            push_str(&mut m, kind.as_str());
            push_str(&mut m, " (try $SVG_REACT_PREVIEW_INPUT or stdin instead)");
            Err(cursor_error(m.as_str(), path, row, col))
        },
        Ok(spans) => select_svg(&spans, offset, path, row, col),
    }
}

/// The error for element positions from the TSX parser that do not fit the
/// file.
pub const SPAN_ERROR: &'static str = "the TSX parser reported an element span that does not fit the file";

/// A span moved `start` bytes back.
pub open spec fn shift_span(e: ElementSpan, start: usize) -> ElementSpan {
    ElementSpan { lo: (e.lo - start) as usize, hi: (e.hi - start) as usize, ident: e.ident }
}

/// The spans with positions counted from the file's first byte, given swc's
/// position `start` of that byte; `None` when a span lies before it.
pub open spec fn relative_spans(start: usize, spans: Seq<ElementSpan>) -> Option<Seq<ElementSpan>> {
    if forall|i: int|
        0 <= i < spans.len() ==> start <= (#[trigger] spans[i]).lo && start <= spans[i].hi {
        Some(spans.map_values(|e: ElementSpan| shift_span(e, start)))
    } else {
        None
    }
}

/// Moves spans `start` bytes back.
pub fn relative_to(start: usize, spans: Vec<ElementSpan>) -> (res: Option<Vec<ElementSpan>>)
    ensures
        match res {
            Some(v) => relative_spans(start, spans@) == Some(v@),
            None => relative_spans(start, spans@) is None,
        },
{
    let mut out: Vec<ElementSpan> = Vec::new();
    let mut i: usize = 0;
    while i < spans.len()
        invariant
            i <= spans@.len(),
            out@ == spans@.take(i as int).map_values(|e: ElementSpan| shift_span(e, start)),
            forall|k: int| 0 <= k < i ==> start <= (#[trigger] spans@[k]).lo && start <= spans@[k].hi,
        decreases spans.len() - i,
    {
        let e = &spans[i];
        if e.lo < start || e.hi < start {
            return None;
        }
        let ident = match &e.ident {
            Some(n) => Some(n.clone()),
            None => None,
        };
        out.push(ElementSpan { lo: e.lo - start, hi: e.hi - start, ident });
        assert(spans@.take(i + 1).map_values(|e: ElementSpan| shift_span(e, start)) =~= spans@.take(
            i as int,
        ).map_values(|e: ElementSpan| shift_span(e, start)).push(shift_span(spans@[i as int], start)));
        i += 1;
    }
    assert(spans@.take(spans@.len() as int) =~= spans@);
    Some(out)
}

/// The byte range of the innermost `<svg>` around the cursor in the TSX file
/// `source`, or the error: a cursor past the end, a file swc does not parse as a
/// TSX module, element positions that do not fit the file, or a cursor outside
/// every `<svg>`.
pub open spec fn file_svg(source: Seq<char>, path: Seq<char>, row: nat, col: nat) -> Result<
    (nat, nat),
    Seq<char>,
> {
    match cursor_byte_offset(source, row, col) {
        None => Err(cursor_error_message(past_end_message(row, col), path, row, col)),
        Some(_) => match tsx_module_elements(source) {
            Err(kind) => svg_at(source, path, row, col, Err(kind)),
            Ok((start, spans)) => match relative_spans(start, spans) {
                Some(rel) => svg_at(source, path, row, col, Ok(rel)),
                None => Err(SPAN_ERROR@),
            },
        },
    }
}

/// The byte range `[lo, hi)` of the innermost `<svg>` element enclosing the
/// 1-based cursor (`row`, `col`) of the TSX file `source`: the file is parsed
/// as a TSX module by swc and its JSX elements searched. Errors, in this order:
/// a cursor past the end of the file, a file that is not TSX, a cursor outside
/// every `<svg>`.
pub fn find_svg_at(source: &str, path: &str, row: usize, col: usize) -> (res: Result<
    (usize, usize),
    String,
>)
    ensures
        match res {
            Ok((lo, hi)) => file_svg(source@, path@, row as nat, col as nat) == Ok::<
                (nat, nat),
                Seq<char>,
            >((lo as nat, hi as nat)),
            Err(m) => file_svg(source@, path@, row as nat, col as nat) == Err::<(nat, nat), Seq<char>>(
                m@,
            ),
        },
{
    if let Err(m) = cursor_offset(source, row, col) {
        return Err(cursor_error(m.as_str(), path, row, col));
    }
    let elements = match module_elements(source) {
        Ok((start, spans)) => match relative_to(start, spans) {
            Some(rel) => Ok(rel),
            None => {
                return Err(SPAN_ERROR.to_owned());
            },
        },
        Err(kind) => Err(kind),
    };
    find_svg_among(source, path, row, col, elements)
}

} // verus!
