//! Character-level string helpers shared by the library: comparison, trimming,
//! ASCII case folding, splitting, replacing and number formatting.

use vstd::prelude::*;

verus! {

/// Compares two strings by their characters.
pub fn str_eq(a: &str, b: &str) -> (res: bool)
    ensures
        res == (a@ == b@),
{
    let x = a.to_owned();
    let y = b.to_owned();
    x == y
}

/// Appends one character to a string (`String::push`).
#[verifier::external_body]
pub(crate) fn push_char(s: &mut String, c: char)
    ensures
        final(s)@ == old(s)@.push(c),
{
    s.push(c);
}

/// Appends a string slice to a string.
pub fn push_str(s: &mut String, t: &str)
    ensures
        final(s)@ == old(s)@ + t@,
{
    s.append(t);
}

/// The characters of a string, in order.
pub fn chars_of(s: &str) -> (v: Vec<char>)
    ensures
        v@ == s@,
{
    let mut v: Vec<char> = Vec::new();
    for c in it: s.chars()
        invariant
            v@ == it.seq().take(it.index()),
    {
        v.push(c);
    }
    v
}

/// The characters of `s` from index `from` (inclusive) to `to` (exclusive).
pub fn substring(s: &[char], from: usize, to: usize) -> (res: String)
    requires
        from <= to <= s@.len(),
    ensures
        res@ == s@.subrange(from as int, to as int),
{
    let mut res = String::new();
    let mut i = from;
    while i < to
        invariant
            from <= i <= to <= s@.len(),
            res@ == s@.subrange(from as int, i as int),
        decreases to - i,
    {
        push_char(&mut res, s[i]);
        assert(s@.subrange(from as int, i + 1) =~= s@.subrange(from as int, i as int).push(
            s@[i as int],
        ));
        i += 1;
    }
    res
}

/// Whether `c` has the Unicode `White_Space` property, as `char::is_whitespace` decides it.
pub open spec fn is_white_space(c: char) -> bool {
    ||| '\t' <= c <= '\r'
    ||| c == ' '
    ||| c == '\u{85}'
    ||| c == '\u{a0}'
    ||| c == '\u{1680}'
    ||| '\u{2000}' <= c <= '\u{200a}'
    ||| c == '\u{2028}'
    ||| c == '\u{2029}'
    ||| c == '\u{202f}'
    ||| c == '\u{205f}'
    ||| c == '\u{3000}'
}

pub fn white_space(c: char) -> (res: bool)
    ensures
        res == is_white_space(c),
{
    ('\t' <= c && c <= '\r') || c == ' ' || c == '\u{85}' || c == '\u{a0}' || c == '\u{1680}'
        || ('\u{2000}' <= c && c <= '\u{200a}') || c == '\u{2028}' || c == '\u{2029}' || c
        == '\u{202f}' || c == '\u{205f}' || c == '\u{3000}'
}

/// `s` without its leading white space.
pub open spec fn trim_start(s: Seq<char>) -> Seq<char>
    decreases s.len(),
{
    if s.len() > 0 && is_white_space(s[0]) {
        trim_start(s.drop_first())
    } else {
        s
    }
}

/// `s` without its trailing white space.
pub open spec fn trim_end(s: Seq<char>) -> Seq<char>
    decreases s.len(),
{
    if s.len() > 0 && is_white_space(s.last()) {
        trim_end(s.drop_last())
    } else {
        s
    }
}

/// `s` without leading and trailing white space (`str::trim`).
pub open spec fn trim(s: Seq<char>) -> Seq<char> {
    trim_end(trim_start(s))
}

proof fn lemma_trim_start_skip(s: Seq<char>, i: int)
    requires
        0 <= i <= s.len(),
        forall|j: int| 0 <= j < i ==> is_white_space(#[trigger] s[j]),
    ensures
        trim_start(s) == trim_start(s.skip(i)),
    decreases i,
{
    if i > 0 {
        assert(s.drop_first().skip(i - 1) =~= s.skip(i));
        lemma_trim_start_skip(s.drop_first(), i - 1);
    } else {
        assert(s.skip(0) =~= s);
    }
}

proof fn lemma_trim_end_take(s: Seq<char>, i: int)
    requires
        0 <= i <= s.len(),
        forall|j: int| i <= j < s.len() ==> is_white_space(#[trigger] s[j]),
    ensures
        trim_end(s) == trim_end(s.take(i)),
    decreases s.len() - i,
{
    if i < s.len() {
        assert(s.drop_last().take(i) =~= s.take(i));
        lemma_trim_end_take(s.drop_last(), i);
    } else {
        assert(s.take(i) =~= s);
    }
}

/// The index range `[lo, hi)` of `s` that `trim` keeps.
pub fn trim_bounds(s: &[char]) -> (res: (usize, usize))
    ensures
        res.0 <= res.1 <= s@.len(),
        trim(s@) == s@.subrange(res.0 as int, res.1 as int),
{
    let mut lo: usize = 0;
    while lo < s.len() && white_space(s[lo])
        invariant
            lo <= s@.len(),
            forall|j: int| 0 <= j < lo ==> is_white_space(#[trigger] s@[j]),
        decreases s.len() - lo,
    {
        lo += 1;
    }
    proof {
        lemma_trim_start_skip(s@, lo as int);
        assert(trim_start(s@.skip(lo as int)) == s@.skip(lo as int));
    }
    let mut hi: usize = s.len();
    while hi > lo && white_space(s[hi - 1])
        invariant
            lo <= hi <= s@.len(),
            forall|j: int| hi <= j < s@.len() ==> is_white_space(#[trigger] s@[j]),
        decreases hi,
    {
        hi -= 1;
    }
    proof {
        let t = s@.skip(lo as int);
        assert forall|j: int| hi - lo <= j < t.len() implies is_white_space(#[trigger] t[j]) by {
            assert(t[j] == s@[lo + j]);
        }
        lemma_trim_end_take(t, hi - lo);
        assert(t.take(hi - lo) =~= s@.subrange(lo as int, hi as int));
    }
    (lo, hi)
}

/// `str::trim`, returning an owned string.
pub fn trimmed(s: &str) -> (res: String)
    ensures
        res@ == trim(s@),
{
    let v = chars_of(s);
    let (lo, hi) = trim_bounds(v.as_slice());
    substring(v.as_slice(), lo, hi)
}

/// `c` folded to ASCII lower case (`char::to_ascii_lowercase`).
pub open spec fn ascii_lower(c: char) -> char {
    if 'A' <= c <= 'Z' {
        ((c as u32) + 32) as char
    } else {
        c
    }
}

/// `s` with every ASCII letter folded to lower case (`str::to_ascii_lowercase`).
pub open spec fn ascii_lowercase(s: Seq<char>) -> Seq<char> {
    s.map_values(|c: char| ascii_lower(c))
}

pub fn to_ascii_lower(c: char) -> (res: char)
    ensures
        res == ascii_lower(c),
{
    if 'A' <= c && c <= 'Z' {
        let b: u8 = (c as u8) + 32;
        b as char
    } else {
        c
    }
}


/// Whether `s` begins with `prefix`.
pub open spec fn starts_with(s: Seq<char>, prefix: Seq<char>) -> bool {
    prefix.len() <= s.len() && s.take(prefix.len() as int) == prefix
}

/// Whether `pat` occurs in `s` at index `i`.
pub open spec fn matches_at(s: Seq<char>, pat: Seq<char>, i: int) -> bool {
    0 <= i && i + pat.len() <= s.len() && s.subrange(i, i + pat.len()) == pat
}

pub fn match_at(s: &[char], pat: &[char], i: usize) -> (res: bool)
    ensures
        res == matches_at(s@, pat@, i as int),
{
    let n = s.len();
    let m = pat.len();
    if i > n || m > n - i {
        return false;
    }
    let mut k: usize = 0;
    while k < m
        invariant
            n == s@.len(),
            m == pat@.len(),
            i + m <= n,
            k <= pat@.len(),
            forall|j: int| 0 <= j < k ==> s@[i + j] == pat@[j],
        decreases m - k,
    {
        if s[i + k] != pat[k] {
            assert(s@.subrange(i as int, i + pat@.len())[k as int] != pat@[k as int]);
            return false;
        }
        k += 1;
    }
    assert(s@.subrange(i as int, i + pat@.len()) =~= pat@);
    true
}

/// `s` with every non-overlapping occurrence of the non-empty `pat`, scanned
/// from the left, replaced by `rep` (`str::replace`).
pub open spec fn replace_all(s: Seq<char>, pat: Seq<char>, rep: Seq<char>) -> Seq<char>
    decreases s.len(),
{
    if s.len() == 0 {
        Seq::empty()
    } else if pat.len() > 0 && starts_with(s, pat) {
        rep + replace_all(s.skip(pat.len() as int), pat, rep)
    } else {
        seq![s[0]] + replace_all(s.skip(1), pat, rep)
    }
}

/// `str::replace` for a non-empty pattern.
pub fn replace(s: &str, pat: &str, rep: &str) -> (res: String)
    requires
        pat@.len() > 0,
    ensures
        res@ == replace_all(s@, pat@, rep@),
{
    let v = chars_of(s);
    let p = chars_of(pat);
    let mut out = String::new();
    let mut i: usize = 0;
    assert(v@.skip(0) =~= v@);
    while i < v.len()
        invariant
            p@ == pat@,
            p@.len() > 0,
            i <= v@.len(),
            out@ + replace_all(v@.skip(i as int), p@, rep@) == replace_all(v@, p@, rep@),
        decreases v.len() - i,
    {
        let ghost rest = v@.skip(i as int);
        if match_at(v.as_slice(), p.as_slice(), i) {
            assert(rest.take(p@.len() as int) =~= v@.subrange(i as int, i + p@.len()));
            assert(rest.skip(p@.len() as int) =~= v@.skip(i + p@.len()));
            assert(out@ + rep@ + replace_all(rest.skip(p@.len() as int), p@, rep@) == out@ + (rep@
                + replace_all(rest.skip(p@.len() as int), p@, rep@)));
            push_str(&mut out, rep);
            i = i + p.len();
        } else {
            proof {
                if starts_with(rest, p@) {
                    assert(v@.subrange(i as int, i + p@.len()) =~= rest.take(p@.len() as int));
                }
            }
            assert(rest.skip(1) =~= v@.skip(i + 1));
            assert(out@.push(v@[i as int]) + replace_all(rest.skip(1), p@, rep@) =~= out@ + (seq![
                rest[0],
            ] + replace_all(rest.skip(1), p@, rep@)));
            push_char(&mut out, v[i]);
            i = i + 1;
        }
    }
    assert(v@.skip(i as int) =~= Seq::<char>::empty());
    out
}

/// Index of the first `sep` in `s`, if any.
pub open spec fn find_char(s: Seq<char>, sep: char) -> Option<int>
    decreases s.len(),
{
    if s.len() == 0 {
        None
    } else if s[0] == sep {
        Some(0)
    } else {
        match find_char(s.drop_first(), sep) {
            Some(k) => Some(k + 1),
            None => None,
        }
    }
}

/// The pieces of `s` between occurrences of `sep` (`str::split` on a char):
/// there is always at least one piece, possibly empty.
pub open spec fn split_on(s: Seq<char>, sep: char) -> Seq<Seq<char>>
    decreases s.len(),
{
    match find_char(s, sep) {
        Some(k) => if 0 <= k < s.len() {
            seq![s.take(k)] + split_on(s.skip(k + 1), sep)
        } else {
            seq![s]
        },
        None => seq![s],
    }
}

/// Where `sep` first occurs, given that it does not occur before `k`.
pub proof fn lemma_find_char(s: Seq<char>, sep: char, k: int)
    requires
        0 <= k <= s.len(),
        forall|j: int| 0 <= j < k ==> s[j] != sep,
    ensures
        k < s.len() && s[k] == sep ==> find_char(s, sep) == Some(k),
        k == s.len() ==> find_char(s, sep) is None,
    decreases k,
{
    if k > 0 {
        lemma_find_char(s.drop_first(), sep, k - 1);
    }
}

/// Splits `s` at every `sep`, as `str::split` does.
pub fn split_char(s: &str, sep: char) -> (res: Vec<String>)
    ensures
        res@.map_values(|t: String| t@) == split_on(s@, sep),
{
    let v = chars_of(s);
    let mut res: Vec<String> = Vec::new();
    let mut start: usize = 0;
    let mut i: usize = 0;
    assert(v@.skip(0) =~= v@);
    while i < v.len()
        invariant
            start <= i <= v@.len(),
            forall|j: int| start <= j < i ==> v@[j] != sep,
            res@.map_values(|t: String| t@) + split_on(v@.skip(start as int), sep) == split_on(
                v@,
                sep,
            ),
        decreases v.len() - i,
    {
        if v[i] == sep {
            let piece = substring(v.as_slice(), start, i);
            proof {
                let rest = v@.skip(start as int);
                assert forall|j: int| 0 <= j < i - start implies rest[j] != sep by {
                    assert(rest[j] == v@[start + j]);
                }
                lemma_find_char(rest, sep, i - start);
                assert(rest.take(i - start) =~= piece@);
                assert(rest.skip(i - start + 1) =~= v@.skip(i + 1));
                assert(res@.push(piece).map_values(|t: String| t@) =~= res@.map_values(
                    |t: String| t@,
                ).push(piece@));
            }
            res.push(piece);
            start = i + 1;
        }
        i += 1;
    }
    let piece = substring(v.as_slice(), start, v.len());
    proof {
        let rest = v@.skip(start as int);
        assert forall|j: int| 0 <= j < rest.len() implies rest[j] != sep by {
            assert(rest[j] == v@[start + j]);
        }
        lemma_find_char(rest, sep, rest.len() as int);
        assert(rest =~= piece@);
        assert(res@.push(piece).map_values(|t: String| t@) =~= res@.map_values(|t: String| t@).push(
            piece@,
        ));
    }
    res.push(piece);
    res
}

/// The decimal digit for `d < 10`.
pub open spec fn digit_char(d: nat) -> char {
    ((d + 48) as u8) as char
}

/// The decimal representation of `n`, as `to_string` prints an unsigned integer.
pub open spec fn decimal(n: nat) -> Seq<char>
    decreases n,
{
    if n < 10 {
        seq![digit_char(n)]
    } else {
        decimal(n / 10).push(digit_char(n % 10))
    }
}

/// Appends the decimal representation of `n`.
pub fn push_decimal(out: &mut String, n: u64)
    ensures
        final(out)@ == old(out)@ + decimal(n as nat),
    decreases n,
{
    if n >= 10 {
        push_decimal(out, n / 10);
    }
    let d: u8 = (n % 10) as u8;
    push_char(out, (d + 48) as char);
    assert(old(out)@ + decimal(n as nat) =~= old(out)@ + (if n >= 10 {
        decimal((n / 10) as nat)
    } else {
        Seq::empty()
    }).push(digit_char((n % 10) as nat)));
}

/// The lowercase hexadecimal digit for `d < 16`.
pub open spec fn hex_char(d: nat) -> char {
    if d < 10 {
        ((d + 48) as u8) as char
    } else {
        ((d + 87) as u8) as char
    }
}

/// The last `k` lowercase hexadecimal digits of `n`, zero-padded.
pub open spec fn hex_digits(n: nat, k: nat) -> Seq<char>
    decreases k,
{
    if k == 0 {
        Seq::empty()
    } else {
        hex_digits(n / 16, (k - 1) as nat).push(hex_char(n % 16))
    }
}

/// Appends the last `k` hexadecimal digits of `n`, zero-padded (as `{:0k$x}` does
/// when `n` has at most `k` digits).
pub fn push_hex(out: &mut String, n: u64, k: u32)
    ensures
        final(out)@ == old(out)@ + hex_digits(n as nat, k as nat),
    decreases k,
{
    if k == 0 {
        assert(old(out)@ + hex_digits(n as nat, 0) =~= old(out)@);
        return;
    }
    push_hex(out, n / 16, k - 1);
    let d: u8 = (n % 16) as u8;
    let c: char = if d < 10 { (d + 48) as char } else { (d + 87) as char };
    push_char(out, c);
    assert(old(out)@ + hex_digits(n as nat, k as nat) =~= old(out)@ + hex_digits(
        (n / 16) as nat,
        (k - 1) as nat,
    ) + seq![c]);
}

/// Whether `c` is an ASCII decimal digit.
pub open spec fn is_digit(c: char) -> bool {
    '0' <= c <= '9'
}

/// The value of a string of decimal digits.
pub open spec fn digits_value(s: Seq<char>) -> nat
    decreases s.len(),
{
    if s.len() == 0 {
        0
    } else {
        digits_value(s.drop_last()) * 10 + ((s.last() as u32) - 48) as nat
    }
}

/// `s` without one leading `+`.
pub open spec fn unsigned_digits(s: Seq<char>) -> Seq<char> {
    if s.len() > 0 && s[0] == '+' {
        s.drop_first()
    } else {
        s
    }
}

/// What `str::parse::<usize>` gives: an optional leading `+`, then at least one
/// decimal digit and nothing else, of a value that fits in `usize`.
pub open spec fn parse_usize_spec(s: Seq<char>) -> Option<nat> {
    let d = unsigned_digits(s);
    if d.len() == 0 || exists|i: int| 0 <= i < d.len() && !is_digit(#[trigger] d[i]) {
        None
    } else if digits_value(d) > usize::MAX {
        None
    } else {
        Some(digits_value(d))
    }
}

proof fn lemma_digits_value_grows(s: Seq<char>, i: int)
    requires
        0 <= i <= s.len(),
        forall|j: int| 0 <= j < s.len() ==> is_digit(#[trigger] s[j]),
    ensures
        digits_value(s.take(i)) <= digits_value(s),
    decreases s.len() - i,
{
    if i < s.len() {
        assert(s.drop_last().take(i) =~= s.take(i));
        lemma_digits_value_grows(s.drop_last(), i);
    } else {
        assert(s.take(i) =~= s);
    }
}

/// `str::parse::<usize>(s).ok()`.
pub fn parse_usize(s: &str) -> (res: Option<usize>)
    ensures
        match res {
            Some(n) => parse_usize_spec(s@) == Some(n as nat),
            None => parse_usize_spec(s@) is None,
        },
{
    let v = chars_of(s);
    let start: usize = if v.len() > 0 && v[0] == '+' {
        1
    } else {
        0
    };
    let ghost d = v@.skip(start as int);
    assert(d == unsigned_digits(s@));
    if start == v.len() {
        return None;
    }
    let mut i: usize = start;
    while i < v.len()
        invariant
            start <= i <= v@.len(),
            d == v@.skip(start as int),
            d == unsigned_digits(s@),
            forall|j: int| start <= j < i ==> is_digit(#[trigger] v@[j]),
        decreases v.len() - i,
    {
        if !('0' <= v[i] && v[i] <= '9') {
            assert(d[i - start] == v@[i as int]);
            assert(!is_digit(d[i - start]));
            return None;
        }
        i += 1;
    }
    assert forall|j: int| 0 <= j < d.len() implies is_digit(#[trigger] d[j]) by {
        assert(d[j] == v@[start + j]);
    }
    let mut acc: usize = 0;
    let mut k: usize = start;
    while k < v.len()
        invariant
            start <= k <= v@.len(),
            d == v@.skip(start as int),
            d == unsigned_digits(s@),
            forall|j: int| 0 <= j < d.len() ==> is_digit(#[trigger] d[j]),
            acc as nat == digits_value(d.take(k - start)),
        decreases v.len() - k,
    {
        assert(d[k - start] == v@[k as int]);
        assert(is_digit(d[k - start]));
        let dv: usize = ((v[k] as u32) - 48) as usize;
        let ghost t = d.take(k + 1 - start);
        assert(t.drop_last() =~= d.take(k - start));
        assert(t.last() == v@[k as int]);
        assert(digits_value(t) == acc * 10 + dv);
        if acc > (usize::MAX - dv) / 10 {
            proof {
                lemma_digits_value_grows(d, k + 1 - start);
                assert(acc * 10 + dv > usize::MAX) by (nonlinear_arith)
                    requires
                        acc > (usize::MAX - dv) / 10,
                        dv <= 9,
                ;
            }
            return None;
        }
        assert(acc * 10 + dv <= usize::MAX) by (nonlinear_arith)
            requires
                acc <= (usize::MAX - dv) / 10,
                dv <= 9,
        ;
        acc = acc * 10 + dv;
        k += 1;
    }
    assert(d.take(d.len() as int) =~= d);
    Some(acc)
}

} // verus!
