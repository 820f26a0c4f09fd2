//! The JSX-expression to SVG-document pipeline, and the name the document is
//! saved under.

use vstd::prelude::*;
use vstd::utf8::encode_utf8;

use crate::jsx::JsxExpr;
use crate::serialize::{to_xml, xml};
use crate::text::{hex_digits, push_hex, push_str};
use crate::transform::{strings_view, to_svg, transform, NO_JSX_ERROR};

verus! {

/// A rendered SVG document. `xml` is a stand-alone SVG document; `warnings`
/// are non-fatal advisories for the user.
pub struct RenderedSvg {
    pub xml: String,
    pub warnings: Vec<String>,
}

/// The document an expression renders to, and its warnings; `None` when the
/// expression holds no JSX.
pub open spec fn rendered(e: JsxExpr) -> Option<(Seq<char>, Seq<Seq<char>>)> {
    match transform(e) {
        Some((root, warnings)) => Some((xml(root), warnings)),
        None => None,
    }
}

/// Renders a parsed JSX expression into stand-alone SVG XML.
///
/// Errors when the expression contains no JSX elements at all (e.g. a bare
/// numeric literal).
pub fn render(expr: &JsxExpr) -> (res: Result<RenderedSvg, String>)
    ensures
        match res {
            Ok(r) => rendered(*expr) == Some((r.xml@, strings_view(r.warnings@))),
            Err(m) => rendered(*expr) is None && m@ == NO_JSX_ERROR@,
        },
{
    let result = to_svg(expr)?;
    let xml = to_xml(&result.root);
    Ok(RenderedSvg { xml, warnings: result.warnings })
}

/// The XXH64 hash (seed `seed`) of `data`.
pub uninterp spec fn xxh64(seed: u64, data: Seq<u8>) -> u64;

/// `twox_hash::XxHash64::oneshot`: the XXH64 hash of `data` with `seed`, a
/// function of its two arguments alone.
#[verifier::external_body]
fn xxhash64(seed: u64, data: &[u8]) -> (h: u64)
    ensures
        h == xxh64(seed, data@),
{
    twox_hash::XxHash64::oneshot(seed, data)
}

/// The file name a preview of `source` is saved under: the XXH64 hash (seed 0)
/// of its UTF-8 bytes as 16 lower-case hexadecimal digits, then `.svg`.
pub open spec fn preview_name(source: Seq<char>) -> Seq<char> {
    hex_digits(xxh64(0, encode_utf8(source)) as nat, 16) + ".svg"@
}

/// The file name for a hash: its 16 lower-case hexadecimal digits, then `.svg`.
pub fn hash_file_name(h: u64) -> (res: String)
    ensures
        res@ == hex_digits(h as nat, 16) + ".svg"@,
{
    let mut name = String::new();
    push_hex(&mut name, h, 16);
    push_str(&mut name, ".svg");
    name
}

/// The file name a preview of `source` is saved under.
pub fn preview_file_name(source: &str) -> (res: String)
    ensures
        res@ == preview_name(source@),
{
    hash_file_name(xxhash64(0, source.as_bytes()))
}

/// A lower-case hexadecimal digit.
pub open spec fn is_lower_hex(c: char) -> bool {
    ('0' <= c && c <= '9') || ('a' <= c && c <= 'f')
}

proof fn lemma_hex_digits_shape(n: nat, k: nat)
    ensures
        hex_digits(n, k).len() == k,
        forall|i: int| 0 <= i < k ==> is_lower_hex(#[trigger] hex_digits(n, k)[i]),
    decreases k,
{
    if k > 0 {
        lemma_hex_digits_shape(n / 16, (k - 1) as nat);
        let d = n % 16;
        let c = crate::text::hex_char(d);
        assert(is_lower_hex(c));
        let p = hex_digits(n / 16, (k - 1) as nat);
        assert forall|i: int| 0 <= i < k implies is_lower_hex(#[trigger] hex_digits(n, k)[i]) by {
            if i < k - 1 {
                assert(hex_digits(n, k)[i] == p[i]);
            }
        }
    }
}

/// Every preview is saved as 16 lower-case hexadecimal digits followed by
/// `.svg`, whatever the source.
pub proof fn lemma_preview_name_shape(source: Seq<char>)
    ensures
        preview_name(source).len() == 20,
        forall|i: int| 0 <= i < 16 ==> is_lower_hex(#[trigger] preview_name(source)[i]),
        preview_name(source).skip(16) == ".svg"@,
{
    reveal_strlit(".svg");
    let h = hex_digits(xxh64(0, encode_utf8(source)) as nat, 16);
    lemma_hex_digits_shape(xxh64(0, encode_utf8(source)) as nat, 16);
    assert(preview_name(source).skip(16) =~= ".svg"@);
    assert forall|i: int| 0 <= i < 16 implies is_lower_hex(#[trigger] preview_name(source)[i]) by {
        assert(preview_name(source)[i] == h[i]);
    }
}

} // verus!
