//! Static evaluation of JSX/TSX expressions.
//!
//! - [`narrow_branch`] picks the JSX (or value) that would render when conditions
//!   are treated as truthy: `(e)` to `e`, `c ? a : b` to `a`, `c && rhs` to `rhs`.
//! - [`resolve_attr_value`] reduces a JSX attribute expression to a static string,
//!   falling back by attribute name when unresolvable.

use vstd::prelude::*;

use crate::defaults::{fallback_for, spec_fallback_for};
use crate::jsx::{BinaryOp, JsxExpr, TplQuasi, UnaryOp};
use crate::text::push_str;

verus! {

/// `e` past parentheses, conditionals (to the consequent) and `&&` (to the
/// right-hand side).
pub open spec fn narrow(e: JsxExpr) -> JsxExpr
    decreases e,
{
    match e {
        JsxExpr::Paren(inner) => narrow(*inner),
        JsxExpr::Cond { cons, .. } => narrow(*cons),
        JsxExpr::Bin { op: BinaryOp::LogicalAnd, right, .. } => narrow(*right),
        _ => e,
    }
}

/// Narrowing never steps outside `e`.
pub proof fn lemma_narrow_within(e: JsxExpr)
    ensures
        narrow(e) == e || decreases_to!(e => narrow(e)),
    decreases e,
{
    match e {
        JsxExpr::Paren(inner) => lemma_narrow_within(*inner),
        JsxExpr::Cond { cons, .. } => lemma_narrow_within(*cons),
        JsxExpr::Bin { op: BinaryOp::LogicalAnd, right, .. } => lemma_narrow_within(*right),
        _ => {},
    }
}

/// Walks past parenthesisation and statically-decidable branches.
pub fn narrow_branch(expr: &JsxExpr) -> (res: &JsxExpr)
    ensures
        *res == narrow(*expr),
    decreases expr,
{
    match expr {
        JsxExpr::Paren(inner) => narrow_branch(inner),
        JsxExpr::Cond { cons, .. } => narrow_branch(cons),
        JsxExpr::Bin { op: BinaryOp::LogicalAnd, right, .. } => narrow_branch(right),
        _ => expr,
    }
}

/// The text of a template literal without interpolations: each piece cooked,
/// or as written where it has no cooked form.
pub open spec fn template_text(quasis: Seq<TplQuasi>) -> Seq<char>
    decreases quasis.len(),
{
    if quasis.len() == 0 {
        Seq::empty()
    } else {
        template_text(quasis.drop_last()) + match quasis.last().cooked {
            Some(c) => c@,
            None => quasis.last().raw@,
        }
    }
}

/// The static value of an attribute expression, or the fallback for `attr`.
pub open spec fn resolve(e: JsxExpr, attr: Seq<char>) -> Option<Seq<char>>
    decreases e,
{
    match narrow(e) {
        JsxExpr::Str(s) => Some(s@),
        JsxExpr::Num(t) => Some(t@),
        JsxExpr::Bool(b) => Some(
            if b {
                "true"@
            } else {
                "false"@
            },
        ),
        JsxExpr::Tpl { quasis, exprs } => if exprs@.len() == 0 {
            Some(template_text(quasis@))
        } else {
            spec_fallback_for(attr)
        },
        JsxExpr::Unary { op: UnaryOp::Minus, arg } => {
            proof {
                lemma_narrow_within(e);
            }
            match resolve(*arg, attr) {
                Some(s) => Some(seq!['-'] + s),
                None => None,
            }
        },
        _ => spec_fallback_for(attr),
    }
}

/// A literal resolves to its own text, whatever the attribute: a string to its
/// value, a number to its decimal text, `true` to `true` and `false` to `false`,
/// so the two booleans never resolve alike.
pub proof fn lemma_literals_resolve_to_their_text(b: bool, t: String, attr: Seq<char>)
    ensures
        resolve(JsxExpr::Bool(b), attr) == Some(
            if b {
                "true"@
            } else {
                "false"@
            },
        ),
        resolve(JsxExpr::Bool(true), attr) != resolve(JsxExpr::Bool(false), attr),
        resolve(JsxExpr::Str(t), attr) == Some(t@),
        resolve(JsxExpr::Num(t), attr) == Some(t@),
{
    reveal_strlit("true");
    reveal_strlit("false");
    assert("true"@.len() != "false"@.len());
}

fn template_string(quasis: &Vec<TplQuasi>) -> (res: String)
    ensures
        res@ == template_text(quasis@),
{
    let mut out = String::new();
    let mut i: usize = 0;
    while i < quasis.len()
        invariant
            i <= quasis@.len(),
            out@ == template_text(quasis@.take(i as int)),
        decreases quasis.len() - i,
    {
        assert(quasis@.take(i + 1).drop_last() =~= quasis@.take(i as int));
        match &quasis[i].cooked {
            Some(c) => push_str(&mut out, c.as_str()),
            None => push_str(&mut out, quasis[i].raw.as_str()),
        }
        i += 1;
    }
    assert(quasis@.take(quasis@.len() as int) =~= quasis@);
    out
}

/// Resolves a JSX attribute expression to a static string value, falling back
/// by attribute name (camelCase) when the expression is unresolvable.
pub fn resolve_attr_value(e: &JsxExpr, attr_camel: &str) -> (res: Option<String>)
    ensures
        match res {
            Some(v) => resolve(*e, attr_camel@) == Some(v@),
            None => resolve(*e, attr_camel@) is None,
        },
    decreases e,
{
    let n = narrow_branch(e);
    proof {
        lemma_narrow_within(*e);
    }
    match n {
        JsxExpr::Str(s) => Some(s.clone()),
        JsxExpr::Num(t) => Some(t.clone()),
        JsxExpr::Bool(b) => {
            if *b {
                Some(String::from_str("true"))
            } else {
                Some(String::from_str("false"))
            }
        },
        JsxExpr::Tpl { quasis, exprs } => {
            if exprs.len() == 0 {
                Some(template_string(quasis))
            } else {
                match fallback_for(attr_camel) {
                    Some(v) => Some(v.to_owned()),
                    None => None,
                }
            }
        },
        JsxExpr::Unary { op: UnaryOp::Minus, arg } => {
            match resolve_attr_value(arg, attr_camel) {
                Some(s) => {
                    let mut out = String::from_str("-");
                    push_str(&mut out, s.as_str());
                    proof {
                        reveal_strlit("-");
                        assert("-"@ =~= seq!['-']);
                    }
                    Some(out)
                },
                None => None,
            }
        },
        _ => {
            match fallback_for(attr_camel) {
                Some(v) => Some(v.to_owned()),
                None => None,
            }
        },
    }
}

} // verus!
