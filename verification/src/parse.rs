//! Parsing a TSX fragment as one expression, with swc, into the library's
//! [`JsxExpr`].
//!
//! The parse itself is swc's: the library names its result and states how a
//! failure is reported. The functions that carry swc's tree over into `JsxExpr`
//! move fields one for one and tell swc's variants apart, nothing more. String
//! values come over through swc's `to_atom_lossy` (an unpaired surrogate escape
//! becomes U+FFFD), numbers by the `Display` text of their value.

use vstd::prelude::*;

use swc_common::{sync::Lrc, FileName, SourceMap, Spanned};
use swc_ecma_ast::{
    BinaryOp as SwcBinaryOp, EsVersion, Expr, JSXAttrName, JSXAttrOrSpread, JSXAttrValue,
    JSXElement, JSXElementChild, JSXElementName, JSXExpr, Lit, UnaryOp as SwcUnaryOp,
};
use swc_ecma_parser::{parse_file_as_expr, parse_file_as_module, Syntax, TsSyntax};
use swc_ecma_visit::{Visit, VisitWith};

use crate::expand_selection::ElementSpan;

use crate::jsx::{
    BinaryOp, JsxAttr, JsxAttrName, JsxAttrOrSpread, JsxAttrValue, JsxChild, JsxContainer,
    JsxElement, JsxElementName, JsxExpr, TplQuasi, UnaryOp,
};

verus! {

/// swc's expression tree, carried through opaquely.
#[verifier::external_type_specification]
#[verifier::external_body]
pub struct SwcExpr(swc_ecma_ast::Expr);

/// swc's JSX element.
#[verifier::external_type_specification]
#[verifier::external_body]
pub struct SwcJsxElement(swc_ecma_ast::JSXElement);

/// swc's entry of an opening tag.
#[verifier::external_type_specification]
#[verifier::external_body]
pub struct SwcJsxAttrOrSpread(swc_ecma_ast::JSXAttrOrSpread);

/// swc's JSX attribute value.
#[verifier::external_type_specification]
#[verifier::external_body]
pub struct SwcJsxAttrValue(swc_ecma_ast::JSXAttrValue);

/// swc's inside of a `{...}` container.
#[verifier::external_type_specification]
#[verifier::external_body]
pub struct SwcJsxExpr(swc_ecma_ast::JSXExpr);

/// swc's child of a JSX element or fragment.
#[verifier::external_type_specification]
#[verifier::external_body]
pub struct SwcJsxElementChild(swc_ecma_ast::JSXElementChild);

/// What swc's `parse_file_as_expr` makes of `input` as TSX (JSX on, decorators
/// off, early errors off, latest ECMAScript): the expression it reads, carried
/// over into a [`JsxExpr`], or the `Debug` text of the kind of its error.
pub uninterp spec fn tsx_expression(input: Seq<char>) -> Result<JsxExpr, Seq<char>>;

/// `swc_ecma_parser::parse_file_as_expr` on `input`, in a source map of its own.
/// Claims only that the result is [`tsx_expression`] of the input: the same text
/// always parses the same way. The tree is carried over by the `lower_*`
/// functions below; an error comes back as the `Debug` text of its kind. The
/// contract leaves out whether swc can panic on some input: its documentation
/// says nothing of it (deep nesting grows the stack rather than overflowing it).
#[verifier::external_body]
fn parse_tsx_expression(input: &str) -> (res: Result<JsxExpr, String>)
    ensures
        match res {
            Ok(e) => tsx_expression(input@) == Ok::<JsxExpr, Seq<char>>(e),
            Err(m) => tsx_expression(input@) == Err::<JsxExpr, Seq<char>>(m@),
        },
{
    let cm: Lrc<SourceMap> = Lrc::default();
    let fm = cm.new_source_file(FileName::Custom("input.tsx".into()).into(), input.to_string());
    let syntax = Syntax::Typescript(TsSyntax {
        tsx: true, decorators: false, dts: false, no_early_errors: true,
        disallow_ambiguous_jsx_like: false, ..Default::default()
    });
    match parse_file_as_expr(&fm, syntax, EsVersion::EsNext, None, &mut Vec::new()) {
        Ok(e) => Ok(lower_expr(&e)),
        Err(e) => Err(format!("{:?}", e.kind())),
    }
}

/// `JSX parse error: KIND`
pub open spec fn parse_error_message(kind: Seq<char>) -> Seq<char> {
    "JSX parse error: "@ + kind
}

/// What a parse outcome is reported as: the expression itself, or the error
/// `JSX parse error: KIND` for the `Debug` text of the error's kind.
pub fn parse_outcome(parsed: Result<JsxExpr, String>) -> (res: Result<JsxExpr, String>)
    ensures
        match parsed {
            Ok(e) => res == Ok::<JsxExpr, String>(e),
            Err(kind) => res matches Err(m) && m@ == parse_error_message(kind@),
        },
{
    match parsed {
        Ok(e) => Ok(e),
        Err(kind) => {
            let mut m = "JSX parse error: ".to_owned();
            crate::text::push_str(&mut m, kind.as_str());
            Err(m)
        },
    }
}

/// Parses a TSX fragment as a single expression: `<svg>…</svg>`, `<>…</>`,
/// `(…)`, anything that is valid as an expression. The error names the kind of
/// swc's parse error.
pub fn parse_jsx(input: &str) -> (res: Result<JsxExpr, String>)
    ensures
        match tsx_expression(input@) {
            Ok(e) => res == Ok::<JsxExpr, String>(e),
            Err(kind) => res matches Err(m) && m@ == parse_error_message(kind),
        },
{
    parse_outcome(parse_tsx_expression(input))
}

/// Carries an swc expression over: parentheses, conditionals and operators here,
/// the rest in [`lower_leaf`].
#[verifier::external_body]
fn lower_expr(e: &Expr) -> JsxExpr {
    match e {
        Expr::Paren(p) => JsxExpr::Paren(lowered(&p.expr)),
        Expr::Cond(c) => JsxExpr::Cond { test: lowered(&c.test), cons: lowered(&c.cons), alt: lowered(&c.alt) },
        Expr::Bin(b) => JsxExpr::Bin {
            op: match b.op { SwcBinaryOp::LogicalAnd => BinaryOp::LogicalAnd, _ => BinaryOp::Other },
            left: lowered(&b.left), right: lowered(&b.right),
        },
        Expr::Unary(u) => JsxExpr::Unary {
            op: match u.op { SwcUnaryOp::Minus => UnaryOp::Minus, _ => UnaryOp::Other },
            arg: lowered(&u.arg),
        },
        _ => lower_leaf(e),
    }
}

/// [`lower_expr`], boxed.
#[verifier::external_body]
fn lowered(e: &Expr) -> Box<JsxExpr> {
    Box::new(lower_expr(e))
}

/// Carries literals and template literals over; JSX in [`lower_jsx`].
#[verifier::external_body]
fn lower_leaf(e: &Expr) -> JsxExpr {
    match e {
        Expr::Lit(Lit::Str(s)) => JsxExpr::Str(s.value.to_atom_lossy().to_string()),
        // A numeric literal by its value's `Display` text, which has no `.0` on integers.
        Expr::Lit(Lit::Num(n)) => JsxExpr::Num(n.value.to_string()),
        Expr::Lit(Lit::Bool(b)) => JsxExpr::Bool(b.value),
        Expr::Tpl(t) => JsxExpr::Tpl {
            quasis: t.quasis.iter().map(|q| TplQuasi {
                raw: q.raw.to_string(), cooked: q.cooked.as_ref().map(|c| c.to_atom_lossy().to_string()),
            }).collect(),
            exprs: t.exprs.iter().map(|x| lower_expr(x)).collect(),
        },
        _ => lower_jsx(e),
    }
}

/// Carries JSX elements and fragments over; any other expression is `Other`.
#[verifier::external_body]
fn lower_jsx(e: &Expr) -> JsxExpr {
    match e {
        Expr::JSXElement(el) => JsxExpr::Element(Box::new(lower_element(el))),
        Expr::JSXFragment(f) => JsxExpr::Fragment(lower_children(&f.children)),
        _ => JsxExpr::Other,
    }
}

/// Carries a JSX element over: its tag, its attributes and its children.
#[verifier::external_body]
fn lower_element(el: &JSXElement) -> JsxElement {
    let name = match &el.opening.name {
        JSXElementName::Ident(id) => JsxElementName::Ident(id.sym.to_string()),
        JSXElementName::JSXNamespacedName(n) => JsxElementName::Namespaced {
            ns: n.ns.sym.to_string(), name: n.name.sym.to_string(),
        },
        JSXElementName::JSXMemberExpr(_) => JsxElementName::Member,
    };
    let attrs = el.opening.attrs.iter().map(|a| lower_attr(a)).collect();
    JsxElement { name, attrs, children: lower_children(&el.children) }
}

/// Carries an entry of an opening tag over.
#[verifier::external_body]
fn lower_attr(a: &JSXAttrOrSpread) -> JsxAttrOrSpread {
    match a {
        JSXAttrOrSpread::JSXAttr(attr) => JsxAttrOrSpread::Attr(JsxAttr {
            name: match &attr.name {
                JSXAttrName::Ident(id) => JsxAttrName::Ident(id.sym.to_string()),
                JSXAttrName::JSXNamespacedName(n) => JsxAttrName::Namespaced {
                    ns: n.ns.sym.to_string(), name: n.name.sym.to_string(),
                },
            },
            value: attr.value.as_ref().map(|v| lower_attr_value(v)),
        }),
        JSXAttrOrSpread::SpreadElement(_) => JsxAttrOrSpread::Spread,
    }
}

/// Carries an attribute's value over.
#[verifier::external_body]
fn lower_attr_value(v: &JSXAttrValue) -> JsxAttrValue {
    match v {
        JSXAttrValue::Str(s) => JsxAttrValue::Str(s.value.to_atom_lossy().to_string()),
        JSXAttrValue::JSXExprContainer(c) => JsxAttrValue::Container(lower_container(&c.expr)),
        JSXAttrValue::JSXElement(_) => JsxAttrValue::Element,
        JSXAttrValue::JSXFragment(_) => JsxAttrValue::Fragment,
    }
}

/// Carries the inside of a `{...}` container over.
#[verifier::external_body]
fn lower_container(e: &JSXExpr) -> JsxContainer {
    match e {
        JSXExpr::JSXEmptyExpr(_) => JsxContainer::Empty,
        JSXExpr::Expr(x) => JsxContainer::Expr(lowered(x)),
    }
}

/// Carries the children of an element or fragment over, in order.
#[verifier::external_body]
fn lower_children(children: &Vec<JSXElementChild>) -> Vec<JsxChild> {
    children.iter().map(|c| lower_child(c)).collect()
}

/// Carries one child over.
#[verifier::external_body]
fn lower_child(c: &JSXElementChild) -> JsxChild {
    match c {
        JSXElementChild::JSXText(t) => JsxChild::Text(t.value.to_atom_lossy().to_string()),
        JSXElementChild::JSXElement(el) => JsxChild::Element(Box::new(lower_element(el))),
        JSXElementChild::JSXFragment(f) => JsxChild::Fragment(lower_children(&f.children)),
        JSXElementChild::JSXExprContainer(c) => JsxChild::Container(lower_container(&c.expr)),
        JSXElementChild::JSXSpreadChild(_) => JsxChild::Spread,
    }
}

/// What swc's `parse_file_as_module` makes of `source` as TSX (the same
/// settings as for an expression), with the module's JSX elements listed in
/// pre-order: swc's position of the file's first byte, and each element's span
/// in swc's positions with its tag when the tag is a plain identifier; or the
/// `Debug` text of the kind of its error.
pub uninterp spec fn tsx_module_elements(source: Seq<char>) -> Result<(usize, Seq<ElementSpan>), Seq<char>>;

/// Gathers the JSX elements of a module, as swc's visitor meets them.
pub struct SpanCollector {
    pub spans: Vec<ElementSpan>,
}

impl Visit for SpanCollector {
    /// Records the element's span (in swc's positions) and its identifier tag,
    /// then visits its children.
    #[verifier::external_body]
    fn visit_jsx_element(&mut self, el: &JSXElement) {
        let ident = match &el.opening.name {
            JSXElementName::Ident(id) => Some(id.sym.to_string()),
            _ => None,
        };
        let span = el.span();
        self.spans.push(ElementSpan { lo: span.lo.0 as usize, hi: span.hi.0 as usize, ident });
        el.visit_children_with(self);
    }
}

/// `swc_ecma_parser::parse_file_as_module` on `source`, in a source map of its
/// own, and a walk over the module with [`SpanCollector`]. Claims only that the
/// result is [`tsx_module_elements`] of the source: the same text always gives
/// the same elements at the same positions.
#[verifier::external_body]
pub(crate) fn module_elements(source: &str) -> (res: Result<(usize, Vec<ElementSpan>), String>)
    ensures
        match res {
            Ok((start, spans)) => tsx_module_elements(source@) == Ok::<
                (usize, Seq<ElementSpan>),
                Seq<char>,
            >((start, spans@)),
            Err(m) => tsx_module_elements(source@) == Err::<(usize, Seq<ElementSpan>), Seq<char>>(m@),
        },
{
    let cm: Lrc<SourceMap> = Lrc::default();
    let fm = cm.new_source_file(FileName::Custom("input.tsx".into()).into(), source.to_string());
    let syntax = Syntax::Typescript(TsSyntax {
        tsx: true, decorators: false, dts: false, no_early_errors: true,
        disallow_ambiguous_jsx_like: false, ..Default::default()
    });
    match parse_file_as_module(&fm, syntax, EsVersion::EsNext, None, &mut Vec::new()) {
        Ok(module) => {
            let mut collector = SpanCollector { spans: Vec::new() };
            module.visit_with(&mut collector);
            Ok((fm.start_pos.0 as usize, collector.spans))
        },
        Err(e) => Err(format!("{:?}", e.kind())),
    }
}

} // verus!
