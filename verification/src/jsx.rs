//! The JSX/TSX expression tree that the transform reads.
//!
//! It holds, as plain values, exactly the parts of a parsed TSX expression that
//! rendering depends on; everything else is collapsed into `Other`.

use vstd::prelude::*;

verus! {

/// A binary operator, as far as rendering tells them apart.
#[derive(Debug)]
pub enum BinaryOp {
    /// `&&`
    LogicalAnd,
    /// Any other binary operator.
    Other,
}

/// A unary operator, as far as rendering tells them apart.
#[derive(Debug)]
pub enum UnaryOp {
    /// `-`
    Minus,
    /// Any other unary operator (`+`, `!`, `typeof`, ...).
    Other,
}

/// One literal piece of a template literal.
#[derive(Debug)]
pub struct TplQuasi {
    /// The text as written.
    pub raw: String,
    /// The text with escapes interpreted; `None` for a malformed escape.
    pub cooked: Option<String>,
}

/// An expression.
#[derive(Debug)]
pub enum JsxExpr {
    /// `(e)`
    Paren(Box<JsxExpr>),
    /// `test ? cons : alt`
    Cond { test: Box<JsxExpr>, cons: Box<JsxExpr>, alt: Box<JsxExpr> },
    /// `left op right`
    Bin { op: BinaryOp, left: Box<JsxExpr>, right: Box<JsxExpr> },
    /// `op arg`
    Unary { op: UnaryOp, arg: Box<JsxExpr> },
    /// A string literal, by its value.
    Str(String),
    /// A numeric literal, by the decimal text of its value (`1.5`, `24`).
    Num(String),
    /// A boolean literal.
    Bool(bool),
    /// A template literal: its literal pieces and its interpolated expressions.
    Tpl { quasis: Vec<TplQuasi>, exprs: Vec<JsxExpr> },
    /// `<name ...>...</name>` or `<name .../>`
    Element(Box<JsxElement>),
    /// `<>...</>`
    Fragment(Vec<JsxChild>),
    /// Anything else (identifiers, member access, calls, ...).
    Other,
}

/// The tag of a JSX element.
#[derive(Debug)]
pub enum JsxElementName {
    /// `svg`, `Icon`
    Ident(String),
    /// `ns:name`
    Namespaced { ns: String, name: String },
    /// `Ns.Icon`
    Member,
}

/// A JSX element.
#[derive(Debug)]
pub struct JsxElement {
    pub name: JsxElementName,
    pub attrs: Vec<JsxAttrOrSpread>,
    pub children: Vec<JsxChild>,
}

/// An entry of an opening tag.
#[derive(Debug)]
pub enum JsxAttrOrSpread {
    /// `name=value` or `name`
    Attr(JsxAttr),
    /// `{...props}`
    Spread,
}

/// A JSX attribute.
#[derive(Debug)]
pub struct JsxAttr {
    pub name: JsxAttrName,
    /// `None` for a bare boolean attribute.
    pub value: Option<JsxAttrValue>,
}

/// The name of a JSX attribute.
#[derive(Debug)]
pub enum JsxAttrName {
    /// `strokeWidth`
    Ident(String),
    /// `xlink:href`
    Namespaced { ns: String, name: String },
}

/// The value of a JSX attribute.
#[derive(Debug)]
pub enum JsxAttrValue {
    /// `"text"`, by its value.
    Str(String),
    /// `{...}`
    Container(JsxContainer),
    /// `<x/>`
    Element,
    /// `<>...</>`
    Fragment,
}

/// The inside of `{...}`.
#[derive(Debug)]
pub enum JsxContainer {
    /// `{}` or `{/* comment */}`
    Empty,
    /// `{e}`
    Expr(Box<JsxExpr>),
}

/// A child of a JSX element or fragment.
#[derive(Debug)]
pub enum JsxChild {
    /// Literal text, by its value.
    Text(String),
    Element(Box<JsxElement>),
    Fragment(Vec<JsxChild>),
    Container(JsxContainer),
    /// `{...children}`
    Spread,
}

} // verus!
