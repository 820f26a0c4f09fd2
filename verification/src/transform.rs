//! Lowers a JSX expression into an SVG element tree.

use vstd::prelude::*;

use crate::attr_map::{attr_action, map_attr, AttrAction, AttrActionView};
use crate::defaults::{FILL, SIZE, VIEW_BOX, XMLNS, XMLNS_XLINK};
use crate::jsx::{
    JsxAttr, JsxAttrName, JsxAttrOrSpread, JsxAttrValue, JsxChild, JsxContainer, JsxElement,
    JsxElementName, JsxExpr,
};
use crate::static_eval::{lemma_narrow_within, narrow, narrow_branch, resolve, resolve_attr_value};
use crate::text::{chars_of, push_str, starts_with, str_eq, trim, trim_bounds, substring};

verus! {

broadcast use vstd::std_specs::vec::axiom_vec_decreases_to_view;

/// An SVG element tree node.
pub enum SvgNode {
    Element { name: String, attrs: Vec<(String, String)>, children: Vec<SvgNode> },
    Text(String),
    Comment(String),
}

/// An SVG element tree with its strings taken as character sequences.
pub enum XmlNode {
    Element {
        name: Seq<char>,
        attrs: Seq<(Seq<char>, Seq<char>)>,
        children: Seq<XmlNode>,
    },
    Text(Seq<char>),
    Comment(Seq<char>),
}

/// Attribute pairs taken as character sequences.
pub open spec fn pairs_view(a: Seq<(String, String)>) -> Seq<(Seq<char>, Seq<char>)> {
    a.map_values(|p: (String, String)| (p.0@, p.1@))
}

/// Strings taken as character sequences.
pub open spec fn strings_view(a: Seq<String>) -> Seq<Seq<char>> {
    a.map_values(|s: String| s@)
}

pub open spec fn node_view(n: SvgNode) -> XmlNode
    decreases n,
{
    match n {
        SvgNode::Element { name, attrs, children } => XmlNode::Element {
            name: name@,
            attrs: pairs_view(attrs@),
            children: nodes_view(children@),
        },
        SvgNode::Text(t) => XmlNode::Text(t@),
        SvgNode::Comment(c) => XmlNode::Comment(c@),
    }
}

pub open spec fn nodes_view(s: Seq<SvgNode>) -> Seq<XmlNode>
    decreases s,
{
    if s.len() == 0 {
        Seq::empty()
    } else {
        nodes_view(s.drop_last()).push(node_view(s.last()))
    }
}

impl View for SvgNode {
    type V = XmlNode;

    open spec fn view(&self) -> XmlNode {
        node_view(*self)
    }
}

pub proof fn lemma_nodes_view_len(s: Seq<SvgNode>)
    ensures
        nodes_view(s).len() == s.len(),
        forall|i: int| 0 <= i < s.len() ==> #[trigger] nodes_view(s)[i] == node_view(s[i]),
    decreases s.len(),
{
    if s.len() > 0 {
        lemma_nodes_view_len(s.drop_last());
    }
}

pub proof fn lemma_nodes_view_append(a: Seq<SvgNode>, b: Seq<SvgNode>)
    ensures
        nodes_view(a + b) == nodes_view(a) + nodes_view(b),
    decreases b.len(),
{
    if b.len() == 0 {
        assert(a + b =~= a);
        assert(nodes_view(a) + nodes_view(b) =~= nodes_view(a));
    } else {
        assert((a + b).drop_last() =~= a + b.drop_last());
        lemma_nodes_view_append(a, b.drop_last());
        assert(nodes_view(a + b) =~= nodes_view(a) + nodes_view(b));
    }
}

/// The result of lowering a JSX expression.
pub struct TransformResult {
    pub root: SvgNode,
    pub warnings: Vec<String>,
}

/// What the lowering has gathered so far: warnings, in order, and whether an
/// `xlink:` attribute was emitted.
pub struct WalkState {
    pub warnings: Seq<Seq<char>>,
    pub has_xlink: bool,
}

pub open spec fn start_state() -> WalkState {
    WalkState { warnings: Seq::empty(), has_xlink: false }
}

pub open spec fn warn(st: WalkState, m: Seq<char>) -> WalkState {
    WalkState { warnings: st.warnings.push(m), has_xlink: st.has_xlink }
}

/// The dashed square that stands for a component that cannot be resolved.
pub open spec fn placeholder_node() -> XmlNode {
    XmlNode::Element {
        name: "rect"@,
        attrs: seq![
            ("width"@, "24"@),
            ("height"@, "24"@),
            ("fill"@, "none"@),
            ("stroke"@, "currentColor"@),
            ("stroke-dasharray"@, "2 2"@),
        ],
        children: Seq::empty(),
    }
}

/// The tag name an element renders under; `None` for a member expression.
pub open spec fn element_tag(n: JsxElementName) -> Option<Seq<char>> {
    match n {
        JsxElementName::Ident(s) => Some(s@),
        JsxElementName::Namespaced { ns, name } => Some(ns@ + seq![':'] + name@),
        JsxElementName::Member => None,
    }
}

/// The attribute name as written in JSX.
pub open spec fn attr_raw_name(n: JsxAttrName) -> Seq<char> {
    match n {
        JsxAttrName::Ident(s) => s@,
        JsxAttrName::Namespaced { ns, name } => ns@ + seq![':'] + name@,
    }
}

/// A tag name that starts with an ASCII lower-case letter (an intrinsic element).
pub open spec fn is_intrinsic_tag(s: Seq<char>) -> bool {
    s.len() > 0 && 'a' <= s[0] <= 'z'
}

/// The static value of an attribute, by the attribute name as written.
pub open spec fn attr_value(v: Option<JsxAttrValue>, raw: Seq<char>) -> Option<Seq<char>> {
    match v {
        Some(JsxAttrValue::Str(s)) => Some(s@),
        Some(JsxAttrValue::Container(JsxContainer::Expr(e))) => resolve(*e, raw),
        _ => None,
    }
}

/// The `(name, value)` an attribute renders as, if any.
pub open spec fn attr_out(a: JsxAttr, st: WalkState) -> (Option<(Seq<char>, Seq<char>)>, WalkState) {
    let raw = attr_raw_name(a.name);
    match attr_action(raw) {
        AttrActionView::Drop => (None, st),
        AttrActionView::DropWarn(m) => (None, warn(st, m)),
        AttrActionView::Use(target) => match attr_value(a.value, raw) {
            Some(v) => (Some((target, v)), st),
            None => (None, st),
        },
    }
}

/// The attributes an opening tag renders as, in order.
pub open spec fn attrs_out(s: Seq<JsxAttrOrSpread>, st: WalkState) -> (
    Seq<(Seq<char>, Seq<char>)>,
    WalkState,
)
    decreases s.len(),
{
    if s.len() == 0 {
        (Seq::empty(), st)
    } else {
        let (a, st1) = attrs_out(s.drop_last(), st);
        match s.last() {
            JsxAttrOrSpread::Spread => (a, st1),
            JsxAttrOrSpread::Attr(at) => {
                let (r, st2) = attr_out(at, st1);
                match r {
                    Some((k, v)) => (
                        a.push((k, v)),
                        WalkState {
                            warnings: st2.warnings,
                            has_xlink: st2.has_xlink || starts_with(k, "xlink:"@),
                        },
                    ),
                    None => (a, st2),
                }
            },
        }
    }
}

/// The node an element renders as.
pub open spec fn element_out(el: JsxElement, st: WalkState) -> (XmlNode, WalkState)
    decreases el,
{
    match element_tag(el.name) {
        None => (placeholder_node(), warn(st, "JSX member expression rendered as placeholder"@)),
        Some(name) => if !is_intrinsic_tag(name) {
            (
                placeholder_node(),
                warn(st, "unresolved <"@ + name + "/> rendered as placeholder"@),
            )
        } else {
            let (attrs, st1) = attrs_out(el.attrs@, st);
            let (children, st2) = children_out(el.children@, st1);
            (XmlNode::Element { name, attrs, children }, st2)
        },
    }
}

/// The nodes a list of children renders as, in order.
pub open spec fn children_out(s: Seq<JsxChild>, st: WalkState) -> (Seq<XmlNode>, WalkState)
    decreases s,
{
    if s.len() == 0 {
        (Seq::empty(), st)
    } else {
        let (a, st1) = children_out(s.drop_last(), st);
        let (b, st2) = child_out(s.last(), st1);
        (a + b, st2)
    }
}

/// The nodes one child renders as.
pub open spec fn child_out(c: JsxChild, st: WalkState) -> (Seq<XmlNode>, WalkState)
    decreases c,
{
    match c {
        JsxChild::Text(t) => if trim(t@).len() == 0 {
            (Seq::empty(), st)
        } else {
            (seq![XmlNode::Text(trim(t@))], st)
        },
        JsxChild::Element(el) => {
            let (n, st1) = element_out(*el, st);
            (seq![n], st1)
        },
        JsxChild::Fragment(cs) => children_out(cs@, st),
        JsxChild::Container(JsxContainer::Expr(e)) => expr_out(*e, st),
        _ => (Seq::empty(), st),
    }
}

/// The nodes an expression renders as: the JSX its narrowing reaches, if any.
pub open spec fn expr_out(e: JsxExpr, st: WalkState) -> (Seq<XmlNode>, WalkState)
    decreases e,
{
    match narrow(e) {
        JsxExpr::Element(el) => {
            proof {
                lemma_narrow_within(e);
            }
            let (n, st1) = element_out(*el, st);
            (seq![n], st1)
        },
        JsxExpr::Fragment(cs) => {
            proof {
                lemma_narrow_within(e);
            }
            children_out(cs@, st)
        },
        _ => (Seq::empty(), st),
    }
}

/// An attribute list with `key` added at the front unless some entry has it.
pub open spec fn with_attr(attrs: Seq<(Seq<char>, Seq<char>)>, key: Seq<char>, val: Seq<char>) -> Seq<
    (Seq<char>, Seq<char>),
> {
    if exists|i: int| 0 <= i < attrs.len() && #[trigger] attrs[i].0 == key {
        attrs
    } else {
        seq![(key, val)] + attrs
    }
}

/// The `<svg>` element that wraps content whose root is not a single `<svg>`.
pub open spec fn svg_wrapper(children: Seq<XmlNode>, has_xlink: bool) -> XmlNode {
    XmlNode::Element {
        name: "svg"@,
        attrs: seq![("xmlns"@, XMLNS@)] + (if has_xlink {
            seq![("xmlns:xlink"@, XMLNS_XLINK@)]
        } else {
            Seq::empty()
        }) + seq![
            ("viewBox"@, VIEW_BOX@),
            ("width"@, SIZE@),
            ("height"@, SIZE@),
            ("fill"@, FILL@),
        ],
        children,
    }
}

/// The document root for the rendered top-level nodes: a lone `<svg>` gets its
/// namespace declarations, anything else is wrapped in a default `<svg>`.
pub open spec fn document_for(nodes: Seq<XmlNode>, has_xlink: bool) -> XmlNode {
    if nodes.len() == 1 && nodes[0] is Element && nodes[0]->Element_name == "svg"@ {
        let attrs = with_attr(nodes[0]->Element_attrs, "xmlns"@, XMLNS@);
        XmlNode::Element {
            name: "svg"@,
            attrs: if has_xlink {
                with_attr(attrs, "xmlns:xlink"@, XMLNS_XLINK@)
            } else {
                attrs
            },
            children: nodes[0]->Element_children,
        }
    } else {
        svg_wrapper(nodes, has_xlink)
    }
}

/// The error when an expression holds no JSX.
pub const NO_JSX_ERROR: &'static str = "no JSX elements in input";

/// The document an expression renders as, with the warnings gathered on the
/// way; `None` when it holds no JSX element at all.
pub open spec fn transform(e: JsxExpr) -> Option<(XmlNode, Seq<Seq<char>>)> {
    let (nodes, st) = expr_out(e, start_state());
    if nodes.len() == 0 {
        None
    } else {
        Some((document_for(nodes, st.has_xlink), st.warnings))
    }
}

/// The state of a walk over a JSX tree: the warnings given so far, in order,
/// and whether an `xlink:` attribute was emitted.
pub struct Ctx {
    pub warnings: Vec<String>,
    pub has_xlink: bool,
}

/// A walk's state, with its warnings as character sequences.
pub open spec fn state_of(c: Ctx) -> WalkState {
    WalkState { warnings: strings_view(c.warnings@), has_xlink: c.has_xlink }
}

fn push_warning(ctx: &mut Ctx, w: String)
    ensures
        state_of(*final(ctx)) == warn(state_of(*old(ctx)), w@),
{
    ctx.warnings.push(w);
    assert(strings_view(ctx.warnings@) =~= strings_view(old(ctx).warnings@).push(w@));
}

fn lit(s: &str) -> (res: String)
    ensures
        res@ == s@,
{
    s.to_owned()
}

fn placeholder() -> (res: SvgNode)
    ensures
        res@ == placeholder_node(),
{
    let mut attrs: Vec<(String, String)> = Vec::new();
    attrs.push((lit("width"), lit("24")));
    attrs.push((lit("height"), lit("24")));
    attrs.push((lit("fill"), lit("none")));
    attrs.push((lit("stroke"), lit("currentColor")));
    attrs.push((lit("stroke-dasharray"), lit("2 2")));
    let children: Vec<SvgNode> = Vec::new();
    assert(pairs_view(attrs@) =~= seq![
        ("width"@, "24"@),
        ("height"@, "24"@),
        ("fill"@, "none"@),
        ("stroke"@, "currentColor"@),
        ("stroke-dasharray"@, "2 2"@),
    ]);
    assert(nodes_view(children@) =~= Seq::<XmlNode>::empty());
    SvgNode::Element { name: lit("rect"), attrs, children }
}

fn joined_name(ns: &String, name: &String) -> (res: String)
    ensures
        res@ == ns@ + seq![':'] + name@,
{
    let mut out = ns.clone();
    crate::text::push_char(&mut out, ':');
    push_str(&mut out, name.as_str());
    assert(out@ =~= ns@ + seq![':'] + name@);
    out
}

fn tag_name(n: &JsxElementName) -> (res: Option<String>)
    ensures
        match res {
            Some(s) => element_tag(*n) == Some(s@),
            None => element_tag(*n) is None,
        },
{
    match n {
        JsxElementName::Ident(s) => Some(s.clone()),
        JsxElementName::Namespaced { ns, name } => Some(joined_name(ns, name)),
        JsxElementName::Member => None,
    }
}

fn raw_attr_name(n: &JsxAttrName) -> (res: String)
    ensures
        res@ == attr_raw_name(*n),
{
    match n {
        JsxAttrName::Ident(s) => s.clone(),
        JsxAttrName::Namespaced { ns, name } => joined_name(ns, name),
    }
}

fn is_lowercase_tag(s: &str) -> (res: bool)
    ensures
        res == is_intrinsic_tag(s@),
        res == (s@.len() > 0 && 'a' <= s@[0] && s@[0] <= 'z'),
{
    if s.unicode_len() == 0 {
        return false;
    }
    let c = s.get_char(0);
    'a' <= c && c <= 'z'
}

fn starts_with_xlink(k: &str) -> (res: bool)
    ensures
        res == starts_with(k@, "xlink:"@),
{
    let v = chars_of(k);
    let p = chars_of("xlink:");
    let r = crate::text::match_at(v.as_slice(), p.as_slice(), 0);
    assert(v@.take(p@.len() as int) =~= v@.subrange(0, p@.len() as int));
    r
}

/// One attribute of an intrinsic element: its SVG name and value, or `None`
/// when it is dropped; a dropped attribute may leave a warning.
pub fn process_attr(attr: &JsxAttr, ctx: &mut Ctx) -> (res: Option<(String, String)>)
    ensures
        (match res {
            Some(p) => Some((p.0@, p.1@)),
            None => None,
        }, state_of(*final(ctx))) == attr_out(*attr, state_of(*old(ctx))),
{
    let raw = raw_attr_name(&attr.name);
    let target = match map_attr(raw.as_str()) {
        AttrAction::Use(n) => n,
        AttrAction::Drop => return None,
        AttrAction::DropWarn(msg) => {
            push_warning(ctx, msg.to_owned());
            return None;
        },
    };
    let value = match &attr.value {
        Some(JsxAttrValue::Str(s)) => s.clone(),
        Some(JsxAttrValue::Container(c)) => match c {
            JsxContainer::Empty => return None,
            JsxContainer::Expr(e) => match resolve_attr_value(e, raw.as_str()) {
                Some(v) => v,
                None => return None,
            },
        },
        _ => return None,
    };
    Some((target, value))
}

/// One JSX element as an SVG node: an intrinsic element with its attributes and
/// children, or the placeholder (with a warning) for a component.
pub fn transform_element(el: &JsxElement, ctx: &mut Ctx) -> (res: SvgNode)
    ensures
        (res@, state_of(*final(ctx))) == element_out(*el, state_of(*old(ctx))),
    decreases el,
{
    let name = match tag_name(&el.name) {
        Some(n) => n,
        None => {
            push_warning(ctx, lit("JSX member expression rendered as placeholder"));
            return placeholder();
        },
    };
    if !is_lowercase_tag(name.as_str()) {
        let mut w = lit("unresolved <");
        push_str(&mut w, name.as_str());
        push_str(&mut w, "/> rendered as placeholder");
        push_warning(ctx, w);
        return placeholder();
    }
    let ghost st0 = state_of(*ctx);
    let mut attrs: Vec<(String, String)> = Vec::new();
    let mut i: usize = 0;
    while i < el.attrs.len()
        invariant
            i <= el.attrs@.len(),
            (pairs_view(attrs@), state_of(*ctx)) == attrs_out(el.attrs@.take(i as int), st0),
        decreases el.attrs.len() - i,
    {
        assert(el.attrs@.take(i + 1).drop_last() =~= el.attrs@.take(i as int));
        match &el.attrs[i] {
            JsxAttrOrSpread::Attr(a) => {
                match process_attr(a, ctx) {
                    Some((k, v)) => {
                        if starts_with_xlink(k.as_str()) {
                            ctx.has_xlink = true;
                        }
                        let ghost kv = (k@, v@);
                        attrs.push((k, v));
                        assert(pairs_view(attrs@) =~= pairs_view(attrs@.drop_last()).push(kv));
                    },
                    None => {},
                }
            },
            JsxAttrOrSpread::Spread => {},
        }
        i += 1;
    }
    assert(el.attrs@.take(el.attrs@.len() as int) =~= el.attrs@);
    let children = transform_children(&el.children, ctx);
    SvgNode::Element { name, attrs, children }
}

/// The SVG nodes of a list of JSX children, in order, fragments flattened.
pub fn transform_children(children: &Vec<JsxChild>, ctx: &mut Ctx) -> (res: Vec<SvgNode>)
    ensures
        (nodes_view(res@), state_of(*final(ctx))) == children_out(children@, state_of(*old(ctx))),
    decreases children,
{
    let ghost st0 = state_of(*ctx);
    let mut out: Vec<SvgNode> = Vec::new();
    let mut i: usize = 0;
    while i < children.len()
        invariant
            i <= children@.len(),
            (nodes_view(out@), state_of(*ctx)) == children_out(children@.take(i as int), st0),
        decreases children.len() - i,
    {
        assert(children@.take(i + 1).drop_last() =~= children@.take(i as int));
        assert(decreases_to!(children => children@[i as int]));
        let mut more = transform_child(&children[i], ctx);
        let ghost prev = out@;
        let ghost added = more@;
        out.append(&mut more);
        proof {
            lemma_nodes_view_append(prev, added);
        }
        i += 1;
    }
    assert(children@.take(children@.len() as int) =~= children@);
    out
}

fn transform_child(c: &JsxChild, ctx: &mut Ctx) -> (res: Vec<SvgNode>)
    ensures
        (nodes_view(res@), state_of(*final(ctx))) == child_out(*c, state_of(*old(ctx))),
    decreases c,
{
    let mut out: Vec<SvgNode> = Vec::new();
    match c {
        JsxChild::Text(t) => {
            let v = chars_of(t.as_str());
            let (lo, hi) = trim_bounds(v.as_slice());
            if lo < hi {
                let n = SvgNode::Text(substring(v.as_slice(), lo, hi));
                let ghost nv = node_view(n);
                out.push(n);
                assert(out@.drop_last() =~= Seq::<SvgNode>::empty());
                assert(nodes_view(out@.drop_last()) =~= Seq::<XmlNode>::empty());
                assert(out@.last() == n);
                assert(nodes_view(out@) =~= seq![nv]);
            } else {
                assert(nodes_view(out@) =~= Seq::<XmlNode>::empty());
            }
        },
        JsxChild::Element(el) => {
            let n = transform_element(el, ctx);
            out.push(n);
            assert(out@.drop_last() =~= Seq::<SvgNode>::empty());
            assert(nodes_view(out@.drop_last()) =~= Seq::<XmlNode>::empty());
            assert(out@.last() == n);
            assert(nodes_view(out@) =~= seq![node_view(n)]);
        },
        JsxChild::Fragment(cs) => {
            return transform_children(cs, ctx);
        },
        JsxChild::Container(JsxContainer::Expr(e)) => {
            return walk_expr(e, ctx);
        },
        _ => {
            assert(nodes_view(out@) =~= Seq::<XmlNode>::empty());
        },
    }
    out
}

fn walk_expr(e: &JsxExpr, ctx: &mut Ctx) -> (res: Vec<SvgNode>)
    ensures
        (nodes_view(res@), state_of(*final(ctx))) == expr_out(*e, state_of(*old(ctx))),
    decreases e,
{
    let n = narrow_branch(e);
    proof {
        lemma_narrow_within(*e);
    }
    let mut out: Vec<SvgNode> = Vec::new();
    match n {
        JsxExpr::Element(el) => {
            let node = transform_element(el, ctx);
            out.push(node);
            assert(out@.drop_last() =~= Seq::<SvgNode>::empty());
            assert(nodes_view(out@.drop_last()) =~= Seq::<XmlNode>::empty());
            assert(out@.last() == node);
            assert(nodes_view(out@) =~= seq![node_view(node)]);
        },
        JsxExpr::Fragment(cs) => {
            return transform_children(cs, ctx);
        },
        _ => {
            assert(nodes_view(out@) =~= Seq::<XmlNode>::empty());
        },
    }
    out
}

/// Whether an attribute named `key` is present.
pub fn has_attr(attrs: &Vec<(String, String)>, key: &str) -> (res: bool)
    ensures
        res == exists|i: int| 0 <= i < attrs@.len() && #[trigger] pairs_view(attrs@)[i].0 == key@,
{
    let mut i: usize = 0;
    while i < attrs.len()
        invariant
            i <= attrs@.len(),
            forall|j: int| 0 <= j < i ==> #[trigger] pairs_view(attrs@)[j].0 != key@,
        decreases attrs.len() - i,
    {
        if str_eq(attrs[i].0.as_str(), key) {
            assert(pairs_view(attrs@)[i as int].0 == key@);
            return true;
        }
        i += 1;
    }
    false
}

/// Puts `(key, val)` first unless an attribute named `key` is already there.
pub fn ensure_attr(attrs: &mut Vec<(String, String)>, key: &str, val: &str)
    ensures
        pairs_view(final(attrs)@) == with_attr(pairs_view(old(attrs)@), key@, val@),
{
    if !has_attr(attrs, key) {
        attrs.insert(0, (key.to_owned(), val.to_owned()));
        assert(pairs_view(attrs@) =~= seq![(key@, val@)] + pairs_view(old(attrs)@));
    }
}

/// The default `<svg>` document around `children`.
pub fn wrap_in_svg(children: Vec<SvgNode>, has_xlink: bool) -> (res: SvgNode)
    ensures
        res@ == svg_wrapper(nodes_view(children@), has_xlink),
{
    let mut attrs: Vec<(String, String)> = Vec::new();
    attrs.push((lit("xmlns"), lit(XMLNS)));
    if has_xlink {
        attrs.push((lit("xmlns:xlink"), lit(XMLNS_XLINK)));
    }
    attrs.push((lit("viewBox"), lit(VIEW_BOX)));
    attrs.push((lit("width"), lit(SIZE)));
    attrs.push((lit("height"), lit(SIZE)));
    attrs.push((lit("fill"), lit(FILL)));
    assert(pairs_view(attrs@) =~= seq![("xmlns"@, XMLNS@)] + (if has_xlink {
        seq![("xmlns:xlink"@, XMLNS_XLINK@)]
    } else {
        Seq::empty()
    }) + seq![
        ("viewBox"@, VIEW_BOX@),
        ("width"@, SIZE@),
        ("height"@, SIZE@),
        ("fill"@, FILL@),
    ]);
    SvgNode::Element { name: lit("svg"), attrs, children }
}

/// The document for the top-level nodes: a lone `<svg>` with the namespaces
/// added where missing, or everything wrapped in a default `<svg>`.
pub fn wrap_root(nodes: Vec<SvgNode>, has_xlink: bool) -> (res: SvgNode)
    ensures
        res@ == document_for(nodes_view(nodes@), has_xlink),
{
    proof {
        lemma_nodes_view_len(nodes@);
    }
    let mut nodes = nodes;
    let single_svg = nodes.len() == 1 && match &nodes[0] {
        SvgNode::Element { name, .. } => str_eq(name.as_str(), "svg"),
        _ => false,
    };
    if single_svg {
        let last = nodes.pop();
        match last {
            Some(SvgNode::Element { name, attrs, children }) => {
                let mut attrs = attrs;
                ensure_attr(&mut attrs, "xmlns", XMLNS);
                if has_xlink {
                    ensure_attr(&mut attrs, "xmlns:xlink", XMLNS_XLINK);
                }
                return SvgNode::Element { name, attrs, children };
            },
            _ => {
                assert(false);
                return wrap_in_svg(nodes, has_xlink);
            },
        }
    }
    wrap_in_svg(nodes, has_xlink)
}

/// Lowers a JSX expression into the SVG element tree.
///
/// Errors when the expression contains no JSX elements (e.g. a bare numeric or
/// string literal).
pub fn to_svg(expr: &JsxExpr) -> (res: Result<TransformResult, String>)
    ensures
        match res {
            Ok(r) => transform(*expr) == Some((r.root@, strings_view(r.warnings@))),
            Err(m) => transform(*expr) is None && m@ == NO_JSX_ERROR@,
        },
{
    let mut ctx = Ctx { warnings: Vec::new(), has_xlink: false };
    assert(state_of(ctx) == start_state()) by {
        assert(strings_view(ctx.warnings@) =~= Seq::<Seq<char>>::empty());
    }
    let nodes = walk_expr(expr, &mut ctx);
    proof {
        lemma_nodes_view_len(nodes@);
    }
    if nodes.len() == 0 {
        return Err(lit(NO_JSX_ERROR));
    }
    let root = wrap_root(nodes, ctx.has_xlink);
    Ok(TransformResult { root, warnings: ctx.warnings })
}

/// Some attribute is in the `xlink:` namespace.
pub open spec fn has_xlink_attr(attrs: Seq<(Seq<char>, Seq<char>)>) -> bool {
    exists|i: int| 0 <= i < attrs.len() && starts_with(#[trigger] attrs[i].0, "xlink:"@)
}

/// Some element of the tree has an `xlink:` attribute.
pub open spec fn tree_uses_xlink(n: XmlNode) -> bool
    decreases n,
{
    match n {
        XmlNode::Element { attrs, children, .. } => has_xlink_attr(attrs) || forest_uses_xlink(
            children,
        ),
        _ => false,
    }
}

/// Some element of some tree in `s` has an `xlink:` attribute.
pub open spec fn forest_uses_xlink(s: Seq<XmlNode>) -> bool
    decreases s,
{
    s.len() > 0 && (forest_uses_xlink(s.drop_last()) || tree_uses_xlink(s.last()))
}

proof fn lemma_forest_append(a: Seq<XmlNode>, b: Seq<XmlNode>)
    ensures
        forest_uses_xlink(a + b) == (forest_uses_xlink(a) || forest_uses_xlink(b)),
    decreases b.len(),
{
    if b.len() == 0 {
        assert(a + b =~= a);
    } else {
        assert((a + b).drop_last() =~= a + b.drop_last());
        lemma_forest_append(a, b.drop_last());
    }
}

proof fn lemma_forest_single(n: XmlNode)
    ensures
        forest_uses_xlink(seq![n]) == tree_uses_xlink(n),
{
    assert(seq![n].drop_last() =~= Seq::<XmlNode>::empty());
    assert(!forest_uses_xlink(Seq::<XmlNode>::empty()));
}

proof fn lemma_not_xlink(k: Seq<char>)
    requires
        k.len() >= 2,
        !(k[0] == 'x' && k[1] == 'l'),
    ensures
        !starts_with(k, "xlink:"@),
{
    reveal_strlit("xlink:");
    if starts_with(k, "xlink:"@) {
        assert(k.take(6)[0] == k[0]);
        assert(k.take(6)[1] == k[1]);
    }
}

proof fn lemma_attrs_out_xlink(s: Seq<JsxAttrOrSpread>, st: WalkState)
    ensures
        attrs_out(s, st).1.has_xlink == (st.has_xlink || has_xlink_attr(attrs_out(s, st).0)),
        attrs_out(s, st).1.warnings.len() >= st.warnings.len(),
    decreases s.len(),
{
    if s.len() > 0 {
        lemma_attrs_out_xlink(s.drop_last(), st);
        let (a, st1) = attrs_out(s.drop_last(), st);
        match s.last() {
            JsxAttrOrSpread::Spread => {},
            JsxAttrOrSpread::Attr(at) => {
                let (r, st2) = attr_out(at, st1);
                match r {
                    Some((k, v)) => {
                        let a2 = a.push((k, v));
                        assert(has_xlink_attr(a2) == (has_xlink_attr(a) || starts_with(k, "xlink:"@)))
                            by {
                            if has_xlink_attr(a) {
                                let i = choose|i: int|
                                    0 <= i < a.len() && starts_with(#[trigger] a[i].0, "xlink:"@);
                                assert(a2[i] == a[i]);
                            }
                            if starts_with(k, "xlink:"@) {
                                assert(a2[a.len() as int].0 == k);
                            }
                            if has_xlink_attr(a2) {
                                let i = choose|i: int|
                                    0 <= i < a2.len() && starts_with(#[trigger] a2[i].0, "xlink:"@);
                                if i < a.len() {
                                    assert(a2[i] == a[i]);
                                }
                            }
                        }
                    },
                    None => {},
                }
            },
        }
    }
}

proof fn lemma_placeholder_plain()
    ensures
        !tree_uses_xlink(placeholder_node()),
{
    reveal_strlit("xlink:");
    reveal_strlit("width");
    reveal_strlit("height");
    reveal_strlit("fill");
    reveal_strlit("stroke");
    reveal_strlit("stroke-dasharray");
    let a = placeholder_node()->Element_attrs;
    assert forall|i: int| 0 <= i < a.len() implies !starts_with(#[trigger] a[i].0, "xlink:"@) by {
        lemma_not_xlink(a[i].0);
    }
    assert(forest_uses_xlink(Seq::<XmlNode>::empty()) == false);
}

/// The walk's `xlink` flag records exactly whether an `xlink:` attribute was
/// emitted: after an element, list of children, child or expression it is set
/// if it was before or if the produced nodes hold one.
pub proof fn lemma_element_xlink(el: JsxElement, st: WalkState)
    ensures
        element_out(el, st).1.has_xlink == (st.has_xlink || tree_uses_xlink(element_out(el, st).0)),
    decreases el,
{
    match element_tag(el.name) {
        None => lemma_placeholder_plain(),
        Some(name) => if !is_intrinsic_tag(name) {
            lemma_placeholder_plain();
        } else {
            lemma_attrs_out_xlink(el.attrs@, st);
            let (attrs, st1) = attrs_out(el.attrs@, st);
            lemma_children_xlink(el.children@, st1);
        },
    }
}

pub proof fn lemma_children_xlink(s: Seq<JsxChild>, st: WalkState)
    ensures
        children_out(s, st).1.has_xlink == (st.has_xlink || forest_uses_xlink(
            children_out(s, st).0,
        )),
    decreases s,
{
    if s.len() > 0 {
        lemma_children_xlink(s.drop_last(), st);
        let (a, st1) = children_out(s.drop_last(), st);
        lemma_child_xlink(s.last(), st1);
        let (b, st2) = child_out(s.last(), st1);
        lemma_forest_append(a, b);
    }
}

pub proof fn lemma_child_xlink(c: JsxChild, st: WalkState)
    ensures
        child_out(c, st).1.has_xlink == (st.has_xlink || forest_uses_xlink(child_out(c, st).0)),
    decreases c,
{
    match c {
        JsxChild::Text(t) => {
            lemma_forest_single(XmlNode::Text(trim(t@)));
        },
        JsxChild::Element(el) => {
            lemma_element_xlink(*el, st);
            lemma_forest_single(element_out(*el, st).0);
        },
        JsxChild::Fragment(cs) => lemma_children_xlink(cs@, st),
        JsxChild::Container(JsxContainer::Expr(e)) => lemma_expr_xlink(*e, st),
        _ => {},
    }
}

pub proof fn lemma_expr_xlink(e: JsxExpr, st: WalkState)
    ensures
        expr_out(e, st).1.has_xlink == (st.has_xlink || forest_uses_xlink(expr_out(e, st).0)),
    decreases e,
{
    lemma_narrow_within(e);
    match narrow(e) {
        JsxExpr::Element(el) => {
            lemma_element_xlink(*el, st);
            lemma_forest_single(element_out(*el, st).0);
        },
        JsxExpr::Fragment(cs) => lemma_children_xlink(cs@, st),
        _ => {},
    }
}

proof fn lemma_with_attr(attrs: Seq<(Seq<char>, Seq<char>)>, key: Seq<char>, val: Seq<char>)
    requires
        !starts_with(key, "xlink:"@),
    ensures
        has_xlink_attr(with_attr(attrs, key, val)) == has_xlink_attr(attrs),
        exists|i: int|
            0 <= i < with_attr(attrs, key, val).len() && #[trigger] with_attr(
                attrs,
                key,
                val,
            )[i].0 == key,
        forall|i: int|
            0 <= i < attrs.len() ==> exists|j: int|
                0 <= j < with_attr(attrs, key, val).len() && with_attr(attrs, key, val)[j]
                    == #[trigger] attrs[i],
{
    let r = with_attr(attrs, key, val);
    if !(exists|i: int| 0 <= i < attrs.len() && #[trigger] attrs[i].0 == key) {
        assert(r[0].0 == key);
        assert forall|i: int| 0 <= i < attrs.len() implies #[trigger] r[i + 1] == attrs[i] by {}
        if has_xlink_attr(attrs) {
            let i = choose|i: int| 0 <= i < attrs.len() && starts_with(#[trigger] attrs[i].0, "xlink:"@);
            assert(r[i + 1] == attrs[i]);
        }
        if has_xlink_attr(r) {
            let i = choose|i: int| 0 <= i < r.len() && starts_with(#[trigger] r[i].0, "xlink:"@);
            assert(i != 0);
            assert(r[i] == attrs[i - 1]);
        }
        assert forall|i: int| 0 <= i < attrs.len() implies exists|j: int|
            0 <= j < r.len() && r[j] == #[trigger] attrs[i] by {
            assert(r[i + 1] == attrs[i]);
        }
    }
}

/// The namespace declarations a document root carries.
pub open spec fn declares_namespaces(root: XmlNode) -> bool {
    &&& root matches XmlNode::Element { name, attrs, .. } && name == "svg"@ && exists|i: int|
        0 <= i < attrs.len() && #[trigger] attrs[i].0 == "xmlns"@
    &&& tree_uses_xlink(root) ==> (root matches XmlNode::Element { attrs, .. } && exists|i: int|
        0 <= i < attrs.len() && #[trigger] attrs[i].0 == "xmlns:xlink"@)
}

proof fn lemma_wrapper_namespaces(nodes: Seq<XmlNode>, has_xlink: bool)
    requires
        has_xlink == forest_uses_xlink(nodes),
    ensures
        declares_namespaces(svg_wrapper(nodes, has_xlink)),
{
    reveal_strlit("xmlns");
    reveal_strlit("xmlns:xlink");
    reveal_strlit("viewBox");
    reveal_strlit("width");
    reveal_strlit("height");
    reveal_strlit("fill");
    let root = svg_wrapper(nodes, has_xlink);
    let a = root->Element_attrs;
    assert(a[0].0 == "xmlns"@);
    assert forall|i: int| 0 <= i < a.len() implies !starts_with(#[trigger] a[i].0, "xlink:"@) by {
        lemma_not_xlink(a[i].0);
    }
    if has_xlink {
        assert(a[1].0 == "xmlns:xlink"@);
    }
}

proof fn lemma_lone_svg_namespaces(n: XmlNode, has_xlink: bool)
    requires
        n is Element,
        n->Element_name == "svg"@,
        has_xlink == tree_uses_xlink(n),
    ensures
        declares_namespaces(document_for(seq![n], has_xlink)),
{
    reveal_strlit("xmlns");
    reveal_strlit("xmlns:xlink");
    lemma_not_xlink("xmlns"@);
    lemma_not_xlink("xmlns:xlink"@);
    let a0 = n->Element_attrs;
    lemma_with_attr(a0, "xmlns"@, XMLNS@);
    let a1 = with_attr(a0, "xmlns"@, XMLNS@);
    let i = choose|i: int| 0 <= i < a1.len() && #[trigger] a1[i].0 == "xmlns"@;
    assert(seq![n][0] == n);
    let kids = n->Element_children;
    assert(tree_uses_xlink(n) == (has_xlink_attr(a0) || forest_uses_xlink(kids)));
    if has_xlink {
        assert(document_for(seq![n], has_xlink) == XmlNode::Element {
            name: "svg"@,
            attrs: with_attr(a1, "xmlns:xlink"@, XMLNS_XLINK@),
            children: kids,
        });
        lemma_with_attr(a1, "xmlns:xlink"@, XMLNS_XLINK@);
        let a2 = with_attr(a1, "xmlns:xlink"@, XMLNS_XLINK@);
        let j = choose|j: int| 0 <= j < a2.len() && a2[j] == #[trigger] a1[i];
        assert(a2[j].0 == "xmlns"@);
        let k = choose|k: int| 0 <= k < a2.len() && #[trigger] a2[k].0 == "xmlns:xlink"@;
        assert(a2[k].0 == "xmlns:xlink"@);
    } else {
        assert(document_for(seq![n], has_xlink) == XmlNode::Element {
            name: "svg"@,
            attrs: a1,
            children: kids,
        });
        assert(!has_xlink_attr(a0));
        assert(!has_xlink_attr(a1));
        assert(!tree_uses_xlink(document_for(seq![n], has_xlink)));
    }
}

/// The root of a rendered document.
pub open spec fn document_root(r: Option<(XmlNode, Seq<Seq<char>>)>) -> XmlNode {
    match r {
        Some((root, _)) => root,
        None => XmlNode::Text(Seq::empty()),
    }
}

/// Every rendered document has an `<svg>` root that declares the SVG namespace,
/// and it declares the `xlink` namespace whenever some element in it carries
/// an `xlink:` attribute.
pub proof fn lemma_root_declares_namespaces(e: JsxExpr)
    requires
        transform(e) is Some,
    ensures
        declares_namespaces(document_root(transform(e))),
{
    let (nodes, st) = expr_out(e, start_state());
    lemma_expr_xlink(e, start_state());
    if nodes.len() == 1 && nodes[0] is Element && nodes[0]->Element_name == "svg"@ {
        lemma_forest_single(nodes[0]);
        assert(nodes =~= seq![nodes[0]]);
        lemma_lone_svg_namespaces(nodes[0], st.has_xlink);
    } else {
        lemma_wrapper_namespaces(nodes, st.has_xlink);
    }
}

/// Statically decidable branches render one side: `{c && x}` renders `x`,
/// `{c ? x : y}` renders `x`, and `(x)` renders `x`.
pub proof fn lemma_branches_render_one_side(
    test: Box<JsxExpr>,
    cons: Box<JsxExpr>,
    alt: Box<JsxExpr>,
    left: Box<JsxExpr>,
    right: Box<JsxExpr>,
    st: WalkState,
)
    ensures
        expr_out(JsxExpr::Cond { test, cons, alt }, st) == expr_out(*cons, st),
        expr_out(JsxExpr::Bin { op: crate::jsx::BinaryOp::LogicalAnd, left, right }, st) == expr_out(
            *right,
            st,
        ),
        expr_out(JsxExpr::Paren(cons), st) == expr_out(*cons, st),
{
}

/// A component that cannot be resolved (a tag that does not start with a
/// lower-case letter, or a member expression) renders as the dashed
/// placeholder and adds exactly one warning.
pub proof fn lemma_components_become_placeholders(el: JsxElement, st: WalkState)
    requires
        match element_tag(el.name) {
            Some(name) => !is_intrinsic_tag(name),
            None => true,
        },
    ensures
        element_out(el, st).0 == placeholder_node(),
        element_out(el, st).1.warnings.len() == st.warnings.len() + 1,
        element_out(el, st).1.warnings.take(st.warnings.len() as int) == st.warnings,
        element_out(el, st).1.has_xlink == st.has_xlink,
{
    assert(element_out(el, st).1.warnings.take(st.warnings.len() as int) =~= st.warnings);
}

/// A tag is intrinsic exactly when it starts with an ASCII lower-case letter,
/// whatever follows (`linearGradient`, `clipPath`, `feGaussianBlur` included).
pub proof fn lemma_intrinsic_tags(s: Seq<char>)
    ensures
        is_intrinsic_tag(s) <==> (s.len() > 0 && 'a' <= s[0] && s[0] <= 'z'),
{
}

/// An element whose tag is a plain identifier starting with an ASCII lower-case
/// letter (`svg`, `linearGradient`, `clipPath`, `feGaussianBlur`) renders as an
/// element of that very name, never as the placeholder, with its attributes and
/// children: the tag adds no warning, so an element without attributes and
/// children leaves the walk's state as it was.
pub proof fn lemma_lowercase_tags_render_as_themselves(el: JsxElement, st: WalkState)
    requires
        el.name matches JsxElementName::Ident(s) && s@.len() > 0 && 'a' <= s@[0] && s@[0] <= 'z',
    ensures
        element_out(el, st).0 matches XmlNode::Element { name, attrs, children } && name
            == el.name->Ident_0@ && attrs == attrs_out(el.attrs@, st).0 && children == children_out(
            el.children@,
            attrs_out(el.attrs@, st).1,
        ).0,
        element_out(el, st).1 == children_out(el.children@, attrs_out(el.attrs@, st).1).1,
        el.attrs@.len() == 0 && el.children@.len() == 0 ==> element_out(el, st) == (
            XmlNode::Element { name: el.name->Ident_0@, attrs: Seq::empty(), children: Seq::empty() },
            st,
        ),
{
}

/// A spread `{...props}` in an opening tag contributes nothing.
pub proof fn lemma_spread_attr_dropped(s: Seq<JsxAttrOrSpread>, st: WalkState)
    ensures
        attrs_out(s.push(JsxAttrOrSpread::Spread), st) == attrs_out(s, st),
{
    assert(s.push(JsxAttrOrSpread::Spread).drop_last() =~= s);
}

/// Event handlers (`onClick`, `onMouseEnter`, ...) are dropped whatever their
/// value, without a warning.
pub proof fn lemma_event_handlers_dropped(a: JsxAttr, st: WalkState)
    requires
        crate::attr_map::is_event_handler_name(attr_raw_name(a.name)),
    ensures
        attr_out(a, st) == (None::<(Seq<char>, Seq<char>)>, st),
{
}

/// A dynamic value (an identifier, member access, call, ...) is replaced by the
/// default for the attribute, or the attribute is skipped when it has none.
pub proof fn lemma_dynamic_values_use_defaults(attr: Seq<char>)
    ensures
        resolve(JsxExpr::Other, attr) == crate::defaults::spec_fallback_for(attr),
{
}

} // verus!
