use svg_react_preview::jsx::{
    BinaryOp, JsxAttr, JsxAttrName, JsxAttrOrSpread, JsxAttrValue, JsxChild, JsxContainer,
    JsxElement, JsxElementName, JsxExpr, TplQuasi, UnaryOp,
};
use svg_react_preview::parse::{parse_jsx, parse_outcome};
use svg_react_preview::pipeline::render as pipeline_render;
use svg_react_preview::serialize::to_xml;
use svg_react_preview::transform::{
    ensure_attr, process_attr, to_svg, transform_children, transform_element, wrap_in_svg,
    wrap_root, Ctx, SvgNode,
};

fn tag(name: &str) -> JsxElementName {
    if let Some((ns, n)) = name.split_once(':') {
        JsxElementName::Namespaced { ns: ns.into(), name: n.into() }
    } else if name.contains('.') {
        JsxElementName::Member
    } else {
        JsxElementName::Ident(name.into())
    }
}

fn attr_name(name: &str) -> JsxAttrName {
    match name.split_once(':') {
        Some((ns, n)) => JsxAttrName::Namespaced { ns: ns.into(), name: n.into() },
        None => JsxAttrName::Ident(name.into()),
    }
}

fn el(name: &str, attrs: Vec<JsxAttrOrSpread>, children: Vec<JsxChild>) -> JsxElement {
    JsxElement { name: tag(name), attrs, children }
}

fn e(name: &str, attrs: Vec<JsxAttrOrSpread>, children: Vec<JsxChild>) -> JsxExpr {
    JsxExpr::Element(Box::new(el(name, attrs, children)))
}

fn x(name: &str, value: JsxExpr) -> JsxAttrOrSpread {
    JsxAttrOrSpread::Attr(JsxAttr {
        name: attr_name(name),
        value: Some(JsxAttrValue::Container(JsxContainer::Expr(Box::new(value)))),
    })
}

fn render(tsx: &str) -> (String, Vec<String>) {
    let expr = parse_jsx(tsx).expect("parse_jsx should succeed");
    let res = to_svg(&expr).expect("to_svg should succeed");
    (to_xml(&res.root), res.warnings)
}

fn render_doc(tsx: &str) -> (String, Vec<String>) {
    let expr = parse_jsx(tsx.trim()).expect("parse_jsx should succeed");
    let r = pipeline_render(&expr).expect("render should succeed");
    (r.xml, r.warnings)
}

fn golden(tsx: &str, want: &str) {
    assert_eq!(render_doc(tsx).0, want);
}

fn golden_tree(expr: JsxExpr, want: &str) {
    let r = pipeline_render(&expr).expect("render should succeed");
    assert_eq!(r.xml, want);
}

#[test]
fn non_jsx_input_errors() {
    let expr = parse_jsx("42").unwrap();
    let err = to_svg(&expr).err().expect("expected error");
    assert!(err.contains("no JSX elements"), "got: {err}");
}

#[test]
fn parenthesised_jsx_unwrapped() {
    let (out, _) = render("(<svg><path d=\"M0\"/></svg>)");
    assert!(out.starts_with("<svg"), "got: {out}");
    assert!(out.contains("<path"));
}

#[test]
fn jsx_member_expr_tag_renders_placeholder_with_warning() {
    let (out, warnings) = render("<Ns.Icon/>");
    assert!(out.contains("<rect"), "expected placeholder, got: {out}");
    assert!(
        warnings.iter().any(|w| w.contains("member expression")),
        "warnings: {warnings:?}"
    );
}

#[test]
fn namespaced_jsx_tag_kept_with_colon() {
    let (out, _) = render("<svg><xlink:foo/></svg>");
    assert!(out.contains("<xlink:foo"), "got: {out}");
}

#[test]
fn text_child_rendered() {
    let (out, _) = render("<svg><text>Hello</text></svg>");
    assert!(out.contains(">Hello</text>"), "got: {out}");
}

#[test]
fn fragment_child_is_flattened() {
    let (out, _) = render("<svg><><path d=\"M0\"/></></svg>");
    assert!(out.contains("<path"), "got: {out}");
}

#[test]
fn expr_container_child_with_jsx_rendered() {
    let (out, _) = render("<svg>{<path d=\"M0\"/>}</svg>");
    assert!(out.contains("<path"), "got: {out}");
}

#[test]
fn expr_container_child_with_empty_expr_skipped() {
    let (out, _) = render("<svg>{/* hi */}</svg>");
    assert!(out.starts_with("<svg"), "got: {out}");
}

#[test]
fn spread_child_is_skipped() {
    let (out, _) = render("<svg>{...children}<path/></svg>");
    assert!(out.contains("<path"), "got: {out}");
}

#[test]
fn boolean_attr_without_value_is_dropped() {
    let (out, _) = render("<svg disabled/>");
    assert!(!out.contains("disabled"), "got: {out}");
}

#[test]
fn attr_with_jsx_element_value_is_dropped() {
    let (out, _) = render("<svg foo={<b/>}/>");
    assert!(!out.contains("foo="), "got: {out}");
}

#[test]
fn attr_str_literal_in_expr_container() {
    let (out, _) = render(r#"<svg width={"50"}/>"#);
    assert!(out.contains(r#"width="50""#), "got: {out}");
}

#[test]
fn attr_bool_literal_resolved_as_string() {
    let (out, _) = render("<svg foo={true}/>");
    assert!(out.contains(r#"foo="true""#), "got: {out}");
}

#[test]
fn attr_template_literal_no_exprs_resolved() {
    let (out, _) = render("<svg width={`50`}/>");
    assert!(out.contains(r#"width="50""#), "got: {out}");
}

#[test]
fn attr_paren_resolved() {
    let (out, _) = render("<svg width={(24)}/>");
    assert!(out.contains(r#"width="24""#), "got: {out}");
}

#[test]
fn attr_cond_resolved_to_consequent() {
    let (out, _) = render(r#"<svg fill={x ? "red" : "blue"}/>"#);
    assert!(out.contains(r#"fill="red""#), "got: {out}");
}

#[test]
fn attr_logical_and_resolved_to_rhs() {
    let (out, _) = render(r#"<svg fill={x && "red"}/>"#);
    assert!(out.contains(r#"fill="red""#), "got: {out}");
}

#[test]
fn attr_logical_or_falls_back_not_narrowed() {
    let (out, _) = render(r#"<svg fill={x || "red"}/>"#);
    assert!(out.contains(r#"fill="currentColor""#), "got: {out}");
    assert!(!out.contains(r#"fill="red""#), "got: {out}");
}

#[test]
fn attr_template_with_exprs_falls_back() {
    let (out, _) = render(r"<svg fill={`a${x}b`}/>");
    assert!(out.contains(r#"fill="currentColor""#), "got: {out}");
    assert!(!out.contains(r#"fill="ab""#), "got: {out}");
}

#[test]
fn attr_unary_plus_falls_back_not_negated() {
    let (out, _) = render("<svg x={+5}/>");
    assert!(!out.contains("x="), "got: {out}");
}

#[test]
fn attr_unary_minus_number() {
    let (out, _) = render("<svg x={-5}/>");
    assert!(out.contains(r#"x="-5""#), "got: {out}");
}

#[test]
fn attr_non_integer_number_kept_as_decimal() {
    let (out, _) = render("<svg x={1.5}/>");
    assert!(out.contains(r#"x="1.5""#), "got: {out}");
}

#[test]
fn attr_unresolvable_uses_fallback() {
    let (out, _) = render("<svg fill={someVar}/>");
    assert!(out.contains(r#"fill="currentColor""#), "got: {out}");
}

#[test]
fn namespaced_attr_with_xlink_marks_root() {
    let (out, _) = render(r##"<svg><use xlink:href="#a"/></svg>"##);
    assert!(out.contains("xmlns:xlink="), "got: {out}");
}

#[test]
fn xlink_camel_attr_on_non_svg_root_wraps_with_xlink() {
    let (out, _) = render(r##"<use xlinkHref="#a"/>"##);
    assert!(out.contains("xmlns:xlink="), "got: {out}");
}

#[test]
fn single_non_svg_root_wraps_in_svg() {
    let (out, _) = render(r#"<path d="M0"/>"#);
    assert!(out.starts_with("<svg"), "got: {out}");
    assert!(out.contains("<path"), "got: {out}");
}

// Documents rendered end to end through `pipeline::render`.

const XMLNS: &str = r#"xmlns="http://www.w3.org/2000/svg""#;
const WRAP: &str = r#"<svg xmlns="http://www.w3.org/2000/svg" viewBox="0 0 24 24" width="24" height="24" fill="currentColor">"#;

#[test]
fn full_svg() {
    golden(
        r#"
<svg width="24" height="24" viewBox="0 0 24 24" fill="none">
  <path d="M12 2L2 7l10 5 10-5-10-5z" stroke="currentColor" strokeWidth={2} strokeLinecap="round" />
</svg>
"#,
        &format!(
            r#"<svg {XMLNS} width="24" height="24" viewBox="0 0 24 24" fill="none"><path d="M12 2L2 7l10 5 10-5-10-5z" stroke="currentColor" stroke-width="2" stroke-linecap="round"/></svg>"#
        ),
    );
}

#[test]
fn path_only() {
    golden(r#"<path d="M0 0h24v24H0z" />"#, &format!(r#"{WRAP}<path d="M0 0h24v24H0z"/></svg>"#));
}

#[test]
fn dynamic_size() {
    golden(
        r#"
<svg width={size} height={size} fill={color} stroke={stroke} strokeWidth={sw} opacity={o}>
  <circle cx="12" cy="12" r="10" />
</svg>
"#,
        &format!(
            r#"<svg {XMLNS} width="24" height="24" fill="currentColor" stroke="none" stroke-width="1.5"><circle cx="12" cy="12" r="10"/></svg>"#
        ),
    );
}

#[test]
fn pascal_case_emits_placeholder_with_warning() {
    let (xml, warnings) = render_doc(r#"<svg><Icon size="16" /></svg>"#);
    assert_eq!(
        xml,
        format!(
            r#"<svg {XMLNS}><rect width="24" height="24" fill="none" stroke="currentColor" stroke-dasharray="2 2"/></svg>"#
        )
    );
    assert!(
        warnings.iter().any(|w| w.contains("Icon")),
        "expected unresolved <Icon/> warning, got {warnings:?}"
    );
}

#[test]
fn attr_normalization() {
    golden(
        r##"
<svg className="icon" onClick={handle} htmlFor="x">
  <path fillRule="evenodd" clipRule="evenodd" />
  <use xlinkHref="#shape" />
</svg>
"##,
        r##"<svg xmlns:xlink="http://www.w3.org/1999/xlink" xmlns="http://www.w3.org/2000/svg" class="icon"><path fill-rule="evenodd" clip-rule="evenodd"/><use xlink:href="#shape"/></svg>"##,
    );
}

#[test]
fn fragment_root() {
    golden(
        r#"<><path d="M1" /><circle r="2" /></>"#,
        &format!(r#"{WRAP}<path d="M1"/><circle r="2"/></svg>"#),
    );
}

#[test]
fn cond_expression_uses_consequent() {
    golden(
        r#"<svg>{ok ? <path d="M1" /> : <circle />}</svg>"#,
        &format!(r#"<svg {XMLNS}><path d="M1"/></svg>"#),
    );
}

#[test]
fn logical_and_renders_rhs() {
    golden(
        r#"<svg>{show && <path d="M2" />}</svg>"#,
        &format!(r#"<svg {XMLNS}><path d="M2"/></svg>"#),
    );
}

#[test]
fn spread_dropped_xmlns_added() {
    golden(
        r#"<svg {...props} viewBox="0 0 24 24"><path /></svg>"#,
        &format!(r#"<svg {XMLNS} viewBox="0 0 24 24"><path/></svg>"#),
    );
}

#[test]
fn dangerous_html_dropped_with_warning() {
    let (xml, warnings) = render_doc(r#"<svg dangerouslySetInnerHTML={{ __html: s }}></svg>"#);
    assert_eq!(xml, format!("<svg {XMLNS}></svg>"));
    assert!(
        warnings.iter().any(|w| w.contains("dangerouslySetInnerHTML")),
        "expected dangerouslySetInnerHTML warning, got {warnings:?}"
    );
}

#[test]
fn invalid_jsx_returns_error() {
    let tsx = "<svg><path></svg>";
    let res = parse_jsx(tsx);
    assert!(res.is_err(), "expected error for {tsx:?}");
    assert!(res.unwrap_err().starts_with("JSX parse error: "));
}

#[test]
fn existing_xmlns_kept_and_not_duplicated() {
    golden(r#"<svg xmlns="urn:x"/>"#, r#"<svg xmlns="urn:x"></svg>"#);
}

#[test]
fn multiple_roots_are_wrapped() {
    golden("<><svg></svg>  <svg></svg></>", &format!("{WRAP}<svg></svg><svg></svg></svg>"));
}

#[test]
fn text_is_trimmed_and_blank_text_dropped() {
    golden(
        "<text>\n  Hi there \t<tspan/> \u{a0}</text>",
        &format!("{WRAP}<text>Hi there<tspan></tspan></text></svg>"),
    );
}

#[test]
fn blank_text_children_dropped_from_tree() {
    let expr = e(
        "text",
        vec![],
        vec![JsxChild::Text("\n  Hi there \t".into()), JsxChild::Text(" \u{a0}".into())],
    );
    golden_tree(expr, &format!("{WRAP}<text>Hi there</text></svg>"));
}

#[test]
fn template_without_cooked_text_uses_raw() {
    let tpl = JsxExpr::Tpl {
        quasis: vec![
            TplQuasi { raw: "1".into(), cooked: Some("1".into()) },
            TplQuasi { raw: "\\u{zz}".into(), cooked: None },
        ],
        exprs: vec![],
    };
    golden_tree(e("svg", vec![x("id", tpl)], vec![]), &format!(r#"<svg {XMLNS} id="1\u{{zz}}"></svg>"#));
}

#[test]
fn warnings_keep_document_order() {
    let (_, warnings) = render_doc("<svg dangerouslySetInnerHTML={h}><A/><B.C/><D/></svg>");
    assert_eq!(warnings.len(), 4);
    assert!(warnings[0].starts_with("dangerouslySetInnerHTML stripped"));
    assert_eq!(warnings[1], "unresolved <A/> rendered as placeholder");
    assert_eq!(warnings[2], "JSX member expression rendered as placeholder");
    assert_eq!(warnings[3], "unresolved <D/> rendered as placeholder");
}

// The parsed tree itself.

#[test]
fn numbers_keep_their_decimal_value() {
    assert!(matches!(parse_jsx("1.5").unwrap(), JsxExpr::Num(n) if n == "1.5"));
    assert!(matches!(parse_jsx("1.50").unwrap(), JsxExpr::Num(n) if n == "1.5"));
    assert!(matches!(parse_jsx("24").unwrap(), JsxExpr::Num(n) if n == "24"));
    assert!(matches!(parse_jsx("0x10").unwrap(), JsxExpr::Num(n) if n == "16"));
}

#[test]
fn operators_are_told_apart() {
    match parse_jsx("a && -1").unwrap() {
        JsxExpr::Bin { op: BinaryOp::LogicalAnd, left, right } => {
            assert!(matches!(*left, JsxExpr::Other));
            match *right {
                JsxExpr::Unary { op: UnaryOp::Minus, arg } => {
                    assert!(matches!(*arg, JsxExpr::Num(n) if n == "1"))
                }
                _ => panic!("expected unary minus"),
            }
        }
        _ => panic!("expected a logical and"),
    }
    assert!(matches!(parse_jsx("a || b").unwrap(), JsxExpr::Bin { op: BinaryOp::Other, .. }));
    assert!(matches!(parse_jsx("!a").unwrap(), JsxExpr::Unary { op: UnaryOp::Other, .. }));
    assert!(matches!(parse_jsx("(a ? 'x' : false)").unwrap(), JsxExpr::Paren(_)));
}

#[test]
fn template_pieces_are_kept() {
    match parse_jsx(r"`a\n${x}b`").unwrap() {
        JsxExpr::Tpl { quasis, exprs } => {
            assert_eq!(quasis.len(), 2);
            assert_eq!(quasis[0].raw, r"a\n");
            assert_eq!(quasis[0].cooked.as_deref(), Some("a\n"));
            assert_eq!(quasis[1].raw, "b");
            assert_eq!(exprs.len(), 1);
        }
        _ => panic!("expected a template literal"),
    }
}

#[test]
fn element_tree_is_carried_over() {
    let expr = parse_jsx(r##"<svg:a xlink:href="#b" w={1} {...p} e=<i/> f=<></>>t{}{...c}<><u/></></svg:a>"##)
        .unwrap();
    let el = match expr {
        JsxExpr::Element(el) => el,
        _ => panic!("expected an element"),
    };
    assert!(matches!(&el.name, JsxElementName::Namespaced { ns, name } if ns == "svg" && name == "a"));
    assert_eq!(el.attrs.len(), 5);
    assert!(matches!(&el.attrs[0], JsxAttrOrSpread::Attr(JsxAttr {
        name: JsxAttrName::Namespaced { ns, name },
        value: Some(JsxAttrValue::Str(v)),
    }) if ns == "xlink" && name == "href" && v == "#b"));
    assert!(matches!(&el.attrs[1], JsxAttrOrSpread::Attr(JsxAttr {
        name: JsxAttrName::Ident(n),
        value: Some(JsxAttrValue::Container(JsxContainer::Expr(_))),
    }) if n == "w"));
    assert!(matches!(&el.attrs[2], JsxAttrOrSpread::Spread));
    assert!(matches!(&el.attrs[3], JsxAttrOrSpread::Attr(JsxAttr { value: Some(JsxAttrValue::Element), .. })));
    assert!(matches!(&el.attrs[4], JsxAttrOrSpread::Attr(JsxAttr { value: Some(JsxAttrValue::Fragment), .. })));
    assert_eq!(el.children.len(), 4);
    assert!(matches!(&el.children[0], JsxChild::Text(t) if t == "t"));
    assert!(matches!(&el.children[1], JsxChild::Container(JsxContainer::Empty)));
    assert!(matches!(&el.children[2], JsxChild::Spread));
    assert!(matches!(&el.children[3], JsxChild::Fragment(f) if f.len() == 1));
    assert!(matches!(parse_jsx("<A.B/>").unwrap(), JsxExpr::Element(el) if matches!(el.name, JsxElementName::Member)));
}

// The steps of the walk, on their own.

fn fresh() -> Ctx {
    Ctx { warnings: vec![], has_xlink: false }
}

#[test]
fn component_becomes_placeholder_without_visiting_its_contents() {
    let mut ctx = fresh();
    let icon = el("Icon", vec![x("xlinkHref", JsxExpr::Str("#a".into()))], vec![]);
    let node = transform_element(&icon, &mut ctx);
    assert_eq!(
        to_xml(&node),
        r#"<rect width="24" height="24" fill="none" stroke="currentColor" stroke-dasharray="2 2"/>"#
    );
    assert_eq!(ctx.warnings, ["unresolved <Icon/> rendered as placeholder"]);
    assert!(!ctx.has_xlink);
}

#[test]
fn dropped_attribute_can_warn() {
    let mut ctx = fresh();
    let attr = JsxAttr { name: attr_name("dangerouslySetInnerHTML"), value: None };
    assert!(process_attr(&attr, &mut ctx).is_none());
    assert_eq!(ctx.warnings.len(), 1);
    let attr = JsxAttr { name: attr_name("strokeWidth"), value: Some(JsxAttrValue::Str("2".into())) };
    assert_eq!(process_attr(&attr, &mut ctx), Some(("stroke-width".to_string(), "2".to_string())));
    assert_eq!(ctx.warnings.len(), 1);
}

#[test]
fn children_are_flattened_in_order() {
    let mut ctx = fresh();
    let children = vec![
        JsxChild::Text("  a ".into()),
        JsxChild::Fragment(vec![JsxChild::Text(" ".into()), JsxChild::Spread]),
        JsxChild::Container(JsxContainer::Empty),
        JsxChild::Text("b".into()),
    ];
    let nodes = transform_children(&children, &mut ctx);
    let texts: Vec<String> = nodes.iter().map(to_xml).collect();
    assert_eq!(texts, ["a", "b"]);
}

#[test]
fn lone_svg_root_gets_namespaces_first() {
    let svg = SvgNode::Element { name: "svg".into(), attrs: vec![("id".into(), "x".into())], children: vec![] };
    assert_eq!(
        to_xml(&wrap_root(vec![svg], true)),
        r#"<svg xmlns:xlink="http://www.w3.org/1999/xlink" xmlns="http://www.w3.org/2000/svg" id="x"></svg>"#
    );
}

#[test]
fn parse_errors_name_their_kind() {
    assert_eq!(parse_outcome(Err("Eof".into())).unwrap_err(), "JSX parse error: Eof");
    assert!(matches!(parse_outcome(Ok(JsxExpr::Bool(true))), Ok(JsxExpr::Bool(true))));
    let err = parse_jsx("<svg>").unwrap_err();
    assert!(err.starts_with("JSX parse error: ") && err.len() > "JSX parse error: ".len(), "{err}");
}

#[test]
fn ensure_attr_never_overwrites() {
    let mut attrs = vec![("id".to_string(), "x".to_string())];
    ensure_attr(&mut attrs, "xmlns", "a");
    ensure_attr(&mut attrs, "xmlns", "b");
    assert_eq!(attrs, [("xmlns".to_string(), "a".to_string()), ("id".to_string(), "x".to_string())]);
}

#[test]
fn default_wrapper_attributes_in_order() {
    let kids = vec![SvgNode::Text("a".into()), SvgNode::Text("b".into())];
    assert_eq!(
        to_xml(&wrap_in_svg(kids, true)),
        r#"<svg xmlns="http://www.w3.org/2000/svg" xmlns:xlink="http://www.w3.org/1999/xlink" viewBox="0 0 24 24" width="24" height="24" fill="currentColor">ab</svg>"#
    );
}
