use svg_react_preview::serialize::{is_void, push_escaped};
use svg_react_preview::serialize::{to_xml, write_node};
use svg_react_preview::transform::SvgNode;

fn elem(name: &str, attrs: &[(&str, &str)], children: Vec<SvgNode>) -> SvgNode {
    SvgNode::Element {
        name: name.into(),
        attrs: attrs
            .iter()
            .map(|(k, v)| ((*k).into(), (*v).into()))
            .collect(),
        children,
    }
}

#[test]
fn renders_text_child() {
    let n = elem("text", &[], vec![SvgNode::Text("hi".into())]);
    assert_eq!(to_xml(&n), "<text>hi</text>");
}

#[test]
fn renders_comment_child() {
    let n = elem("g", &[], vec![SvgNode::Comment("hello".into())]);
    assert_eq!(to_xml(&n), "<g><!-- hello --></g>");
}

#[test]
fn comment_internal_dashes_are_neutralised() {
    let n = SvgNode::Comment("a--b".into());
    assert_eq!(to_xml(&n), "<!-- a- - b -->");
}

#[test]
fn escapes_attr_values() {
    let n = elem("g", &[("title", r#"a&b<c"d"#)], vec![]);
    assert_eq!(to_xml(&n), r#"<g title="a&amp;b&lt;c&quot;d"></g>"#);
}

#[test]
fn escapes_text_content() {
    let n = elem("text", &[], vec![SvgNode::Text("a&b<c>d".into())]);
    assert_eq!(to_xml(&n), "<text>a&amp;b&lt;c&gt;d</text>");
}

#[test]
fn void_element_self_closes_when_empty() {
    let p = elem("path", &[("d", "M0")], vec![]);
    assert_eq!(to_xml(&p), r#"<path d="M0"/>"#);
}

#[test]
fn void_element_with_children_uses_open_close() {
    let p = elem("path", &[], vec![SvgNode::Text("x".into())]);
    assert_eq!(to_xml(&p), "<path>x</path>");
}

#[test]
fn non_void_element_uses_open_close() {
    let g = elem("g", &[], vec![]);
    assert_eq!(to_xml(&g), "<g></g>");
}

#[test]
fn triple_dash_and_gt_in_attr_are_kept_inert() {
    let n = SvgNode::Comment("x---y".into());
    assert_eq!(to_xml(&n), "<!-- x- - -y -->");
    let g = elem("g", &[("a", "1>0")], vec![SvgNode::Text("\"q\"".into())]);
    assert_eq!(to_xml(&g), "<g a=\"1>0\">\"q\"</g>");
}

#[test]
fn nested_children_in_order() {
    let n = elem(
        "svg",
        &[("a", "1"), ("b", "2")],
        vec![elem("g", &[], vec![elem("circle", &[("r", "5")], vec![])]), elem("stop", &[], vec![])],
    );
    assert_eq!(to_xml(&n), r#"<svg a="1" b="2"><g><circle r="5"/></g><stop/></svg>"#);
}

/// Reads the four entities that escaping writes back as characters.
fn unescape(s: &str) -> String {
    s.replace("&lt;", "<").replace("&gt;", ">").replace("&quot;", "\"").replace("&amp;", "&")
}

#[test]
fn escaping_round_trips() {
    let text = "a&amp;b<c>\"d\" & &lt;";
    let xml = to_xml(&SvgNode::Text(text.into()));
    assert_eq!(xml, "a&amp;amp;b&lt;c&gt;\"d\" &amp; &amp;lt;");
    assert_eq!(unescape(&xml), text);
    let el = to_xml(&elem("g", &[("title", text)], vec![]));
    let value = el.strip_prefix("<g title=\"").unwrap().strip_suffix("\"></g>").unwrap();
    assert_eq!(unescape(value), text);
}

#[test]
fn write_node_appends() {
    let mut out = String::from("<!-- head -->");
    write_node(&SvgNode::Comment("---".into()), &mut out);
    assert_eq!(out, "<!-- head --><!-- - - - -->");
}

#[test]
fn void_names_and_escaping_steps() {
    for name in ["path", "circle", "rect", "line", "polyline", "polygon", "ellipse", "use", "image", "stop"] {
        assert!(is_void(name), "{name}");
    }
    for name in ["g", "svg", "text", "Path"] {
        assert!(!is_void(name), "{name}");
    }
    let mut out = String::from(">");
    push_escaped("a\"<>&", &mut out, true);
    assert_eq!(out, ">a&quot;&lt;>&amp;");
    let mut out = String::new();
    push_escaped("a\"<>&", &mut out, false);
    assert_eq!(out, "a\"&lt;&gt;&amp;");
}
