use svg_react_preview::attr_map::{map_attr, AttrAction};
use svg_react_preview::defaults::fallback_for;

fn used(name: &str) -> String {
    match map_attr(name) {
        AttrAction::Use(n) => n,
        _ => panic!("{name} should be kept"),
    }
}

#[test]
fn camel_case_becomes_kebab_or_namespaced() {
    assert_eq!(used("className"), "class");
    assert_eq!(used("strokeWidth"), "stroke-width");
    assert_eq!(used("panose1"), "panose-1");
    assert_eq!(used("xlinkHref"), "xlink:href");
    assert_eq!(used("xmlnsXlink"), "xmlns:xlink");
    assert_eq!(used("xmlSpace"), "xml:space");
}

#[test]
fn native_camel_case_passes_through() {
    assert_eq!(used("viewBox"), "viewBox");
    assert_eq!(used("preserveAspectRatio"), "preserveAspectRatio");
    assert_eq!(used("refX"), "refX");
    assert_eq!(used("on"), "on");
    assert_eq!(used("once"), "once");
}

#[test]
fn handlers_and_react_props_are_dropped() {
    for name in ["onClick", "onMouseEnter", "htmlFor", "ref", "key"] {
        assert!(matches!(map_attr(name), AttrAction::Drop), "{name}");
    }
    match map_attr("dangerouslySetInnerHTML") {
        AttrAction::DropWarn(m) => assert_eq!(
            m,
            "dangerouslySetInnerHTML stripped \u{2014} arbitrary HTML rendering is not supported"
        ),
        _ => panic!("expected a warning"),
    }
}

#[test]
fn fallbacks_by_attribute_name() {
    assert_eq!(fallback_for("size"), Some("24"));
    assert_eq!(fallback_for("width"), Some("24"));
    assert_eq!(fallback_for("height"), Some("24"));
    assert_eq!(fallback_for("color"), Some("currentColor"));
    assert_eq!(fallback_for("fill"), Some("currentColor"));
    assert_eq!(fallback_for("stroke"), Some("none"));
    assert_eq!(fallback_for("strokeWidth"), Some("1.5"));
    assert_eq!(fallback_for("stroke-width"), Some("1.5"));
    assert_eq!(fallback_for("x"), None);
}

/// The kebab-case rule, applied in the test to every JSX name the table knows.
fn kebab(name: &str) -> String {
    let mut out = String::new();
    for c in name.chars() {
        if c.is_ascii_uppercase() {
            out.push('-');
            out.push(c.to_ascii_lowercase());
        } else if c.is_ascii_digit() {
            out.push('-');
            out.push(c);
        } else {
            out.push(c);
        }
    }
    out
}

#[test]
fn spellings_follow_the_kebab_rule() {
    for name in [
        "accentHeight", "alignmentBaseline", "horizAdvX", "panose1", "strokeDasharray",
        "strokeMiterlimit", "underlineThickness", "vAlphabetic", "xHeight", "fontSizeAdjust",
    ] {
        assert_eq!(used(name), kebab(name), "{name}");
    }
    assert_eq!(used("horizAdvX"), "horiz-adv-x");
    assert_eq!(used("xlinkArcrole"), "xlink:arcrole");
    assert_eq!(used("xmlLang"), "xml:lang");
}
