//! Serialises an SVG element tree as XML text.

use vstd::prelude::*;

use crate::text::{chars_of, push_char, push_str, replace, replace_all, starts_with, str_eq};
use crate::transform::{lemma_nodes_view_len, node_view, nodes_view, pairs_view, SvgNode, XmlNode};

verus! {

broadcast use {
    vstd::std_specs::vec::axiom_vec_decreases_to_view,
    vstd::std_specs::vec::axiom_vec_index_decreases,
};

/// How one character is written: `&` and `<` always escaped, `"` escaped
/// inside attribute values and `>` escaped in text.
pub open spec fn escape_char(c: char, in_attr: bool) -> Seq<char> {
    if c == '&' {
        "&amp;"@
    } else if c == '<' {
        "&lt;"@
    } else if c == '"' && in_attr {
        "&quot;"@
    } else if c == '>' && !in_attr {
        "&gt;"@
    } else {
        seq![c]
    }
}

/// `s` with each character escaped.
pub open spec fn escaped(s: Seq<char>, in_attr: bool) -> Seq<char>
    decreases s.len(),
{
    if s.len() == 0 {
        Seq::empty()
    } else {
        escaped(s.drop_last(), in_attr) + escape_char(s.last(), in_attr)
    }
}

/// Elements written as `<name .../>` when they have no children.
pub open spec fn is_void_name(name: Seq<char>) -> bool {
    ||| name == "path"@
    ||| name == "circle"@
    ||| name == "rect"@
    ||| name == "line"@
    ||| name == "polyline"@
    ||| name == "polygon"@
    ||| name == "ellipse"@
    ||| name == "use"@
    ||| name == "image"@
    ||| name == "stop"@
}

/// ` k="v"` for each attribute, in order.
pub open spec fn attrs_xml(a: Seq<(Seq<char>, Seq<char>)>) -> Seq<char>
    decreases a.len(),
{
    if a.len() == 0 {
        Seq::empty()
    } else {
        attrs_xml(a.drop_last()) + " "@ + a.last().0 + "=\""@ + escaped(a.last().1, true) + "\""@
    }
}

/// The XML text of a node.
pub open spec fn xml(n: XmlNode) -> Seq<char>
    decreases n,
{
    match n {
        XmlNode::Element { name, attrs, children } => "<"@ + name + attrs_xml(attrs) + if children.len()
            == 0 && is_void_name(name) {
            "/>"@
        } else {
            ">"@ + children_xml(children) + "</"@ + name + ">"@
        },
        XmlNode::Text(t) => escaped(t, false),
        XmlNode::Comment(c) => "<!-- "@ + replace_all(c, "--"@, "- - "@) + " -->"@,
    }
}

/// The XML text of a sequence of nodes, concatenated.
pub open spec fn children_xml(s: Seq<XmlNode>) -> Seq<char>
    decreases s,
{
    if s.len() == 0 {
        Seq::empty()
    } else {
        children_xml(s.drop_last()) + xml(s.last())
    }
}

/// Serialises an SVG node tree as XML.
pub fn to_xml(node: &SvgNode) -> (res: String)
    ensures
        res@ == xml(node@),
{
    let mut out = String::new();
    write_node(node, &mut out);
    assert(out@ =~= xml(node@));
    out
}

/// Appends the XML text of `node` to `out`.
pub fn write_node(node: &SvgNode, out: &mut String)
    ensures
        final(out)@ == old(out)@ + xml(node_view(*node)),
    decreases node,
{
    match node {
        SvgNode::Element { name, attrs, children } => {
            let ghost start = out@;
            push_str(out, "<");
            push_str(out, name.as_str());
            let mut i: usize = 0;
            while i < attrs.len()
                invariant
                    i <= attrs@.len(),
                    out@ == start + "<"@ + name@ + attrs_xml(pairs_view(attrs@).take(i as int)),
                decreases attrs.len() - i,
            {
                let ghost before = out@;
                assert(pairs_view(attrs@).take(i + 1).drop_last() =~= pairs_view(attrs@).take(
                    i as int,
                ));
                push_str(out, " ");
                push_str(out, attrs[i].0.as_str());
                push_str(out, "=\"");
                push_escaped(attrs[i].1.as_str(), out, true);
                push_str(out, "\"");
                assert(out@ =~= start + "<"@ + name@ + attrs_xml(pairs_view(attrs@).take(i + 1)));
                i += 1;
            }
            assert(pairs_view(attrs@).take(attrs@.len() as int) =~= pairs_view(attrs@));
            let ghost head = out@;
            proof {
                lemma_nodes_view_len(children@);
            }
            if children.len() == 0 && is_void(name.as_str()) {
                push_str(out, "/>");
                assert(out@ =~= old(out)@ + xml(node_view(*node)));
            } else {
                push_str(out, ">");
                assert(decreases_to!(*node => *children));
                let mut k: usize = 0;
                while k < children.len()
                    invariant
                        k <= children@.len(),
                        decreases_to!(*node => *children),
                        nodes_view(children@).len() == children@.len(),
                        forall|j: int|
                            0 <= j < children@.len() ==> #[trigger] nodes_view(children@)[j]
                                == node_view(children@[j]),
                        out@ == head + ">"@ + children_xml(nodes_view(children@).take(k as int)),
                    decreases children.len() - k,
                {
                    assert(nodes_view(children@).take(k + 1).drop_last() =~= nodes_view(
                        children@,
                    ).take(k as int));
                    assert(decreases_to!(*children => children@[k as int]));
                    assert(decreases_to!(*node => children@[k as int]));
                    write_node(&children[k], out);
                    assert(out@ =~= head + ">"@ + children_xml(
                        nodes_view(children@).take(k + 1),
                    ));
                    k += 1;
                }
                assert(nodes_view(children@).take(children@.len() as int) =~= nodes_view(
                    children@,
                ));
                push_str(out, "</");
                push_str(out, name.as_str());
                push_str(out, ">");
                assert(out@ =~= old(out)@ + xml(node_view(*node)));
            }
        },
        SvgNode::Text(t) => push_escaped(t.as_str(), out, false),
        SvgNode::Comment(c) => {
            push_str(out, "<!-- ");
            proof {
                reveal_strlit("--");
            }
            let r = replace(c.as_str(), "--", "- - ");
            push_str(out, r.as_str());
            push_str(out, " -->");
            assert(out@ =~= old(out)@ + xml(node_view(*node)));
        },
    }
}

/// Appends `s` to `out` with each character escaped for an attribute value
/// (`in_attr`) or for text.
pub fn push_escaped(s: &str, out: &mut String, in_attr: bool)
    ensures
        final(out)@ == old(out)@ + escaped(s@, in_attr),
{
    let v = chars_of(s);
    let mut i: usize = 0;
    while i < v.len()
        invariant
            i <= v@.len(),
            out@ == old(out)@ + escaped(v@.take(i as int), in_attr),
        decreases v.len() - i,
    {
        assert(v@.take(i + 1).drop_last() =~= v@.take(i as int));
        let ch = v[i];
        if ch == '&' {
            push_str(out, "&amp;");
        } else if ch == '<' {
            push_str(out, "&lt;");
        } else if ch == '"' && in_attr {
            push_str(out, "&quot;");
        } else if ch == '>' && !in_attr {
            push_str(out, "&gt;");
        } else {
            push_char(out, ch);
        }
        assert(out@ =~= old(out)@ + escaped(v@.take(i + 1), in_attr));
        i += 1;
    }
    assert(v@.take(v@.len() as int) =~= v@);
}

/// Whether an element of this name is written as `<name .../>` when empty.
pub fn is_void(name: &str) -> (res: bool)
    ensures
        res == is_void_name(name@),
{
    str_eq(name, "path") || str_eq(name, "circle") || str_eq(name, "rect") || str_eq(name, "line")
        || str_eq(name, "polyline") || str_eq(name, "polygon") || str_eq(name, "ellipse")
        || str_eq(name, "use") || str_eq(name, "image") || str_eq(name, "stop")
}

/// `s` has no character from `bad`.
pub open spec fn avoids(s: Seq<char>, bad: Set<char>) -> bool {
    forall|i: int| 0 <= i < s.len() ==> !bad.contains(#[trigger] s[i])
}

proof fn lemma_escape_char_safe(c: char, in_attr: bool)
    ensures
        in_attr ==> avoids(escape_char(c, in_attr), set!['"', '<']),
        !in_attr ==> avoids(escape_char(c, in_attr), set!['<', '>']),
{
    reveal_strlit("&amp;");
    reveal_strlit("&lt;");
    reveal_strlit("&quot;");
    reveal_strlit("&gt;");
}

/// Escaped attribute values hold no `"` or `<`, and escaped text holds no `<`
/// or `>`: whatever the input, an attribute value cannot close its quotes and
/// text cannot open or close a tag.
pub proof fn lemma_escaped_is_inert(s: Seq<char>, in_attr: bool)
    ensures
        in_attr ==> avoids(escaped(s, in_attr), set!['"', '<']),
        !in_attr ==> avoids(escaped(s, in_attr), set!['<', '>']),
    decreases s.len(),
{
    if s.len() > 0 {
        lemma_escaped_is_inert(s.drop_last(), in_attr);
        lemma_escape_char_safe(s.last(), in_attr);
        let a = escaped(s.drop_last(), in_attr);
        let b = escape_char(s.last(), in_attr);
        assert forall|i: int| 0 <= i < a.len() + b.len() implies #[trigger] (a + b)[i] == (if i
            < a.len() {
            a[i]
        } else {
            b[i - a.len()]
        }) by {}
    }
}

/// XML text with the entities that escaping writes (`&amp;`, `&lt;`, `&gt;`,
/// `&quot;`) read back as characters.
pub open spec fn unescaped(s: Seq<char>) -> Seq<char>
    decreases s.len(),
{
    if s.len() == 0 {
        Seq::empty()
    } else if s.len() >= 5 && s.take(5) == "&amp;"@ {
        seq!['&'] + unescaped(s.skip(5))
    } else if s.len() >= 4 && s.take(4) == "&lt;"@ {
        seq!['<'] + unescaped(s.skip(4))
    } else if s.len() >= 4 && s.take(4) == "&gt;"@ {
        seq!['>'] + unescaped(s.skip(4))
    } else if s.len() >= 6 && s.take(6) == "&quot;"@ {
        seq!['"'] + unescaped(s.skip(6))
    } else {
        seq![s[0]] + unescaped(s.skip(1))
    }
}

proof fn lemma_unescape_char(c: char, in_attr: bool, r: Seq<char>)
    ensures
        unescaped(escape_char(c, in_attr) + r) == seq![c] + unescaped(r),
{
    reveal_strlit("&amp;");
    reveal_strlit("&lt;");
    reveal_strlit("&quot;");
    reveal_strlit("&gt;");
    let e = escape_char(c, in_attr);
    let s = e + r;
    let n = e.len() as int;
    assert(s.skip(n) =~= r);
    assert(s.take(n) =~= e);
    assert(s[0] == e[0]);
    if n > 1 {
        assert(s[1] == e[1]);
    }
    if s.len() >= 5 {
        assert(s.take(5)[0] == s[0] && s.take(5)[1] == s[1]);
    }
    if s.len() >= 4 {
        assert(s.take(4)[0] == s[0] && s.take(4)[1] == s[1]);
    }
    if s.len() >= 6 {
        assert(s.take(6)[0] == s[0] && s.take(6)[1] == s[1]);
    }
}

proof fn lemma_escaped_front(s: Seq<char>, in_attr: bool)
    requires
        s.len() > 0,
    ensures
        escaped(s, in_attr) == escape_char(s[0], in_attr) + escaped(s.skip(1), in_attr),
    decreases s.len(),
{
    if s.len() == 1 {
        assert(s.drop_last() =~= Seq::<char>::empty());
        assert(s.skip(1) =~= Seq::<char>::empty());
        assert(escaped(s, in_attr) =~= escape_char(s[0], in_attr));
    } else {
        lemma_escaped_front(s.drop_last(), in_attr);
        assert(s.skip(1).drop_last() =~= s.drop_last().skip(1));
        assert(s.skip(1).last() == s.last());
        assert(s.drop_last()[0] == s[0]);
        assert(escaped(s, in_attr) =~= escape_char(s[0], in_attr) + escaped(s.skip(1), in_attr));
    }
}

/// Escaping loses nothing: reading the entities back gives the text that was
/// escaped, in attribute values and in text alike.
pub proof fn lemma_escaping_round_trips(s: Seq<char>, in_attr: bool)
    ensures
        unescaped(escaped(s, in_attr)) == s,
    decreases s.len(),
{
    if s.len() == 0 {
        assert(escaped(s, in_attr) =~= Seq::<char>::empty());
    } else {
        lemma_escaped_front(s, in_attr);
        lemma_unescape_char(s[0], in_attr, escaped(s.skip(1), in_attr));
        lemma_escaping_round_trips(s.skip(1), in_attr);
        assert(seq![s[0]] + s.skip(1) =~= s);
    }
}

/// No two `-` in a row.
pub open spec fn no_double_dash(s: Seq<char>) -> bool {
    forall|i: int| 0 <= i < s.len() - 1 ==> !(#[trigger] s[i] == '-' && s[i + 1] == '-')
}

proof fn lemma_dash_free_step(s: Seq<char>)
    ensures
        no_double_dash(replace_all(s, "--"@, "- - "@)),
        replace_all(s, "--"@, "- - "@).len() > 0 && replace_all(s, "--"@, "- - "@)[0] == '-'
            ==> s.len() > 0 && s[0] == '-',
    decreases s.len(),
{
    reveal_strlit("--");
    reveal_strlit("- - ");
    let pat = "--"@;
    let rep = "- - "@;
    let r = replace_all(s, pat, rep);
    if s.len() > 0 {
        if starts_with(s, pat) {
            lemma_dash_free_step(s.skip(2));
            let r1 = replace_all(s.skip(2), pat, rep);
            assert(r == rep + r1);
            assert(s.take(2)[0] == s[0]);
            assert forall|i: int| 0 <= i < r.len() - 1 implies !(#[trigger] r[i] == '-' && r[i + 1]
                == '-') by {
                if i >= 4 {
                    assert(r[i] == r1[i - 4] && r[i + 1] == r1[i - 3]);
                }
            }
        } else {
            lemma_dash_free_step(s.skip(1));
            let r1 = replace_all(s.skip(1), pat, rep);
            assert(r == seq![s[0]] + r1);
            assert forall|i: int| 0 <= i < r.len() - 1 implies !(#[trigger] r[i] == '-' && r[i + 1]
                == '-') by {
                if i >= 1 {
                    assert(r[i] == r1[i - 1] && r[i + 1] == r1[i]);
                } else if r[0] == '-' && r[1] == '-' {
                    assert(r1[0] == '-');
                    assert(s.skip(1)[0] == s[1]);
                    assert(s.take(2) =~= pat);
                }
            }
        }
    }
}

/// After neutralising, a comment's text holds no `--`, so it cannot end the
/// comment early.
pub proof fn lemma_comment_text_dash_free(c: Seq<char>)
    ensures
        no_double_dash(replace_all(c, "--"@, "- - "@)),
{
    lemma_dash_free_step(c);
}

} // verus!
