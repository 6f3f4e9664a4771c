use vstd::prelude::*;

use crate::config::lemma_raw_text_not_void;
use crate::lower::{
    attrs_holes, attrs_html, element_holes, has_directive, html, html_element, html_node,
    html_nodes, is_directive_attr, is_void, name_holes, node_holes, nodes_holes,
    value_at, HoleView,
};
use crate::node::{AttrValue, Attribute, CloseName, CloseTag, Element, Node, TagName};

verus! {

/// `<name _hr_no_raw>source</name>`, where the raw text `source` is the host
/// expression `expr`.
pub open spec fn is_inline_block(n: Node, name: Seq<char>, expr: usize) -> bool {
    &&& n is Element
    &&& n->Element_0.name is Ident
    &&& n->Element_0.name->Ident_0@ == name
    &&& n->Element_0.attributes@.len() == 1
    &&& is_directive_attr(n->Element_0.attributes@[0])
    &&& !n->Element_0.self_closed
    &&& n->Element_0.children@.len() == 1
    &&& n->Element_0.children@[0] is RawText
    &&& n->Element_0.children@[0]->RawText_expr == expr
    &&& n->Element_0.close is Some
    &&& n->Element_0.close->Some_0.name is Named
    &&& n->Element_0.close->Some_0.name->Named_0 is Ident
    &&& n->Element_0.close->Some_0.name->Named_0->Ident_0@ == name
}

/// The HTML of an inline block: its name's tags around the value of its expression.
pub open spec fn inline_html(name: Seq<char>, value: Seq<char>) -> Seq<char> {
    "<"@ + name + ">"@ + value + "</"@ + name + ">"@
}

fn inline_block(name: &str, source: String, expr: usize) -> (r: Node)
    ensures
        is_inline_block(r, name@, expr),
{
    let directive = Attribute::Keyed {
        key: TagName::Ident("_hr_no_raw".to_owned()),
        value: AttrValue::Bare,
    };
    let r = Node::Element(
        Element {
            name: TagName::Ident(name.to_owned()),
            generics: false,
            attributes: vec![directive],
            self_closed: false,
            children: vec![Node::RawText { text: source, expr }],
            close: Some(
                CloseTag { name: CloseName::Named(TagName::Ident(name.to_owned())), generics: false },
            ),
        },
    );
    r
}

/// `<style _hr_no_raw>{contents}</style>`: a stylesheet whose contents are the value of
/// the host expression `expr` (written as `source`), interpolated rather than baked in.
pub fn inline_style(source: String, expr: usize) -> (r: Node)
    ensures
        is_inline_block(r, "style"@, expr),
{
    inline_block("style", source, expr)
}

/// `<script _hr_no_raw>{contents}</script>`: a script whose contents are the value of
/// the host expression `expr` (written as `source`), interpolated rather than baked in.
pub fn inline_script(source: String, expr: usize) -> (r: Node)
    ensures
        is_inline_block(r, "script"@, expr),
{
    inline_block("script", source, expr)
}

/// An inline style or script block writes its tags around the value of its expression,
/// which is evaluated once.
pub proof fn lemma_inline_block(n: Node, name: Seq<char>, expr: usize, env: Seq<Seq<char>>)
    requires
        name == "style"@ || name == "script"@,
        is_inline_block(n, name, expr),
    ensures
        html_node(n, false, env) == inline_html(name, value_at(env, expr)),
        node_holes(n, false) == seq![HoleView::Text(expr)],
{
    let el = n->Element_0;
    let attrs = el.attributes@;
    let ch = el.children@;
    lemma_raw_text_not_void(name);
    assert(!is_void(el));
    assert(has_directive(attrs)) by {
        assert(is_directive_attr(attrs[0]));
    }
    assert(attrs.drop_last() =~= Seq::<Attribute>::empty());
    assert(attrs_html(Seq::<Attribute>::empty(), env) == Seq::<char>::empty());
    assert(attrs_html(attrs, env) =~= Seq::<char>::empty());
    assert(attrs_holes(Seq::<Attribute>::empty()) == Seq::<HoleView>::empty());
    assert(attrs_holes(attrs) =~= Seq::<HoleView>::empty());
    assert(ch.subrange(0, 0) =~= Seq::<Node>::empty());
    assert(html_nodes(Seq::<Node>::empty(), true, env) == Seq::<char>::empty());
    assert(html_nodes(ch, true, env) == html_nodes(ch.subrange(0, 0), true, env) + html_node(
        ch[0],
        true,
        env,
    ));
    assert(html_nodes(ch, true, env) =~= value_at(env, expr));
    assert(nodes_holes(Seq::<Node>::empty(), true) == Seq::<HoleView>::empty());
    assert(nodes_holes(ch, true) == nodes_holes(ch.subrange(0, 0), true) + node_holes(
        ch[0],
        true,
    ));
    assert(nodes_holes(ch, true) =~= seq![HoleView::Text(expr)]);
    assert(name_holes(el.name) =~= Seq::<HoleView>::empty());
    assert(name_holes(el.close->Some_0.name->Named_0) =~= Seq::<HoleView>::empty());
    assert(element_holes(el) =~= seq![HoleView::Text(expr)]);
    assert(html_element(el, env) =~= inline_html(name, value_at(env, expr)));
}

/// Two inline blocks of the same kind whose expressions have the same value write the
/// same block twice.
pub proof fn lemma_inline_twice(
    a: Node,
    b: Node,
    name: Seq<char>,
    ea: usize,
    eb: usize,
    env: Seq<Seq<char>>,
)
    requires
        name == "style"@ || name == "script"@,
        is_inline_block(a, name, ea),
        is_inline_block(b, name, eb),
        value_at(env, ea) == value_at(env, eb),
    ensures
        html(seq![a, b], env) == inline_html(name, value_at(env, ea)) + inline_html(
            name,
            value_at(env, ea),
        ),
{
    lemma_inline_block(a, name, ea, env);
    lemma_inline_block(b, name, eb, env);
    let ns = seq![a, b];
    assert(ns.subrange(0, 1) =~= seq![a]);
    assert(seq![a].subrange(0, 0) =~= Seq::<Node>::empty());
    assert(html_nodes(Seq::<Node>::empty(), false, env) == Seq::<char>::empty());
    assert(html_nodes(seq![a], false, env) == html_nodes(seq![a].subrange(0, 0), false, env)
        + html_node(a, false, env));
    assert(html_nodes(seq![a], false, env) =~= html_node(a, false, env));
    assert(html_nodes(ns, false, env) == html_nodes(ns.subrange(0, 1), false, env) + html_node(
        b,
        false,
        env,
    ));
}

} // verus!
