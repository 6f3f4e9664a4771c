use vstd::prelude::*;

use crate::attr::IntoAttrText;
use crate::diag::{close_diags, element_diags, names_differ, node_diags, nodes_diags};
use crate::config::{is_raw_text_name, is_void_name, lemma_raw_text_not_void};
use crate::lower::{
    attr_hole, attr_holes, attr_html, attrs_holes, attrs_html, close_holes, close_name,
    element_holes, has_directive, html, html_element, html_node, html_nodes, is_directive_key,
    is_void, joined, name_holes, name_text, node_holes, nodes_holes, spaced, static_name,
    value_at, HoleView,
};
use crate::node::{AttrValue, Attribute, CloseName, Element, Node, TagName};

verus! {

// ---------------------------------------------------------------------------
// Templates without host expressions

pub open spec fn name_is_static(n: TagName) -> bool {
    !(n is Block)
}

pub open spec fn attr_is_static(a: Attribute) -> bool {
    match a {
        Attribute::Block(_) => false,
        Attribute::Keyed { key, value } => is_directive_key(key) || (name_is_static(key)
            && !(value is Block)),
    }
}

pub open spec fn attrs_are_static(attrs: Seq<Attribute>) -> bool {
    forall|i: int| 0 <= i < attrs.len() ==> attr_is_static(#[trigger] attrs[i])
}

pub open spec fn close_is_static(el: Element) -> bool {
    match el.close {
        Some(c) => match c.name {
            CloseName::Named(n) => name_is_static(n),
            CloseName::Wildcard => true,
        },
        None => true,
    }
}

/// Nodes with no host expression; `raw` as in `html_nodes`.
pub open spec fn nodes_are_static(ns: Seq<Node>, raw: bool) -> bool
    decreases ns,
{
    ns.len() == 0 || (nodes_are_static(ns.subrange(0, ns.len() - 1), raw) && node_is_static(
        ns[ns.len() - 1],
        raw,
    ))
}

pub open spec fn node_is_static(n: Node, raw: bool) -> bool
    decreases n,
{
    match n {
        Node::Block(_) => false,
        Node::RawText { .. } => !raw,
        Node::Fragment(ch) => nodes_are_static(ch@, raw),
        Node::Element(el) => element_is_static(el),
        _ => true,
    }
}

pub open spec fn element_is_static(el: Element) -> bool
    decreases el,
{
    name_is_static(el.name) && attrs_are_static(el.attributes@) && (is_void(el) || (
    nodes_are_static(el.children@, has_directive(el.attributes@)) && close_is_static(el)))
}

proof fn lemma_static_attrs(attrs: Seq<Attribute>, env: Seq<Seq<char>>)
    requires
        attrs_are_static(attrs),
    ensures
        attrs_holes(attrs) == Seq::<HoleView>::empty(),
        attrs_html(attrs, env) == attrs_html(attrs, Seq::empty()),
    decreases attrs.len(),
{
    if attrs.len() > 0 {
        let init = attrs.drop_last();
        assert(attrs_are_static(init)) by {
            assert forall|i: int| 0 <= i < init.len() implies attr_is_static(#[trigger] init[i]) by {
                assert(init[i] == attrs[i]);
            }
        }
        assert(attr_is_static(attrs[attrs.len() - 1]));
        lemma_static_attrs(init, env);
        let a = attrs.last();
        match a {
            Attribute::Keyed { key, value } => {
                if !is_directive_key(key) {
                    assert(name_holes(key) =~= Seq::<HoleView>::empty());
                }
            },
            _ => {},
        }
        assert(attr_holes(a) =~= Seq::<HoleView>::empty());
        assert(attrs_holes(attrs) =~= Seq::<HoleView>::empty());
    }
}

proof fn lemma_static_nodes(ns: Seq<Node>, raw: bool, env: Seq<Seq<char>>)
    requires
        nodes_are_static(ns, raw),
    ensures
        nodes_holes(ns, raw) == Seq::<HoleView>::empty(),
        html_nodes(ns, raw, env) == html_nodes(ns, raw, Seq::empty()),
    decreases ns,
{
    if ns.len() > 0 {
        let init = ns.subrange(0, ns.len() - 1);
        lemma_static_nodes(init, raw, env);
        lemma_static_node(ns[ns.len() - 1], raw, env);
        assert(nodes_holes(ns, raw) =~= Seq::<HoleView>::empty());
    }
}

proof fn lemma_static_node(n: Node, raw: bool, env: Seq<Seq<char>>)
    requires
        node_is_static(n, raw),
    ensures
        node_holes(n, raw) == Seq::<HoleView>::empty(),
        html_node(n, raw, env) == html_node(n, raw, Seq::empty()),
    decreases n,
{
    match n {
        Node::Fragment(ch) => lemma_static_nodes(ch@, raw, env),
        Node::Element(el) => lemma_static_element(el, env),
        _ => {},
    }
}

proof fn lemma_static_element(el: Element, env: Seq<Seq<char>>)
    requires
        element_is_static(el),
    ensures
        element_holes(el) == Seq::<HoleView>::empty(),
        html_element(el, env) == html_element(el, Seq::empty()),
    decreases el,
{
    lemma_static_attrs(el.attributes@, env);
    assert(name_holes(el.name) =~= Seq::<HoleView>::empty());
    if is_void(el) {
        assert(element_holes(el) =~= Seq::<HoleView>::empty());
    } else {
        lemma_static_nodes(el.children@, has_directive(el.attributes@), env);
        match el.close {
            Some(c) => match c.name {
                CloseName::Named(n) => assert(name_holes(n) =~= Seq::<HoleView>::empty()),
                CloseName::Wildcard => {},
            },
            None => {},
        }
        assert(element_holes(el) =~= Seq::<HoleView>::empty());
    }
}

/// A template without host expressions evaluates nothing at run time, and its HTML
/// is fixed when it is compiled: the same whatever the environment.
pub proof fn lemma_static_template(ns: Seq<Node>, env: Seq<Seq<char>>)
    requires
        nodes_are_static(ns, false),
    ensures
        nodes_holes(ns, false) == Seq::<HoleView>::empty(),
        html(ns, env) == html(ns, Seq::empty()),
{
    lemma_static_nodes(ns, false, env);
}

// ---------------------------------------------------------------------------
// Void elements

/// An element named by a void element is emitted as `<name attrs/>`: no children,
/// no close tag, and nothing of them evaluated.
pub proof fn lemma_void_element(el: Element, env: Seq<Seq<char>>)
    requires
        name_is_static(el.name),
        is_void_name(static_name(el.name)),
    ensures
        html_element(el, env) == "<"@ + static_name(el.name) + attrs_html(el.attributes@, env)
            + "/>"@,
        element_holes(el) == attrs_holes(el.attributes@),
{
    assert(name_holes(el.name) =~= Seq::<HoleView>::empty());
    assert(element_holes(el) =~= attrs_holes(el.attributes@));
}

// ---------------------------------------------------------------------------
// Wildcard close

/// An element with a host-expression name closed by `</_>` evaluates the name once,
/// and its text stands in both the open and the close tag. Where the element mentions
/// that expression nowhere else, it is evaluated exactly once.
pub proof fn lemma_wildcard_close(el: Element, e: usize, env: Seq<Seq<char>>)
    requires
        el.name == TagName::Block(e),
        el.close is Some,
        el.close->Some_0.name is Wildcard,
        !el.self_closed,
    ensures
        html_element(el, env) == "<"@ + value_at(env, e) + attrs_html(el.attributes@, env) + ">"@
            + html_nodes(el.children@, has_directive(el.attributes@), env) + "</"@ + value_at(
            env,
            e,
        ) + ">"@,
        element_holes(el) == seq![HoleView::Text(e)] + attrs_holes(el.attributes@) + nodes_holes(
            el.children@,
            has_directive(el.attributes@),
        ),
        occurrences(element_ids(el), e) <= 1 ==> occurrences(hole_exprs(element_holes(el)), e)
            == 1,
{
    assert(close_name(el) == el.name);
    let rest = attrs_holes(el.attributes@) + nodes_holes(
        el.children@,
        has_directive(el.attributes@),
    );
    let h = seq![HoleView::Text(e)] + rest;
    assert(element_holes(el) =~= h);
    lemma_element_once(el, e);
    lemma_one(HoleView::Text(e), e);
    lemma_split(seq![HoleView::Text(e)], rest, Seq::empty(), Seq::empty(), e);
    assert(seq![HoleView::Text(e)] + rest == h);
}

// ---------------------------------------------------------------------------
// Attributes whose value is a host expression

/// A boolean attribute: `false` leaves it out, `true` gives the bare key.
pub proof fn lemma_boolean_attribute(flag: bool, key: Seq<char>)
    ensures
        flag.attr_text(key) == if flag {
            key
        } else {
            Seq::<char>::empty()
        },
        spaced(flag.attr_text(key)) == if flag && key.len() > 0 {
            " "@ + key
        } else {
            Seq::<char>::empty()
        },
{
}

/// An optional attribute: `None` leaves it out, `Some(v)` is the attribute of `v`.
pub proof fn lemma_optional_attribute<'a, T: IntoAttrText<'a>>(v: T, key: Seq<char>)
    ensures
        Option::<T>::None.attr_text(key) == Seq::<char>::empty(),
        Some(v).attr_text(key) == v.attr_text(key),
{
}

/// A keyed attribute whose value converts to nothing adds nothing to the open tag,
/// not even its key.
pub proof fn lemma_omitted_attribute(key: TagName, e: usize, env: Seq<Seq<char>>)
    requires
        value_at(env, e).len() == 0,
    ensures
        attr_html(Attribute::Keyed { key, value: AttrValue::Block(e) }, env) == Seq::<
            char,
        >::empty(),
{
}

/// A keyed attribute whose value converts to its key (as `true` does) is that bare key
/// after a space.
pub proof fn lemma_present_boolean_attribute(key: TagName, e: usize, env: Seq<Seq<char>>)
    requires
        !is_directive_key(key),
        name_text(key, env).len() > 0,
        value_at(env, e) == name_text(key, env),
    ensures
        attr_html(Attribute::Keyed { key, value: AttrValue::Block(e) }, env) == " "@ + name_text(
            key,
            env,
        ),
{
}

// ---------------------------------------------------------------------------
// Punctuated names

/// A punctuated name is its segments joined with `-`, whatever punctuation was written.
pub proof fn lemma_punctuation_ignored(
    segments: Vec<String>,
    p: Vec<char>,
    q: Vec<char>,
    env: Seq<Seq<char>>,
)
    ensures
        name_text(TagName::Punctuated { segments, puncts: p }, env) == joined(segments@),
        name_text(TagName::Punctuated { segments, puncts: p }, env) == name_text(
            TagName::Punctuated { segments, puncts: q },
            env,
        ),
{
}

/// An element with punctuated names in its open and close tag writes the same joined
/// name in both.
pub proof fn lemma_punctuated_element(el: Element, env: Seq<Seq<char>>)
    requires
        el.name is Punctuated,
        el.close is Some,
        el.close->Some_0.name is Named,
        el.close->Some_0.name->Named_0 is Punctuated,
        el.close->Some_0.name->Named_0->Punctuated_segments@ == el.name->Punctuated_segments@,
        !is_void(el),
    ensures
        html_element(el, env) == "<"@ + joined(el.name->Punctuated_segments@) + attrs_html(
            el.attributes@,
            env,
        ) + ">"@ + html_nodes(el.children@, has_directive(el.attributes@), env) + "</"@ + joined(
            el.name->Punctuated_segments@,
        ) + ">"@,
{
}

// ---------------------------------------------------------------------------
// Raw text

/// Inside an element, raw text is written as it stands; where the element carries the
/// directive, the raw text is a host expression and its value is written instead.
pub proof fn lemma_raw_text_element(el: Element, text: String, e: usize, env: Seq<Seq<char>>)
    requires
        name_is_static(el.name),
        is_raw_text_name(static_name(el.name)),
        !el.self_closed,
        el.children@ == seq![Node::RawText { text, expr: e }],
    ensures
        html_element(el, env) == "<"@ + static_name(el.name) + attrs_html(el.attributes@, env)
            + ">"@ + (if has_directive(el.attributes@) {
            value_at(env, e)
        } else {
            text@
        }) + "</"@ + name_text(close_name(el), env) + ">"@,
{
    lemma_raw_text_not_void(static_name(el.name));
    let ch = el.children@;
    let raw = has_directive(el.attributes@);
    assert(ch.len() == 1);
    assert(ch.subrange(0, 0) =~= Seq::<Node>::empty());
    assert(html_nodes(Seq::<Node>::empty(), raw, env) == Seq::<char>::empty());
    assert(html_nodes(ch, raw, env) == html_nodes(ch.subrange(0, 0), raw, env) + html_node(
        ch[0],
        raw,
        env,
    ));
    assert(html_nodes(ch, raw, env) =~= html_node(ch[0], raw, env));
}

// ---------------------------------------------------------------------------
// Each host expression is evaluated at most once

/// The ids of the host expressions that a name mentions.
pub open spec fn name_ids(n: TagName) -> Seq<usize> {
    match n {
        TagName::Block(e) => seq![e],
        _ => Seq::empty(),
    }
}

pub open spec fn attr_ids(a: Attribute) -> Seq<usize> {
    match a {
        Attribute::Block(e) => seq![e],
        Attribute::Keyed { key, value } => name_ids(key) + match value {
            AttrValue::Block(e) => seq![e],
            _ => Seq::empty(),
        },
    }
}

pub open spec fn attrs_ids(attrs: Seq<Attribute>) -> Seq<usize>
    decreases attrs.len(),
{
    if attrs.len() == 0 {
        Seq::empty()
    } else {
        attrs_ids(attrs.drop_last()) + attr_ids(attrs.last())
    }
}

pub open spec fn close_ids(el: Element) -> Seq<usize> {
    match el.close {
        Some(c) => match c.name {
            CloseName::Named(n) => name_ids(n),
            CloseName::Wildcard => Seq::empty(),
        },
        None => Seq::empty(),
    }
}

/// The ids of the host expressions that nodes mention, in source order.
pub open spec fn nodes_ids(ns: Seq<Node>) -> Seq<usize>
    decreases ns,
{
    if ns.len() == 0 {
        Seq::empty()
    } else {
        nodes_ids(ns.subrange(0, ns.len() - 1)) + node_ids(ns[ns.len() - 1])
    }
}

pub open spec fn node_ids(n: Node) -> Seq<usize>
    decreases n,
{
    match n {
        Node::RawText { expr, .. } => seq![expr],
        Node::Block(e) => seq![e],
        Node::Fragment(ch) => nodes_ids(ch@),
        Node::Element(el) => element_ids(el),
        _ => Seq::empty(),
    }
}

pub open spec fn element_ids(el: Element) -> Seq<usize>
    decreases el,
{
    name_ids(el.name) + attrs_ids(el.attributes@) + nodes_ids(el.children@) + close_ids(el)
}

/// The expression that a hole evaluates.
pub open spec fn hole_expr(h: HoleView) -> usize {
    match h {
        HoleView::Text(e) => e,
        HoleView::AttrKey { expr, .. } => expr,
        HoleView::AttrKeyHole { expr, .. } => expr,
    }
}

pub open spec fn hole_exprs(hs: Seq<HoleView>) -> Seq<usize> {
    hs.map_values(|h: HoleView| hole_expr(h))
}

/// How many times `e` stands in `s`.
pub open spec fn occurrences(s: Seq<usize>, e: usize) -> nat
    decreases s.len(),
{
    if s.len() == 0 {
        0
    } else {
        occurrences(s.drop_last(), e) + if s.last() == e {
            1nat
        } else {
            0nat
        }
    }
}

proof fn lemma_occurrences_concat(a: Seq<usize>, b: Seq<usize>, e: usize)
    ensures
        occurrences(a + b, e) == occurrences(a, e) + occurrences(b, e),
    decreases b.len(),
{
    if b.len() == 0 {
        assert(a + b =~= a);
    } else {
        lemma_occurrences_concat(a, b.drop_last(), e);
        assert((a + b).drop_last() =~= a + b.drop_last());
    }
}

proof fn lemma_hole_exprs_concat(a: Seq<HoleView>, b: Seq<HoleView>)
    ensures
        hole_exprs(a + b) == hole_exprs(a) + hole_exprs(b),
{
    assert(hole_exprs(a + b) =~= hole_exprs(a) + hole_exprs(b));
}

/// Occurrences of `e` among the holes of `h1 + h2` and among the ids of `i1 + i2`.
proof fn lemma_split(h1: Seq<HoleView>, h2: Seq<HoleView>, i1: Seq<usize>, i2: Seq<usize>, e: usize)
    ensures
        occurrences(hole_exprs(h1 + h2), e) == occurrences(hole_exprs(h1), e) + occurrences(
            hole_exprs(h2),
            e,
        ),
        occurrences(i1 + i2, e) == occurrences(i1, e) + occurrences(i2, e),
{
    lemma_hole_exprs_concat(h1, h2);
    lemma_occurrences_concat(hole_exprs(h1), hole_exprs(h2), e);
    lemma_occurrences_concat(i1, i2, e);
}

proof fn lemma_one(h: HoleView, e: usize)
    ensures
        hole_exprs(seq![h]) == seq![hole_expr(h)],
        occurrences(seq![hole_expr(h)], e) == if hole_expr(h) == e {
            1nat
        } else {
            0nat
        },
        occurrences(Seq::<usize>::empty(), e) == 0,
        hole_exprs(Seq::<HoleView>::empty()) == Seq::<usize>::empty(),
{
    assert(hole_exprs(seq![h]) =~= seq![hole_expr(h)]);
    let one = seq![hole_expr(h)];
    assert(one.drop_last() =~= Seq::<usize>::empty());
    assert(one.last() == hole_expr(h));
    assert(occurrences(Seq::<usize>::empty(), e) == 0);
    assert(occurrences(one, e) == occurrences(one.drop_last(), e) + if one.last() == e {
        1nat
    } else {
        0nat
    });
    assert(hole_exprs(Seq::<HoleView>::empty()) =~= Seq::<usize>::empty());
}

proof fn lemma_name_once(n: TagName, e: usize)
    ensures
        occurrences(hole_exprs(name_holes(n)), e) == occurrences(name_ids(n), e),
{
    match n {
        TagName::Block(x) => lemma_one(HoleView::Text(x), e),
        _ => lemma_one(HoleView::Text(0), e),
    }
}

proof fn lemma_attr_once(a: Attribute, e: usize)
    ensures
        occurrences(hole_exprs(attr_holes(a)), e) <= occurrences(attr_ids(a), e),
{
    lemma_one(HoleView::Text(0), e);
    match a {
        Attribute::Block(x) => lemma_one(HoleView::Text(x), e),
        Attribute::Keyed { key, value } => {
            lemma_name_once(key, e);
            if !is_directive_key(key) {
                match value {
                    AttrValue::Block(x) => {
                        lemma_one(attr_hole(x, key), e);
                        lemma_split(name_holes(key), seq![attr_hole(x, key)], name_ids(key), seq![x], e);
                    },
                    _ => {
                        lemma_split(name_holes(key), Seq::empty(), name_ids(key), Seq::empty(), e);
                    },
                }
            } else {
                match value {
                    AttrValue::Block(x) => lemma_split(Seq::empty(), Seq::empty(), name_ids(key), seq![x], e),
                    _ => lemma_split(Seq::empty(), Seq::empty(), name_ids(key), Seq::empty(), e),
                }
            }
        },
    }
}

proof fn lemma_attrs_once(attrs: Seq<Attribute>, e: usize)
    ensures
        occurrences(hole_exprs(attrs_holes(attrs)), e) <= occurrences(attrs_ids(attrs), e),
    decreases attrs.len(),
{
    if attrs.len() == 0 {
        lemma_one(HoleView::Text(0), e);
    } else {
        lemma_attrs_once(attrs.drop_last(), e);
        lemma_attr_once(attrs.last(), e);
        lemma_split(
            attrs_holes(attrs.drop_last()),
            attr_holes(attrs.last()),
            attrs_ids(attrs.drop_last()),
            attr_ids(attrs.last()),
            e,
        );
    }
}

proof fn lemma_nodes_once(ns: Seq<Node>, raw: bool, e: usize)
    ensures
        occurrences(hole_exprs(nodes_holes(ns, raw)), e) <= occurrences(nodes_ids(ns), e),
    decreases ns,
{
    if ns.len() == 0 {
        lemma_one(HoleView::Text(0), e);
    } else {
        let init = ns.subrange(0, ns.len() - 1);
        let last = ns[ns.len() - 1];
        lemma_nodes_once(init, raw, e);
        lemma_node_once(last, raw, e);
        lemma_split(nodes_holes(init, raw), node_holes(last, raw), nodes_ids(init), node_ids(last), e);
    }
}

proof fn lemma_node_once(n: Node, raw: bool, e: usize)
    ensures
        occurrences(hole_exprs(node_holes(n, raw)), e) <= occurrences(node_ids(n), e),
    decreases n,
{
    lemma_one(HoleView::Text(0), e);
    match n {
        Node::RawText { expr, .. } => lemma_one(HoleView::Text(expr), e),
        Node::Block(x) => lemma_one(HoleView::Text(x), e),
        Node::Fragment(ch) => lemma_nodes_once(ch@, raw, e),
        Node::Element(el) => lemma_element_once(el, e),
        _ => {},
    }
}

proof fn lemma_element_once(el: Element, e: usize)
    ensures
        occurrences(hole_exprs(element_holes(el)), e) <= occurrences(element_ids(el), e),
    decreases el,
{
    let attrs = el.attributes@;
    let raw = has_directive(attrs);
    lemma_one(HoleView::Text(0), e);
    lemma_name_once(el.name, e);
    lemma_attrs_once(attrs, e);
    lemma_nodes_once(el.children@, raw, e);
    let close_name_ids = close_ids(el);
    match el.close {
        Some(c) => match c.name {
            CloseName::Named(n) => lemma_name_once(n, e),
            CloseName::Wildcard => {},
        },
        None => {},
    }
    assert(occurrences(hole_exprs(close_holes(el)), e) == occurrences(close_name_ids, e));
    let head_h = name_holes(el.name) + attrs_holes(attrs);
    let head_i = name_ids(el.name) + attrs_ids(attrs);
    lemma_split(name_holes(el.name), attrs_holes(attrs), name_ids(el.name), attrs_ids(attrs), e);
    lemma_split(
        nodes_holes(el.children@, raw),
        close_holes(el),
        nodes_ids(el.children@),
        close_name_ids,
        e,
    );
    lemma_occurrences_concat(head_i + nodes_ids(el.children@), close_name_ids, e);
    lemma_occurrences_concat(head_i, nodes_ids(el.children@), e);
    let tail_h = if is_void(el) {
        Seq::<HoleView>::empty()
    } else {
        nodes_holes(el.children@, raw) + close_holes(el)
    };
    lemma_hole_exprs_concat(head_h, tail_h);
    lemma_occurrences_concat(hole_exprs(head_h), hole_exprs(tail_h), e);
    assert(element_ids(el) == head_i + nodes_ids(el.children@) + close_name_ids);
}

/// A template that mentions a host expression once evaluates it at most once at run
/// time: a wildcard close, for one, reuses its open tag's evaluated name.
pub proof fn lemma_evaluated_at_most_once(ns: Seq<Node>, e: usize)
    requires
        occurrences(nodes_ids(ns), e) <= 1,
    ensures
        occurrences(hole_exprs(nodes_holes(ns, false)), e) <= 1,
{
    lemma_nodes_once(ns, false, e);
}

// ---------------------------------------------------------------------------
// Elements inside a template

/// Whether the element `el` is written in the nodes, at any depth, where its HTML is
/// emitted (not among the children of a void element).
pub open spec fn nodes_contain(ns: Seq<Node>, el: Element) -> bool
    decreases ns,
{
    ns.len() > 0 && (nodes_contain(ns.subrange(0, ns.len() - 1), el) || node_contains(
        ns[ns.len() - 1],
        el,
    ))
}

pub open spec fn node_contains(n: Node, el: Element) -> bool
    decreases n,
{
    match n {
        Node::Fragment(ch) => nodes_contain(ch@, el),
        Node::Element(x) => x == el || element_contains(x, el),
        _ => false,
    }
}

pub open spec fn element_contains(x: Element, el: Element) -> bool
    decreases x,
{
    !is_void(x) && nodes_contain(x.children@, el)
}

/// Whether the HTML `h` holds `part` somewhere.
pub open spec fn holds_part(h: Seq<char>, part: Seq<char>) -> bool {
    exists|p: Seq<char>, q: Seq<char>| #[trigger] (p + part + q) == h
}

proof fn lemma_part_extend(h: Seq<char>, part: Seq<char>, before: Seq<char>, after: Seq<char>)
    requires
        holds_part(h, part),
    ensures
        holds_part(before + h + after, part),
{
    let (p, q) = choose|p: Seq<char>, q: Seq<char>| #[trigger] (p + part + q) == h;
    let p2 = before + p;
    let q2 = q + after;
    assert(p2 + part + q2 =~= before + h + after);
}

proof fn lemma_part_whole(part: Seq<char>)
    ensures
        holds_part(part, part),
{
    let e = Seq::<char>::empty();
    assert(e + part + e =~= part);
}

proof fn lemma_nodes_output(ns: Seq<Node>, raw: bool, el: Element, env: Seq<Seq<char>>)
    requires
        nodes_contain(ns, el),
    ensures
        holds_part(html_nodes(ns, raw, env), html_element(el, env)),
    decreases ns,
{
    let init = ns.subrange(0, ns.len() - 1);
    let last = ns[ns.len() - 1];
    let e = Seq::<char>::empty();
    if nodes_contain(init, el) {
        lemma_nodes_output(init, raw, el, env);
        lemma_part_extend(html_nodes(init, raw, env), html_element(el, env), e, html_node(
            last,
            raw,
            env,
        ));
        assert(e + html_nodes(init, raw, env) + html_node(last, raw, env) =~= html_nodes(
            ns,
            raw,
            env,
        ));
    } else {
        lemma_node_output(last, raw, el, env);
        lemma_part_extend(html_node(last, raw, env), html_element(el, env), html_nodes(
            init,
            raw,
            env,
        ), e);
        assert(html_nodes(init, raw, env) + html_node(last, raw, env) + e =~= html_nodes(
            ns,
            raw,
            env,
        ));
    }
}

proof fn lemma_node_output(n: Node, raw: bool, el: Element, env: Seq<Seq<char>>)
    requires
        node_contains(n, el),
    ensures
        holds_part(html_node(n, raw, env), html_element(el, env)),
    decreases n,
{
    match n {
        Node::Fragment(ch) => lemma_nodes_output(ch@, raw, el, env),
        Node::Element(x) => {
            if x == el {
                lemma_part_whole(html_element(el, env));
            } else {
                let d = has_directive(x.attributes@);
                lemma_nodes_output(x.children@, d, el, env);
                let before = "<"@ + name_text(x.name, env) + attrs_html(x.attributes@, env) + ">"@;
                let after = "</"@ + name_text(close_name(x), env) + ">"@;
                lemma_part_extend(html_nodes(x.children@, d, env), html_element(el, env), before, after);
                assert(before + html_nodes(x.children@, d, env) + after =~= html_element(x, env));
            }
        },
        _ => {},
    }
}

proof fn lemma_nodes_evaluations(ns: Seq<Node>, raw: bool, el: Element, e: usize)
    requires
        nodes_contain(ns, el),
    ensures
        occurrences(hole_exprs(element_holes(el)), e) <= occurrences(
            hole_exprs(nodes_holes(ns, raw)),
            e,
        ),
    decreases ns,
{
    let init = ns.subrange(0, ns.len() - 1);
    let last = ns[ns.len() - 1];
    lemma_split(nodes_holes(init, raw), node_holes(last, raw), Seq::empty(), Seq::empty(), e);
    if nodes_contain(init, el) {
        lemma_nodes_evaluations(init, raw, el, e);
    } else {
        lemma_node_evaluations(last, raw, el, e);
    }
}

proof fn lemma_node_evaluations(n: Node, raw: bool, el: Element, e: usize)
    requires
        node_contains(n, el),
    ensures
        occurrences(hole_exprs(element_holes(el)), e) <= occurrences(
            hole_exprs(node_holes(n, raw)),
            e,
        ),
    decreases n,
{
    match n {
        Node::Fragment(ch) => lemma_nodes_evaluations(ch@, raw, el, e),
        Node::Element(x) => {
            if x != el {
                let d = has_directive(x.attributes@);
                lemma_nodes_evaluations(x.children@, d, el, e);
                let head = name_holes(x.name) + attrs_holes(x.attributes@);
                lemma_split(head, nodes_holes(x.children@, d) + close_holes(x), Seq::empty(), Seq::empty(), e);
                lemma_split(nodes_holes(x.children@, d), close_holes(x), Seq::empty(), Seq::empty(), e);
                assert(element_holes(x) == head + (nodes_holes(x.children@, d) + close_holes(x)));
            }
        },
        _ => {},
    }
}

/// Each host expression of the template is mentioned once.
pub open spec fn ids_unique(ns: Seq<Node>) -> bool {
    forall|e: usize| #[trigger] occurrences(nodes_ids(ns), e) <= 1
}

/// A void element written anywhere in a template stands in its HTML as
/// `<name attrs/>`: no children and no close tag.
pub proof fn lemma_void_in_template(ns: Seq<Node>, el: Element, env: Seq<Seq<char>>)
    requires
        nodes_contain(ns, el),
        name_is_static(el.name),
        is_void_name(static_name(el.name)),
    ensures
        holds_part(
            html(ns, env),
            "<"@ + static_name(el.name) + attrs_html(el.attributes@, env) + "/>"@,
        ),
{
    lemma_void_element(el, env);
    lemma_nodes_output(ns, false, el, env);
}

/// In a template that mentions each host expression once, an element written anywhere
/// with a host-expression name and `</_>` has that expression evaluated exactly once
/// in the whole template, and its text stands in both the open and the close tag.
pub proof fn lemma_wildcard_in_template(ns: Seq<Node>, el: Element, e: usize, env: Seq<Seq<char>>)
    requires
        ids_unique(ns),
        nodes_contain(ns, el),
        el.name == TagName::Block(e),
        el.close is Some,
        el.close->Some_0.name is Wildcard,
        !el.self_closed,
    ensures
        occurrences(hole_exprs(nodes_holes(ns, false)), e) == 1,
        holds_part(
            html(ns, env),
            "<"@ + value_at(env, e) + attrs_html(el.attributes@, env) + ">"@ + html_nodes(
                el.children@,
                has_directive(el.attributes@),
                env,
            ) + "</"@ + value_at(env, e) + ">"@,
        ),
{
    lemma_wildcard_close(el, e, env);
    let rest = attrs_holes(el.attributes@) + nodes_holes(el.children@, has_directive(el.attributes@));
    lemma_one(HoleView::Text(e), e);
    lemma_split(seq![HoleView::Text(e)], rest, Seq::empty(), Seq::empty(), e);
    assert(hole_expr(HoleView::Text(e)) == e);
    assert(occurrences(hole_exprs(seq![HoleView::Text(e)]), e) == 1);
    assert(element_holes(el) == seq![HoleView::Text(e)] + rest);
    assert(occurrences(hole_exprs(element_holes(el)), e) >= 1);
    lemma_nodes_evaluations(ns, false, el, e);
    assert(occurrences(nodes_ids(ns), e) <= 1);
    lemma_evaluated_at_most_once(ns, e);
    lemma_nodes_output(ns, false, el, env);
}

/// An element written anywhere in a template whose open and close names are the same
/// segments, punctuated with any mix of `-` and `:`, stands in its HTML with the
/// segments joined by `-` in both tags.
pub proof fn lemma_punctuated_in_template(ns: Seq<Node>, el: Element, env: Seq<Seq<char>>)
    requires
        nodes_contain(ns, el),
        el.name is Punctuated,
        el.close is Some,
        el.close->Some_0.name is Named,
        el.close->Some_0.name->Named_0 is Punctuated,
        el.close->Some_0.name->Named_0->Punctuated_segments@ == el.name->Punctuated_segments@,
        !is_void(el),
    ensures
        holds_part(
            html(ns, env),
            "<"@ + joined(el.name->Punctuated_segments@) + attrs_html(el.attributes@, env) + ">"@
                + html_nodes(el.children@, has_directive(el.attributes@), env) + "</"@ + joined(
                el.name->Punctuated_segments@,
            ) + ">"@,
        ),
{
    lemma_punctuated_element(el, env);
    lemma_nodes_output(ns, false, el, env);
}

// ---------------------------------------------------------------------------
// Close tags

/// The names written in the close tags of the HTML, in order: every element that is
/// not void writes `</` + the text of its close name + `>` after its children.
pub open spec fn nodes_closes(ns: Seq<Node>) -> Seq<TagName>
    decreases ns,
{
    if ns.len() == 0 {
        Seq::empty()
    } else {
        nodes_closes(ns.subrange(0, ns.len() - 1)) + node_closes(ns[ns.len() - 1])
    }
}

pub open spec fn node_closes(n: Node) -> Seq<TagName>
    decreases n,
{
    match n {
        Node::Fragment(ch) => nodes_closes(ch@),
        Node::Element(el) => element_closes(el),
        _ => Seq::empty(),
    }
}

pub open spec fn element_closes(el: Element) -> Seq<TagName>
    decreases el,
{
    if is_void(el) {
        Seq::empty()
    } else {
        nodes_closes(el.children@) + seq![close_name(el)]
    }
}

/// No written close tag names a void element known when compiling.
pub open spec fn no_void_close(cs: Seq<TagName>) -> bool {
    forall|i: int|
        0 <= i < cs.len() && name_is_static(#[trigger] cs[i]) ==> !is_void_name(static_name(cs[i]))
}

proof fn lemma_no_void_close_concat(a: Seq<TagName>, b: Seq<TagName>)
    requires
        no_void_close(a),
        no_void_close(b),
    ensures
        no_void_close(a + b),
{
    assert forall|i: int| 0 <= i < (a + b).len() && name_is_static(#[trigger] (a + b)[i]) implies !is_void_name(
        static_name((a + b)[i]),
    ) by {
        if i < a.len() {
            assert((a + b)[i] == a[i]);
        } else {
            assert((a + b)[i] == b[i - a.len()]);
        }
    }
}

proof fn lemma_nodes_no_void_close(ns: Seq<Node>)
    requires
        nodes_diags(ns).len() == 0,
    ensures
        no_void_close(nodes_closes(ns)),
    decreases ns,
{
    if ns.len() > 0 {
        let init = ns.subrange(0, ns.len() - 1);
        let last = ns[ns.len() - 1];
        assert(nodes_diags(ns) == nodes_diags(init) + node_diags(last));
        lemma_nodes_no_void_close(init);
        lemma_node_no_void_close(last);
        lemma_no_void_close_concat(nodes_closes(init), node_closes(last));
    }
}

proof fn lemma_node_no_void_close(n: Node)
    requires
        node_diags(n).len() == 0,
    ensures
        no_void_close(node_closes(n)),
    decreases n,
{
    match n {
        Node::Fragment(ch) => lemma_nodes_no_void_close(ch@),
        Node::Element(el) => lemma_element_no_void_close(el),
        _ => {},
    }
}

proof fn lemma_element_no_void_close(el: Element)
    requires
        element_diags(el).len() == 0,
    ensures
        no_void_close(element_closes(el)),
    decreases el,
{
    if !is_void(el) {
        assert(nodes_diags(el.children@).len() == 0);
        assert(close_diags(el).len() == 0);
        lemma_nodes_no_void_close(el.children@);
        let c = close_name(el);
        match el.close {
            Some(t) => match t.name {
                CloseName::Named(n) => assert(!names_differ(el.name, n)),
                CloseName::Wildcard => {},
            },
            None => {},
        }
        assert(no_void_close(seq![c]));
        lemma_no_void_close_concat(nodes_closes(el.children@), seq![c]);
    }
}

/// In a template with no diagnostics, no close tag of its HTML names a void element:
/// a void element writes none, and every other close tag repeats a name that is not
/// void. Names that are host expressions are known only at run time and are not judged.
pub proof fn lemma_no_void_close_tag(ns: Seq<Node>)
    requires
        nodes_diags(ns).len() == 0,
    ensures
        no_void_close(nodes_closes(ns)),
{
    lemma_nodes_no_void_close(ns);
}

} // verus!
