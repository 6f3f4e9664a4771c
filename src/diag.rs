use vstd::prelude::*;

use crate::config::same_text;
use crate::lower::{is_void, static_name, static_name_text, element_is_void};
use crate::node::{AttrValue, Attribute, CloseName, Element, Node, TagName};

verus! {

/// A problem found in a parsed template. The template is still lowered: each problem
/// is reported beside the result.
#[derive(PartialEq, Eq, Structural, Clone, Copy, Debug)]
pub enum Diagnostic {
    /// A tag written with generics (`<x<T>>`).
    Generics,
    /// A name that is a path (`a::b`) rather than an identifier.
    NotAnIdentifier,
    /// A name punctuated with something other than `-` or `:`.
    UnknownPunctuation,
    /// An attribute value in binding form, which templates do not accept.
    BindingValue,
    /// A close tag on a void element.
    CloseOnVoid,
    /// A close tag whose name differs from its open tag's.
    MismatchedClose,
    /// An element that is neither void nor closed.
    Unclosed,
}

pub open spec fn punct_diag(c: char) -> Seq<Diagnostic> {
    if c == '-' || c == ':' {
        Seq::empty()
    } else {
        seq![Diagnostic::UnknownPunctuation]
    }
}

pub open spec fn punct_diags(ps: Seq<char>) -> Seq<Diagnostic>
    decreases ps.len(),
{
    if ps.len() == 0 {
        Seq::empty()
    } else {
        punct_diags(ps.drop_last()) + punct_diag(ps.last())
    }
}

pub open spec fn name_diags(n: TagName) -> Seq<Diagnostic> {
    match n {
        TagName::Path(_) => seq![Diagnostic::NotAnIdentifier],
        TagName::Punctuated { puncts, .. } => punct_diags(puncts@),
        _ => Seq::empty(),
    }
}

pub open spec fn attr_diags(a: Attribute) -> Seq<Diagnostic> {
    match a {
        Attribute::Block(_) => Seq::empty(),
        Attribute::Keyed { key, value } => name_diags(key) + if value is Binding {
            seq![Diagnostic::BindingValue]
        } else {
            Seq::empty()
        },
    }
}

pub open spec fn attrs_diags(attrs: Seq<Attribute>) -> Seq<Diagnostic>
    decreases attrs.len(),
{
    if attrs.len() == 0 {
        Seq::empty()
    } else {
        attrs_diags(attrs.drop_last()) + attr_diags(attrs.last())
    }
}

/// Whether a close name differs from its open name. Two host-expression names cannot be
/// compared before run time and are taken to match.
pub open spec fn names_differ(open: TagName, close: TagName) -> bool {
    match (open, close) {
        (TagName::Block(_), TagName::Block(_)) => false,
        (TagName::Block(_), _) => true,
        (_, TagName::Block(_)) => true,
        _ => static_name(open) != static_name(close),
    }
}

pub open spec fn close_diags(el: Element) -> Seq<Diagnostic> {
    match el.close {
        None => seq![Diagnostic::Unclosed],
        Some(c) => (if c.generics {
            seq![Diagnostic::Generics]
        } else {
            Seq::empty()
        }) + match c.name {
            CloseName::Wildcard => Seq::empty(),
            CloseName::Named(n) => name_diags(n) + if names_differ(el.name, n) {
                seq![Diagnostic::MismatchedClose]
            } else {
                Seq::empty()
            },
        },
    }
}

/// The problems of a sequence of nodes, in source order.
pub open spec fn nodes_diags(ns: Seq<Node>) -> Seq<Diagnostic>
    decreases ns,
{
    if ns.len() == 0 {
        Seq::empty()
    } else {
        nodes_diags(ns.subrange(0, ns.len() - 1)) + node_diags(ns[ns.len() - 1])
    }
}

pub open spec fn node_diags(n: Node) -> Seq<Diagnostic>
    decreases n,
{
    match n {
        Node::Fragment(ch) => nodes_diags(ch@),
        Node::Element(el) => element_diags(el),
        _ => Seq::empty(),
    }
}

pub open spec fn element_diags(el: Element) -> Seq<Diagnostic>
    decreases el,
{
    (if el.generics {
        seq![Diagnostic::Generics]
    } else {
        Seq::empty()
    }) + name_diags(el.name) + attrs_diags(el.attributes@) + if is_void(el) {
        if el.close is Some {
            seq![Diagnostic::CloseOnVoid]
        } else {
            Seq::empty()
        }
    } else {
        nodes_diags(el.children@) + close_diags(el)
    }
}

fn report(out: &mut Vec<Diagnostic>, d: Diagnostic)
    ensures
        final(out)@ == old(out)@ + seq![d],
{
    out.push(d);
    assert(out@ =~= old(out)@ + seq![d]);
}

fn check_puncts(ps: &Vec<char>, out: &mut Vec<Diagnostic>)
    ensures
        final(out)@ == old(out)@ + punct_diags(ps@),
{
    let ghost d0 = out@;
    let mut i: usize = 0;
    assert(d0 =~= d0 + punct_diags(ps@.subrange(0, 0)));
    while i < ps.len()
        invariant
            i <= ps.len(),
            out@ == d0 + punct_diags(ps@.subrange(0, i as int)),
        decreases ps.len() - i,
    {
        let c = ps[i];
        let ghost before = out@;
        if c != '-' && c != ':' {
            report(out, Diagnostic::UnknownPunctuation);
        } else {
            assert(punct_diag(c) == Seq::<Diagnostic>::empty());
            assert(out@ =~= before + Seq::<Diagnostic>::empty());
        }
        proof {
            let next = ps@.subrange(0, i + 1);
            assert(next.drop_last() =~= ps@.subrange(0, i as int));
            assert(next.last() == c);
            assert(out@ =~= before + punct_diag(c));
            assert(out@ =~= d0 + punct_diags(next));
        }
        i += 1;
    }
    assert(ps@.subrange(0, ps.len() as int) =~= ps@);
}

fn check_name(n: &TagName, out: &mut Vec<Diagnostic>)
    ensures
        final(out)@ == old(out)@ + name_diags(*n),
{
    match n {
        TagName::Path(_) => report(out, Diagnostic::NotAnIdentifier),
        TagName::Punctuated { puncts, .. } => check_puncts(puncts, out),
        _ => assert(out@ =~= old(out)@ + name_diags(*n)),
    }
}

fn check_attrs(attrs: &Vec<Attribute>, out: &mut Vec<Diagnostic>)
    ensures
        final(out)@ == old(out)@ + attrs_diags(attrs@),
{
    let ghost d0 = out@;
    let mut i: usize = 0;
    assert(d0 =~= d0 + attrs_diags(attrs@.subrange(0, 0)));
    while i < attrs.len()
        invariant
            i <= attrs.len(),
            out@ == d0 + attrs_diags(attrs@.subrange(0, i as int)),
        decreases attrs.len() - i,
    {
        let ghost before = out@;
        match &attrs[i] {
            Attribute::Block(_) => {},
            Attribute::Keyed { key, value } => {
                check_name(key, out);
                if let AttrValue::Binding = value {
                    report(out, Diagnostic::BindingValue);
                }
            },
        }
        proof {
            let next = attrs@.subrange(0, i + 1);
            assert(next.drop_last() =~= attrs@.subrange(0, i as int));
            assert(next.last() == attrs@[i as int]);
            assert(out@ =~= before + attr_diags(attrs@[i as int]));
            assert(out@ =~= d0 + attrs_diags(next));
        }
        i += 1;
    }
    assert(attrs@.subrange(0, attrs.len() as int) =~= attrs@);
}

fn check_names_differ(open: &TagName, close: &TagName) -> (r: bool)
    ensures
        r == names_differ(*open, *close),
{
    match (open, close) {
        (TagName::Block(_), TagName::Block(_)) => false,
        (TagName::Block(_), _) => true,
        (_, TagName::Block(_)) => true,
        _ => {
            let a = static_name_text(open);
            let b = static_name_text(close);
            !same_text(a.as_str(), b.as_str())
        },
    }
}

fn check_nodes(ns: &Vec<Node>, out: &mut Vec<Diagnostic>)
    ensures
        final(out)@ == old(out)@ + nodes_diags(ns@),
    decreases ns@,
{
    let ghost d0 = out@;
    let mut i: usize = 0;
    assert(d0 =~= d0 + nodes_diags(ns@.subrange(0, 0)));
    while i < ns.len()
        invariant
            i <= ns.len(),
            out@ == d0 + nodes_diags(ns@.subrange(0, i as int)),
        decreases ns.len() - i,
    {
        check_node(&ns[i], out);
        proof {
            let next = ns@.subrange(0, i + 1);
            assert(next.subrange(0, next.len() - 1) =~= ns@.subrange(0, i as int));
            assert(next[next.len() - 1] == ns@[i as int]);
            assert(out@ =~= d0 + nodes_diags(next));
        }
        i += 1;
    }
    assert(ns@.subrange(0, ns.len() as int) =~= ns@);
}

fn check_node(n: &Node, out: &mut Vec<Diagnostic>)
    ensures
        final(out)@ == old(out)@ + node_diags(*n),
    decreases *n,
{
    match n {
        Node::Fragment(ch) => check_nodes(ch, out),
        Node::Element(el) => check_element(el, out),
        _ => assert(out@ =~= old(out)@ + node_diags(*n)),
    }
}

fn check_close(el: &Element, out: &mut Vec<Diagnostic>)
    ensures
        final(out)@ == old(out)@ + close_diags(*el),
{
    let ghost d0 = out@;
    match &el.close {
        None => report(out, Diagnostic::Unclosed),
        Some(c) => {
            if c.generics {
                report(out, Diagnostic::Generics);
            }
            let ghost d1 = out@;
            match &c.name {
                CloseName::Wildcard => {},
                CloseName::Named(n) => {
                    check_name(n, out);
                    if check_names_differ(&el.name, n) {
                        report(out, Diagnostic::MismatchedClose);
                    }
                },
            }
            assert(out@ =~= d0 + close_diags(*el));
        },
    }
}

fn check_element(el: &Element, out: &mut Vec<Diagnostic>)
    ensures
        final(out)@ == old(out)@ + element_diags(*el),
    decreases *el,
{
    let ghost d0 = out@;
    if el.generics {
        report(out, Diagnostic::Generics);
    }
    check_name(&el.name, out);
    check_attrs(&el.attributes, out);
    let ghost d1 = out@;
    let ghost head = (if el.generics {
        seq![Diagnostic::Generics]
    } else {
        Seq::<Diagnostic>::empty()
    }) + name_diags(el.name) + attrs_diags(el.attributes@);
    assert(d1 =~= d0 + head);
    if element_is_void(el) {
        if el.close.is_some() {
            report(out, Diagnostic::CloseOnVoid);
        }
        assert(out@ =~= d0 + element_diags(*el));
    } else {
        check_nodes(&el.children, out);
        check_close(el, out);
        assert(out@ =~= d0 + element_diags(*el));
    }
}

/// The problems of a template, in source order.
pub fn check(nodes: &Vec<Node>) -> (r: Vec<Diagnostic>)
    ensures
        r@ == nodes_diags(nodes@),
{
    let mut out: Vec<Diagnostic> = Vec::new();
    check_nodes(nodes, &mut out);
    assert(out@ =~= nodes_diags(nodes@));
    out
}

} // verus!
