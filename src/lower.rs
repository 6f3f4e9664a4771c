use vstd::prelude::*;

use crate::hyper::HyperText;
use crate::diag::{check, nodes_diags, Diagnostic};
use crate::config::{is_directive, is_directive_name, is_void_element, is_void_name};
use crate::node::{AttrValue, Attribute, CloseName, Element, Node, TagName};

verus! {

/// A piece of the lowered template: static text or a reference to an evaluated hole.
pub enum Chunk {
    /// Text known when the template is compiled.
    Lit(String),
    /// The text of the host expression with this id.
    Hole(usize),
    /// The attribute text of the keyed value with this id, after a space, or nothing
    /// where that text is empty: the attribute is then left out, key and all.
    Attr(usize),
}

/// What a `Chunk` stands for.
pub enum ChunkView {
    Lit(Seq<char>),
    Hole(usize),
    Attr(usize),
}

impl View for Chunk {
    type V = ChunkView;

    open spec fn view(&self) -> ChunkView {
        match self {
            Chunk::Lit(s) => ChunkView::Lit(s@),
            Chunk::Hole(e) => ChunkView::Hole(*e),
            Chunk::Attr(e) => ChunkView::Attr(*e),
        }
    }
}

/// One evaluation of a host expression at run time, in template order.
pub enum Hole {
    /// Body conversion of the expression.
    Text(usize),
    /// Attribute conversion of the expression under a key written in the template.
    AttrKey { expr: usize, key: String },
    /// Attribute conversion of the expression under the text of the key expression `key_expr`.
    AttrKeyHole { expr: usize, key_expr: usize },
}

/// What a `Hole` stands for.
pub enum HoleView {
    Text(usize),
    AttrKey { expr: usize, key: Seq<char> },
    AttrKeyHole { expr: usize, key_expr: usize },
}

impl View for Hole {
    type V = HoleView;

    open spec fn view(&self) -> HoleView {
        match self {
            Hole::Text(e) => HoleView::Text(*e),
            Hole::AttrKey { expr, key } => HoleView::AttrKey { expr: *expr, key: key@ },
            Hole::AttrKeyHole { expr, key_expr } => HoleView::AttrKeyHole { expr: *expr, key_expr: *key_expr },
        }
    }
}

/// A lowered template: the chunks to concatenate, the holes to evaluate first, and the
/// problems found in the template, to be reported where it stands.
pub struct Lowered {
    pub chunks: Vec<Chunk>,
    pub holes: Vec<Hole>,
    pub diagnostics: Vec<Diagnostic>,
}

pub open spec fn chunk_views(cs: Seq<Chunk>) -> Seq<ChunkView> {
    cs.map_values(|c: Chunk| c@)
}

pub open spec fn hole_views(hs: Seq<Hole>) -> Seq<HoleView> {
    hs.map_values(|h: Hole| h@)
}

// ---------------------------------------------------------------------------
// Names

/// The text of the host expression `e` in a run-time environment.
pub open spec fn value_at(env: Seq<Seq<char>>, e: usize) -> Seq<char> {
    if e < env.len() {
        env[e as int]
    } else {
        Seq::empty()
    }
}

/// Segments joined with `-`.
pub open spec fn joined(segs: Seq<String>) -> Seq<char>
    decreases segs.len(),
{
    if segs.len() == 0 {
        Seq::empty()
    } else if segs.len() == 1 {
        segs[0]@
    } else {
        joined(segs.drop_last()) + "-"@ + segs.last()@
    }
}

/// The text of a name known when the template is compiled.
pub open spec fn static_name(n: TagName) -> Seq<char> {
    match n {
        TagName::Ident(s) => s@,
        TagName::Punctuated { segments, .. } => joined(segments@),
        TagName::Path(s) => s@,
        TagName::Block(_) => Seq::empty(),
    }
}

/// The text of a name at run time.
pub open spec fn name_text(n: TagName, env: Seq<Seq<char>>) -> Seq<char> {
    match n {
        TagName::Block(e) => value_at(env, e),
        _ => static_name(n),
    }
}

pub open spec fn is_directive_key(k: TagName) -> bool {
    match k {
        TagName::Ident(s) => is_directive_name(s@),
        _ => false,
    }
}

pub open spec fn is_directive_attr(a: Attribute) -> bool {
    match a {
        Attribute::Keyed { key, .. } => is_directive_key(key),
        _ => false,
    }
}

/// Whether the attributes hold the raw-text directive.
pub open spec fn has_directive(attrs: Seq<Attribute>) -> bool {
    exists|i: int| 0 <= i < attrs.len() && is_directive_attr(#[trigger] attrs[i])
}

/// Whether an element is emitted in the self-closed form.
pub open spec fn is_void(el: Element) -> bool {
    el.self_closed || match el.name {
        TagName::Block(_) => false,
        _ => is_void_name(static_name(el.name)),
    }
}

/// The name emitted in the close tag: the open tag's for a wildcard or a missing close.
pub open spec fn close_name(el: Element) -> TagName {
    match el.close {
        Some(c) => match c.name {
            CloseName::Named(n) => n,
            CloseName::Wildcard => el.name,
        },
        None => el.name,
    }
}

// ---------------------------------------------------------------------------
// The HTML of a template, given the text of each host expression

/// A space and the text, or nothing for empty text.
pub open spec fn spaced(t: Seq<char>) -> Seq<char> {
    if t.len() == 0 {
        t
    } else {
        " "@ + t
    }
}

pub open spec fn attr_html(a: Attribute, env: Seq<Seq<char>>) -> Seq<char> {
    match a {
        Attribute::Block(e) => " "@ + value_at(env, e),
        Attribute::Keyed { key, value } => if is_directive_key(key) {
            Seq::empty()
        } else {
            match value {
                AttrValue::Literal(v) => " "@ + name_text(key, env) + "=\""@ + v@ + "\""@,
                AttrValue::Block(e) => spaced(value_at(env, e)),
                _ => " "@ + name_text(key, env),
            }
        },
    }
}

pub open spec fn attrs_html(attrs: Seq<Attribute>, env: Seq<Seq<char>>) -> Seq<char>
    decreases attrs.len(),
{
    if attrs.len() == 0 {
        Seq::empty()
    } else {
        attrs_html(attrs.drop_last(), env) + attr_html(attrs.last(), env)
    }
}

/// The HTML of a sequence of nodes; `raw` makes raw text a host expression.
pub open spec fn html_nodes(ns: Seq<Node>, raw: bool, env: Seq<Seq<char>>) -> Seq<char>
    decreases ns,
{
    if ns.len() == 0 {
        Seq::empty()
    } else {
        html_nodes(ns.subrange(0, ns.len() - 1), raw, env) + html_node(ns[ns.len() - 1], raw, env)
    }
}

pub open spec fn html_node(n: Node, raw: bool, env: Seq<Seq<char>>) -> Seq<char>
    decreases n,
{
    match n {
        Node::Text(s) => s@,
        Node::RawText { text, expr } => if raw {
            value_at(env, expr)
        } else {
            text@
        },
        Node::Comment(s) => "<!-- "@ + s@ + " -->"@,
        Node::Doctype(s) => "<!DOCTYPE "@ + s@ + ">"@,
        Node::Block(e) => value_at(env, e),
        Node::Fragment(ch) => html_nodes(ch@, raw, env),
        Node::Element(el) => html_element(el, env),
    }
}

pub open spec fn html_element(el: Element, env: Seq<Seq<char>>) -> Seq<char>
    decreases el,
{
    "<"@ + name_text(el.name, env) + attrs_html(el.attributes@, env) + if is_void(el) {
        "/>"@
    } else {
        ">"@ + html_nodes(el.children@, has_directive(el.attributes@), env) + "</"@ + name_text(
            close_name(el),
            env,
        ) + ">"@
    }
}

/// The HTML of a template.
pub open spec fn html(ns: Seq<Node>, env: Seq<Seq<char>>) -> Seq<char> {
    html_nodes(ns, false, env)
}

// ---------------------------------------------------------------------------
// The lowered form

pub open spec fn name_chunks(n: TagName) -> Seq<ChunkView> {
    match n {
        TagName::Block(e) => seq![ChunkView::Hole(e)],
        _ => seq![ChunkView::Lit(static_name(n))],
    }
}

pub open spec fn attr_chunks(a: Attribute) -> Seq<ChunkView> {
    match a {
        Attribute::Block(e) => seq![ChunkView::Lit(" "@), ChunkView::Hole(e)],
        Attribute::Keyed { key, value } => if is_directive_key(key) {
            Seq::empty()
        } else {
            match value {
                AttrValue::Literal(v) => seq![ChunkView::Lit(" "@)] + name_chunks(key) + seq![
                    ChunkView::Lit("=\""@),
                    ChunkView::Lit(v@),
                    ChunkView::Lit("\""@),
                ],
                AttrValue::Block(e) => seq![ChunkView::Attr(e)],
                _ => seq![ChunkView::Lit(" "@)] + name_chunks(key),
            }
        },
    }
}

pub open spec fn attrs_chunks(attrs: Seq<Attribute>) -> Seq<ChunkView>
    decreases attrs.len(),
{
    if attrs.len() == 0 {
        Seq::empty()
    } else {
        attrs_chunks(attrs.drop_last()) + attr_chunks(attrs.last())
    }
}

pub open spec fn nodes_chunks(ns: Seq<Node>, raw: bool) -> Seq<ChunkView>
    decreases ns,
{
    if ns.len() == 0 {
        Seq::empty()
    } else {
        nodes_chunks(ns.subrange(0, ns.len() - 1), raw) + node_chunks(ns[ns.len() - 1], raw)
    }
}

pub open spec fn node_chunks(n: Node, raw: bool) -> Seq<ChunkView>
    decreases n,
{
    match n {
        Node::Text(s) => seq![ChunkView::Lit(s@)],
        Node::RawText { text, expr } => if raw {
            seq![ChunkView::Hole(expr)]
        } else {
            seq![ChunkView::Lit(text@)]
        },
        Node::Comment(s) => seq![
            ChunkView::Lit("<!-- "@),
            ChunkView::Lit(s@),
            ChunkView::Lit(" -->"@),
        ],
        Node::Doctype(s) => seq![
            ChunkView::Lit("<!DOCTYPE "@),
            ChunkView::Lit(s@),
            ChunkView::Lit(">"@),
        ],
        Node::Block(e) => seq![ChunkView::Hole(e)],
        Node::Fragment(ch) => nodes_chunks(ch@, raw),
        Node::Element(el) => element_chunks(el),
    }
}

pub open spec fn element_chunks(el: Element) -> Seq<ChunkView>
    decreases el,
{
    seq![ChunkView::Lit("<"@)] + name_chunks(el.name) + attrs_chunks(el.attributes@) + if is_void(
        el,
    ) {
        seq![ChunkView::Lit("/>"@)]
    } else {
        seq![ChunkView::Lit(">"@)] + nodes_chunks(el.children@, has_directive(el.attributes@))
            + seq![ChunkView::Lit("</"@)] + name_chunks(close_name(el)) + seq![
            ChunkView::Lit(">"@),
        ]
    }
}

/// The evaluation of a name, where it is a host expression.
pub open spec fn name_holes(n: TagName) -> Seq<HoleView> {
    match n {
        TagName::Block(e) => seq![HoleView::Text(e)],
        _ => Seq::empty(),
    }
}

/// The attribute conversion of `e` under `key`.
pub open spec fn attr_hole(e: usize, key: TagName) -> HoleView {
    match key {
        TagName::Block(k) => HoleView::AttrKeyHole { expr: e, key_expr: k },
        _ => HoleView::AttrKey { expr: e, key: static_name(key) },
    }
}

pub open spec fn attr_holes(a: Attribute) -> Seq<HoleView> {
    match a {
        Attribute::Block(e) => seq![HoleView::Text(e)],
        Attribute::Keyed { key, value } => if is_directive_key(key) {
            Seq::empty()
        } else {
            name_holes(key) + match value {
                AttrValue::Block(e) => seq![attr_hole(e, key)],
                _ => Seq::empty(),
            }
        },
    }
}

pub open spec fn attrs_holes(attrs: Seq<Attribute>) -> Seq<HoleView>
    decreases attrs.len(),
{
    if attrs.len() == 0 {
        Seq::empty()
    } else {
        attrs_holes(attrs.drop_last()) + attr_holes(attrs.last())
    }
}

/// The evaluations that a close tag adds: none for a wildcard or a missing close.
pub open spec fn close_holes(el: Element) -> Seq<HoleView> {
    match el.close {
        Some(c) => match c.name {
            CloseName::Named(n) => name_holes(n),
            CloseName::Wildcard => Seq::empty(),
        },
        None => Seq::empty(),
    }
}

pub open spec fn nodes_holes(ns: Seq<Node>, raw: bool) -> Seq<HoleView>
    decreases ns,
{
    if ns.len() == 0 {
        Seq::empty()
    } else {
        nodes_holes(ns.subrange(0, ns.len() - 1), raw) + node_holes(ns[ns.len() - 1], raw)
    }
}

pub open spec fn node_holes(n: Node, raw: bool) -> Seq<HoleView>
    decreases n,
{
    match n {
        Node::RawText { expr, .. } => if raw {
            seq![HoleView::Text(expr)]
        } else {
            Seq::empty()
        },
        Node::Block(e) => seq![HoleView::Text(e)],
        Node::Fragment(ch) => nodes_holes(ch@, raw),
        Node::Element(el) => element_holes(el),
        _ => Seq::empty(),
    }
}

pub open spec fn element_holes(el: Element) -> Seq<HoleView>
    decreases el,
{
    name_holes(el.name) + attrs_holes(el.attributes@) + if is_void(el) {
        Seq::empty()
    } else {
        nodes_holes(el.children@, has_directive(el.attributes@)) + close_holes(el)
    }
}

// ---------------------------------------------------------------------------
// Rendering

pub open spec fn chunk_text(c: ChunkView, env: Seq<Seq<char>>) -> Seq<char> {
    match c {
        ChunkView::Lit(s) => s,
        ChunkView::Hole(e) => value_at(env, e),
        ChunkView::Attr(e) => spaced(value_at(env, e)),
    }
}

/// The text of the chunks, in order.
pub open spec fn render_view(cs: Seq<ChunkView>, env: Seq<Seq<char>>) -> Seq<char>
    decreases cs.len(),
{
    if cs.len() == 0 {
        Seq::empty()
    } else {
        render_view(cs.drop_last(), env) + chunk_text(cs.last(), env)
    }
}

proof fn lemma_render_concat(a: Seq<ChunkView>, b: Seq<ChunkView>, env: Seq<Seq<char>>)
    ensures
        render_view(a + b, env) == render_view(a, env) + render_view(b, env),
    decreases b.len(),
{
    if b.len() == 0 {
        assert(a + b =~= a);
        assert(render_view(a, env) + render_view(b, env) =~= render_view(a, env));
    } else {
        lemma_render_concat(a, b.drop_last(), env);
        assert((a + b).drop_last() =~= a + b.drop_last());
        assert((a + b).last() == b.last());
        assert(render_view(a, env) + render_view(b.drop_last(), env) + chunk_text(b.last(), env)
            =~= render_view(a, env) + (render_view(b.drop_last(), env) + chunk_text(
            b.last(),
            env,
        )));
    }
}

proof fn lemma_render_one(c: ChunkView, env: Seq<Seq<char>>)
    ensures
        render_view(seq![c], env) == chunk_text(c, env),
{
    let one = seq![c];
    assert(one.drop_last() =~= Seq::<ChunkView>::empty());
    assert(one.last() == c);
    assert(render_view(Seq::<ChunkView>::empty(), env) == Seq::<char>::empty());
    assert(render_view(one, env) == render_view(one.drop_last(), env) + chunk_text(c, env));
    assert(Seq::<char>::empty() + chunk_text(c, env) =~= chunk_text(c, env));
}

proof fn lemma_render_three(a: ChunkView, b: ChunkView, c: ChunkView, env: Seq<Seq<char>>)
    ensures
        render_view(seq![a, b, c], env) == chunk_text(a, env) + chunk_text(b, env) + chunk_text(
            c,
            env,
        ),
{
    lemma_render_one(a, env);
    lemma_render_one(b, env);
    lemma_render_one(c, env);
    lemma_render_concat(seq![a], seq![b], env);
    lemma_render_concat(seq![a] + seq![b], seq![c], env);
    assert(seq![a, b, c] =~= seq![a] + seq![b] + seq![c]);
}

proof fn lemma_name_renders(n: TagName, env: Seq<Seq<char>>)
    ensures
        render_view(name_chunks(n), env) == name_text(n, env),
{
    match n {
        TagName::Block(e) => lemma_render_one(ChunkView::Hole(e), env),
        _ => lemma_render_one(ChunkView::Lit(static_name(n)), env),
    }
}

proof fn lemma_attr_renders(a: Attribute, env: Seq<Seq<char>>)
    ensures
        render_view(attr_chunks(a), env) == attr_html(a, env),
{
    let sp = ChunkView::Lit(" "@);
    match a {
        Attribute::Block(e) => {
            lemma_render_one(sp, env);
            lemma_render_one(ChunkView::Hole(e), env);
            lemma_render_concat(seq![sp], seq![ChunkView::Hole(e)], env);
            assert(seq![sp] + seq![ChunkView::Hole(e)] =~= seq![sp, ChunkView::Hole(e)]);
        },
        Attribute::Keyed { key, value } => if is_directive_key(key) {
        } else {
            lemma_name_renders(key, env);
            lemma_render_one(sp, env);
            lemma_render_concat(seq![sp], name_chunks(key), env);
            match value {
                AttrValue::Literal(v) => {
                    let tail = seq![
                        ChunkView::Lit("=\""@),
                        ChunkView::Lit(v@),
                        ChunkView::Lit("\""@),
                    ];
                    lemma_render_concat(seq![sp] + name_chunks(key), tail, env);
                    lemma_render_three(
                        ChunkView::Lit("=\""@),
                        ChunkView::Lit(v@),
                        ChunkView::Lit("\""@),
                        env,
                    );
                    assert(render_view(tail, env) =~= "=\""@ + v@ + "\""@);
                    assert(attr_html(a, env) =~= " "@ + name_text(key, env) + ("=\""@ + v@
                        + "\""@));
                },
                AttrValue::Block(e) => lemma_render_one(ChunkView::Attr(e), env),
                _ => {},
            }
        },
    }
}

proof fn lemma_attrs_render(attrs: Seq<Attribute>, env: Seq<Seq<char>>)
    ensures
        render_view(attrs_chunks(attrs), env) == attrs_html(attrs, env),
    decreases attrs.len(),
{
    if attrs.len() > 0 {
        lemma_attrs_render(attrs.drop_last(), env);
        lemma_attr_renders(attrs.last(), env);
        lemma_render_concat(attrs_chunks(attrs.drop_last()), attr_chunks(attrs.last()), env);
    }
}

proof fn lemma_nodes_render(ns: Seq<Node>, raw: bool, env: Seq<Seq<char>>)
    ensures
        render_view(nodes_chunks(ns, raw), env) == html_nodes(ns, raw, env),
    decreases ns,
{
    if ns.len() > 0 {
        let init = ns.subrange(0, ns.len() - 1);
        lemma_nodes_render(init, raw, env);
        lemma_node_renders(ns[ns.len() - 1], raw, env);
        lemma_render_concat(nodes_chunks(init, raw), node_chunks(ns[ns.len() - 1], raw), env);
    }
}

proof fn lemma_node_renders(n: Node, raw: bool, env: Seq<Seq<char>>)
    ensures
        render_view(node_chunks(n, raw), env) == html_node(n, raw, env),
    decreases n,
{
    match n {
        Node::Text(s) => lemma_render_one(ChunkView::Lit(s@), env),
        Node::RawText { text, expr } => {
            lemma_render_one(ChunkView::Hole(expr), env);
            lemma_render_one(ChunkView::Lit(text@), env);
        },
        Node::Comment(s) => lemma_render_three(
            ChunkView::Lit("<!-- "@),
            ChunkView::Lit(s@),
            ChunkView::Lit(" -->"@),
            env,
        ),
        Node::Doctype(s) => lemma_render_three(
            ChunkView::Lit("<!DOCTYPE "@),
            ChunkView::Lit(s@),
            ChunkView::Lit(">"@),
            env,
        ),
        Node::Block(e) => lemma_render_one(ChunkView::Hole(e), env),
        Node::Fragment(ch) => lemma_nodes_render(ch@, raw, env),
        Node::Element(el) => lemma_element_renders(el, env),
    }
}

proof fn lemma_element_renders(el: Element, env: Seq<Seq<char>>)
    ensures
        render_view(element_chunks(el), env) == html_element(el, env),
    decreases el,
{
    let open_lt = seq![ChunkView::Lit("<"@)];
    let name = name_chunks(el.name);
    let attrs = attrs_chunks(el.attributes@);
    lemma_render_one(ChunkView::Lit("<"@), env);
    lemma_name_renders(el.name, env);
    lemma_attrs_render(el.attributes@, env);
    lemma_render_concat(open_lt, name, env);
    lemma_render_concat(open_lt + name, attrs, env);
    let head = open_lt + name + attrs;
    let head_text = "<"@ + name_text(el.name, env) + attrs_html(el.attributes@, env);
    assert(render_view(head, env) == head_text);
    if is_void(el) {
        lemma_render_one(ChunkView::Lit("/>"@), env);
        lemma_render_concat(head, seq![ChunkView::Lit("/>"@)], env);
    } else {
        let gt = seq![ChunkView::Lit(">"@)];
        let children = nodes_chunks(el.children@, has_directive(el.attributes@));
        let close_lt = seq![ChunkView::Lit("</"@)];
        let close = name_chunks(close_name(el));
        lemma_render_one(ChunkView::Lit(">"@), env);
        lemma_render_one(ChunkView::Lit("</"@), env);
        lemma_nodes_render(el.children@, has_directive(el.attributes@), env);
        lemma_name_renders(close_name(el), env);
        lemma_render_concat(gt, children, env);
        lemma_render_concat(gt + children, close_lt, env);
        lemma_render_concat(gt + children + close_lt, close, env);
        lemma_render_concat(gt + children + close_lt + close, gt, env);
        let body = gt + children + close_lt + close + gt;
        lemma_render_concat(head, body, env);
        let body_text = ">"@ + html_nodes(el.children@, has_directive(el.attributes@), env)
            + "</"@ + name_text(close_name(el), env) + ">"@;
        assert(render_view(body, env) == body_text);
        assert(element_chunks(el) == head + body);
    }
}

/// The lowered form of a template renders its HTML, for every text of its host expressions.
pub proof fn lemma_lowering_renders_html(ns: Seq<Node>, env: Seq<Seq<char>>)
    ensures
        render_view(nodes_chunks(ns, false), env) == html(ns, env),
{
    lemma_nodes_render(ns, false, env);
}

// ---------------------------------------------------------------------------
// Lowering

/// Joins name segments with `-`.
pub fn join_segments(segs: &Vec<String>) -> (r: String)
    ensures
        r@ == joined(segs@),
{
    if segs.len() == 0 {
        return String::new();
    }
    let mut r = segs[0].clone();
    let mut i: usize = 1;
    while i < segs.len()
        invariant
            1 <= i <= segs.len(),
            r@ == joined(segs@.subrange(0, i as int)),
        decreases segs.len() - i,
    {
        r.append("-");
        r.append(segs[i].as_str());
        proof {
            let next = segs@.subrange(0, i + 1);
            assert(next.drop_last() =~= segs@.subrange(0, i as int));
        }
        i += 1;
    }
    assert(segs@.subrange(0, segs.len() as int) =~= segs@);
    r
}

/// The text of a name known when the template is compiled (empty for a host expression).
pub fn static_name_text(n: &TagName) -> (r: String)
    ensures
        r@ == static_name(*n),
{
    match n {
        TagName::Ident(s) => s.clone(),
        TagName::Punctuated { segments, .. } => join_segments(segments),
        TagName::Path(s) => s.clone(),
        TagName::Block(_) => String::new(),
    }
}

/// Whether an element is emitted in the self-closed form.
pub fn element_is_void(el: &Element) -> (r: bool)
    ensures
        r == is_void(*el),
{
    if el.self_closed {
        return true;
    }
    match &el.name {
        TagName::Block(_) => false,
        _ => {
            let name = static_name_text(&el.name);
            is_void_element(name.as_str())
        },
    }
}

fn key_is_directive(key: &TagName) -> (r: bool)
    ensures
        r == is_directive_key(*key),
{
    match key {
        TagName::Ident(s) => is_directive(s.as_str()),
        _ => false,
    }
}

/// Whether the attributes hold the raw-text directive.
pub fn attrs_have_directive(attrs: &Vec<Attribute>) -> (r: bool)
    ensures
        r == has_directive(attrs@),
{
    let mut i: usize = 0;
    while i < attrs.len()
        invariant
            i <= attrs.len(),
            forall|j: int| 0 <= j < i ==> !is_directive_attr(#[trigger] attrs@[j]),
        decreases attrs.len() - i,
    {
        let found = match &attrs[i] {
            Attribute::Keyed { key, .. } => key_is_directive(key),
            _ => false,
        };
        if found {
            assert(is_directive_attr(attrs@[i as int]));
            return true;
        }
        i += 1;
    }
    false
}

fn emit(out: &mut Lowered, c: Chunk)
    ensures
        chunk_views(final(out).chunks@) == chunk_views(old(out).chunks@) + seq![c@],
        final(out).holes@ == old(out).holes@,
{
    let ghost v = c@;
    out.chunks.push(c);
    assert(chunk_views(out.chunks@) =~= chunk_views(old(out).chunks@) + seq![v]);
}

fn emit_lit(out: &mut Lowered, s: &str)
    ensures
        chunk_views(final(out).chunks@) == chunk_views(old(out).chunks@) + seq![ChunkView::Lit(s@)],
        final(out).holes@ == old(out).holes@,
{
    emit(out, Chunk::Lit(s.to_owned()));
}

fn evaluate(out: &mut Lowered, h: Hole)
    ensures
        hole_views(final(out).holes@) == hole_views(old(out).holes@) + seq![h@],
        final(out).chunks@ == old(out).chunks@,
{
    let ghost v = h@;
    out.holes.push(h);
    assert(hole_views(out.holes@) =~= hole_views(old(out).holes@) + seq![v]);
}

fn lower_name(n: &TagName, out: &mut Lowered, eval: bool)
    ensures
        chunk_views(final(out).chunks@) == chunk_views(old(out).chunks@) + name_chunks(*n),
        hole_views(final(out).holes@) == hole_views(old(out).holes@) + if eval {
            name_holes(*n)
        } else {
            Seq::empty()
        },
{
    match n {
        TagName::Block(e) => {
            emit(out, Chunk::Hole(*e));
            if eval {
                evaluate(out, Hole::Text(*e));
            } else {
                assert(hole_views(out.holes@) =~= hole_views(old(out).holes@) + Seq::empty());
            }
        },
        _ => {
            let s = static_name_text(n);
            emit(out, Chunk::Lit(s));
            assert(hole_views(out.holes@) =~= hole_views(old(out).holes@) + Seq::empty());
        },
    }
}

fn lower_attr(a: &Attribute, out: &mut Lowered)
    ensures
        chunk_views(final(out).chunks@) == chunk_views(old(out).chunks@) + attr_chunks(*a),
        hole_views(final(out).holes@) == hole_views(old(out).holes@) + attr_holes(*a),
{
    let ghost c0 = chunk_views(out.chunks@);
    let ghost h0 = hole_views(out.holes@);
    match a {
        Attribute::Block(e) => {
            emit_lit(out, " ");
            emit(out, Chunk::Hole(*e));
            evaluate(out, Hole::Text(*e));
            assert(chunk_views(out.chunks@) =~= c0 + attr_chunks(*a));
        },
        Attribute::Keyed { key, value } => {
            if key_is_directive(key) {
                assert(chunk_views(out.chunks@) =~= c0 + Seq::empty());
                assert(hole_views(out.holes@) =~= h0 + Seq::empty());
                return ;
            }
            match value {
                AttrValue::Literal(v) => {
                    emit_lit(out, " ");
                    lower_name(key, out, true);
                    emit_lit(out, "=\"");
                    emit(out, Chunk::Lit(v.clone()));
                    emit_lit(out, "\"");
                    assert(chunk_views(out.chunks@) =~= c0 + attr_chunks(*a));
                    assert(hole_views(out.holes@) =~= h0 + attr_holes(*a));
                },
                AttrValue::Block(e) => {
                    emit(out, Chunk::Attr(*e));
                    match key {
                        TagName::Block(k) => {
                            evaluate(out, Hole::Text(*k));
                            evaluate(out, Hole::AttrKeyHole { expr: *e, key_expr: *k });
                        },
                        _ => {
                            let name = static_name_text(key);
                            evaluate(out, Hole::AttrKey { expr: *e, key: name });
                        },
                    }
                    assert(hole_views(out.holes@) =~= h0 + attr_holes(*a));
                },
                _ => {
                    emit_lit(out, " ");
                    lower_name(key, out, true);
                    assert(chunk_views(out.chunks@) =~= c0 + attr_chunks(*a));
                    assert(hole_views(out.holes@) =~= h0 + attr_holes(*a));
                },
            }
        },
    }
}

fn lower_attrs(attrs: &Vec<Attribute>, out: &mut Lowered)
    ensures
        chunk_views(final(out).chunks@) == chunk_views(old(out).chunks@) + attrs_chunks(attrs@),
        hole_views(final(out).holes@) == hole_views(old(out).holes@) + attrs_holes(attrs@),
{
    let ghost c0 = chunk_views(out.chunks@);
    let ghost h0 = hole_views(out.holes@);
    let mut i: usize = 0;
    assert(c0 =~= c0 + attrs_chunks(attrs@.subrange(0, 0)));
    assert(h0 =~= h0 + attrs_holes(attrs@.subrange(0, 0)));
    while i < attrs.len()
        invariant
            i <= attrs.len(),
            chunk_views(out.chunks@) == c0 + attrs_chunks(attrs@.subrange(0, i as int)),
            hole_views(out.holes@) == h0 + attrs_holes(attrs@.subrange(0, i as int)),
        decreases attrs.len() - i,
    {
        lower_attr(&attrs[i], out);
        proof {
            let next = attrs@.subrange(0, i + 1);
            assert(next.drop_last() =~= attrs@.subrange(0, i as int));
            assert(next.last() == attrs@[i as int]);
            assert(chunk_views(out.chunks@) =~= c0 + attrs_chunks(next));
            assert(hole_views(out.holes@) =~= h0 + attrs_holes(next));
        }
        i += 1;
    }
    assert(attrs@.subrange(0, attrs.len() as int) =~= attrs@);
}

fn lower_nodes(ns: &Vec<Node>, raw: bool, out: &mut Lowered)
    ensures
        chunk_views(final(out).chunks@) == chunk_views(old(out).chunks@) + nodes_chunks(ns@, raw),
        hole_views(final(out).holes@) == hole_views(old(out).holes@) + nodes_holes(ns@, raw),
    decreases ns@,
{
    let ghost c0 = chunk_views(out.chunks@);
    let ghost h0 = hole_views(out.holes@);
    let mut i: usize = 0;
    assert(c0 =~= c0 + nodes_chunks(ns@.subrange(0, 0), raw));
    assert(h0 =~= h0 + nodes_holes(ns@.subrange(0, 0), raw));
    while i < ns.len()
        invariant
            i <= ns.len(),
            chunk_views(out.chunks@) == c0 + nodes_chunks(ns@.subrange(0, i as int), raw),
            hole_views(out.holes@) == h0 + nodes_holes(ns@.subrange(0, i as int), raw),
        decreases ns.len() - i,
    {
        lower_node(&ns[i], raw, out);
        proof {
            let next = ns@.subrange(0, i + 1);
            assert(next.subrange(0, next.len() - 1) =~= ns@.subrange(0, i as int));
            assert(next[next.len() - 1] == ns@[i as int]);
            assert(chunk_views(out.chunks@) =~= c0 + nodes_chunks(next, raw));
            assert(hole_views(out.holes@) =~= h0 + nodes_holes(next, raw));
        }
        i += 1;
    }
    assert(ns@.subrange(0, ns.len() as int) =~= ns@);
}

fn lower_node(n: &Node, raw: bool, out: &mut Lowered)
    ensures
        chunk_views(final(out).chunks@) == chunk_views(old(out).chunks@) + node_chunks(*n, raw),
        hole_views(final(out).holes@) == hole_views(old(out).holes@) + node_holes(*n, raw),
    decreases *n,
{
    let ghost c0 = chunk_views(out.chunks@);
    let ghost h0 = hole_views(out.holes@);
    match n {
        Node::Text(s) => {
            emit(out, Chunk::Lit(s.clone()));
            assert(hole_views(out.holes@) =~= h0 + node_holes(*n, raw));
        },
        Node::RawText { text, expr } => {
            if raw {
                emit(out, Chunk::Hole(*expr));
                evaluate(out, Hole::Text(*expr));
            } else {
                emit(out, Chunk::Lit(text.clone()));
                assert(hole_views(out.holes@) =~= h0 + node_holes(*n, raw));
            }
        },
        Node::Comment(s) => {
            emit_lit(out, "<!-- ");
            emit(out, Chunk::Lit(s.clone()));
            emit_lit(out, " -->");
            assert(chunk_views(out.chunks@) =~= c0 + node_chunks(*n, raw));
            assert(hole_views(out.holes@) =~= h0 + node_holes(*n, raw));
        },
        Node::Doctype(s) => {
            emit_lit(out, "<!DOCTYPE ");
            emit(out, Chunk::Lit(s.clone()));
            emit_lit(out, ">");
            assert(chunk_views(out.chunks@) =~= c0 + node_chunks(*n, raw));
            assert(hole_views(out.holes@) =~= h0 + node_holes(*n, raw));
        },
        Node::Block(e) => {
            emit(out, Chunk::Hole(*e));
            evaluate(out, Hole::Text(*e));
        },
        Node::Fragment(ch) => lower_nodes(ch, raw, out),
        Node::Element(el) => lower_element(el, out),
    }
}

#[verifier::rlimit(40)]
fn lower_element(el: &Element, out: &mut Lowered)
    ensures
        chunk_views(final(out).chunks@) == chunk_views(old(out).chunks@) + element_chunks(*el),
        hole_views(final(out).holes@) == hole_views(old(out).holes@) + element_holes(*el),
    decreases *el,
{
    let ghost c0 = chunk_views(out.chunks@);
    let ghost h0 = hole_views(out.holes@);
    emit_lit(out, "<");
    lower_name(&el.name, out, true);
    lower_attrs(&el.attributes, out);
    if element_is_void(el) {
        emit_lit(out, "/>");
        assert(chunk_views(out.chunks@) =~= c0 + element_chunks(*el));
        assert(hole_views(out.holes@) =~= h0 + element_holes(*el));
    } else {
        let raw = attrs_have_directive(&el.attributes);
        emit_lit(out, ">");
        lower_nodes(&el.children, raw, out);
        emit_lit(out, "</");
        match &el.close {
            Some(c) => match &c.name {
                CloseName::Named(n) => lower_name(n, out, true),
                CloseName::Wildcard => lower_name(&el.name, out, false),
            },
            None => lower_name(&el.name, out, false),
        }
        emit_lit(out, ">");
        assert(chunk_views(out.chunks@) =~= c0 + element_chunks(*el));
        assert(hole_views(out.holes@) =~= h0 + element_holes(*el));
    }
}

/// Lowers a template to the chunks that make its HTML and the holes to evaluate for them.
pub fn lower(nodes: &Vec<Node>) -> (r: Lowered)
    ensures
        chunk_views(r.chunks@) == nodes_chunks(nodes@, false),
        hole_views(r.holes@) == nodes_holes(nodes@, false),
        r.diagnostics@ == nodes_diags(nodes@),
        forall|env: Seq<Seq<char>>| #[trigger]
            render_view(chunk_views(r.chunks@), env) == html(nodes@, env),
{
    let mut out = Lowered { chunks: Vec::new(), holes: Vec::new(), diagnostics: Vec::new() };
    assert(chunk_views(out.chunks@) =~= Seq::empty());
    assert(hole_views(out.holes@) =~= Seq::empty());
    lower_nodes(nodes, false, &mut out);
    out.diagnostics = check(nodes);
    assert(chunk_views(out.chunks@) =~= nodes_chunks(nodes@, false));
    assert(hole_views(out.holes@) =~= nodes_holes(nodes@, false));
    assert forall|env: Seq<Seq<char>>| #[trigger]
        render_view(chunk_views(out.chunks@), env) == html(nodes@, env) by {
        lemma_lowering_renders_html(nodes@, env);
    }
    out
}

// ---------------------------------------------------------------------------
// Running a lowered template

/// The texts of evaluated host expressions, by expression id.
pub open spec fn texts_view<'a>(ts: Seq<HyperText<'a>>) -> Seq<Seq<char>> {
    ts.map_values(|t: HyperText<'a>| t@)
}

/// Relies on `String::with_capacity`: an empty string.
#[verifier::external_body]
fn string_with_capacity(n: usize) -> (r: String)
    ensures
        r@ == Seq::<char>::empty(),
{
    String::with_capacity(n)
}

fn text_at<'a, 'b>(texts: &'b Vec<HyperText<'a>>, e: usize) -> (r: &'b str)
    ensures
        r@ == value_at(texts_view(texts@), e),
{
    if e < texts.len() {
        texts[e].as_str()
    } else {
        proof {
            reveal_strlit("");
        }
        ""
    }
}

/// Concatenates the chunks of a lowered template, given the text of each host
/// expression by its id. The string is allocated once, at the summed length.
pub fn render<'a>(chunks: &Vec<Chunk>, texts: &Vec<HyperText<'a>>) -> (r: String)
    ensures
        r@ == render_view(chunk_views(chunks@), texts_view(texts@)),
{
    let mut size: usize = 0;
    let mut i: usize = 0;
    while i < chunks.len()
        invariant
            i <= chunks.len(),
        decreases chunks.len() - i,
    {
        let n: usize = match &chunks[i] {
            Chunk::Lit(s) => s.as_str().len(),
            Chunk::Hole(e) => text_at(texts, *e).len(),
            Chunk::Attr(e) => text_at(texts, *e).len().saturating_add(1),
        };
        size = size.saturating_add(n);
        i += 1;
    }
    let mut out = string_with_capacity(size);
    let ghost env = texts_view(texts@);
    i = 0;
    while i < chunks.len()
        invariant
            i <= chunks.len(),
            env == texts_view(texts@),
            out@ == render_view(chunk_views(chunks@.subrange(0, i as int)), env),
        decreases chunks.len() - i,
    {
        match &chunks[i] {
            Chunk::Lit(s) => out.append(s.as_str()),
            Chunk::Hole(e) => out.append(text_at(texts, *e)),
            Chunk::Attr(e) => {
                let t = text_at(texts, *e);
                if !t.is_empty() {
                    out.append(" ");
                    out.append(t);
                }
            },
        }
        proof {
            let next = chunk_views(chunks@.subrange(0, i + 1));
            assert(next.drop_last() =~= chunk_views(chunks@.subrange(0, i as int)));
            assert(next.last() == chunks@[i as int]@);
        }
        i += 1;
    }
    assert(chunks@.subrange(0, chunks.len() as int) =~= chunks@);
    out
}

} // verus!
