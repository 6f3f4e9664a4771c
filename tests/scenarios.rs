use hyperide::lower::{lower, render, Chunk, Hole};
use hyperide::node::{AttrValue, Attribute, CloseName, CloseTag, Element, Node, TagName};
use hyperide::{HyperText, IntoAttrText, IntoHyperText};

fn ident(s: &str) -> TagName {
    TagName::Ident(s.to_string())
}

fn punct(segs: &[&str], puncts: &[char]) -> TagName {
    TagName::Punctuated {
        segments: segs.iter().map(|s| s.to_string()).collect(),
        puncts: puncts.to_vec(),
    }
}

fn keyed(key: TagName, value: AttrValue) -> Attribute {
    Attribute::Keyed { key, value }
}

fn element(
    name: TagName,
    attributes: Vec<Attribute>,
    self_closed: bool,
    children: Vec<Node>,
    close: Option<CloseName>,
) -> Node {
    Node::Element(Element {
        name,
        generics: false,
        attributes,
        self_closed,
        children,
        close: close.map(|name| CloseTag { name, generics: false }),
    })
}

fn closed_by(name: &str) -> Option<CloseName> {
    Some(CloseName::Named(ident(name)))
}

fn raw(text: &str, expr: usize) -> Node {
    Node::RawText { text: text.to_string(), expr }
}

fn run(nodes: &Vec<Node>, texts: Vec<HyperText<'_>>) -> String {
    let lowered = lower(nodes);
    assert!(lowered.diagnostics.is_empty());
    render(&lowered.chunks, &texts)
}

#[test]
fn paragraph_of_text() {
    let nodes = vec![element(ident("p"), vec![], false, vec![raw("Hello", 0)], closed_by("p"))];
    let lowered = lower(&nodes);
    assert!(lowered.holes.is_empty());
    assert_eq!(render(&lowered.chunks, &vec![]), "<p>Hello</p>");
}

#[test]
fn void_image_self_closed() {
    let src = keyed(ident("src"), AttrValue::Literal("/a.png".to_string()));
    let nodes = vec![element(ident("img"), vec![src], true, vec![], None)];
    assert_eq!(run(&nodes, vec![]), "<img src=\"/a.png\"/>");
}

#[test]
fn void_image_open_form() {
    let src = keyed(ident("src"), AttrValue::Literal("/a.png".to_string()));
    let nodes = vec![element(ident("img"), vec![src], false, vec![], None)];
    assert_eq!(run(&nodes, vec![]), "<img src=\"/a.png\"/>");
}

fn checkbox(flag: bool) -> String {
    let nodes = vec![element(
        ident("input"),
        vec![keyed(ident("checked"), AttrValue::Block(0))],
        true,
        vec![],
        None,
    )];
    let lowered = lower(&nodes);
    match &lowered.holes[..] {
        [Hole::AttrKey { expr: 0, key }] => {
            let text = flag.into_attr_text(HyperText::borrowed(key.as_str()));
            render(&lowered.chunks, &vec![text])
        }
        _ => panic!("unexpected holes"),
    }
}

#[test]
fn boolean_attribute_false_is_left_out() {
    assert_eq!(checkbox(false), "<input/>");
}

#[test]
fn boolean_attribute_true_is_bare() {
    assert_eq!(checkbox(true), "<input checked/>");
}

fn wildcard(name: &str) -> String {
    let nodes = vec![element(
        TagName::Block(0),
        vec![],
        false,
        vec![raw("X", 1)],
        Some(CloseName::Wildcard),
    )];
    let lowered = lower(&nodes);
    assert_eq!(lowered.holes.len(), 1);
    assert!(matches!(lowered.holes[0], Hole::Text(0)));
    render(&lowered.chunks, &vec![name.into_hyper_text()])
}

#[test]
fn wildcard_close_span() {
    assert_eq!(wildcard("span"), "<span>X</span>");
}

#[test]
fn wildcard_close_heading() {
    assert_eq!(wildcard("h1"), "<h1>X</h1>");
}

#[test]
fn punctuated_attributes_and_body() {
    let nodes = vec![element(
        ident("div"),
        vec![
            keyed(punct(&["data", "x"], &['-']), AttrValue::Literal("y".to_string())),
            keyed(punct(&["hx", "get"], &['-']), AttrValue::Literal("/z".to_string())),
        ],
        false,
        vec![Node::Block(0)],
        closed_by("div"),
    )];
    assert_eq!(run(&nodes, vec!["hi".into_hyper_text()]), "<div data-x=\"y\" hx-get=\"/z\">hi</div>");
}

#[test]
fn directive_interpolates_script() {
    let nodes = vec![element(
        ident("script"),
        vec![keyed(ident("_hr_no_raw"), AttrValue::Block(0))],
        false,
        vec![raw("{JS}", 1)],
        closed_by("script"),
    )];
    let lowered = lower(&nodes);
    assert_eq!(lowered.holes.len(), 1);
    assert!(matches!(lowered.holes[0], Hole::Text(1)));
    let texts = vec![HyperText::empty(), "a<b&c".into_hyper_text()];
    assert_eq!(render(&lowered.chunks, &texts), "<script>a<b&c</script>");
}

#[test]
fn raw_text_kept_verbatim() {
    let nodes = vec![element(
        ident("script"),
        vec![],
        false,
        vec![raw("if (a < b) { c(); }", 0)],
        closed_by("script"),
    )];
    let lowered = lower(&nodes);
    assert!(lowered.holes.is_empty());
    assert_eq!(render(&lowered.chunks, &vec![]), "<script>if (a < b) { c(); }</script>");
}

#[test]
fn static_template_needs_no_values() {
    let nodes = vec![
        Node::Doctype("html".to_string()),
        element(
            ident("html"),
            vec![keyed(ident("lang"), AttrValue::Literal("en".to_string()))],
            false,
            vec![
                Node::Comment("note".to_string()),
                element(ident("br"), vec![], false, vec![], None),
                Node::Text("a b".to_string()),
            ],
            closed_by("html"),
        ),
    ];
    let lowered = lower(&nodes);
    assert!(lowered.holes.is_empty());
    assert!(lowered.chunks.iter().all(|c| matches!(c, Chunk::Lit(_))));
    let expected = "<!DOCTYPE html><html lang=\"en\"><!-- note --><br/>a b</html>";
    assert_eq!(render(&lowered.chunks, &vec![]), expected);
    assert_eq!(render(&lowered.chunks, &vec!["ignored".into_hyper_text()]), expected);
}

#[test]
fn void_element_never_closed() {
    let nodes = vec![element(ident("br"), vec![], false, vec![], closed_by("br"))];
    let lowered = lower(&nodes);
    assert_eq!(render(&lowered.chunks, &vec![]), "<br/>");
}

#[test]
fn mixed_punctuation_same_name() {
    let dashes = vec![element(
        punct(&["data", "foo", "bar"], &['-', '-']),
        vec![],
        false,
        vec![],
        Some(CloseName::Named(punct(&["data", "foo", "bar"], &['-', '-']))),
    )];
    let colons = vec![element(
        punct(&["data", "foo", "bar"], &[':', ':']),
        vec![],
        false,
        vec![],
        Some(CloseName::Named(punct(&["data", "foo", "bar"], &[':', '-']))),
    )];
    assert_eq!(run(&dashes, vec![]), "<data-foo-bar></data-foo-bar>");
    assert_eq!(run(&colons, vec![]), "<data-foo-bar></data-foo-bar>");
}

#[test]
fn optional_attribute() {
    let none: Option<&str> = None;
    assert_eq!(none.into_attr_text("title").as_str(), "");
    assert_eq!(Some("t").into_attr_text("title").as_str(), "t".into_attr_text("title").as_str());
    assert_eq!(Some("t").into_attr_text("title").as_str(), "title=\"t\"");
}

#[test]
fn dynamic_key_bare_and_valued() {
    let nodes = vec![element(
        ident("a"),
        vec![
            keyed(TagName::Block(0), AttrValue::Bare),
            keyed(TagName::Block(1), AttrValue::Block(2)),
            Attribute::Block(3),
        ],
        false,
        vec![],
        closed_by("a"),
    )];
    let lowered = lower(&nodes);
    assert_eq!(lowered.holes.len(), 4);
    assert!(matches!(lowered.holes[2], Hole::AttrKeyHole { expr: 2, key_expr: 1 }));
    let key = "href".into_hyper_text();
    let value = "/x".into_attr_text(key.to_owned_text());
    let texts = vec!["hidden".into_hyper_text(), key, value, "id=\"k\"".into_hyper_text()];
    assert_eq!(render(&lowered.chunks, &texts), "<a hidden href=\"/x\" id=\"k\"></a>");
}

#[test]
fn empty_whole_attribute_keeps_its_space() {
    let nodes = vec![element(ident("p"), vec![Attribute::Block(0)], false, vec![], closed_by("p"))];
    assert_eq!(run(&nodes, vec![None::<&str>.into_hyper_text()]), "<p ></p>");
    let br = vec![element(ident("br"), vec![Attribute::Block(0)], true, vec![], None)];
    assert_eq!(run(&br, vec!["".into_hyper_text()]), "<br />");
}

#[test]
fn fragment_and_blocks_in_order() {
    let nodes = vec![Node::Fragment(vec![Node::Block(0), Node::Text(": ".to_string()), Node::Block(1)])];
    let texts = vec![7u8.into_hyper_text(), (-12i64).into_hyper_text()];
    assert_eq!(run(&nodes, texts), "7: -12");
}

#[test]
fn empty_template() {
    assert_eq!(run(&vec![], vec![]), "");
}

fn titled(title: Option<&str>) -> String {
    let nodes = vec![element(
        ident("abbr"),
        vec![keyed(ident("title"), AttrValue::Block(0))],
        false,
        vec![raw("HTML", 1)],
        closed_by("abbr"),
    )];
    let lowered = lower(&nodes);
    match &lowered.holes[..] {
        [Hole::AttrKey { expr: 0, key }] => {
            let text = title.into_attr_text(HyperText::borrowed(key.as_str()));
            render(&lowered.chunks, &vec![text])
        }
        _ => panic!("unexpected holes"),
    }
}

#[test]
fn optional_attribute_in_template() {
    assert_eq!(titled(None), "<abbr>HTML</abbr>");
    assert_eq!(titled(Some("markup")), "<abbr title=\"markup\">HTML</abbr>");
}
