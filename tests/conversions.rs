use std::borrow::Cow;

use hyperide::config::{is_raw_text_element, is_void_element, raw_text_elements, void_elements};
use hyperide::diag::{check, Diagnostic};
use hyperide::headers::AsciiHeaderValue;
use hyperide::hyper::{decimal_text, signed_decimal_text};
use hyperide::inline::{inline_script, inline_style};
use hyperide::lower::{join_segments, lower, render, static_name_text};
use hyperide::node::{AttrValue, Attribute, CloseName, CloseTag, Element, Node, TagName};
use hyperide::{HyperText, IntoAttrText, IntoHyperText, IntoView};

#[test]
fn numbers_in_decimal() {
    assert_eq!(decimal_text(0), "0");
    assert_eq!(decimal_text(1203), "1203");
    assert_eq!(decimal_text(u128::MAX), u128::MAX.to_string());
    assert_eq!(signed_decimal_text(-45), "-45");
    assert_eq!(signed_decimal_text(i128::MIN), i128::MIN.to_string());
    assert_eq!(255u8.into_hyper_text().as_str(), "255");
    assert_eq!((-128i8).into_hyper_text().as_str(), "-128");
    assert_eq!(usize::MAX.into_hyper_text().as_str(), usize::MAX.to_string());
}

#[test]
fn body_conversion_of_each_kind() {
    assert_eq!(true.into_hyper_text().as_str(), "true");
    assert_eq!(false.into_hyper_text().as_str(), "false");
    assert_eq!('é'.into_hyper_text().as_str(), "é");
    assert_eq!("<b>".into_hyper_text().as_str(), "<b>");
    assert_eq!(String::from("a&b").into_hyper_text().as_str(), "a&b");
    assert_eq!(Cow::Borrowed("c").into_hyper_text().as_str(), "c");
    assert_eq!(None::<u32>.into_hyper_text().as_str(), "");
    assert_eq!(Some(5u32).into_hyper_text().as_str(), "5");
    assert_eq!(HyperText::default().as_str(), "");
}

#[test]
fn attribute_conversion_of_each_kind() {
    assert_eq!(3i32.into_attr_text("n").as_str(), "n=\"3\"");
    assert_eq!('x'.into_attr_text("c").as_str(), "c=\"x\"");
    assert_eq!(String::from("v").into_attr_text("k").as_str(), "k=\"v\"");
    assert_eq!(Cow::Borrowed("v").into_attr_text("k").as_str(), "k=\"v\"");
    assert_eq!(true.into_attr_text("hidden").as_str(), "hidden");
    assert_eq!(false.into_attr_text("hidden").as_str(), "");
    assert_eq!(Some(false).into_attr_text("hidden").as_str(), "");
    assert_eq!(Some(true).into_attr_text("hidden").as_str(), "hidden");
}

#[test]
fn view_writes_text_as_it_is() {
    assert_eq!("a > b && a < c".into_view(), "a > b && a < c");
    assert_eq!(String::from("<i>").into_view(), "<i>");
    assert_eq!(Cow::Borrowed("\"q\"").into_view(), "\"q\"");
    assert_eq!(42u64.into_view(), "42");
    assert_eq!((-1isize).into_view(), "-1");
    assert_eq!('<'.into_view(), "<");
    assert_eq!(false.into_view(), "false");
    assert_eq!(None::<&str>.into_view(), "");
}

#[test]
fn configuration_sets() {
    assert_eq!(void_elements().len(), 14);
    for name in void_elements() {
        assert!(is_void_element(name));
    }
    assert!(!is_void_element("div"));
    assert_eq!(raw_text_elements(), vec!["script", "style"]);
    assert!(is_raw_text_element("style"));
    assert!(!is_raw_text_element("img"));
}

#[test]
fn names_join_with_hyphens() {
    let segs = vec!["a".to_string(), "b".to_string(), "c".to_string()];
    assert_eq!(join_segments(&segs), "a-b-c");
    assert_eq!(join_segments(&vec![]), "");
    let name = TagName::Punctuated { segments: segs, puncts: vec![':', '-'] };
    assert_eq!(static_name_text(&name), "a-b-c");
}

fn el(name: TagName, generics: bool, attributes: Vec<Attribute>, self_closed: bool, close: Option<CloseTag>) -> Node {
    Node::Element(Element { name, generics, attributes, self_closed, children: vec![], close })
}

fn close(name: CloseName, generics: bool) -> Option<CloseTag> {
    Some(CloseTag { name, generics })
}

#[test]
fn diagnostics_of_each_kind() {
    let p = |s: &str| TagName::Ident(s.to_string());
    let nodes = vec![
        el(p("x"), true, vec![], false, close(CloseName::Wildcard, true)),
        el(TagName::Path("a::b".to_string()), false, vec![], true, None),
        el(
            TagName::Punctuated { segments: vec!["a".into(), "b".into()], puncts: vec!['+'] },
            false,
            vec![Attribute::Keyed { key: p("k"), value: AttrValue::Binding }],
            true,
            None,
        ),
        el(p("br"), false, vec![], false, close(CloseName::Named(p("br")), false)),
        el(p("div"), false, vec![], false, close(CloseName::Named(p("span")), false)),
        el(p("div"), false, vec![], false, None),
    ];
    assert_eq!(
        check(&nodes),
        vec![
            Diagnostic::Generics,
            Diagnostic::Generics,
            Diagnostic::NotAnIdentifier,
            Diagnostic::UnknownPunctuation,
            Diagnostic::BindingValue,
            Diagnostic::CloseOnVoid,
            Diagnostic::MismatchedClose,
            Diagnostic::Unclosed,
        ]
    );
    let lowered = lower(&nodes);
    assert_eq!(lowered.diagnostics.len(), 8);
    assert_eq!(render(&lowered.chunks, &vec![]), "<x></x><a::b/><a-b k/><br/><div></span><div></div>");
}

#[test]
fn well_formed_template_has_no_diagnostics() {
    let p = |s: &str| TagName::Ident(s.to_string());
    let nodes = vec![el(p("p"), false, vec![], false, close(CloseName::Named(p("p")), false))];
    assert!(check(&nodes).is_empty());
}

#[test]
fn inline_style_twice_is_the_same_block() {
    let nodes = vec![
        inline_style("{ CSS }".to_string(), 0),
        inline_style("{ CSS }".to_string(), 1),
    ];
    let lowered = lower(&nodes);
    assert_eq!(lowered.holes.len(), 2);
    let css = "p { color: red; }";
    let texts = vec![css.into_hyper_text(), css.into_hyper_text()];
    let block = format!("<style>{css}</style>");
    assert_eq!(render(&lowered.chunks, &texts), format!("{block}{block}"));
}

#[test]
fn inline_script_block() {
    let nodes = vec![inline_script("{ JS }".to_string(), 0)];
    let lowered = lower(&nodes);
    assert_eq!(render(&lowered.chunks, &vec!["x<y".into_hyper_text()]), "<script>x<y</script>");
}

#[test]
fn header_values() {
    let v = AsciiHeaderValue::from_str("text/html").unwrap();
    assert_eq!(v.into_value().as_bytes(), b"text/html");
    assert!(AsciiHeaderValue::from_str("a\nb").is_none());
    assert!(AsciiHeaderValue::from_str("tab\tok").is_some());
    let raw = http::HeaderValue::from_bytes(b"caf\xc3\xa9").unwrap();
    assert!(AsciiHeaderValue::from_value(raw).is_none());
    let ascii = http::HeaderValue::from_static("hx-request");
    assert_eq!(AsciiHeaderValue::from_value(ascii).unwrap().into_value().as_bytes(), b"hx-request");
}

#[test]
fn encode_text_escapes_markup() {
    assert_eq!(hyperide::encode_text("a > b && a < c"), "a &gt; b &amp;&amp; a &lt; c");
    assert_eq!(hyperide::encode_text("plain"), "plain");
    assert_eq!(hyperide::encode_text(""), "");
}

#[test]
fn hyper_text_from_strings() {
    assert_eq!(HyperText::from("x").as_str(), "x");
    assert_eq!(HyperText::from(String::from("y")).as_str(), "y");
}
