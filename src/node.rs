use vstd::prelude::*;

verus! {

/// The name of a tag or of an attribute key.
pub enum TagName {
    /// A single identifier, such as `div`.
    Ident(String),
    /// Identifier segments separated by punctuation, such as `data-foo` or `hx:get`.
    /// `puncts` holds the separators as written: one fewer than the segments.
    Punctuated { segments: Vec<String>, puncts: Vec<char> },
    /// A host expression, by its id, whose value is the name at run time.
    Block(usize),
    /// A path that is not a single identifier (`a::b`), kept as written.
    Path(String),
}

/// The name written in a close tag.
pub enum CloseName {
    /// A name of its own.
    Named(TagName),
    /// `</_>`: the name of the matching open tag.
    Wildcard,
}

/// A close tag.
pub struct CloseTag {
    pub name: CloseName,
    /// Whether the close tag was written with generics (`</x<T>>`).
    pub generics: bool,
}

/// The value of a keyed attribute.
pub enum AttrValue {
    /// No value: a bare attribute such as `checked`.
    Bare,
    /// A string literal.
    Literal(String),
    /// A host expression, by its id.
    Block(usize),
    /// A binding form, which templates do not accept.
    Binding,
}

/// An attribute of an open tag.
pub enum Attribute {
    /// `{expr}`: a host expression that yields the whole attribute.
    Block(usize),
    /// `key`, `key="lit"` or `key={expr}`.
    Keyed { key: TagName, value: AttrValue },
}

/// An element: open tag, children and close tag.
pub struct Element {
    pub name: TagName,
    /// Whether the open tag was written with generics (`<x<T>>`).
    pub generics: bool,
    pub attributes: Vec<Attribute>,
    /// Whether the open tag was written self-closed (`<x/>`).
    pub self_closed: bool,
    pub children: Vec<Node>,
    pub close: Option<CloseTag>,
}

/// A node of a parsed template.
pub enum Node {
    /// Text content.
    Text(String),
    /// Source characters inside a raw-text element. `expr` is the id under which
    /// the same characters can be evaluated as a host expression.
    RawText { text: String, expr: usize },
    /// `<!-- text -->`.
    Comment(String),
    /// `<!DOCTYPE text>`.
    Doctype(String),
    /// `{expr}`: a host expression, by its id, whose value becomes body text.
    Block(usize),
    /// Children grouped without markup of their own.
    Fragment(Vec<Node>),
    /// An element.
    Element(Element),
}

} // verus!
